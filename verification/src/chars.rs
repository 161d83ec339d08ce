//! Character-level building blocks shared by every text formatter of the
//! library: whitespace trimming, line splitting, prefix tests and decimal
//! rendering, each stated over the `Seq<char>` view of a string.
use vstd::prelude::*;

verus! {

// ---------------------------------------------------------------------------
// Conversions between `&str`, `String` and `Vec<char>` (std, by the view).
// ---------------------------------------------------------------------------

/// `str::chars` collected into a `Vec`: the characters of `s`, in order.
#[verifier::external_body]
pub(crate) fn chars_of(s: &str) -> (r: Vec<char>)
    ensures
        r@ == s@,
{
    s.chars().collect()
}

/// `FromIterator<&char> for String`: the string made of `chars`, in order.
#[verifier::external_body]
pub(crate) fn string_of(chars: &[char]) -> (r: String)
    ensures
        r@ == chars@,
{
    chars.iter().collect()
}

/// `String::push`: appends one character.
#[verifier::external_body]
pub(crate) fn push_char(s: &mut String, c: char)
    ensures
        final(s)@ == old(s)@.push(c),
{
    s.push(c)
}

/// `String::push_str`: appends the characters of `t`.
#[verifier::external_body]
pub(crate) fn push_str(s: &mut String, t: &str)
    ensures
        final(s)@ == old(s)@ + t@,
{
    s.push_str(t)
}

/// A fresh owned copy of `s`.
pub fn owned(s: &str) -> (r: String)
    ensures
        r@ == s@,
{
    s.to_owned()
}

/// The concatenation of two strings.
pub fn concat2(a: &str, b: &str) -> (r: String)
    ensures
        r@ == a@ + b@,
{
    let mut r = a.to_owned();
    push_str(&mut r, b);
    r
}

/// The concatenation of three strings.
pub fn concat3(a: &str, b: &str, c: &str) -> (r: String)
    ensures
        r@ == a@ + b@ + c@,
{
    let mut r = a.to_owned();
    push_str(&mut r, b);
    push_str(&mut r, c);
    r
}

// ---------------------------------------------------------------------------
// Whitespace
// ---------------------------------------------------------------------------

/// The Unicode `White_Space` property, which `char::is_whitespace` tests.
pub open spec fn is_ws(c: char) -> bool {
    ||| ('\u{9}' <= c && c <= '\u{d}')
    ||| c == ' '
    ||| c == '\u{85}'
    ||| c == '\u{a0}'
    ||| c == '\u{1680}'
    ||| ('\u{2000}' <= c && c <= '\u{200a}')
    ||| c == '\u{2028}'
    ||| c == '\u{2029}'
    ||| c == '\u{202f}'
    ||| c == '\u{205f}'
    ||| c == '\u{3000}'
}

/// Executable whitespace test.
pub fn is_whitespace(c: char) -> (r: bool)
    ensures
        r == is_ws(c),
{
    ('\u{9}' <= c && c <= '\u{d}') || c == ' ' || c == '\u{85}' || c == '\u{a0}' || c
        == '\u{1680}' || ('\u{2000}' <= c && c <= '\u{200a}') || c == '\u{2028}' || c
        == '\u{2029}' || c == '\u{202f}' || c == '\u{205f}' || c == '\u{3000}'
}

/// `s` with its leading whitespace removed.
pub open spec fn trim_start(s: Seq<char>) -> Seq<char>
    decreases s.len(),
{
    if s.len() > 0 && is_ws(s[0]) {
        trim_start(s.drop_first())
    } else {
        s
    }
}

/// `s` with its trailing whitespace removed.
pub open spec fn trim_end(s: Seq<char>) -> Seq<char>
    decreases s.len(),
{
    if s.len() > 0 && is_ws(s.last()) {
        trim_end(s.drop_last())
    } else {
        s
    }
}

/// `s` with whitespace removed at both ends.
pub open spec fn trim(s: Seq<char>) -> Seq<char> {
    trim_end(trim_start(s))
}

/// Whether `s` holds only whitespace (the empty sequence included).
pub open spec fn all_ws(s: Seq<char>) -> bool {
    forall|i: int| 0 <= i < s.len() ==> is_ws(#[trigger] s[i])
}

pub proof fn lemma_trim_start_skip(s: Seq<char>, i: int)
    requires
        0 <= i <= s.len(),
        forall|j: int| 0 <= j < i ==> is_ws(#[trigger] s[j]),
    ensures
        trim_start(s) == trim_start(s.skip(i)),
    decreases i,
{
    if i > 0 {
        assert(is_ws(s[0]));
        lemma_trim_start_skip(s.drop_first(), i - 1);
        assert(s.drop_first().skip(i - 1) =~= s.skip(i));
    } else {
        assert(s.skip(0) =~= s);
    }
}

pub proof fn lemma_trim_end_take(s: Seq<char>, i: int)
    requires
        0 <= i <= s.len(),
        forall|j: int| i <= j < s.len() ==> is_ws(#[trigger] s[j]),
    ensures
        trim_end(s) == trim_end(s.take(i)),
    decreases s.len() - i,
{
    if i < s.len() {
        assert(is_ws(s.last()));
        lemma_trim_end_take(s.drop_last(), i);
        assert(s.drop_last().take(i) =~= s.take(i));
    } else {
        assert(s.take(i) =~= s);
    }
}

/// The index of the first character of `s` that is not whitespace
/// (`s.len()` when there is none).
pub fn trim_start_index(s: &Vec<char>) -> (k: usize)
    ensures
        k <= s.len(),
        trim_start(s@) == s@.skip(k as int),
        forall|j: int| 0 <= j < k ==> is_ws(#[trigger] s@[j]),
        k < s.len() ==> !is_ws(s@[k as int]),
{
    let mut k: usize = 0;
    while k < s.len() && is_whitespace(s[k])
        invariant
            k <= s.len(),
            forall|j: int| 0 <= j < k ==> is_ws(#[trigger] s@[j]),
        decreases s.len() - k,
    {
        k = k + 1;
    }
    proof {
        lemma_trim_start_skip(s@, k as int);
    }
    k
}

/// One past the index of the last character of `s[..limit]` that is not
/// whitespace (`0` when there is none).
pub fn trim_end_index(s: &Vec<char>, limit: usize) -> (k: usize)
    requires
        limit <= s.len(),
    ensures
        k <= limit,
        trim_end(s@.take(limit as int)) == s@.take(k as int),
        forall|j: int| k <= j < limit ==> is_ws(#[trigger] s@[j]),
        k > 0 ==> !is_ws(s@[k - 1]),
{
    let mut k: usize = limit;
    while k > 0 && is_whitespace(s[k - 1])
        invariant
            k <= limit <= s.len(),
            forall|j: int| k <= j < limit ==> is_ws(#[trigger] s@[j]),
        decreases k,
    {
        k = k - 1;
    }
    proof {
        let t = s@.take(limit as int);
        assert forall|j: int| k <= j < t.len() implies is_ws(#[trigger] t[j]) by {
            assert(t[j] == s@[j]);
        }
        lemma_trim_end_take(t, k as int);
        assert(t.take(k as int) =~= s@.take(k as int));
        if k > 0 {
            assert(s@.take(k as int).last() == s@[k - 1]);
        }
        assert(trim_end(s@.take(k as int)) == s@.take(k as int));
    }
    k
}

/// The bounds `(start, end)` of `trim(s)` inside `s`.
pub fn trim_bounds(s: &Vec<char>) -> (r: (usize, usize))
    ensures
        r.0 <= r.1 <= s.len(),
        trim(s@) == s@.subrange(r.0 as int, r.1 as int),
{
    let start = trim_start_index(s);
    let end = trim_end_index(s, s.len());
    if end <= start {
        proof {
            assert(s@.take(s.len() as int) =~= s@);
            // every character is whitespace, so trimming the start leaves nothing
            let t = s@.skip(start as int);
            assert(t.len() == 0 || is_ws(t[0]) || true);
            if start < s.len() {
                assert(!is_ws(s@[start as int]));
                assert(is_ws(s@[start as int]));
            }
            assert(t =~= Seq::<char>::empty());
            assert(trim_end(t) == t);
            assert(s@.subrange(start as int, start as int) =~= Seq::<char>::empty());
        }
        (start, start)
    } else {
        proof {
            assert(s@.take(s.len() as int) =~= s@);
            let t = s@.skip(start as int);
            // trailing whitespace of t is exactly the trailing whitespace of s
            assert forall|j: int| (end - start) <= j < t.len() implies is_ws(#[trigger] t[j]) by {
                assert(t[j] == s@[j + start]);
            }
            lemma_trim_end_take(t, end - start);
            assert(t.take(end - start) =~= s@.subrange(start as int, end as int));
            assert(!is_ws(s@[end - 1]));
            let u = s@.subrange(start as int, end as int);
            assert(u.last() == s@[end - 1]);
            assert(trim_end(u) == u);
        }
        (start, end)
    }
}

/// `str::trim` on an owned copy.
pub fn trim_string(s: &str) -> (r: String)
    ensures
        r@ == trim(s@),
{
    let v = chars_of(s);
    let (a, b) = trim_bounds(&v);
    let sub = slice_vec(&v, a, b);
    string_of(sub.as_slice())
}

/// `str::trim_start` on an owned copy.
pub fn trim_start_string(s: &str) -> (r: String)
    ensures
        r@ == trim_start(s@),
{
    let v = chars_of(s);
    let a = trim_start_index(&v);
    let sub = slice_vec(&v, a, v.len());
    string_of(sub.as_slice())
}

/// `str::trim_end` on an owned copy.
pub fn trim_end_string(s: &str) -> (r: String)
    ensures
        r@ == trim_end(s@),
{
    let v = chars_of(s);
    let b = trim_end_index(&v, v.len());
    proof {
        assert(v@.take(v.len() as int) =~= v@);
    }
    let sub = slice_vec(&v, 0, b);
    string_of(sub.as_slice())
}

/// Whether `trim(s)` is empty, that is, whether `s` holds only whitespace.
pub fn is_blank(s: &str) -> (r: bool)
    ensures
        r == (trim(s@).len() == 0),
        r == all_ws(s@),
{
    let v = chars_of(s);
    let (a, b) = trim_bounds(&v);
    let k = trim_start_index(&v);
    proof {
        if a == b {
            // trim empty: every character is whitespace
            if k < v.len() {
                let t = v@.skip(k as int);
                assert(trim_start(v@) == t);
                assert(!is_ws(t[0]));
                lemma_trim_end_nonempty(t);
                assert(false);
            }
        } else {
            if k == v.len() {
                assert(v@.skip(k as int) =~= Seq::<char>::empty());
            }
        }
    }
    a == b
}

pub proof fn lemma_trim_end_nonempty(t: Seq<char>)
    requires
        t.len() > 0,
        !is_ws(t[0]),
    ensures
        trim_end(t).len() > 0,
    decreases t.len(),
{
    if is_ws(t.last()) {
        assert(t.len() > 1);
        assert(t.drop_last()[0] == t[0]);
        lemma_trim_end_nonempty(t.drop_last());
    }
}

/// The characters `v[a..b]`.
pub fn slice_vec(v: &Vec<char>, a: usize, b: usize) -> (r: Vec<char>)
    requires
        a <= b <= v.len(),
    ensures
        r@ == v@.subrange(a as int, b as int),
{
    let mut r: Vec<char> = Vec::new();
    let mut i: usize = a;
    while i < b
        invariant
            a <= i <= b <= v.len(),
            r@ == v@.subrange(a as int, i as int),
        decreases b - i,
    {
        r.push(v[i]);
        i = i + 1;
        proof {
            assert(r@ =~= v@.subrange(a as int, i as int));
        }
    }
    r
}

// ---------------------------------------------------------------------------
// Prefixes, suffixes and occurrences
// ---------------------------------------------------------------------------

/// Whether `p` is a prefix of `s`.
pub open spec fn starts_with(s: Seq<char>, p: Seq<char>) -> bool {
    p.len() <= s.len() && s.take(p.len() as int) == p
}

/// Whether `p` is a suffix of `s`.
pub open spec fn ends_with(s: Seq<char>, p: Seq<char>) -> bool {
    p.len() <= s.len() && s.skip(s.len() - p.len()) == p
}

/// Whether `p` occurs in `s` at position `i`.
pub open spec fn occurs_at(s: Seq<char>, p: Seq<char>, i: int) -> bool {
    0 <= i && i + p.len() <= s.len() && s.subrange(i, i + p.len()) == p
}

/// Whether `p` occurs somewhere in `s`.
pub open spec fn contains_seq(s: Seq<char>, p: Seq<char>) -> bool {
    exists|i: int| occurs_at(s, p, i)
}

/// Whether `v[at..]` begins with `p`.
pub fn matches_at(v: &Vec<char>, at: usize, p: &Vec<char>) -> (r: bool)
    requires
        at <= v.len(),
    ensures
        r == occurs_at(v@, p@, at as int),
{
    if p.len() > v.len() - at {
        return false;
    }
    let mut i: usize = 0;
    while i < p.len()
        invariant
            at + p.len() <= v.len(),
            i <= p.len(),
            forall|j: int| 0 <= j < i ==> v@[at + j] == p@[j],
        decreases p.len() - i,
    {
        if v[at + i] != p[i] {
            proof {
                assert(v@.subrange(at as int, at + p.len())[i as int] != p@[i as int]);
            }
            return false;
        }
        i = i + 1;
    }
    proof {
        assert(v@.subrange(at as int, at + p.len()) =~= p@);
    }
    true
}

/// `str::starts_with` with a string pattern.
pub fn str_starts_with(s: &str, p: &str) -> (r: bool)
    ensures
        r == starts_with(s@, p@),
{
    let v = chars_of(s);
    let q = chars_of(p);
    let r = matches_at(&v, 0, &q);
    proof {
        if q.len() <= v.len() {
            assert(v@.subrange(0, q@.len() as int) =~= v@.take(q@.len() as int));
        }
    }
    r
}

/// `str::ends_with` with a string pattern.
pub fn str_ends_with(s: &str, p: &str) -> (r: bool)
    ensures
        r == ends_with(s@, p@),
{
    let v = chars_of(s);
    let q = chars_of(p);
    if q.len() > v.len() {
        return false;
    }
    let r = matches_at(&v, v.len() - q.len(), &q);
    proof {
        assert(v@.subrange(v.len() - q.len(), v.len() as int) =~= v@.skip(v.len() - q.len()));
    }
    r
}

/// Index of the first occurrence of `p` in `v` at or after `from`.
pub fn find_from(v: &Vec<char>, p: &Vec<char>, from: usize) -> (r: Option<usize>)
    requires
        from <= v.len(),
    ensures
        match r {
            Some(i) => from <= i && occurs_at(v@, p@, i as int) && forall|j: int|
                from <= j < i ==> !occurs_at(v@, p@, j),
            None => forall|j: int| from <= j ==> !occurs_at(v@, p@, j),
        },
{
    let mut i: usize = from;
    while i < v.len()
        invariant
            from <= i <= v.len(),
            forall|j: int| from <= j < i ==> !occurs_at(v@, p@, j),
        decreases v.len() - i,
    {
        if matches_at(v, i, p) {
            return Some(i);
        }
        i = i + 1;
    }
    if matches_at(v, i, p) {
        return Some(i);
    }
    None
}

/// `s` with every occurrence of the non-empty pattern `p` replaced by
/// `t`, the occurrences taken from left to right without overlapping.
pub open spec fn replace_all(s: Seq<char>, p: Seq<char>, t: Seq<char>) -> Seq<char>
    decreases s.len(),
{
    if p.len() == 0 || s.len() < p.len() {
        s
    } else if s.take(p.len() as int) == p {
        t + replace_all(s.skip(p.len() as int), p, t)
    } else {
        seq![s[0]] + replace_all(s.skip(1), p, t)
    }
}

/// `str::replace` with a non-empty string pattern.
pub fn replace_str(s: &str, p: &str, t: &str) -> (r: String)
    requires
        p@.len() > 0,
    ensures
        r@ == replace_all(s@, p@, t@),
{
    let v = chars_of(s);
    let q = chars_of(p);
    let w = chars_of(t);
    let mut out: Vec<char> = Vec::new();
    let mut i: usize = 0;
    proof {
        assert(v@.skip(0) =~= v@);
    }
    while i < v.len()
        invariant
            i <= v@.len(),
            q@.len() > 0,
            q@ == p@,
            w@ == t@,
            v@ == s@,
            out@ + replace_all(v@.skip(i as int), q@, w@) == replace_all(v@, q@, w@),
        decreases v.len() - i,
    {
        let ghost rest = v@.skip(i as int);
        if q.len() <= v.len() - i && matches_at(&v, i, &q) {
            proof {
                assert(rest.take(q@.len() as int) =~= v@.subrange(i as int, i + q@.len()));
                assert(rest.skip(q@.len() as int) =~= v@.skip(i + q@.len()));
                assert(out@ + w@ + replace_all(v@.skip(i + q@.len()), q@, w@) =~= out@ + (w@ + replace_all(
                    rest.skip(q@.len() as int),
                    q@,
                    w@,
                )));
            }
            let mut k: usize = 0;
            let ghost before = out@;
            while k < w.len()
                invariant
                    k <= w@.len(),
                    out@ == before + w@.take(k as int),
                decreases w.len() - k,
            {
                out.push(w[k]);
                k = k + 1;
                proof {
                    assert(out@ =~= before + w@.take(k as int));
                }
            }
            proof {
                assert(w@.take(w@.len() as int) =~= w@);
            }
            i = i + q.len();
        } else {
            proof {
                if q@.len() <= rest.len() {
                    assert(rest.take(q@.len() as int) =~= v@.subrange(i as int, i + q@.len()));
                }
                assert(rest.skip(1) =~= v@.skip(i + 1));
                assert(rest[0] == v@[i as int]);
                assert(out@.push(v@[i as int]) + replace_all(v@.skip(i + 1), q@, w@) =~= out@ + (seq![rest[0]]
                    + replace_all(rest.skip(1), q@, w@)));
            }
            out.push(v[i]);
            i = i + 1;
        }
    }
    proof {
        assert(v@.skip(i as int).len() == 0);
        assert(out@ + replace_all(v@.skip(i as int), q@, w@) =~= out@);
    }
    string_of(out.as_slice())
}

/// `str::contains` with a string pattern.
pub fn str_contains(s: &str, p: &str) -> (r: bool)
    ensures
        r == contains_seq(s@, p@),
{
    let v = chars_of(s);
    let q = chars_of(p);
    match find_from(&v, &q, 0) {
        Some(_) => true,
        None => false,
    }
}

/// `str::contains` with a character pattern.
pub fn contains_char(s: &Vec<char>, c: char) -> (r: bool)
    ensures
        r == s@.contains(c),
{
    let mut i: usize = 0;
    while i < s.len()
        invariant
            i <= s.len(),
            forall|j: int| 0 <= j < i ==> s@[j] != c,
        decreases s.len() - i,
    {
        if s[i] == c {
            return true;
        }
        i = i + 1;
    }
    false
}

// ---------------------------------------------------------------------------
// Lines
// ---------------------------------------------------------------------------

/// `s` with one trailing carriage return removed.
pub open spec fn strip_cr(s: Seq<char>) -> Seq<char> {
    if s.len() > 0 && s.last() == '\r' {
        s.drop_last()
    } else {
        s
    }
}

/// The finished lines and the pending partial line after reading `s` from
/// left to right, splitting at each `'\n'`.
pub open spec fn lines_state(s: Seq<char>) -> (Seq<Seq<char>>, Seq<char>)
    decreases s.len(),
{
    if s.len() == 0 {
        (Seq::empty(), Seq::empty())
    } else {
        let (done, cur) = lines_state(s.drop_last());
        if s.last() == '\n' {
            (done.push(strip_cr(cur)), Seq::empty())
        } else {
            (done, cur.push(s.last()))
        }
    }
}

/// What `str::lines` yields: the pieces between `'\n'` characters, each
/// terminated piece without one trailing `'\r'`; a final empty piece (after a
/// trailing newline, or of the empty string) is not a line.
pub open spec fn lines(s: Seq<char>) -> Seq<Seq<char>> {
    let (done, cur) = lines_state(s);
    if cur.len() == 0 {
        done
    } else {
        done.push(cur)
    }
}

/// The view of each string of `v`.
pub open spec fn views(v: Seq<String>) -> Seq<Seq<char>> {
    v.map_values(|s: String| s@)
}

/// `str::lines`, collected into owned strings.
pub fn split_lines(s: &str) -> (r: Vec<String>)
    ensures
        views(r@) == lines(s@),
{
    let v = chars_of(s);
    let mut done: Vec<String> = Vec::new();
    let mut cur: Vec<char> = Vec::new();
    let mut i: usize = 0;
    while i < v.len()
        invariant
            i <= v.len(),
            v@ == s@,
            lines_state(v@.take(i as int)) == (views(done@), cur@),
        decreases v.len() - i,
    {
        let c = v[i];
        proof {
            assert(v@.take(i + 1).drop_last() =~= v@.take(i as int));
        }
        if c == '\n' {
            let piece = if cur.len() > 0 && cur[cur.len() - 1] == '\r' {
                let n = cur.len() - 1;
                slice_vec(&cur, 0, n)
            } else {
                slice_vec(&cur, 0, cur.len())
            };
            proof {
                assert(cur@.subrange(0, cur.len() as int) =~= cur@);
                assert(cur@.subrange(0, cur.len() - 1) =~= cur@.drop_last());
            }
            done.push(string_of(piece.as_slice()));
            cur = Vec::new();
            proof {
                assert(views(done@) =~= views(done@.drop_last()).push(piece@));
            }
        } else {
            cur.push(c);
        }
        i = i + 1;
    }
    proof {
        assert(v@.take(v.len() as int) =~= v@);
    }
    if cur.len() > 0 {
        done.push(string_of(cur.as_slice()));
        proof {
            assert(views(done@) =~= views(done@.drop_last()).push(cur@));
        }
    }
    done
}

/// Joins `parts` with `sep` between consecutive parts.
pub open spec fn join(parts: Seq<Seq<char>>, sep: Seq<char>) -> Seq<char>
    decreases parts.len(),
{
    if parts.len() == 0 {
        Seq::empty()
    } else if parts.len() == 1 {
        parts[0]
    } else {
        join(parts.drop_last(), sep) + sep + parts.last()
    }
}

/// `[String]::join`.
pub fn join_strings(parts: &Vec<String>, sep: &str) -> (r: String)
    ensures
        r@ == join(views(parts@), sep@),
{
    let mut r = String::new();
    let mut i: usize = 0;
    while i < parts.len()
        invariant
            i <= parts.len(),
            r@ == join(views(parts@.take(i as int)), sep@),
        decreases parts.len() - i,
    {
        if i > 0 {
            push_str(&mut r, sep);
        }
        push_str(&mut r, parts[i].as_str());
        proof {
            let a = views(parts@.take(i + 1));
            assert(a.drop_last() =~= views(parts@.take(i as int)));
            assert(a.last() == parts@[i as int]@);
            if i == 0 {
                assert(views(parts@.take(0)) =~= Seq::<Seq<char>>::empty());
                assert(r@ =~= a[0]);
            }
        }
        i = i + 1;
    }
    proof {
        assert(parts@.take(parts.len() as int) =~= parts@);
    }
    r
}

// ---------------------------------------------------------------------------
// Decimal rendering
// ---------------------------------------------------------------------------

/// The ASCII digit for `d < 10`.
pub open spec fn digit(d: nat) -> char {
    ((48 + d) as u32) as char
}

/// The decimal rendering of `n`, as `u64::to_string` writes it.
pub open spec fn dec(n: nat) -> Seq<char>
    decreases n,
{
    if n < 10 {
        seq![digit(n)]
    } else {
        dec(n / 10).push(digit(n % 10))
    }
}

fn digit_char(d: u64) -> (c: char)
    requires
        d < 10,
    ensures
        c == digit(d as nat),
{
    let b: u8 = 48u8 + d as u8;
    b as char
}

/// The decimal rendering of `n`.
pub fn dec_string(n: u64) -> (r: String)
    ensures
        r@ == dec(n as nat),
    decreases n,
{
    if n < 10 {
        let mut r = String::new();
        push_char(&mut r, digit_char(n));
        proof {
            assert(r@ =~= seq![digit(n as nat)]);
        }
        r
    } else {
        let mut r = dec_string(n / 10);
        push_char(&mut r, digit_char(n % 10));
        r
    }
}

/// The decimal rendering of a `usize`.
pub fn dec_usize(n: usize) -> (r: String)
    ensures
        r@ == dec(n as nat),
{
    dec_string(n as u64)
}

// ---------------------------------------------------------------------------
// Equality and order
// ---------------------------------------------------------------------------

/// Whether two character vectors hold the same characters.
pub fn chars_eq(a: &Vec<char>, b: &Vec<char>) -> (r: bool)
    ensures
        r == (a@ == b@),
{
    if a.len() != b.len() {
        return false;
    }
    let mut i: usize = 0;
    while i < a.len()
        invariant
            a.len() == b.len(),
            i <= a.len(),
            forall|j: int| 0 <= j < i ==> a@[j] == b@[j],
        decreases a.len() - i,
    {
        if a[i] != b[i] {
            return false;
        }
        i = i + 1;
    }
    proof {
        assert(a@ =~= b@);
    }
    true
}

/// `==` on string slices.
pub fn str_eq(a: &str, b: &str) -> (r: bool)
    ensures
        r == (a@ == b@),
{
    let va = chars_of(a);
    let vb = chars_of(b);
    chars_eq(&va, &vb)
}

/// Lexicographic order on code points, which is the order of `str`.
pub open spec fn lex_le(a: Seq<char>, b: Seq<char>) -> bool
    decreases a.len(),
{
    if a.len() == 0 {
        true
    } else if b.len() == 0 {
        false
    } else if a[0] != b[0] {
        a[0] < b[0]
    } else {
        lex_le(a.drop_first(), b.drop_first())
    }
}

pub proof fn lemma_lex_total(a: Seq<char>, b: Seq<char>)
    ensures
        lex_le(a, b) || lex_le(b, a),
    decreases a.len(),
{
    if a.len() > 0 && b.len() > 0 && a[0] == b[0] {
        lemma_lex_total(a.drop_first(), b.drop_first());
    }
}

pub proof fn lemma_lex_trans(a: Seq<char>, b: Seq<char>, c: Seq<char>)
    requires
        lex_le(a, b),
        lex_le(b, c),
    ensures
        lex_le(a, c),
    decreases a.len(),
{
    if a.len() > 0 && b.len() > 0 && c.len() > 0 && a[0] == b[0] && b[0] == c[0] {
        lemma_lex_trans(a.drop_first(), b.drop_first(), c.drop_first());
    }
}

pub proof fn lemma_lex_antisym(a: Seq<char>, b: Seq<char>)
    requires
        lex_le(a, b),
        lex_le(b, a),
    ensures
        a == b,
    decreases a.len(),
{
    if a.len() > 0 && b.len() > 0 {
        lemma_lex_antisym(a.drop_first(), b.drop_first());
        assert(a =~= seq![a[0]] + a.drop_first());
        assert(b =~= seq![b[0]] + b.drop_first());
    }
}

/// `<=` on the characters of two vectors, in lexicographic order.
pub fn chars_le(a: &Vec<char>, b: &Vec<char>) -> (r: bool)
    ensures
        r == lex_le(a@, b@),
{
    let mut i: usize = 0;
    proof {
        assert(a@.skip(0) =~= a@);
        assert(b@.skip(0) =~= b@);
    }
    while i < a.len() && i < b.len()
        invariant
            i <= a.len(),
            i <= b.len(),
            forall|j: int| 0 <= j < i ==> a@[j] == b@[j],
            lex_le(a@, b@) == lex_le(a@.skip(i as int), b@.skip(i as int)),
        decreases a.len() - i,
    {
        if a[i] != b[i] {
            proof {
                assert(a@.skip(i as int)[0] == a@[i as int]);
                assert(b@.skip(i as int)[0] == b@[i as int]);
            }
            return a[i] < b[i];
        }
        proof {
            assert(a@.skip(i as int).drop_first() =~= a@.skip(i + 1));
            assert(b@.skip(i as int).drop_first() =~= b@.skip(i + 1));
        }
        i = i + 1;
    }
    proof {
        if i == a.len() {
            assert(a@.skip(i as int).len() == 0);
        } else {
            assert(b@.skip(i as int).len() == 0);
        }
    }
    i == a.len()
}

/// `<=` on two string slices.
pub fn str_le(a: &str, b: &str) -> (r: bool)
    ensures
        r == lex_le(a@, b@),
{
    let va = chars_of(a);
    let vb = chars_of(b);
    chars_le(&va, &vb)
}

/// ASCII upper-casing of one character (`char::to_ascii_uppercase`).
pub open spec fn ascii_upper(c: char) -> char {
    if 'a' <= c && c <= 'z' {
        ((c as u32) - 32) as char
    } else {
        c
    }
}

/// ASCII lower-casing of one character (`char::to_ascii_lowercase`).
pub open spec fn ascii_lower(c: char) -> char {
    if 'A' <= c && c <= 'Z' {
        ((c as u32) + 32) as char
    } else {
        c
    }
}

pub fn to_ascii_upper(c: char) -> (r: char)
    ensures
        r == ascii_upper(c),
{
    if 'a' <= c && c <= 'z' {
        let b: u8 = (c as u32 - 32) as u8;
        b as char
    } else {
        c
    }
}

pub fn to_ascii_lower(c: char) -> (r: char)
    ensures
        r == ascii_lower(c),
{
    if 'A' <= c && c <= 'Z' {
        let b: u8 = (c as u32 + 32) as u8;
        b as char
    } else {
        c
    }
}

/// The characters of `s`, each ASCII lower-cased.
pub open spec fn lower_seq(s: Seq<char>) -> Seq<char> {
    s.map_values(|c: char| ascii_lower(c))
}

/// `str::to_ascii_lowercase` on a vector of characters.
pub fn lower_chars(s: &Vec<char>) -> (r: Vec<char>)
    ensures
        r@ == lower_seq(s@),
{
    let mut r: Vec<char> = Vec::new();
    let mut i: usize = 0;
    while i < s.len()
        invariant
            i <= s.len(),
            r@ == lower_seq(s@.take(i as int)),
        decreases s.len() - i,
    {
        r.push(to_ascii_lower(s[i]));
        i = i + 1;
        proof {
            assert(r@ =~= lower_seq(s@.take(i as int)));
        }
    }
    proof {
        assert(s@.take(s.len() as int) =~= s@);
    }
    r
}

/// Whether a character is an ASCII digit.
pub open spec fn is_digit(c: char) -> bool {
    '0' <= c && c <= '9'
}

/// Whether a character is an ASCII letter or digit.
pub open spec fn is_alnum(c: char) -> bool {
    ('0' <= c && c <= '9') || ('a' <= c && c <= 'z') || ('A' <= c && c <= 'Z')
}

/// Whether a character is an ASCII letter.
pub open spec fn is_alpha(c: char) -> bool {
    ('a' <= c && c <= 'z') || ('A' <= c && c <= 'Z')
}


// ---------------------------------------------------------------------------
// Decimal parsing and splitting at a character
// ---------------------------------------------------------------------------

/// Whether every character of `s` is an ASCII digit.
pub open spec fn all_digits(s: Seq<char>) -> bool {
    forall|i: int| 0 <= i < s.len() ==> is_digit(#[trigger] s[i])
}

/// The number that the decimal digits `s` denote.
pub open spec fn digits_value(s: Seq<char>) -> nat
    decreases s.len(),
{
    if s.len() == 0 {
        0
    } else {
        digits_value(s.drop_last()) * 10 + ((s.last() as u32) - 48) as nat
    }
}

/// What `str::parse::<u64>` accepts: an optional `+`, then at least one
/// ASCII digit and nothing else, denoting a number that fits in `u64`.
pub open spec fn parse_u64_spec(s: Seq<char>) -> Option<u64> {
    let t = if s.len() > 0 && s[0] == '+' {
        s.drop_first()
    } else {
        s
    };
    if t.len() > 0 && all_digits(t) && digits_value(t) <= u64::MAX {
        Some(digits_value(t) as u64)
    } else {
        None
    }
}

/// A longer run of digits never denotes a smaller number.
pub proof fn lemma_digits_value_prefix(t: Seq<char>, i: int)
    requires
        0 <= i <= t.len(),
        all_digits(t),
    ensures
        digits_value(t.take(i)) <= digits_value(t),
    decreases t.len() - i,
{
    if i < t.len() {
        lemma_digits_value_prefix(t, i + 1);
        let u = t.take(i + 1);
        assert(u.drop_last() =~= t.take(i));
        assert(is_digit(t[i]));
    } else {
        assert(t.take(i) =~= t);
    }
}

/// The decimal rendering of `n` is a run of digits that denotes `n`.
pub proof fn lemma_dec_digits(n: nat)
    ensures
        dec(n).len() >= 1,
        all_digits(dec(n)),
        digits_value(dec(n)) == n,
    decreases n,
{
    if n < 10 {
        assert(dec(n).drop_last() =~= Seq::<char>::empty());
        assert(digit(n) as u32 == 48 + n);
        assert(digits_value(Seq::<char>::empty()) == 0);
        assert(dec(n).last() == digit(n));
    } else {
        lemma_dec_digits(n / 10);
        let d = dec(n);
        assert(d.drop_last() =~= dec(n / 10));
        assert(digit(n % 10) as u32 == 48 + n % 10);
        assert(d.last() == digit(n % 10));
        assert((n / 10) * 10 + n % 10 == n) by (nonlinear_arith);
        assert forall|i: int| 0 <= i < d.len() implies is_digit(#[trigger] d[i]) by {
            if i < d.len() - 1 {
                assert(d[i] == dec(n / 10)[i]);
            }
        }
    }
}

/// The characters before the first `c` of `s + [c] + rest`, where `s` holds
/// no `c`, are `s`.
pub proof fn lemma_before_char_append(s: Seq<char>, c: char, rest: Seq<char>)
    requires
        forall|i: int| 0 <= i < s.len() ==> s[i] != c,
    ensures
        before_char(s + seq![c] + rest, c) == s,
    decreases s.len(),
{
    let t = s + seq![c] + rest;
    if s.len() == 0 {
        assert(t[0] == c);
    } else {
        assert(t[0] == s[0]);
        assert(t.drop_first() =~= s.drop_first() + seq![c] + rest);
        lemma_before_char_append(s.drop_first(), c, rest);
        assert(seq![s[0]] + s.drop_first() =~= s);
    }
}

/// `str::parse::<u64>`.
pub fn parse_u64(s: &str) -> (r: Option<u64>)
    ensures
        r == parse_u64_spec(s@),
{
    let v = chars_of(s);
    let start: usize = if v.len() > 0 && v[0] == '+' {
        1
    } else {
        0
    };
    let ghost t = if s@.len() > 0 && s@[0] == '+' {
        s@.drop_first()
    } else {
        s@
    };
    proof {
        assert(t =~= v@.skip(start as int));
    }
    if start >= v.len() {
        return None;
    }
    let mut value: u64 = 0;
    let mut i: usize = start;
    while i < v.len()
        invariant
            start <= i <= v.len(),
            v@ == s@,
            t == v@.skip(start as int),
            t == (if s@.len() > 0 && s@[0] == '+' {
                s@.drop_first()
            } else {
                s@
            }),
            all_digits(t.take(i - start)),
            value == digits_value(t.take(i - start)),
        decreases v.len() - i,
    {
        let c = v[i];
        proof {
            assert(t.take(i - start + 1).drop_last() =~= t.take(i - start));
            assert(t.take(i - start + 1).last() == c);
        }
        if c < '0' || c > '9' {
            proof {
                assert(!is_digit(t[i - start]));
            }
            return None;
        }
        let d: u64 = (c as u32 - 48) as u64;
        let next = match value.checked_mul(10) {
            Some(m) => m.checked_add(d),
            None => None,
        };
        match next {
            Some(n) => {
                value = n;
            },
            None => {
                proof {
                    if all_digits(t) {
                        lemma_digits_value_prefix(t, i - start + 1);
                    }
                }
                return None;
            },
        }
        i = i + 1;
        proof {
            assert forall|j: int| 0 <= j < t.take(i - start).len() implies is_digit(
                #[trigger] t.take(i - start)[j],
            ) by {
                if j < i - start - 1 {
                    assert(t.take(i - start)[j] == t.take(i - start - 1)[j]);
                }
            }
        }
    }
    proof {
        assert(t.take(i - start) =~= t);
    }
    Some(value)
}

/// The characters of `s` before its first `c` (all of `s` without one).
pub open spec fn before_char(s: Seq<char>, c: char) -> Seq<char>
    decreases s.len(),
{
    if s.len() == 0 {
        s
    } else if s[0] == c {
        Seq::empty()
    } else {
        seq![s[0]] + before_char(s.drop_first(), c)
    }
}

/// The position of the first `c` in `v`, or its length.
pub fn index_of_char(v: &Vec<char>, c: char) -> (r: usize)
    ensures
        r <= v.len(),
        v@.take(r as int) == before_char(v@, c),
{
    let mut i: usize = 0;
    proof {
        assert(v@.skip(0) =~= v@);
        assert(v@.take(0) + before_char(v@, c) =~= before_char(v@, c));
    }
    while i < v.len() && v[i] != c
        invariant
            i <= v.len(),
            before_char(v@, c) == v@.take(i as int) + before_char(v@.skip(i as int), c),
        decreases v.len() - i,
    {
        proof {
            let ghost rest = v@.skip(i as int);
            assert(rest.drop_first() =~= v@.skip(i + 1));
            assert(v@.take(i + 1) =~= v@.take(i as int) + seq![rest[0]]);
        }
        i = i + 1;
    }
    proof {
        assert(v@.skip(0) =~= v@);
        assert(v@.take(0) =~= Seq::<char>::empty());
        let ghost rest = v@.skip(i as int);
        if i < v.len() {
            assert(rest[0] == c);
        } else {
            assert(rest.len() == 0);
        }
        assert(v@.take(i as int) + Seq::<char>::empty() =~= v@.take(i as int));
    }
    i
}


// ---------------------------------------------------------------------------
// Building lines of text
// ---------------------------------------------------------------------------

pub fn push_num(s: &mut String, n: u64)
    ensures
        final(s)@ == old(s)@ + dec(n as nat),
{
    push_str(s, dec_string(n).as_str());
}

pub fn cat(a: &str, b: &str) -> (r: String)
    ensures
        r@ == a@ + b@,
{
    let mut s = a.to_owned();
    push_str(&mut s, b);
    s
}

pub fn push_text(v: &mut Vec<String>, line: String)
    ensures
        views(final(v)@) == views(old(v)@).push(line@),
{
    v.push(line);
    proof {
        assert(views(v@) =~= views(old(v)@).push(line@));
    }
}

pub fn push_texts(v: &mut Vec<String>, more: Vec<String>)
    ensures
        views(final(v)@) == views(old(v)@) + views(more@),
{
    let mut more = more;
    let ghost mv = views(more@);
    v.append(&mut more);
    proof {
        assert(views(v@) =~= views(old(v)@) + mv);
    }
}

pub open spec fn opt_line(label: Seq<char>, text: Option<String>) -> Seq<Seq<char>> {
    match text {
        Some(t) => seq![label + t@],
        None => Seq::empty(),
    }
}

pub fn push_opt_line(v: &mut Vec<String>, label: &str, text: &Option<String>)
    ensures
        views(final(v)@) == views(old(v)@) + opt_line(label@, *text),
{
    match text {
        Some(t) => push_text(v, cat(label, t.as_str())),
        None => {},
    }
    proof {
        assert(views(v@) =~= views(old(v)@) + opt_line(label@, *text));
    }
}

} // verus!
