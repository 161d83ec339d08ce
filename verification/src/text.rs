//! Short previews of tool output and removal of terminal escape sequences.
use vstd::prelude::*;

use crate::chars::{chars_of, push_str, slice_vec, string_of};
use vstd::string::StringSliceAdditionalSpecFns;

verus! {

// ---------------------------------------------------------------------------
// Previews
// ---------------------------------------------------------------------------

/// The first `limit` characters of `s` followed by `...` when `s` is longer,
/// `s` itself otherwise.
pub open spec fn preview_of(s: Seq<char>, limit: nat) -> Seq<char> {
    if s.len() > limit {
        s.take(limit as int) + "..."@
    } else {
        s
    }
}

/// A preview of at most `limit` characters (plus an ellipsis) of `text`;
/// it counts characters, not bytes.
pub fn preview_text(text: &str, limit: usize) -> (r: String)
    ensures
        r@ == preview_of(text@, limit as nat),
{
    let v = chars_of(text);
    if v.len() > limit {
        let head = slice_vec(&v, 0, limit);
        let mut r = string_of(head.as_slice());
        push_str(&mut r, "...");
        proof {
            assert(v@.subrange(0, limit as int) =~= v@.take(limit as int));
        }
        r
    } else {
        text.to_owned()
    }
}

// ---------------------------------------------------------------------------
// Escape sequences
// ---------------------------------------------------------------------------

pub open spec fn is_ascii_alpha_byte(b: u8) -> bool {
    (65 <= b && b <= 90) || (97 <= b && b <= 122)
}

/// Where a control sequence whose parameters start at `k` ends: just past
/// the first ASCII letter at or after `k`, or at the end of the bytes.
pub open spec fn csi_end(b: Seq<u8>, k: int) -> int
    decreases b.len() - k,
{
    if k >= b.len() {
        b.len() as int
    } else if is_ascii_alpha_byte(b[k]) {
        k + 1
    } else {
        csi_end(b, k + 1)
    }
}

/// Where an operating-system command whose text starts at `k` ends: just
/// past the first BEL, or past the first ESC `\`, or at the end of the bytes.
pub open spec fn osc_end(b: Seq<u8>, k: int) -> int
    decreases b.len() - k,
{
    if k >= b.len() {
        b.len() as int
    } else if b[k] == 7 {
        k + 1
    } else if b[k] == 0x1b && k + 1 < b.len() && b[k + 1] == 92 {
        k + 2
    } else {
        osc_end(b, k + 1)
    }
}

/// The bytes of `b` from `i` on, with each escape sequence left out: ESC `[`
/// up to its final letter, ESC `]` up to its terminator, and any other ESC
/// together with the byte after it.
pub open spec fn strip_from(b: Seq<u8>, i: int) -> Seq<u8>
    decreases b.len() - i, 1int,
{
    if i < 0 || i >= b.len() {
        Seq::empty()
    } else if b[i] == 0x1b {
        if i + 1 < b.len() && b[i + 1] == 91 {
            strip_from_csi(b, i)
        } else if i + 1 < b.len() && b[i + 1] == 93 {
            strip_from_osc(b, i)
        } else if i + 2 <= b.len() {
            strip_from(b, i + 2)
        } else {
            Seq::empty()
        }
    } else {
        seq![b[i]] + strip_from(b, i + 1)
    }
}

pub open spec fn strip_from_csi(b: Seq<u8>, i: int) -> Seq<u8>
    decreases b.len() - i, 0int,
{
    if 0 <= i && i + 2 <= b.len() {
        proof {
            lemma_csi_end_bounds(b, i + 2);
        }
        strip_from(b, csi_end(b, i + 2))
    } else {
        Seq::empty()
    }
}

pub open spec fn strip_from_osc(b: Seq<u8>, i: int) -> Seq<u8>
    decreases b.len() - i, 0int,
{
    if 0 <= i && i + 2 <= b.len() {
        proof {
            lemma_osc_end_bounds(b, i + 2);
        }
        strip_from(b, osc_end(b, i + 2))
    } else {
        Seq::empty()
    }
}

pub proof fn lemma_csi_end_bounds(b: Seq<u8>, k: int)
    requires
        0 <= k <= b.len(),
    ensures
        k <= csi_end(b, k) <= b.len(),
    decreases b.len() - k,
{
    if k < b.len() && !is_ascii_alpha_byte(b[k]) {
        lemma_csi_end_bounds(b, k + 1);
    }
}

pub proof fn lemma_osc_end_bounds(b: Seq<u8>, k: int)
    requires
        0 <= k <= b.len(),
    ensures
        k <= osc_end(b, k) <= b.len(),
    decreases b.len() - k,
{
    if k < b.len() && b[k] != 7 && !(b[k] == 0x1b && k + 1 < b.len() && b[k + 1] == 92) {
        lemma_osc_end_bounds(b, k + 1);
    }
}

proof fn lemma_plain_tail(b: Seq<u8>, j: int)
    requires
        0 <= j <= b.len(),
        forall|k: int| j <= k < b.len() ==> b[k] != 0x1b,
    ensures
        strip_from(b, j) == b.skip(j),
    decreases b.len() - j,
{
    if j < b.len() {
        lemma_plain_tail(b, j + 1);
        assert(b.skip(j) =~= seq![b[j]] + b.skip(j + 1));
    } else {
        assert(b.skip(j) =~= Seq::<u8>::empty());
    }
}

proof fn lemma_csi_params_end(b: Seq<u8>, k: int, stop: int)
    requires
        0 <= k <= stop < b.len(),
        forall|i: int| k <= i < stop ==> (48 <= #[trigger] b[i] <= 57 || b[i] == 59),
        (65 <= b[stop] <= 90) || (97 <= b[stop] <= 122),
    ensures
        csi_end(b, k) == stop + 1,
    decreases stop - k,
{
    if k < stop {
        lemma_csi_params_end(b, k + 1, stop);
    }
}

/// Text without escape characters is left as it is.
pub proof fn law_plain_text_unchanged(t: Seq<u8>)
    requires
        forall|k: int| 0 <= k < t.len() ==> t[k] != 0x1b,
    ensures
        strip_from(t, 0) == t,
{
    lemma_plain_tail(t, 0);
    assert(t.skip(0) =~= t);
}

/// A control sequence ESC `[`, then parameters of digits and `;`, then an
/// ASCII letter of either case, is removed whole: what follows it, if it
/// holds no escape character, is all that is left.
pub proof fn law_control_sequence_removed(params: Seq<u8>, letter: u8, t: Seq<u8>)
    requires
        forall|i: int| 0 <= i < params.len() ==> (48 <= #[trigger] params[i] <= 57 || params[i] == 59),
        (65 <= letter <= 90) || (97 <= letter <= 122),
        forall|k: int| 0 <= k < t.len() ==> t[k] != 0x1b,
    ensures
        strip_from(seq![0x1bu8, 91u8] + params + seq![letter] + t, 0) == t,
{
    let b = seq![0x1bu8, 91u8] + params + seq![letter] + t;
    let stop: int = 2 + params.len() as int;
    assert forall|i: int| 2 <= i < stop implies (48 <= #[trigger] b[i] <= 57 || b[i] == 59) by {
        assert(b[i] == params[i - 2]);
    }
    assert(b[stop] == letter);
    lemma_csi_params_end(b, 2, stop);
    assert forall|k: int| stop + 1 <= k < b.len() implies b[k] != 0x1b by {
        assert(b[k] == t[k - stop - 1]);
    }
    lemma_plain_tail(b, stop + 1);
    assert(b.skip(stop + 1) =~= t);
    assert(b[0] == 0x1bu8 && b[1] == 91u8);
    lemma_csi_end_bounds(b, 2);
    assert(strip_from_csi(b, 0) == strip_from(b, stop + 1));
    assert(strip_from(b, 0) == strip_from_csi(b, 0));
}

/// What `String::from_utf8_lossy` makes of a byte sequence.
pub uninterp spec fn utf8_lossy(b: Seq<u8>) -> Seq<char>;

/// `String::from_utf8_lossy(..).into_owned()`: the decoding of `bytes`, with
/// invalid sequences replaced; its result is named by the bytes alone, and
/// valid UTF-8 decodes to the text it encodes.
#[verifier::external_body]
fn decode_lossy(bytes: Vec<u8>) -> (r: String)
    ensures
        r@ == utf8_lossy(bytes@),
        vstd::utf8::valid_utf8(bytes@) ==> r@ == vstd::utf8::decode_utf8(bytes@),
{
    String::from_utf8_lossy(&bytes).into_owned()
}

fn skip_csi(b: &[u8], k: usize) -> (r: usize)
    requires
        k <= b@.len(),
    ensures
        r == csi_end(b@, k as int),
{
    let mut j = k;
    while j < b.len() && !((65 <= b[j] && b[j] <= 90) || (97 <= b[j] && b[j] <= 122))
        invariant
            k <= j <= b@.len(),
            csi_end(b@, k as int) == csi_end(b@, j as int),
        decreases b.len() - j,
    {
        j = j + 1;
    }
    if j < b.len() {
        j + 1
    } else {
        j
    }
}

fn skip_osc(b: &[u8], k: usize) -> (r: usize)
    requires
        k <= b@.len(),
    ensures
        r == osc_end(b@, k as int),
{
    let mut j = k;
    while j < b.len()
        invariant
            k <= j <= b@.len(),
            osc_end(b@, k as int) == osc_end(b@, j as int),
        decreases b.len() - j,
    {
        if b[j] == 7 {
            return j + 1;
        }
        if b[j] == 0x1b && j + 1 < b.len() && b[j + 1] == 92 {
            return j + 2;
        }
        j = j + 1;
    }
    j
}

/// The bytes of `text` without its escape sequences, decoded back into text.
/// The text of `s` with its escape sequences removed, decoded again.
pub open spec fn without_escapes(s: Seq<char>) -> Seq<char> {
    utf8_lossy(strip_from(vstd::utf8::encode_utf8(s), 0))
}

pub fn strip_ansi(text: &str) -> (r: String)
    ensures
        r@ == utf8_lossy(strip_from(text.spec_bytes(), 0)),
        r@ == without_escapes(text@),
{
    let bytes = text.as_bytes();
    let ghost b = bytes@;
    let mut result: Vec<u8> = Vec::new();
    let mut index: usize = 0;
    while index < bytes.len()
        invariant
            b == bytes@,
            index <= b.len(),
            result@ + strip_from(b, index as int) == strip_from(b, 0),
        decreases b.len() - index,
    {
        if bytes[index] == 0x1b {
            if index + 1 < bytes.len() && bytes[index + 1] == 91 {
                proof {
                    lemma_csi_end_bounds(b, index + 2);
                    assert(strip_from(b, index as int) == strip_from_csi(b, index as int));
                }
                index = skip_csi(bytes, index + 2);
            } else if index + 1 < bytes.len() && bytes[index + 1] == 93 {
                proof {
                    lemma_osc_end_bounds(b, index + 2);
                    assert(strip_from(b, index as int) == strip_from_osc(b, index as int));
                }
                index = skip_osc(bytes, index + 2);
            } else if index + 1 < bytes.len() {
                index = index + 2;
            } else {
                index = bytes.len();
            }
        } else {
            let ghost before = result@;
            result.push(bytes[index]);
            proof {
                assert(result@ + strip_from(b, index + 1) =~= before + (seq![b[index as int]]
                    + strip_from(b, index + 1)));
            }
            index = index + 1;
        }
    }
    proof {
        assert(strip_from(b, index as int) =~= Seq::<u8>::empty());
        assert(result@ =~= strip_from(b, 0));
    }
    decode_lossy(result)
}

/// `b` is `a` without escape sequences.
pub open spec fn cleaned(a: Option<String>, b: Option<String>) -> bool {
    match (a, b) {
        (None, None) => true,
        (Some(x), Some(y)) => y@ == without_escapes(x@),
        _ => false,
    }
}

pub fn clean_option(o: Option<String>) -> (r: Option<String>)
    ensures
        cleaned(o, r),
{
    match o {
        Some(t) => Some(strip_ansi(t.as_str())),
        None => None,
    }
}

/// `after` holds the texts of `before` without escape sequences.
pub open spec fn cleaned_texts(before: Seq<String>, after: Seq<String>) -> bool {
    &&& after.len() == before.len()
    &&& forall|i: int| 0 <= i < before.len() ==> #[trigger] after[i]@ == without_escapes(before[i]@)
}

pub fn clean_texts(v: Vec<String>) -> (r: Vec<String>)
    ensures
        cleaned_texts(v@, r@),
{
    let mut r: Vec<String> = Vec::new();
    let mut i: usize = 0;
    while i < v.len()
        invariant
            i <= v@.len(),
            r@.len() == i,
            forall|k: int| 0 <= k < i ==> #[trigger] r@[k]@ == without_escapes(v@[k]@),
        decreases v.len() - i,
    {
        r.push(strip_ansi(v[i].as_str()));
        i = i + 1;
    }
    r
}

} // verus!
