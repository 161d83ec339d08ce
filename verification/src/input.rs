//! The input box: editing at a cursor counted in characters, the wrapped
//! visual lines of the text, and the scroll position that keeps the cursor
//! in view.
use vstd::prelude::*;

use crate::app::{sat_sub, App, INPUT_VIEWPORT_PREFIX_WIDTH};
use crate::chars::{chars_of, string_of};

verus! {

/// The width of the text area of an input box `w` cells wide: three cells
/// go to the prompt, and at least one remains.
pub open spec fn content_width(w: u16) -> int {
    if w >= 4 {
        w - 3
    } else {
        1
    }
}

/// The (line, column) of every cursor position of `s` (one more than its
/// characters) when wrapped at `width` columns: a newline starts a new
/// line, and a character that would pass the width moves to the next line.
pub open spec fn positions(s: Seq<char>, width: int) -> Seq<(int, int)>
    decreases s.len(),
{
    if s.len() == 0 {
        seq![(0, 0)]
    } else {
        let p = positions(s.drop_last(), width);
        let (line, col) = p.last();
        if s.last() == '\n' {
            p.push((line + 1, 0))
        } else if col == width {
            p.push((line + 1, 1))
        } else {
            p.push((line, col + 1))
        }
    }
}

pub proof fn lemma_positions_shape(s: Seq<char>, width: int)
    requires
        width >= 1,
    ensures
        positions(s, width).len() == s.len() + 1,
        positions(s, width)[0] == (0int, 0int),
        forall|i: int| 0 <= i < positions(s, width).len() ==> 0 <= #[trigger] positions(s, width)[i].0 <= i
            && 0 <= positions(s, width)[i].1 <= width,
        forall|i: int, j: int| 0 <= i <= j < positions(s, width).len() ==> #[trigger] positions(s, width)[i].0
            <= #[trigger] positions(s, width)[j].0,
    decreases s.len(),
{
    if s.len() > 0 {
        lemma_positions_shape(s.drop_last(), width);
        let p = positions(s.drop_last(), width);
        let q = positions(s, width);
        assert forall|i: int| 0 <= i < p.len() implies q[i] == p[i] by {}
    }
}

/// The line that the cursor stands on (line 0 when the cursor is past the
/// positions).
pub open spec fn cursor_line(ps: Seq<(int, int)>, cursor: int) -> int {
    if 0 <= cursor < ps.len() {
        ps[cursor].0
    } else {
        0
    }
}

/// The scroll position that keeps the cursor visible in a box `h` lines
/// high: scrolled up to the cursor, or down just far enough, and never past
/// the last screenful.
pub open spec fn settled_top(top: int, ps: Seq<(int, int)>, cursor: int, h: int) -> int {
    if h == 0 {
        0
    } else {
        let cl = cursor_line(ps, cursor);
        let max_top = sat_sub(ps.last().0 + 1, h);
        let bottom = if top + h > usize::MAX {
            usize::MAX as int
        } else {
            top + h
        };
        let t = if cl < top {
            cl
        } else if cl >= bottom {
            sat_sub(cl + 1, h)
        } else {
            top
        };
        if t <= max_top {
            t
        } else {
            max_top
        }
    }
}

/// `s` with `c` inserted at character position `k` (at the end when `k`
/// is past it).
pub open spec fn inserted(s: Seq<char>, k: int, c: char) -> Seq<char> {
    let at = if k <= s.len() {
        k
    } else {
        s.len() as int
    };
    s.take(at) + seq![c] + s.skip(at)
}

/// `s` without its character at position `k`.
pub open spec fn removed(s: Seq<char>, k: int) -> Seq<char> {
    s.take(k) + s.skip(k + 1)
}

/// The characters `s.take(k) + [c] + s.skip(k)`, as a string.
pub(crate) fn insert_char_at(s: &String, k: usize, c: char) -> (r: String)
    ensures
        r@ == inserted(s@, k as int, c),
{
    let v = chars_of(s.as_str());
    let at = if k <= v.len() {
        k
    } else {
        v.len()
    };
    let mut out: Vec<char> = Vec::new();
    let mut i: usize = 0;
    while i < at
        invariant
            i <= at <= v@.len(),
            out@ == v@.take(i as int),
        decreases at - i,
    {
        out.push(v[i]);
        i = i + 1;
        proof {
            assert(out@ =~= v@.take(i as int));
        }
    }
    out.push(c);
    let mut j: usize = at;
    while j < v.len()
        invariant
            at <= j <= v@.len(),
            out@ == v@.take(at as int) + seq![c] + v@.subrange(at as int, j as int),
        decreases v.len() - j,
    {
        out.push(v[j]);
        j = j + 1;
        proof {
            assert(out@ =~= v@.take(at as int) + seq![c] + v@.subrange(at as int, j as int));
        }
    }
    proof {
        assert(v@.subrange(at as int, v@.len() as int) =~= v@.skip(at as int));
    }
    string_of(out.as_slice())
}

/// The characters of `s` without the one at position `k`.
pub(crate) fn remove_char_at(s: &String, k: usize) -> (r: String)
    requires
        k < s@.len(),
    ensures
        r@ == removed(s@, k as int),
{
    let v = chars_of(s.as_str());
    let mut out: Vec<char> = Vec::new();
    let mut i: usize = 0;
    while i < v.len()
        invariant
            i <= v@.len(),
            k < v@.len(),
            out@ == (if i <= k {
                v@.take(i as int)
            } else {
                v@.take(k as int) + v@.subrange(k + 1, i as int)
            }),
        decreases v.len() - i,
    {
        if i != k {
            out.push(v[i]);
        }
        i = i + 1;
        proof {
            if i <= k {
                assert(out@ =~= v@.take(i as int));
            } else if i == k + 1 {
                assert(out@ =~= v@.take(k as int) + v@.subrange(k + 1, i as int));
            } else {
                assert(out@ =~= v@.take(k as int) + v@.subrange(k + 1, i as int));
            }
        }
    }
    proof {
        assert(v@.subrange(k + 1, v@.len() as int) =~= v@.skip(k + 1));
    }
    string_of(out.as_slice())
}

/// The UTF-8 width of a character.
pub open spec fn utf8_width(c: char) -> nat {
    vstd::utf8::encode_scalar(c as u32).len()
}

fn char_width(c: char) -> (r: usize)
    ensures
        r == utf8_width(c),
        1 <= r <= 4,
{
    let u = c as u32;
    if u <= 0x7f {
        1
    } else if u <= 0x7ff {
        2
    } else if u <= 0xffff {
        3
    } else {
        4
    }
}

pub proof fn lemma_encode_push(a: Seq<char>, c: char)
    ensures
        vstd::utf8::encode_utf8(a.push(c)) == vstd::utf8::encode_utf8(a) + vstd::utf8::encode_scalar(
            c as u32,
        ),
    decreases a.len(),
{
    if a.len() == 0 {
        assert(a.push(c).drop_first() =~= Seq::<char>::empty());
        assert(a.push(c)[0] == c);
        assert(vstd::utf8::encode_utf8(Seq::<char>::empty()) =~= Seq::<u8>::empty());
        assert(vstd::utf8::encode_utf8(a) =~= Seq::<u8>::empty());
        assert(vstd::utf8::encode_utf8(a.push(c)) =~= vstd::utf8::encode_scalar(c as u32) + Seq::<u8>::empty());
    } else {
        lemma_encode_push(a.drop_first(), c);
        assert(a.push(c).drop_first() =~= a.drop_first().push(c));
        assert(a.push(c)[0] == a[0]);
        assert(vstd::utf8::encode_utf8(a.push(c)) =~= vstd::utf8::encode_utf8(a) + vstd::utf8::encode_scalar(
            c as u32,
        ));
    }
}

pub proof fn lemma_encode_prefix_len(a: Seq<char>, i: int)
    requires
        0 <= i <= a.len(),
    ensures
        vstd::utf8::encode_utf8(a.take(i)).len() <= vstd::utf8::encode_utf8(a).len(),
    decreases a.len() - i,
{
    if i < a.len() {
        lemma_encode_prefix_len(a, i + 1);
        assert(a.take(i + 1) =~= a.take(i).push(a[i]));
        lemma_encode_push(a.take(i), a[i]);
    } else {
        assert(a.take(i) =~= a);
    }
}

impl App {
    /// The positions of the input text wrapped at the box's text width.
    pub open spec fn input_positions(self) -> Seq<(int, int)> {
        positions(self.input_buffer@, content_width(self.input_rect.width))
    }

    /// The number of characters in the input.
    pub fn char_count(&self) -> (r: usize)
        ensures
            r == self.input_buffer@.len(),
    {
        chars_of(self.input_buffer.as_str()).len()
    }

    fn input_visible_height(&self) -> (r: usize)
        ensures
            r == self.input_rect.height,
    {
        self.input_rect.height as usize
    }

    fn input_content_width(&self) -> (r: usize)
        ensures
            r == content_width(self.input_rect.width),
    {
        let w = self.input_rect.width as usize;
        if w >= INPUT_VIEWPORT_PREFIX_WIDTH + 1 {
            w - INPUT_VIEWPORT_PREFIX_WIDTH
        } else {
            1
        }
    }

    /// The (line, column) of every cursor position of the input.
    pub fn input_cursor_visual_positions(&self) -> (r: Vec<(usize, usize)>)
        ensures
            r@.map_values(|p: (usize, usize)| (p.0 as int, p.1 as int)) == self.input_positions(),
    {
        let v = chars_of(self.input_buffer.as_str());
        let width = self.input_content_width();
        let ghost w = width as int;
        let mut out: Vec<(usize, usize)> = Vec::new();
        let mut line: usize = 0;
        let mut column: usize = 0;
        out.push((0, 0));
        proof {
            assert(v@.take(0) =~= Seq::<char>::empty());
            assert(out@.map_values(|p: (usize, usize)| (p.0 as int, p.1 as int)) =~= seq![(0int, 0int)]);
        }
        let mut i: usize = 0;
        while i < v.len()
            invariant
                i <= v@.len(),
                v@ == self.input_buffer@,
                w == content_width(self.input_rect.width),
                width == w,
                w >= 1,
                line <= i,
                column <= w,
                out@.map_values(|p: (usize, usize)| (p.0 as int, p.1 as int)) == positions(v@.take(i as int), w),
                positions(v@.take(i as int), w).last() == (line as int, column as int),
            decreases v.len() - i,
        {
            let c = v[i];
            proof {
                assert(v@.take(i + 1).drop_last() =~= v@.take(i as int));
                assert(v@.take(i + 1).last() == c);
            }
            if c == '\n' {
                line = line + 1;
                column = 0;
            } else {
                if column == width {
                    line = line + 1;
                    column = 0;
                }
                column = column + 1;
            }
            let ghost before = out@;
            out.push((line, column));
            proof {
                assert(out@.map_values(|p: (usize, usize)| (p.0 as int, p.1 as int)) =~= before.map_values(
                    |p: (usize, usize)| (p.0 as int, p.1 as int),
                ).push((line as int, column as int)));
            }
            i = i + 1;
        }
        proof {
            assert(v@.take(v@.len() as int) =~= v@);
        }
        out
    }

    /// How many visual lines the input takes.
    pub fn input_total_visual_lines(&self) -> (r: usize)
        ensures
            r == self.input_positions().last().0 + 1,
    {
        let ps = self.input_cursor_visual_positions();
        proof {
            lemma_positions_shape(self.input_buffer@, content_width(self.input_rect.width));
            assert(ps@.map_values(|p: (usize, usize)| (p.0 as int, p.1 as int))[ps@.len() - 1] == (
            ps@[ps@.len() - 1].0 as int, ps@[ps@.len() - 1].1 as int));
        }
        ps[ps.len() - 1].0 + 1
    }

    /// The scroll position of the input that keeps the cursor visible.
    pub open spec fn settled_input_top(self) -> int {
        settled_top(
            self.input_scroll_top as int,
            self.input_positions(),
            self.cursor_pos as int,
            self.input_rect.height as int,
        )
    }

    fn ensure_input_cursor_visible(&mut self)
        ensures
            *final(self) == (App { input_scroll_top: old(self).settled_input_top() as usize, ..*old(self) }),
            0 <= old(self).settled_input_top() <= usize::MAX,
    {
        let h = self.input_visible_height();
        if h == 0 {
            self.input_scroll_top = 0;
            return;
        }
        let ps = self.input_cursor_visual_positions();
        let ghost sp = self.input_positions();
        proof {
            lemma_positions_shape(self.input_buffer@, content_width(self.input_rect.width));
            assert(ps@.len() == sp.len());
            assert(sp[sp.len() - 1] == (ps@[ps@.len() - 1].0 as int, ps@[ps@.len() - 1].1 as int));
        }
        let cl = if self.cursor_pos < ps.len() {
            proof {
                assert(sp[self.cursor_pos as int] == (ps@[self.cursor_pos as int].0 as int, ps@[self.cursor_pos as int].1 as int));
            }
            ps[self.cursor_pos].0
        } else {
            0
        };
        let max_top = (ps[ps.len() - 1].0 + 1).saturating_sub(h);
        let top = self.input_scroll_top;
        let t = if cl < top {
            cl
        } else if cl >= top.saturating_add(h) {
            (cl + 1).saturating_sub(h)
        } else {
            top
        };
        self.input_scroll_top = if t <= max_top {
            t
        } else {
            max_top
        };
    }

    /// The first visual line to show for `total_lines` lines of input.
    pub fn input_viewport_top(&self, total_lines: usize) -> (r: usize)
        ensures
            r == if self.input_rect.height == 0 {
                0
            } else if self.input_scroll_top <= sat_sub(total_lines as int, self.input_rect.height as int) {
                self.input_scroll_top as int
            } else {
                sat_sub(total_lines as int, self.input_rect.height as int)
            },
    {
        let h = self.input_visible_height();
        if h == 0 {
            return 0;
        }
        let limit = total_lines.saturating_sub(h);
        if self.input_scroll_top <= limit {
            self.input_scroll_top
        } else {
            limit
        }
    }

    /// The byte offset of the cursor in the input (its length when the
    /// cursor is at or past the end).
    pub fn cursor_byte_pos(&self) -> (r: usize)
        ensures
            r == vstd::utf8::encode_utf8(
                self.input_buffer@.take(
                    if self.cursor_pos <= self.input_buffer@.len() {
                        self.cursor_pos as int
                    } else {
                        self.input_buffer@.len() as int
                    },
                ),
            ).len(),
    {
        let v = chars_of(self.input_buffer.as_str());
        let total = self.input_buffer.as_str().as_bytes().len();
        let end = if self.cursor_pos <= v.len() {
            self.cursor_pos
        } else {
            v.len()
        };
        let mut bytes: usize = 0;
        let mut i: usize = 0;
        proof {
            assert(v@.take(0) =~= Seq::<char>::empty());
        }
        while i < end
            invariant
                i <= end <= v@.len(),
                v@ == self.input_buffer@,
                total == vstd::utf8::encode_utf8(v@).len(),
                bytes == vstd::utf8::encode_utf8(v@.take(i as int)).len(),
            decreases end - i,
        {
            proof {
                assert(v@.take(i + 1) =~= v@.take(i as int).push(v@[i as int]));
                lemma_encode_push(v@.take(i as int), v@[i as int]);
                lemma_encode_prefix_len(v@, i + 1);
            }
            bytes = bytes + char_width(v[i]);
            i = i + 1;
        }
        bytes
    }

    /// Inserts a character at the cursor and moves the cursor past it.
    pub fn insert_char(&mut self, c: char)
        requires
            old(self).cursor_pos < usize::MAX,
        ensures
            final(self).input_buffer@ == inserted(old(self).input_buffer@, old(self).cursor_pos as int, c),
            final(self).cursor_pos == old(self).cursor_pos + 1,
            final(self).input_cursor_column_goal.is_none(),
            final(self).input_scroll_top == (App {
                input_buffer: final(self).input_buffer,
                cursor_pos: final(self).cursor_pos,
                ..*old(self)
            }).settled_input_top(),
            *final(self) == (App {
                input_buffer: final(self).input_buffer,
                cursor_pos: final(self).cursor_pos,
                input_scroll_top: final(self).input_scroll_top,
                input_cursor_column_goal: None,
                ..*old(self)
            }),
    {
        let buf = insert_char_at(&self.input_buffer, self.cursor_pos, c);
        self.input_buffer = buf;
        self.cursor_pos = self.cursor_pos + 1;
        self.input_cursor_column_goal = None;
        self.ensure_input_cursor_visible();
    }

    /// Inserts a line break at the cursor.
    pub fn insert_newline(&mut self)
        requires
            old(self).cursor_pos < usize::MAX,
        ensures
            final(self).input_buffer@ == inserted(old(self).input_buffer@, old(self).cursor_pos as int, '\n'),
            final(self).cursor_pos == old(self).cursor_pos + 1,
            final(self).input_cursor_column_goal.is_none(),
            final(self).input_scroll_top == (App {
                input_buffer: final(self).input_buffer,
                cursor_pos: final(self).cursor_pos,
                ..*old(self)
            }).settled_input_top(),
            *final(self) == (App {
                input_buffer: final(self).input_buffer,
                cursor_pos: final(self).cursor_pos,
                input_scroll_top: final(self).input_scroll_top,
                input_cursor_column_goal: None,
                ..*old(self)
            }),
    {
        self.insert_char('\n');
    }

    /// Deletes the character before the cursor, if any.
    pub fn delete_char_before(&mut self)
        requires
            old(self).cursor_pos <= old(self).input_buffer@.len(),
        ensures
            old(self).cursor_pos == 0 ==> *final(self) == *old(self),
            old(self).cursor_pos > 0 ==> {
                &&& final(self).input_buffer@ == removed(old(self).input_buffer@, old(self).cursor_pos - 1)
                &&& final(self).cursor_pos == old(self).cursor_pos - 1
                &&& final(self).input_scroll_top == (App {
                    input_buffer: final(self).input_buffer,
                    cursor_pos: final(self).cursor_pos,
                    ..*old(self)
                }).settled_input_top()
                &&& *final(self) == (App {
                    input_buffer: final(self).input_buffer,
                    cursor_pos: final(self).cursor_pos,
                    input_scroll_top: final(self).input_scroll_top,
                    input_cursor_column_goal: None,
                    ..*old(self)
                })
            },
    {
        if self.cursor_pos > 0 {
            self.cursor_pos = self.cursor_pos - 1;
            let buf = remove_char_at(&self.input_buffer, self.cursor_pos);
            self.input_buffer = buf;
            self.input_cursor_column_goal = None;
            self.ensure_input_cursor_visible();
        }
    }

    /// Deletes the character under the cursor, if any.
    pub fn delete_char_at(&mut self)
        ensures
            old(self).cursor_pos >= old(self).input_buffer@.len() ==> *final(self) == *old(self),
            old(self).cursor_pos < old(self).input_buffer@.len() ==> {
                &&& final(self).input_buffer@ == removed(old(self).input_buffer@, old(self).cursor_pos as int)
                &&& final(self).input_scroll_top == (App {
                    input_buffer: final(self).input_buffer,
                    ..*old(self)
                }).settled_input_top()
                &&& *final(self) == (App {
                    input_buffer: final(self).input_buffer,
                    input_scroll_top: final(self).input_scroll_top,
                    input_cursor_column_goal: None,
                    ..*old(self)
                })
            },
    {
        if self.cursor_pos < self.char_count() {
            let buf = remove_char_at(&self.input_buffer, self.cursor_pos);
            self.input_buffer = buf;
            self.input_cursor_column_goal = None;
            self.ensure_input_cursor_visible();
        }
    }

    /// Moves the cursor to `pos`, forgetting the column goal and keeping the
    /// cursor in view.
    fn place_cursor(&mut self, pos: usize)
        ensures
            *final(self) == (App {
                cursor_pos: pos,
                input_cursor_column_goal: None,
                input_scroll_top: (App { cursor_pos: pos, ..*old(self) }).settled_input_top() as usize,
                ..*old(self)
            }),
    {
        self.cursor_pos = pos;
        self.input_cursor_column_goal = None;
        self.ensure_input_cursor_visible();
    }

    pub fn move_cursor_left(&mut self)
        ensures
            *final(self) == (App {
                cursor_pos: sat_sub(old(self).cursor_pos as int, 1) as usize,
                input_cursor_column_goal: None,
                input_scroll_top: (App { cursor_pos: sat_sub(old(self).cursor_pos as int, 1) as usize, ..*old(self) }).settled_input_top() as usize,
                ..*old(self)
            }),
    {
        let pos = self.cursor_pos.saturating_sub(1);
        self.place_cursor(pos);
    }

    pub fn move_cursor_right(&mut self)
        ensures
            ({
                let pos = if old(self).cursor_pos < old(self).input_buffer@.len() {
                    (old(self).cursor_pos + 1) as usize
                } else {
                    old(self).cursor_pos
                };
                *final(self) == (App {
                    cursor_pos: pos,
                    input_cursor_column_goal: None,
                    input_scroll_top: (App { cursor_pos: pos, ..*old(self) }).settled_input_top() as usize,
                    ..*old(self)
                })
            }),
    {
        let count = self.char_count();
        let pos = if self.cursor_pos < count {
            self.cursor_pos + 1
        } else {
            self.cursor_pos
        };
        self.place_cursor(pos);
    }

    pub fn move_cursor_home(&mut self)
        ensures
            *final(self) == (App {
                cursor_pos: 0,
                input_cursor_column_goal: None,
                input_scroll_top: (App { cursor_pos: 0, ..*old(self) }).settled_input_top() as usize,
                ..*old(self)
            }),
    {
        self.place_cursor(0);
    }

    pub fn move_cursor_end(&mut self)
        ensures
            ({
                let pos = old(self).input_buffer@.len() as usize;
                *final(self) == (App {
                    cursor_pos: pos,
                    input_cursor_column_goal: None,
                    input_scroll_top: (App { cursor_pos: pos, ..*old(self) }).settled_input_top() as usize,
                    ..*old(self)
                })
            }),
    {
        let n = self.char_count();
        self.place_cursor(n);
    }

    pub fn scroll_input_up(&mut self, amount: usize)
        ensures
            *final(self) == (App {
                input_scroll_top: sat_sub(old(self).input_scroll_top as int, amount as int) as usize,
                ..*old(self)
            }),
    {
        self.input_scroll_top = self.input_scroll_top.saturating_sub(amount);
    }

    /// Scrolls the input down, never past the last screenful.
    pub fn scroll_input_down(&mut self, amount: usize)
        requires
            old(self).input_scroll_top + amount <= usize::MAX,
        ensures
            ({
                let limit = sat_sub(old(self).input_positions().last().0 + 1, old(self).input_rect.height as int);
                let wanted = old(self).input_scroll_top + amount;
                *final(self) == (App {
                    input_scroll_top: (if wanted <= limit {
                        wanted
                    } else {
                        limit
                    }) as usize,
                    ..*old(self)
                })
            }),
    {
        let total = self.input_total_visual_lines();
        let limit = total.saturating_sub(self.input_visible_height());
        let wanted = self.input_scroll_top + amount;
        self.input_scroll_top = if wanted <= limit {
            wanted
        } else {
            limit
        };
    }

    /// Takes the input text out, leaving the box empty.
    pub fn take_input(&mut self) -> (r: String)
        ensures
            r@ == old(self).input_buffer@,
            final(self).input_buffer@.len() == 0,
            *final(self) == (App {
                input_buffer: final(self).input_buffer,
                cursor_pos: 0,
                input_scroll_top: 0,
                input_cursor_column_goal: None,
                command_hint: None,
                ..*old(self)
            }),
    {
        let mut input = String::new();
        std::mem::swap(&mut input, &mut self.input_buffer);
        self.cursor_pos = 0;
        self.input_scroll_top = 0;
        self.input_cursor_column_goal = None;
        self.command_hint = None;
        input
    }
}

/// The first position at or after `i` that is `(line, col)`, or -1.
pub open spec fn exact_from(ps: Seq<(int, int)>, line: int, col: int, i: int) -> int
    decreases ps.len() - i,
{
    if i < 0 || i >= ps.len() {
        -1
    } else if ps[i] == (line, col) {
        i
    } else {
        exact_from(ps, line, col, i + 1)
    }
}

/// The last of the first `n` positions that lies on `line`, or -1.
pub open spec fn last_on_line(ps: Seq<(int, int)>, line: int, n: int) -> int
    decreases n,
{
    if n <= 0 {
        -1
    } else if ps[n - 1].0 == line {
        n - 1
    } else {
        last_on_line(ps, line, n - 1)
    }
}

/// Where vertical motion lands on `line`: the position with the wanted
/// column, else the end of that line, else nowhere (-1).
pub open spec fn landing(ps: Seq<(int, int)>, line: int, col: int) -> int {
    if exact_from(ps, line, col, 0) >= 0 {
        exact_from(ps, line, col, 0)
    } else {
        last_on_line(ps, line, ps.len() as int)
    }
}

/// The line that vertical motion from `cursor` aims at (`up` or down), or
/// -1 when the cursor is off the positions or at the first or last line.
pub open spec fn vertical_target(ps: Seq<(int, int)>, cursor: int, up: bool) -> int {
    if !(0 <= cursor < ps.len()) {
        -1
    } else if up {
        if ps[cursor].0 > 0 {
            ps[cursor].0 - 1
        } else {
            -1
        }
    } else if ps[cursor].0 < ps.last().0 {
        ps[cursor].0 + 1
    } else {
        -1
    }
}

pub proof fn lemma_last_on_line_bounds(ps: Seq<(int, int)>, line: int, n: int)
    requires
        0 <= n <= ps.len(),
    ensures
        -1 <= last_on_line(ps, line, n) < n,
        last_on_line(ps, line, n) >= 0 ==> ps[last_on_line(ps, line, n)].0 == line,
    decreases n,
{
    if n > 0 {
        lemma_last_on_line_bounds(ps, line, n - 1);
    }
}

pub proof fn lemma_exact_from_bounds(ps: Seq<(int, int)>, line: int, col: int, i: int)
    requires
        0 <= i,
    ensures
        exact_from(ps, line, col, i) == -1 || (i <= exact_from(ps, line, col, i) < ps.len()
            && ps[exact_from(ps, line, col, i)] == (line, col)),
    decreases ps.len() - i,
{
    if i < ps.len() && ps[i] != (line, col) {
        lemma_exact_from_bounds(ps, line, col, i + 1);
    }
}

/// Past the positions on `line` (lines never decrease), no later position
/// lies on it.
pub proof fn lemma_beyond_line(ps: Seq<(int, int)>, line: int, i: int)
    requires
        0 <= i < ps.len(),
        ps[i].0 > line,
        forall|a: int, b: int| 0 <= a <= b < ps.len() ==> #[trigger] ps[a].0 <= #[trigger] ps[b].0,
    ensures
        last_on_line(ps, line, ps.len() as int) == last_on_line(ps, line, i),
        exact_from(ps, line, 0, i) == -1,
        forall|col: int| exact_from(ps, line, col, i) == -1,
    decreases ps.len() - i,
{
    assert forall|col: int| exact_from(ps, line, col, i) == -1 by {
        lemma_no_exact_after(ps, line, col, i);
    }
    lemma_last_same(ps, line, i, ps.len() as int);
}

proof fn lemma_no_exact_after(ps: Seq<(int, int)>, line: int, col: int, i: int)
    requires
        0 <= i <= ps.len(),
        i < ps.len() ==> ps[i].0 > line,
        forall|a: int, b: int| 0 <= a <= b < ps.len() ==> #[trigger] ps[a].0 <= #[trigger] ps[b].0,
    ensures
        exact_from(ps, line, col, i) == -1,
    decreases ps.len() - i,
{
    if i < ps.len() {
        if i + 1 < ps.len() {
            assert(ps[i].0 <= ps[i + 1].0);
        }
        lemma_no_exact_after(ps, line, col, i + 1);
    }
}

proof fn lemma_last_same(ps: Seq<(int, int)>, line: int, i: int, n: int)
    requires
        0 <= i < ps.len(),
        i <= n <= ps.len(),
        ps[i].0 > line,
        forall|a: int, b: int| 0 <= a <= b < ps.len() ==> #[trigger] ps[a].0 <= #[trigger] ps[b].0,
    ensures
        last_on_line(ps, line, n) == last_on_line(ps, line, i),
    decreases n - i,
{
    if n > i {
        assert(ps[i].0 <= ps[n - 1].0);
        lemma_last_same(ps, line, i, n - 1);
    }
}

impl App {
    /// Moves the cursor one visual line up or down, to the same column
    /// when that line has it (the remembered column goal first), else to the
    /// end of that line; nothing happens at the first or last line.
    fn move_cursor_vertical(&mut self, up: bool)
        ensures
            ({
                let ps = old(self).input_positions();
                let t = vertical_target(ps, old(self).cursor_pos as int, up);
                let col = match old(self).input_cursor_column_goal {
                    Some(g) => g as int,
                    None => ps[old(self).cursor_pos as int].1,
                };
                let k = landing(ps, t, col);
                if t < 0 || k < 0 {
                    *final(self) == *old(self)
                } else {
                    *final(self) == (App {
                        cursor_pos: k as usize,
                        input_cursor_column_goal: Some(col as usize),
                        input_scroll_top: (App { cursor_pos: k as usize, ..*old(self) }).settled_input_top() as usize,
                        ..*old(self)
                    })
                }
            }),
    {
        let ps = self.input_cursor_visual_positions();
        let ghost sp = self.input_positions();
        proof {
            lemma_positions_shape(self.input_buffer@, content_width(self.input_rect.width));
        }
        if self.cursor_pos >= ps.len() {
            return;
        }
        proof {
            assert(sp[self.cursor_pos as int] == (ps@[self.cursor_pos as int].0 as int, ps@[self.cursor_pos as int].1 as int));
            assert(sp[sp.len() - 1] == (ps@[ps@.len() - 1].0 as int, ps@[ps@.len() - 1].1 as int));
        }
        let (current_line, current_column) = ps[self.cursor_pos];
        let last_line = ps[ps.len() - 1].0;
        let target: usize = if up {
            if current_line > 0 {
                current_line - 1
            } else {
                return;
            }
        } else {
            if current_line < last_line {
                current_line + 1
            } else {
                return;
            }
        };
        let desired: usize = match self.input_cursor_column_goal {
            Some(g) => g,
            None => current_column,
        };
        let mut fallback: Option<usize> = None;
        let mut i: usize = 0;
        while i < ps.len()
            invariant
                i <= ps@.len(),
                *self == *old(self),
                sp == old(self).input_positions(),
                target as int == vertical_target(sp, old(self).cursor_pos as int, up),
                desired as int == (match old(self).input_cursor_column_goal {
                    Some(g) => g as int,
                    None => sp[old(self).cursor_pos as int].1,
                }),
                sp == ps@.map_values(|p: (usize, usize)| (p.0 as int, p.1 as int)),
                sp.len() == ps@.len(),
                forall|a: int, b: int| 0 <= a <= b < sp.len() ==> #[trigger] sp[a].0 <= #[trigger] sp[b].0,
                exact_from(sp, target as int, desired as int, 0) == exact_from(sp, target as int, desired as int, i as int),
                match fallback {
                    Some(f) => f as int == last_on_line(sp, target as int, i as int),
                    None => last_on_line(sp, target as int, i as int) == -1,
                },
            ensures
                *self == *old(self),
                exact_from(sp, target as int, desired as int, 0) == -1,
                match fallback {
                    Some(f) => f as int == last_on_line(sp, target as int, sp.len() as int),
                    None => last_on_line(sp, target as int, sp.len() as int) == -1,
                },
            decreases ps.len() - i,
        {
            let (line, column) = ps[i];
            proof {
                assert(sp[i as int] == (line as int, column as int));
            }
            if line > target {
                proof {
                    lemma_beyond_line(sp, target as int, i as int);
                    lemma_no_exact_after(sp, target as int, desired as int, i as int);
                }
                break;
            }
            if line == target {
                fallback = Some(i);
                if column == desired {
                    proof {
                        lemma_positions_shape(self.input_buffer@, content_width(self.input_rect.width));
                    }
                    self.cursor_pos = i;
                    self.input_cursor_column_goal = Some(desired);
                    self.ensure_input_cursor_visible();
                    return;
                }
            }
            i = i + 1;
        }
        proof {
            lemma_last_on_line_bounds(sp, target as int, sp.len() as int);
        }
        match fallback {
            Some(f) => {
                self.cursor_pos = f;
                self.input_cursor_column_goal = Some(desired);
                self.ensure_input_cursor_visible();
            },
            None => {},
        }
    }

    pub fn move_cursor_up(&mut self)
        ensures
            ({
                let ps = old(self).input_positions();
                let t = vertical_target(ps, old(self).cursor_pos as int, true);
                let col = match old(self).input_cursor_column_goal {
                    Some(g) => g as int,
                    None => ps[old(self).cursor_pos as int].1,
                };
                let k = landing(ps, t, col);
                if t < 0 || k < 0 {
                    *final(self) == *old(self)
                } else {
                    *final(self) == (App {
                        cursor_pos: k as usize,
                        input_cursor_column_goal: Some(col as usize),
                        input_scroll_top: (App { cursor_pos: k as usize, ..*old(self) }).settled_input_top() as usize,
                        ..*old(self)
                    })
                }
            }),
    {
        self.move_cursor_vertical(true);
    }

    pub fn move_cursor_down(&mut self)
        ensures
            ({
                let ps = old(self).input_positions();
                let t = vertical_target(ps, old(self).cursor_pos as int, false);
                let col = match old(self).input_cursor_column_goal {
                    Some(g) => g as int,
                    None => ps[old(self).cursor_pos as int].1,
                };
                let k = landing(ps, t, col);
                if t < 0 || k < 0 {
                    *final(self) == *old(self)
                } else {
                    *final(self) == (App {
                        cursor_pos: k as usize,
                        input_cursor_column_goal: Some(col as usize),
                        input_scroll_top: (App { cursor_pos: k as usize, ..*old(self) }).settled_input_top() as usize,
                        ..*old(self)
                    })
                }
            }),
    {
        self.move_cursor_vertical(false);
    }
}

/// `s` with `t` inserted at character position `k` (at the end when `k`
/// is past it).
pub open spec fn inserted_text(s: Seq<char>, k: int, t: Seq<char>) -> Seq<char> {
    let at = if k <= s.len() {
        k
    } else {
        s.len() as int
    };
    s.take(at) + t + s.skip(at)
}

/// The input scroll position after inserting the characters of `t` one by
/// one at cursor `k` of `s`, starting from `top`.
pub open spec fn top_after_typing(s: Seq<char>, k: int, top: int, t: Seq<char>, w: int, h: int) -> int
    decreases t.len(),
{
    if t.len() == 0 {
        top
    } else {
        settled_top(
            top_after_typing(s, k, top, t.drop_last(), w, h),
            positions(inserted_text(s, k, t), w),
            k + t.len(),
            h,
        )
    }
}

/// Inserting a character and then deleting the character before the
/// cursor gives back the text.
pub proof fn lemma_insert_then_delete(s: Seq<char>, k: int, c: char)
    requires
        0 <= k <= s.len(),
    ensures
        removed(inserted(s, k, c), k) == s,
        inserted(s, k, c).len() == s.len() + 1,
{
    assert(removed(inserted(s, k, c), k) =~= s);
}

/// Deleting the character at the cursor and typing it again gives back
/// the text.
pub proof fn lemma_delete_then_insert(s: Seq<char>, k: int)
    requires
        0 <= k < s.len(),
    ensures
        inserted(removed(s, k), k, s[k]) == s,
{
    assert(inserted(removed(s, k), k, s[k]) =~= s);
}

/// Every edit keeps a cursor that lies within the text within it.
pub proof fn lemma_edits_keep_cursor_in_text(s: Seq<char>, k: int, c: char)
    requires
        0 <= k <= s.len(),
    ensures
        k + 1 <= inserted(s, k, c).len(),
        k > 0 ==> k - 1 <= removed(s, k - 1).len(),
        k < s.len() ==> k <= removed(s, k).len(),
{
}

impl App {
    /// Types `text` at the cursor, character by character.
    pub fn insert_text(&mut self, text: &str)
        requires
            old(self).cursor_pos + text@.len() <= usize::MAX,
        ensures
            final(self).input_buffer@ == inserted_text(old(self).input_buffer@, old(self).cursor_pos as int, text@),
            final(self).cursor_pos == old(self).cursor_pos + text@.len(),
            final(self).input_scroll_top == top_after_typing(
                old(self).input_buffer@,
                old(self).cursor_pos as int,
                old(self).input_scroll_top as int,
                text@,
                content_width(old(self).input_rect.width),
                old(self).input_rect.height as int,
            ),
            final(self).input_cursor_column_goal == if text@.len() == 0 {
                old(self).input_cursor_column_goal
            } else {
                None
            },
            *final(self) == (App {
                input_buffer: final(self).input_buffer,
                cursor_pos: final(self).cursor_pos,
                input_scroll_top: final(self).input_scroll_top,
                input_cursor_column_goal: final(self).input_cursor_column_goal,
                ..*old(self)
            }),
    {
        let v = chars_of(text);
        let ghost s0 = self.input_buffer@;
        let ghost k0 = self.cursor_pos as int;
        let ghost w = content_width(self.input_rect.width);
        let ghost h = self.input_rect.height as int;
        let mut i: usize = 0;
        proof {
            assert(v@.take(0) =~= Seq::<char>::empty());
            let at = if k0 <= s0.len() { k0 } else { s0.len() as int };
            assert(s0.take(at) + Seq::<char>::empty() + s0.skip(at) =~= s0);
        }
        while i < v.len()
            invariant
                i <= v@.len(),
                v@ == text@,
                0 <= k0,
                k0 + v@.len() <= usize::MAX,
                w == content_width(self.input_rect.width),
                h == self.input_rect.height as int,
                self.input_buffer@ == inserted_text(s0, k0, v@.take(i as int)),
                self.cursor_pos == k0 + i,
                self.input_scroll_top == top_after_typing(s0, k0, old(self).input_scroll_top as int, v@.take(i as int), w, h),
                self.input_cursor_column_goal == if i == 0 {
                    old(self).input_cursor_column_goal
                } else {
                    None
                },
                *self == (App {
                    input_buffer: self.input_buffer,
                    cursor_pos: self.cursor_pos,
                    input_scroll_top: self.input_scroll_top,
                    input_cursor_column_goal: self.input_cursor_column_goal,
                    ..*old(self)
                }),
            decreases v.len() - i,
        {
            let c = v[i];
            proof {
                let t1 = v@.take(i + 1);
                assert(t1.drop_last() =~= v@.take(i as int));
                assert(t1.len() == i + 1);
                let at = if k0 <= s0.len() { k0 } else { s0.len() as int };
                let cur = self.input_buffer@;
                assert(cur == s0.take(at) + v@.take(i as int) + s0.skip(at));
                if k0 <= s0.len() {
                    assert(self.cursor_pos <= cur.len());
                    assert(t1 =~= v@.take(i as int).push(c));
                    let a = s0.take(k0) + v@.take(i as int);
                    assert(a.len() == k0 + i);
                    assert(cur =~= a + s0.skip(k0));
                    assert((a + s0.skip(k0)).take(a.len() as int) =~= a);
                    assert((a + s0.skip(k0)).skip(a.len() as int) =~= s0.skip(k0));
                    assert(inserted(cur, self.cursor_pos as int, c) =~= inserted_text(s0, k0, t1));
                } else {
                    assert(self.cursor_pos > cur.len());
                    assert(t1 =~= v@.take(i as int).push(c));
                    assert(cur.take(cur.len() as int) =~= cur);
                    assert(cur.skip(cur.len() as int) =~= Seq::<char>::empty());
                    assert(s0.skip(at) =~= Seq::<char>::empty());
                    assert(inserted(cur, self.cursor_pos as int, c) =~= inserted_text(s0, k0, t1));
                }
            }
            self.insert_char(c);
            i = i + 1;
        }
        proof {
            assert(v@.take(v@.len() as int) =~= v@);
        }
    }
}

} // verus!
