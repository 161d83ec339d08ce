//! Text of the panels as wrapped on screen, and selecting it with the
//! mouse: from screen cells to text points, and from a selection to the
//! text it covers.
use vstd::prelude::*;

use crate::app::{App, Panel, PanelTextPoint, PanelTextSelection, Rect, WrappedPanelLine};
use crate::chars::{chars_of, join, join_strings, slice_vec, string_of, views};
use crate::tools::copy_strings;

verus! {

// ---------------------------------------------------------------------------
// Wrapping
// ---------------------------------------------------------------------------

/// The pieces of `line` from `start` on, each `width` characters long (the
/// last one shorter), with the column each starts at.
pub open spec fn chunks(line: Seq<char>, width: int, start: int) -> Seq<(int, Seq<char>)>
    decreases line.len() - start,
{
    if width <= 0 || start < 0 || start >= line.len() {
        Seq::empty()
    } else {
        let end = if start + width < line.len() {
            start + width
        } else {
            line.len() as int
        };
        seq![(start, line.subrange(start, end))] + chunks(line, width, end)
    }
}

/// A line wrapped at `width` columns: its pieces with their starting
/// columns; an empty line, or a width of 0, gives the whole line as one
/// piece.
pub open spec fn wrap_segments(line: Seq<char>, width: int) -> Seq<(int, Seq<char>)> {
    if width == 0 || line.len() == 0 {
        seq![(0, line)]
    } else {
        chunks(line, width, 0)
    }
}

/// The texts of the pieces, put back together.
pub open spec fn concat_texts(segs: Seq<(int, Seq<char>)>) -> Seq<char>
    decreases segs.len(),
{
    if segs.len() == 0 {
        Seq::empty()
    } else {
        segs[0].1 + concat_texts(segs.drop_first())
    }
}

proof fn lemma_chunks_concat(line: Seq<char>, width: int, start: int)
    requires
        width > 0,
        0 <= start <= line.len(),
    ensures
        concat_texts(chunks(line, width, start)) == line.skip(start),
        forall|i: int| 0 <= i < chunks(line, width, start).len() ==> {
            let c = #[trigger] chunks(line, width, start)[i];
            start <= c.0 && c.0 + c.1.len() <= line.len() && c.1 == line.subrange(c.0, c.0 + c.1.len())
        },
    decreases line.len() - start,
{
    if start < line.len() {
        let end = if start + width < line.len() {
            start + width
        } else {
            line.len() as int
        };
        lemma_chunks_concat(line, width, end);
        let c = chunks(line, width, start);
        let rest = chunks(line, width, end);
        assert(c == seq![(start, line.subrange(start, end))] + rest);
        assert(c.drop_first() =~= rest);
        assert(line.skip(start) =~= line.subrange(start, end) + line.skip(end));
        assert forall|i: int| 0 <= i < c.len() implies {
            let ci = #[trigger] c[i];
            start <= ci.0 && ci.0 + ci.1.len() <= line.len() && ci.1 == line.subrange(ci.0, ci.0 + ci.1.len())
        } by {
            if i > 0 {
                assert(c[i] == rest[i - 1]);
            }
        }
    } else {
        assert(line.skip(start) =~= Seq::<char>::empty());
    }
}

/// Wrapping loses no text: the pieces of a line put together give it back.
pub proof fn lemma_wrap_keeps_text(line: Seq<char>, width: int)
    requires
        width >= 0,
    ensures
        concat_texts(wrap_segments(line, width)) == line,
        forall|i: int| 0 <= i < wrap_segments(line, width).len() ==> {
            let c = #[trigger] wrap_segments(line, width)[i];
            0 <= c.0 && c.0 + c.1.len() <= line.len()
        },
{
    if width == 0 || line.len() == 0 {
        let s = wrap_segments(line, width);
        assert(s.drop_first() =~= Seq::<(int, Seq<char>)>::empty());
        assert(concat_texts(s.drop_first()) =~= Seq::<char>::empty());
        assert(concat_texts(s) =~= line + Seq::<char>::empty());
        assert(line + Seq::<char>::empty() =~= line);
    } else {
        lemma_chunks_concat(line, width, 0);
        assert(line.skip(0) =~= line);
    }
}

/// The view of wrapped pieces produced in executable form.
pub open spec fn segment_views(v: Seq<(usize, String)>) -> Seq<(int, Seq<char>)> {
    v.map_values(|e: (usize, String)| (e.0 as int, e.1@))
}

/// A line wrapped at `width` columns, with the column each piece starts at.
pub fn wrap_text_segments(line: &str, width: usize) -> (r: Vec<(usize, String)>)
    ensures
        segment_views(r@) == wrap_segments(line@, width as int),
{
    let chars = chars_of(line);
    let mut result: Vec<(usize, String)> = Vec::new();
    if width == 0 || chars.len() == 0 {
        result.push((0, line.to_owned()));
        proof {
            assert(segment_views(result@) =~= seq![(0int, line@)]);
        }
        return result;
    }
    let mut start: usize = 0;
    proof {
        assert(segment_views(result@) =~= Seq::<(int, Seq<char>)>::empty());
        assert(chunks(line@, width as int, 0) =~= Seq::<(int, Seq<char>)>::empty() + chunks(line@, width as int, 0));
    }
    while start < chars.len()
        invariant
            start <= chars@.len(),
            chars@ == line@,
            width > 0,
            chunks(line@, width as int, 0) == segment_views(result@) + chunks(line@, width as int, start as int),
        decreases chars.len() - start,
    {
        let end = if width < chars.len() - start {
            start + width
        } else {
            chars.len()
        };
        let piece = string_of(slice_vec(&chars, start, end).as_slice());
        let ghost before = result@;
        result.push((start, piece));
        proof {
            assert(segment_views(result@) =~= segment_views(before).push((start as int, line@.subrange(start as int, end as int))));
            let rest = chunks(line@, width as int, end as int);
            assert(chunks(line@, width as int, start as int) == seq![(start as int, line@.subrange(start as int, end as int))] + rest);
            assert(segment_views(before) + chunks(line@, width as int, start as int) =~= segment_views(result@) + rest);
        }
        start = end;
    }
    proof {
        assert(chunks(line@, width as int, start as int) =~= Seq::<(int, Seq<char>)>::empty());
        assert(segment_views(result@) + Seq::<(int, Seq<char>)>::empty() =~= segment_views(result@));
    }
    result
}

// ---------------------------------------------------------------------------
// Text points
// ---------------------------------------------------------------------------

/// Points are ordered by line, then by column.
pub open spec fn point_le(a: PanelTextPoint, b: PanelTextPoint) -> bool {
    a.line_index < b.line_index || (a.line_index == b.line_index && a.column <= b.column)
}

fn point_le_exec(a: PanelTextPoint, b: PanelTextPoint) -> (r: bool)
    ensures
        r == point_le(a, b),
{
    a.line_index < b.line_index || (a.line_index == b.line_index && a.column <= b.column)
}

/// The two points in text order.
pub fn normalize_points(first: PanelTextPoint, second: PanelTextPoint) -> (r: (PanelTextPoint, PanelTextPoint))
    ensures
        r == if point_le(first, second) {
            (first, second)
        } else {
            (second, first)
        },
{
    if point_le_exec(first, second) {
        (first, second)
    } else {
        (second, first)
    }
}

/// The later of two points.
pub fn max_text_point(first: PanelTextPoint, second: PanelTextPoint) -> (r: PanelTextPoint)
    ensures
        r == if point_le(second, first) {
            first
        } else {
            second
        },
{
    if point_le_exec(second, first) {
        first
    } else {
        second
    }
}

/// The earlier of two points.
pub fn min_text_point(first: PanelTextPoint, second: PanelTextPoint) -> (r: PanelTextPoint)
    ensures
        r == if point_le(first, second) {
            first
        } else {
            second
        },
{
    if point_le_exec(first, second) {
        first
    } else {
        second
    }
}

/// The characters of `text` from `start` up to `end`, both counted in
/// characters and cut at the end of the text.
pub open spec fn slice_spec(text: Seq<char>, start: int, end: int) -> Seq<char> {
    if start >= end {
        Seq::empty()
    } else {
        let s = if start <= text.len() {
            start
        } else {
            text.len() as int
        };
        let e = if end <= text.len() {
            end
        } else {
            text.len() as int
        };
        text.subrange(s, e)
    }
}

pub fn slice_chars(text: &str, start: usize, end: usize) -> (r: String)
    ensures
        r@ == slice_spec(text@, start as int, end as int),
{
    if start >= end {
        return String::new();
    }
    let v = chars_of(text);
    let s = if start <= v.len() {
        start
    } else {
        v.len()
    };
    let e = if end <= v.len() {
        end
    } else {
        v.len()
    };
    string_of(slice_vec(&v, s, e).as_slice())
}

// ---------------------------------------------------------------------------
// Panels
// ---------------------------------------------------------------------------

/// The view of wrapped lines: source line, starting column, text.
pub open spec fn wrapped_views(v: Seq<WrappedPanelLine>) -> Seq<(int, int, Seq<char>)> {
    v.map_values(|w: WrappedPanelLine| (w.source_line_index as int, w.source_column_start as int, w.text@))
}

/// The lines of a panel wrapped at `width`: each line's pieces in order,
/// tagged with the line's index.
pub open spec fn wrapped_lines(lines: Seq<Seq<char>>, width: int) -> Seq<(int, int, Seq<char>)>
    decreases lines.len(),
{
    if lines.len() == 0 {
        Seq::empty()
    } else {
        let k = lines.len() - 1;
        wrapped_lines(lines.drop_last(), width) + wrap_segments(lines.last(), width).map_values(
            |s: (int, Seq<char>)| (k, s.0, s.1),
        )
    }
}

/// The inner area of a bordered rectangle, when it has one.
pub open spec fn inner_rect(r: Rect) -> Option<Rect> {
    if r.width < 2 || r.height < 2 {
        None
    } else {
        Some(
            Rect {
                x: (if r.x < 65535 {
                    r.x + 1
                } else {
                    65535
                }) as u16,
                y: (if r.y < 65535 {
                    r.y + 1
                } else {
                    65535
                }) as u16,
                width: (r.width - 2) as u16,
                height: (r.height - 2) as u16,
            },
        )
    }
}

impl App {
    /// The text lines of a panel (none for the rail).
    pub open spec fn panel_text(self, p: Panel) -> Seq<Seq<char>> {
        match p {
            Panel::Response => views(self.response_lines@),
            Panel::SidebarRail => Seq::empty(),
            Panel::Diagnostics => crate::diagnostics::line_texts(self.diagnostics_lines@),
            Panel::Delivery => views(self.delivery_lines@),
            Panel::Skills => views(self.skill_lines@),
            Panel::Project => views(self.project_lines@),
            Panel::Document => views(self.document_lines@),
            Panel::Memory => views(self.memory_lines@),
            Panel::Todo => views(self.todo_lines@),
            Panel::Logs => views(self.log_lines@),
        }
    }

    pub fn panel_lines(&self, panel: Panel) -> (r: Vec<String>)
        ensures
            views(r@) == self.panel_text(panel),
    {
        match panel {
            Panel::Response => copy_strings(&self.response_lines),
            Panel::SidebarRail => {
                let r: Vec<String> = Vec::new();
                proof {
                    assert(views(r@) =~= Seq::<Seq<char>>::empty());
                }
                r
            },
            Panel::Diagnostics => crate::diagnostics::diagnostics_texts(&self.diagnostics_lines),
            Panel::Delivery => copy_strings(&self.delivery_lines),
            Panel::Skills => copy_strings(&self.skill_lines),
            Panel::Project => copy_strings(&self.project_lines),
            Panel::Document => copy_strings(&self.document_lines),
            Panel::Memory => copy_strings(&self.memory_lines),
            Panel::Todo => copy_strings(&self.todo_lines),
            Panel::Logs => copy_strings(&self.log_lines),
        }
    }

    /// The lines of a panel as wrapped at `width` columns.
    pub fn wrapped_panel_lines(&self, panel: Panel, width: usize) -> (r: Vec<WrappedPanelLine>)
        ensures
            wrapped_views(r@) == wrapped_lines(self.panel_text(panel), width as int),
    {
        let lines = self.panel_lines(panel);
        let ghost ls = views(lines@);
        let mut out: Vec<WrappedPanelLine> = Vec::new();
        let mut i: usize = 0;
        proof {
            assert(ls.take(0) =~= Seq::<Seq<char>>::empty());
            assert(wrapped_views(out@) =~= Seq::<(int, int, Seq<char>)>::empty());
        }
        while i < lines.len()
            invariant
                i <= lines@.len(),
                ls == views(lines@),
                wrapped_views(out@) == wrapped_lines(ls.take(i as int), width as int),
            decreases lines.len() - i,
        {
            let segs = wrap_text_segments(lines[i].as_str(), width);
            let ghost base = wrapped_views(out@);
            let ghost sv = segment_views(segs@);
            let n = segs.len();
            proof {
                assert(sv.len() == n);
            }
            let mut j: usize = 0;
            let mut rest = segs;
            let mut reversed: Vec<(usize, String)> = Vec::new();
            while rest.len() > 0
                invariant
                    rest@.len() + reversed@.len() == sv.len(),
                    sv.len() <= usize::MAX,
                    forall|q: int| 0 <= q < rest@.len() ==> (#[trigger] rest@[q]).0 as int == sv[q].0 && rest@[q].1@ == sv[q].1,
                    forall|q: int| 0 <= q < reversed@.len() ==> (#[trigger] reversed@[q]).0 as int == sv[sv.len() - 1 - q].0
                        && reversed@[q].1@ == sv[sv.len() - 1 - q].1,
                decreases rest.len(),
            {
                let e = rest.pop().unwrap();
                reversed.push(e);
            }
            while reversed.len() > 0
                invariant
                    reversed@.len() + j == sv.len(),
                    sv.len() <= usize::MAX,
                    forall|q: int| 0 <= q < reversed@.len() ==> (#[trigger] reversed@[q]).0 as int == sv[sv.len() - 1 - q].0
                        && reversed@[q].1@ == sv[sv.len() - 1 - q].1,
                    wrapped_views(out@) == base + sv.take(j as int).map_values(|s: (int, Seq<char>)| (i as int, s.0, s.1)),
                decreases reversed.len(),
            {
                let (start, text) = reversed.pop().unwrap();
                let ghost prev = out@;
                out.push(WrappedPanelLine { source_line_index: i, source_column_start: start, text });
                proof {
                    assert(sv.take(j + 1).map_values(|s: (int, Seq<char>)| (i as int, s.0, s.1)) =~= sv.take(
                        j as int,
                    ).map_values(|s: (int, Seq<char>)| (i as int, s.0, s.1)).push((i as int, sv[j as int].0, sv[j as int].1)));
                    assert(wrapped_views(out@) =~= wrapped_views(prev).push((i as int, sv[j as int].0, sv[j as int].1)));
                }
                j = j + 1;
            }
            proof {
                assert(sv.take(j as int) =~= sv);
                let t = ls.take(i + 1);
                assert(t.drop_last() =~= ls.take(i as int));
                assert(t.last() == ls[i as int]);
                assert(ls[i as int] == lines@[i as int]@);
            }
            i = i + 1;
        }
        proof {
            assert(ls.take(lines@.len() as int) =~= ls);
        }
        out
    }

    /// The current selection of `panel`, as (start, end) in text order.
    pub open spec fn spec_selection_for(self, panel: Panel) -> Option<(PanelTextPoint, PanelTextPoint)> {
        match self.text_selection {
            Some(sel) => if sel.panel == panel {
                Some(
                    if point_le(sel.anchor, sel.focus) {
                        (sel.anchor, sel.focus)
                    } else {
                        (sel.focus, sel.anchor)
                    },
                )
            } else {
                None
            },
            None => None,
        }
    }

    pub fn selection_for_panel(&self, panel: Panel) -> (r: Option<(PanelTextPoint, PanelTextPoint)>)
        ensures
            r == self.spec_selection_for(panel),
    {
        match self.text_selection {
            Some(sel) => if sel.panel == panel {
                Some(normalize_points(sel.anchor, sel.focus))
            } else {
                None
            },
            None => None,
        }
    }

    /// The part `[from, to)` of a piece of line `line` (its columns
    /// `start..end`) that the selection of `panel` covers, relative to the
    /// piece's start.
    pub open spec fn spec_selection_range(self, panel: Panel, line: usize, start: usize, end: usize) -> Option<(usize, usize)> {
        match self.spec_selection_for(panel) {
            None => None,
            Some((s, e)) => if s == e {
                None
            } else {
                let seg_start = PanelTextPoint { line_index: line, column: start };
                let seg_end = PanelTextPoint { line_index: line, column: end };
                let lo = if point_le(seg_start, s) {
                    s
                } else {
                    seg_start
                };
                let hi = if point_le(e, seg_end) {
                    e
                } else {
                    seg_end
                };
                if point_le(hi, lo) {
                    None
                } else {
                    Some(
                        (
                            (if lo.column >= start {
                                lo.column - start
                            } else {
                                0
                            }) as usize,
                            (if hi.column >= start {
                                hi.column - start
                            } else {
                                0
                            }) as usize,
                        ),
                    )
                }
            },
        }
    }

    pub fn selection_range_for_segment(
        &self,
        panel: Panel,
        source_line_index: usize,
        source_column_start: usize,
        source_column_end: usize,
    ) -> (r: Option<(usize, usize)>)
        ensures
            r == self.spec_selection_range(panel, source_line_index, source_column_start, source_column_end),
    {
        let (selection_start, selection_end) = match self.selection_for_panel(panel) {
            Some(p) => p,
            None => return None,
        };
        if selection_start == selection_end {
            return None;
        }
        let segment_start = PanelTextPoint { line_index: source_line_index, column: source_column_start };
        let segment_end = PanelTextPoint { line_index: source_line_index, column: source_column_end };
        let overlap_start = max_text_point(selection_start, segment_start);
        let overlap_end = min_text_point(selection_end, segment_end);
        if point_le_exec(overlap_end, overlap_start) {
            return None;
        }
        Some((
            overlap_start.column.saturating_sub(source_column_start),
            overlap_end.column.saturating_sub(source_column_start),
        ))
    }

    pub fn clear_text_selection(&mut self)
        ensures
            *final(self) == (App { text_selection: None, mouse_selection_active: false, ..*old(self) }),
    {
        self.text_selection = None;
        self.mouse_selection_active = false;
    }

    /// How far a panel is scrolled (the rail does not scroll).
    pub open spec fn spec_scroll_offset(self, panel: Panel) -> usize {
        match panel {
            Panel::SidebarRail => 0,
            _ => self.list_of(panel).offset,
        }
    }

    pub fn panel_scroll_offset(&self, panel: Panel) -> (r: usize)
        ensures
            r == self.spec_scroll_offset(panel),
    {
        match panel {
            Panel::SidebarRail => 0,
            Panel::Diagnostics => self.diagnostics_scroll.list.offset,
            Panel::Delivery => self.delivery_scroll.list.offset,
            Panel::Skills => self.skills_scroll.list.offset,
            Panel::Project => self.project_scroll.list.offset,
            Panel::Document => self.document_scroll.list.offset,
            Panel::Memory => self.memory_scroll.list.offset,
            Panel::Todo => self.todo_scroll.list.offset,
            Panel::Logs => self.logs_scroll.list.offset,
            Panel::Response => self.response_scroll.list.offset,
        }
    }

    /// The area inside a panel's border (none for the rail, or a panel too
    /// small to have one).
    pub open spec fn spec_inner_rect(self, panel: Panel) -> Option<Rect> {
        match panel {
            Panel::SidebarRail => None,
            _ => inner_rect(self.rect_of(panel)),
        }
    }

    pub fn panel_inner_rect(&self, panel: Panel) -> (r: Option<Rect>)
        ensures
            r == self.spec_inner_rect(panel),
    {
        let rect = match panel {
            Panel::SidebarRail => return None,
            Panel::Response => self.response_rect,
            Panel::Diagnostics => self.diagnostics_rect,
            Panel::Delivery => self.delivery_rect,
            Panel::Skills => self.skills_rect,
            Panel::Project => self.project_rect,
            Panel::Document => self.document_rect,
            Panel::Memory => self.memory_rect,
            Panel::Todo => self.todo_rect,
            Panel::Logs => self.logs_rect,
        };
        if rect.width < 2 || rect.height < 2 {
            return None;
        }
        Some(Rect::new(rect.x.saturating_add(1), rect.y.saturating_add(1), rect.width - 2, rect.height - 2))
    }

    /// Scrolling a panel's rows into its inner area does not overflow.
    pub open spec fn rows_fit(self, panel: Panel, row: u16) -> bool {
        match self.spec_inner_rect(panel) {
            Some(inner) => inner.y <= row ==> self.spec_scroll_offset(panel) + (row - inner.y) <= usize::MAX,
            None => true,
        }
    }

    /// The text point under a screen cell of a panel: the wrapped line at
    /// that row (counting the panel's scroll), at that column or the end of
    /// the piece.
    pub open spec fn spec_point_at(self, panel: Panel, col: u16, row: u16) -> Option<PanelTextPoint> {
        match self.spec_inner_rect(panel) {
            None => None,
            Some(inner) => if inner.width == 0 || inner.height == 0 || !inner.spec_hit(col, row) {
                None
            } else {
                let wl = wrapped_lines(self.panel_text(panel), inner.width as int);
                let vi = self.spec_scroll_offset(panel) + (row - inner.y);
                if vi >= wl.len() {
                    None
                } else {
                    let w = wl[vi];
                    let column = col - inner.x;
                    Some(
                        PanelTextPoint {
                            line_index: w.0 as usize,
                            column: (w.1 + if column <= w.2.len() {
                                column
                            } else {
                                w.2.len() as int
                            }) as usize,
                        },
                    )
                }
            },
        }
    }

    pub fn panel_text_point_at(&self, panel: Panel, col: u16, row: u16) -> (r: Option<PanelTextPoint>)
        requires
            self.rows_fit(panel, row),
        ensures
            r == self.spec_point_at(panel, col, row),
    {
        let inner = match self.panel_inner_rect(panel) {
            Some(i) => i,
            None => return None,
        };
        if inner.width == 0 || inner.height == 0 {
            return None;
        }
        if !inner.hit(col, row) {
            return None;
        }
        let wrapped = self.wrapped_panel_lines(panel, inner.width as usize);
        let viewport_index = self.panel_scroll_offset(panel) + (row - inner.y) as usize;
        if viewport_index >= wrapped.len() {
            return None;
        }
        let ghost wv = wrapped_views(wrapped@);
        proof {
            assert(wv[viewport_index as int] == (
                wrapped@[viewport_index as int].source_line_index as int,
                wrapped@[viewport_index as int].source_column_start as int,
                wrapped@[viewport_index as int].text@,
            ));
        }
        let line = &wrapped[viewport_index];
        let line_len = chars_of(line.text.as_str()).len();
        let column = (col - inner.x) as usize;
        let within = if column <= line_len {
            column
        } else {
            line_len
        };
        let lines = self.panel_lines(panel);
        proof {
            self.lemma_wrapped_fits(panel, inner.width as int, viewport_index as int);
            assert(views(lines@)[line.source_line_index as int] == lines@[line.source_line_index as int]@);
        }
        let source_len = chars_of(lines[line.source_line_index].as_str()).len();
        proof {
            assert(line.source_column_start + within <= source_len);
        }
        Some(PanelTextPoint { line_index: line.source_line_index, column: line.source_column_start + within })
    }

    /// A piece of a wrapped panel line ends within its source line.
    pub proof fn lemma_wrapped_fits(self, panel: Panel, width: int, i: int)
        requires
            width >= 0,
            0 <= i < wrapped_lines(self.panel_text(panel), width).len(),
        ensures
            ({
                let w = wrapped_lines(self.panel_text(panel), width)[i];
                0 <= w.0 < self.panel_text(panel).len() && 0 <= w.1 && w.1 + w.2.len() <= self.panel_text(
                    panel,
                )[w.0].len()
            }),
    {
        lemma_wrapped_lines_fit(self.panel_text(panel), width, i);
    }
}

pub proof fn lemma_wrapped_lines_fit(lines: Seq<Seq<char>>, width: int, i: int)
    requires
        width >= 0,
        0 <= i < wrapped_lines(lines, width).len(),
    ensures
        ({
            let w = wrapped_lines(lines, width)[i];
            0 <= w.0 < lines.len() && 0 <= w.1 && w.1 + w.2.len() <= lines[w.0].len()
        }),
    decreases lines.len(),
{
    let k = lines.len() - 1;
    let prev = wrapped_lines(lines.drop_last(), width);
    let segs = wrap_segments(lines.last(), width);
    let tail = segs.map_values(|s: (int, Seq<char>)| (k, s.0, s.1));
    assert(wrapped_lines(lines, width) == prev + tail);
    if i < prev.len() {
        lemma_wrapped_lines_fit(lines.drop_last(), width, i);
        assert(wrapped_lines(lines, width)[i] == prev[i]);
    } else {
        lemma_wrap_keeps_text(lines.last(), width);
        assert(wrapped_lines(lines, width)[i] == tail[i - prev.len()]);
        assert(segs[i - prev.len()].0 >= 0);
    }
}

// ---------------------------------------------------------------------------
// Mouse selection
// ---------------------------------------------------------------------------

/// The selected part of line `i`, for a selection from `s` to `e` whose
/// last line is `fin`: from the start column on the first line, up to the
/// end column on the last line, whole lines in between.
pub open spec fn piece_bounds(line: Seq<char>, s: PanelTextPoint, e: PanelTextPoint, fin: int, i: int) -> (int, int) {
    let len = line.len() as int;
    let sc = if i == s.line_index {
        if s.column <= len {
            s.column as int
        } else {
            len
        }
    } else {
        0
    };
    let ec = if i == fin {
        if e.column <= len {
            e.column as int
        } else {
            len
        }
    } else {
        len
    };
    (sc, ec)
}

/// The selected pieces of lines `i..=fin`; an empty piece on the last line
/// is left out.
pub open spec fn selected_pieces(ls: Seq<Seq<char>>, s: PanelTextPoint, e: PanelTextPoint, fin: int, i: int) -> Seq<Seq<char>>
    decreases fin + 1 - i,
{
    if i > fin || i < 0 || i >= ls.len() {
        Seq::empty()
    } else {
        let (sc, ec) = piece_bounds(ls[i], s, e, fin, i);
        let rest = selected_pieces(ls, s, e, fin, i + 1);
        if i == fin && sc >= ec {
            rest
        } else {
            seq![slice_spec(ls[i], sc, ec)] + rest
        }
    }
}

/// The text a selection from `s` to `e` covers in `ls`, its lines joined by
/// newlines; none for an empty selection or one that starts past the text.
pub open spec fn spec_selected(ls: Seq<Seq<char>>, s: PanelTextPoint, e: PanelTextPoint) -> Option<Seq<char>> {
    if s == e || s.line_index >= ls.len() {
        None
    } else {
        let fin = if e.line_index < ls.len() {
            e.line_index as int
        } else {
            ls.len() - 1
        };
        Some(join(selected_pieces(ls, s, e, fin, s.line_index as int), "\n"@))
    }
}

impl App {
    pub open spec fn spec_selected_text(self) -> Option<Seq<char>> {
        match self.text_selection {
            None => None,
            Some(sel) => {
                let (s, e) = if point_le(sel.anchor, sel.focus) {
                    (sel.anchor, sel.focus)
                } else {
                    (sel.focus, sel.anchor)
                };
                spec_selected(self.panel_text(sel.panel), s, e)
            },
        }
    }

    /// The text that the selection covers.
    pub fn selected_text(&self) -> (r: Option<String>)
        ensures
            match r {
                Some(t) => self.spec_selected_text() == Some(t@),
                None => self.spec_selected_text().is_none(),
            },
    {
        let selection = match self.text_selection {
            Some(s) => s,
            None => return None,
        };
        let (start, end) = normalize_points(selection.anchor, selection.focus);
        if start == end {
            return None;
        }
        let lines = self.panel_lines(selection.panel);
        let ghost ls = views(lines@);
        if start.line_index >= lines.len() {
            return None;
        }
        let final_line = if end.line_index < lines.len() {
            end.line_index
        } else {
            lines.len() - 1
        };
        let ghost fin = final_line as int;
        let mut selected: Vec<String> = Vec::new();
        let mut i: usize = start.line_index;
        proof {
            assert(views(selected@) + selected_pieces(ls, start, end, fin, i as int) =~= selected_pieces(
                ls,
                start,
                end,
                fin,
                start.line_index as int,
            ));
        }
        while i <= final_line
            invariant
                start.line_index <= i <= final_line + 1,
                final_line < lines@.len(),
                final_line < usize::MAX,
                ls == views(lines@),
                fin == final_line,
                views(selected@) + selected_pieces(ls, start, end, fin, i as int) == selected_pieces(
                    ls,
                    start,
                    end,
                    fin,
                    start.line_index as int,
                ),
            decreases final_line + 1 - i,
        {
            let line = lines[i].as_str();
            proof {
                assert(ls[i as int] == line@);
            }
            let line_len = chars_of(line).len();
            let start_column = if i == start.line_index {
                if start.column <= line_len {
                    start.column
                } else {
                    line_len
                }
            } else {
                0
            };
            let end_column = if i == final_line {
                if end.column <= line_len {
                    end.column
                } else {
                    line_len
                }
            } else {
                line_len
            };
            if !(i == final_line && start_column >= end_column) {
                let piece = slice_chars(line, start_column, end_column);
                let ghost before = views(selected@);
                selected.push(piece);
                proof {
                    assert(views(selected@) =~= before.push(piece@));
                    assert(before + selected_pieces(ls, start, end, fin, i as int) =~= views(selected@)
                        + selected_pieces(ls, start, end, fin, i + 1));
                }
            }
            i = i + 1;
        }
        proof {
            assert(selected_pieces(ls, start, end, fin, i as int) =~= Seq::<Seq<char>>::empty());
            assert(views(selected@) + Seq::<Seq<char>>::empty() =~= views(selected@));
        }
        Some(join_strings(&selected, "\n"))
    }

    /// Starts a selection at the text point under the cell, or clears the
    /// selection when there is none.
    pub fn begin_mouse_selection(&mut self, panel: Panel, col: u16, row: u16) -> (r: bool)
        requires
            old(self).rows_fit(panel, row),
        ensures
            r == old(self).spec_point_at(panel, col, row).is_some(),
            match old(self).spec_point_at(panel, col, row) {
                Some(p) => *final(self) == (App {
                    text_selection: Some(PanelTextSelection { panel, anchor: p, focus: p }),
                    mouse_selection_active: true,
                    ..*old(self)
                }),
                None => *final(self) == (App { text_selection: None, mouse_selection_active: false, ..*old(self) }),
            },
    {
        match self.panel_text_point_at(panel, col, row) {
            Some(point) => {
                self.text_selection = Some(PanelTextSelection { panel, anchor: point, focus: point });
                self.mouse_selection_active = true;
                true
            },
            None => {
                self.clear_text_selection();
                false
            },
        }
    }

    /// While the mouse drags, moves the selection's focus to the text point
    /// under the cell.
    pub fn update_mouse_selection(&mut self, col: u16, row: u16) -> (r: bool)
        requires
            match old(self).text_selection {
                Some(sel) => old(self).rows_fit(sel.panel, row),
                None => true,
            },
        ensures
            match old(self).text_selection {
                Some(sel) => if old(self).mouse_selection_active {
                    match old(self).spec_point_at(sel.panel, col, row) {
                        Some(p) => r && *final(self) == (App {
                            text_selection: Some(PanelTextSelection { focus: p, ..sel }),
                            ..*old(self)
                        }),
                        None => !r && *final(self) == *old(self),
                    }
                } else {
                    !r && *final(self) == *old(self)
                },
                None => !r && *final(self) == *old(self),
            },
    {
        let selection = match self.text_selection {
            Some(s) => s,
            None => return false,
        };
        if !self.mouse_selection_active {
            return false;
        }
        let point = match self.panel_text_point_at(selection.panel, col, row) {
            Some(p) => p,
            None => return false,
        };
        self.text_selection = Some(PanelTextSelection { focus: point, ..selection });
        true
    }

    /// What ending a drag at `(col, row)` leaves, and the text it selected
    /// when that is not empty.
    pub open spec fn finish_effect(self, col: u16, row: u16) -> (App, Option<Seq<char>>) {
        if !self.mouse_selection_active {
            (self, None)
        } else {
            let moved = match self.text_selection {
                Some(sel) => match self.spec_point_at(sel.panel, col, row) {
                    Some(p) => App { text_selection: Some(PanelTextSelection { focus: p, ..sel }), ..self },
                    None => self,
                },
                None => self,
            };
            let done = App { mouse_selection_active: false, ..moved };
            match done.spec_selected_text() {
                Some(t) => if t.len() > 0 {
                    (done, Some(t))
                } else {
                    (App { text_selection: None, ..done }, None)
                },
                None => (App { text_selection: None, ..done }, None),
            }
        }
    }

    /// Ends a drag: the selected text when it is not empty; otherwise the
    /// selection is dropped.
    pub fn finish_mouse_selection(&mut self, col: u16, row: u16) -> (r: Option<String>)
        requires
            match old(self).text_selection {
                Some(sel) => old(self).rows_fit(sel.panel, row),
                None => true,
            },
        ensures
            *final(self) == old(self).finish_effect(col, row).0,
            match r {
                Some(t) => old(self).finish_effect(col, row).1 == Some(t@),
                None => old(self).finish_effect(col, row).1.is_none(),
            },
            !old(self).mouse_selection_active ==> r.is_none() && *final(self) == *old(self),
            old(self).mouse_selection_active ==> {
                let moved = match old(self).text_selection {
                    Some(sel) => match old(self).spec_point_at(sel.panel, col, row) {
                        Some(p) => App { text_selection: Some(PanelTextSelection { focus: p, ..sel }), ..*old(self) },
                        None => *old(self),
                    },
                    None => *old(self),
                };
                let done = App { mouse_selection_active: false, ..moved };
                match done.spec_selected_text() {
                    Some(t) => if t.len() > 0 {
                        r matches Some(s) && s@ == t && *final(self) == done
                    } else {
                        r.is_none() && *final(self) == App { text_selection: None, ..done }
                    },
                    None => r.is_none() && *final(self) == App { text_selection: None, ..done },
                }
            },
    {
        if !self.mouse_selection_active {
            return None;
        }
        self.update_mouse_selection(col, row);
        self.mouse_selection_active = false;
        let text = self.selected_text();
        match text {
            Some(t) => {
                if chars_of(t.as_str()).len() > 0 {
                    Some(t)
                } else {
                    self.text_selection = None;
                    None
                }
            },
            None => {
                self.text_selection = None;
                None
            },
        }
    }
}

/// A selection that runs from column `a` of line `i` to column `b` of the
/// next line `j` copies the rest of line `i`, a newline, then the first `b`
/// characters of line `j`: the copied text splits at its newline into one
/// piece per selected line.
pub proof fn law_selection_across_lines_joins_with_newline(ls: Seq<Seq<char>>, i: usize, j: usize, a: usize, b: usize)
    requires
        j == i + 1,
        j < ls.len(),
        a <= ls[i as int].len(),
        0 < b <= ls[j as int].len(),
    ensures
        spec_selected(
            ls,
            PanelTextPoint { line_index: i, column: a },
            PanelTextPoint { line_index: j, column: b },
        ) == Some(ls[i as int].skip(a as int) + seq!['\n'] + ls[j as int].take(b as int)),
{
    reveal_strlit("\n");
    let s = PanelTextPoint { line_index: i, column: a };
    let e = PanelTextPoint { line_index: j, column: b };
    let fin = j as int;
    let first = ls[i as int];
    let second = ls[j as int];
    assert(selected_pieces(ls, s, e, fin, fin + 1) =~= Seq::<Seq<char>>::empty());
    assert(slice_spec(second, 0, b as int) =~= second.take(b as int));
    assert(selected_pieces(ls, s, e, fin, fin) =~= seq![second.take(b as int)]);
    assert(slice_spec(first, a as int, first.len() as int) =~= first.skip(a as int));
    let pieces = seq![first.skip(a as int), second.take(b as int)];
    assert(selected_pieces(ls, s, e, fin, i as int) =~= pieces);
    assert(pieces.drop_last() =~= seq![first.skip(a as int)]);
    assert(join(pieces.drop_last(), "\n"@) == first.skip(a as int));
    assert(join(pieces, "\n"@) =~= first.skip(a as int) + seq!['\n'] + second.take(b as int));
}

/// A selection within one line, from column `a` up to column `b`, copies
/// just the characters between them.
pub proof fn law_selection_within_line(ls: Seq<Seq<char>>, i: usize, a: usize, b: usize)
    requires
        i < ls.len(),
        a < b <= ls[i as int].len(),
    ensures
        spec_selected(
            ls,
            PanelTextPoint { line_index: i, column: a },
            PanelTextPoint { line_index: i, column: b },
        ) == Some(ls[i as int].subrange(a as int, b as int)),
{
    let s = PanelTextPoint { line_index: i, column: a };
    let e = PanelTextPoint { line_index: i, column: b };
    let fin = i as int;
    let line = ls[i as int];
    assert(selected_pieces(ls, s, e, fin, fin + 1) =~= Seq::<Seq<char>>::empty());
    assert(selected_pieces(ls, s, e, fin, fin) =~= seq![line.subrange(a as int, b as int)]);
}

/// A selection over three lines copies the rest of the first line, the
/// middle line whole and the start of the last line, each followed by a
/// newline but the last.
pub proof fn law_selection_keeps_middle_lines_whole(
    ls: Seq<Seq<char>>,
    i: usize,
    j: usize,
    a: usize,
    b: usize,
)
    requires
        j == i + 2,
        j < ls.len(),
        a <= ls[i as int].len(),
        0 < b <= ls[j as int].len(),
    ensures
        spec_selected(
            ls,
            PanelTextPoint { line_index: i, column: a },
            PanelTextPoint { line_index: j, column: b },
        ) == Some(
            ls[i as int].skip(a as int) + seq!['\n'] + ls[i + 1] + seq!['\n'] + ls[j as int].take(
                b as int,
            ),
        ),
{
    reveal_strlit("\n");
    let s = PanelTextPoint { line_index: i, column: a };
    let e = PanelTextPoint { line_index: j, column: b };
    let fin = j as int;
    let first = ls[i as int];
    let middle = ls[i + 1];
    let last = ls[j as int];
    assert(selected_pieces(ls, s, e, fin, fin + 1) =~= Seq::<Seq<char>>::empty());
    assert(slice_spec(last, 0, b as int) =~= last.take(b as int));
    assert(selected_pieces(ls, s, e, fin, fin) =~= seq![last.take(b as int)]);
    assert(slice_spec(middle, 0, middle.len() as int) =~= middle);
    assert(selected_pieces(ls, s, e, fin, i + 1) =~= seq![middle, last.take(b as int)]);
    assert(slice_spec(first, a as int, first.len() as int) =~= first.skip(a as int));
    let pieces = seq![first.skip(a as int), middle, last.take(b as int)];
    assert(selected_pieces(ls, s, e, fin, i as int) =~= pieces);
    assert(pieces.drop_last().drop_last() =~= seq![first.skip(a as int)]);
    assert(join(pieces.drop_last().drop_last(), "\n"@) == first.skip(a as int));
    assert(join(pieces.drop_last(), "\n"@) =~= first.skip(a as int) + seq!['\n'] + middle);
    assert(join(pieces, "\n"@) =~= first.skip(a as int) + seq!['\n'] + middle + seq!['\n'] + last.take(
        b as int,
    ));
}

} // verus!
