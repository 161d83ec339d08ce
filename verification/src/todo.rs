//! The todo panel: the snapshot the todo tool renders, its summary count
//! and the panel's title.
use vstd::prelude::*;

use crate::app::{title_with_focus, titled, todo_empty, todo_empty_lines, App, Panel, TodoPanelStatus, TodoSummary};
use crate::chars::{
    before_char, chars_of, dec, dec_usize, ends_with, index_of_char, is_blank, lines, parse_u64,
    parse_u64_spec, push_char, push_str, slice_vec, split_lines, starts_with, str_eq,
    str_ends_with, str_starts_with, string_of, trim, trim_end, trim_end_string, trim_start,
    trim_start_string, trim_string, views,
};
use crate::text::{strip_ansi, without_escapes};

verus! {

/// What `str::parse::<usize>` accepts.
pub open spec fn parse_usize_spec(s: Seq<char>) -> Option<usize> {
    match parse_u64_spec(s) {
        Some(v) => if v <= usize::MAX {
            Some(v as usize)
        } else {
            None
        },
        None => None,
    }
}

fn parse_usize(s: &str) -> (r: Option<usize>)
    ensures
        r == parse_usize_spec(s@),
{
    match parse_u64(s) {
        Some(v) => if v <= usize::MAX as u64 {
            Some(v as usize)
        } else {
            None
        },
        None => None,
    }
}

/// The count of a summary line `(<completed>/<total> completed)`.
pub open spec fn spec_summary_line(line: Seq<char>) -> Option<TodoSummary> {
    let t = trim(line);
    if !(starts_with(t, "("@) && ends_with(t.skip(1), " completed)"@)) {
        None
    } else {
        let rest = t.skip(1);
        let inner = rest.take(rest.len() - 11);
        let a = before_char(inner, '/');
        if a.len() == inner.len() {
            None
        } else {
            let b = inner.skip(a.len() as int + 1);
            match (parse_usize_spec(trim(a)), parse_usize_spec(trim(b))) {
                (Some(c), Some(n)) => Some(TodoSummary { completed: c, total: n }),
                _ => None,
            }
        }
    }
}

fn summary_of_line(line: &str) -> (r: Option<TodoSummary>)
    ensures
        r == spec_summary_line(line@),
{
    let t = trim_string(line);
    proof {
        reveal_strlit("(");
        reveal_strlit(" completed)");
    }
    if !str_starts_with(t.as_str(), "(") {
        return None;
    }
    let tv = chars_of(t.as_str());
    let rest = string_of(slice_vec(&tv, 1, tv.len()).as_slice());
    proof {
        reveal_strlit("(");
        assert(rest@ =~= t@.skip(1));
    }
    if !str_ends_with(rest.as_str(), " completed)") {
        return None;
    }
    let rv = chars_of(rest.as_str());
    proof {
        reveal_strlit(" completed)");
    }
    let inner = slice_vec(&rv, 0, rv.len() - 11);
    proof {
        assert(inner@ =~= rest@.take(rest@.len() - 11));
    }
    let k = index_of_char(&inner, '/');
    proof {
        assert(inner@.take(k as int).len() == k);
    }
    if k == inner.len() {
        return None;
    }
    let a = string_of(slice_vec(&inner, 0, k).as_slice());
    let b = string_of(slice_vec(&inner, k + 1, inner.len()).as_slice());
    proof {
        assert(a@ =~= inner@.take(k as int));
        assert(b@ =~= inner@.skip(k + 1));
    }
    let c = parse_usize(trim_string(a.as_str()).as_str());
    let n = parse_usize(trim_string(b.as_str()).as_str());
    match (c, n) {
        (Some(c), Some(n)) => Some(TodoSummary { completed: c, total: n }),
        _ => None,
    }
}

/// Takes a trailing summary line off `lines` (and an empty line before it)
/// and returns its count.
pub fn extract_summary(lines: &mut Vec<String>) -> (r: Option<TodoSummary>)
    ensures
        old(lines)@.len() == 0 ==> r.is_none() && final(lines)@ == old(lines)@,
        old(lines)@.len() > 0 ==> match spec_summary_line(old(lines)@.last()@) {
            None => r.is_none() && final(lines)@ == old(lines)@,
            Some(s) => {
                let rest = old(lines)@.drop_last();
                &&& r == Some(s)
                &&& final(lines)@ == if rest.len() > 0 && rest.last()@.len() == 0 {
                    rest.drop_last()
                } else {
                    rest
                }
            },
        },
{
    if lines.len() == 0 {
        return None;
    }
    let summary = match summary_of_line(lines[lines.len() - 1].as_str()) {
        Some(s) => s,
        None => return None,
    };
    lines.pop();
    if lines.len() > 0 && chars_of(lines[lines.len() - 1].as_str()).len() == 0 {
        lines.pop();
    }
    Some(summary)
}

/// Whether a line is a todo item: `[ ]`, `[>]` or `[x]` after leading
/// whitespace, and whether it is done (`[x]`).
pub open spec fn is_item(line: Seq<char>) -> bool {
    let t = trim_start(line);
    starts_with(t, "[ ]"@) || starts_with(t, "[>]"@) || starts_with(t, "[x]"@)
}

pub open spec fn is_done(line: Seq<char>) -> bool {
    starts_with(trim_start(line), "[x]"@)
}

pub open spec fn item_count(ls: Seq<Seq<char>>) -> nat
    decreases ls.len(),
{
    if ls.len() == 0 {
        0
    } else {
        item_count(ls.drop_last()) + if is_item(ls.last()) {
            1nat
        } else {
            0nat
        }
    }
}

pub open spec fn done_count(ls: Seq<Seq<char>>) -> nat
    decreases ls.len(),
{
    if ls.len() == 0 {
        0
    } else {
        done_count(ls.drop_last()) + if is_done(ls.last()) {
            1nat
        } else {
            0nat
        }
    }
}

proof fn lemma_counts(ls: Seq<Seq<char>>)
    ensures
        done_count(ls) <= item_count(ls) <= ls.len(),
    decreases ls.len(),
{
    if ls.len() > 0 {
        lemma_counts(ls.drop_last());
    }
}

/// The count of the items among the lines, when there are any.
pub open spec fn spec_summarize(ls: Seq<Seq<char>>) -> Option<TodoSummary> {
    if item_count(ls) == 0 {
        None
    } else {
        Some(TodoSummary { completed: done_count(ls) as usize, total: item_count(ls) as usize })
    }
}

pub fn summarize_todo_lines(lines: &Vec<String>) -> (r: Option<TodoSummary>)
    ensures
        r == spec_summarize(views(lines@)),
{
    let ghost ls = views(lines@);
    let mut total: usize = 0;
    let mut completed: usize = 0;
    let mut i: usize = 0;
    while i < lines.len()
        invariant
            i <= lines@.len(),
            ls == views(lines@),
            total == item_count(ls.take(i as int)),
            completed == done_count(ls.take(i as int)),
        decreases lines.len() - i,
    {
        proof {
            assert(ls.take(i + 1).drop_last() =~= ls.take(i as int));
            assert(ls.take(i + 1).last() == lines@[i as int]@);
            lemma_counts(ls.take(i as int));
        }
        let t = trim_start_string(lines[i].as_str());
        let s = t.as_str();
        if str_starts_with(s, "[ ]") || str_starts_with(s, "[>]") || str_starts_with(s, "[x]") {
            total = total + 1;
            if str_starts_with(s, "[x]") {
                completed = completed + 1;
            }
        }
        i = i + 1;
    }
    proof {
        assert(ls.take(lines@.len() as int) =~= ls);
    }
    if total == 0 {
        None
    } else {
        Some(TodoSummary { completed, total })
    }
}

/// A todo item as the panel shows it: the marker `[x] `, `[>] ` or `[ ] `
/// after the indentation becomes `✓ `, `→ ` or `○ `; other lines stay.
pub open spec fn marked(line: Seq<char>) -> Seq<char> {
    let t = trim_start(line);
    let lead = line.take(line.len() - t.len());
    if starts_with(t, "[x] "@) {
        lead + "✓ "@ + t.skip(4)
    } else if starts_with(t, "[>] "@) {
        lead + "→ "@ + t.skip(4)
    } else if starts_with(t, "[ ] "@) {
        lead + "○ "@ + t.skip(4)
    } else {
        line
    }
}

proof fn lemma_trim_start_suffix(s: Seq<char>)
    ensures
        trim_start(s).len() <= s.len(),
        trim_start(s) == s.skip(s.len() - trim_start(s).len()),
    decreases s.len(),
{
    if s.len() > 0 && crate::chars::is_ws(s[0]) {
        lemma_trim_start_suffix(s.drop_first());
        assert(s.drop_first().skip(s.drop_first().len() - trim_start(s).len()) =~= s.skip(
            s.len() - trim_start(s).len(),
        ));
    } else {
        assert(s.skip(0) =~= s);
    }
}

fn mark_line(line: &str) -> (r: String)
    ensures
        r@ == marked(line@),
{
    let t = trim_start_string(line);
    let v = chars_of(line);
    let tv = chars_of(t.as_str());
    proof {
        lemma_trim_start_suffix(line@);
    }
    let lead_len = v.len() - tv.len();
    let mut out = string_of(slice_vec(&v, 0, lead_len).as_slice());
    proof {
        assert(out@ =~= line@.take(line@.len() - t@.len()));
    }
    let marker = if str_starts_with(t.as_str(), "[x] ") {
        "✓ "
    } else if str_starts_with(t.as_str(), "[>] ") {
        "→ "
    } else if str_starts_with(t.as_str(), "[ ] ") {
        "○ "
    } else {
        return line.to_owned();
    };
    proof {
        reveal_strlit("[x] ");
        reveal_strlit("[>] ");
        reveal_strlit("[ ] ");
    }
    push_str(&mut out, marker);
    let rest = string_of(slice_vec(&tv, 4, tv.len()).as_slice());
    proof {
        assert(rest@ =~= t@.skip(4));
    }
    push_str(&mut out, rest.as_str());
    out
}

/// The lines and count a rendered todo list shows: escape sequences
/// removed; a trailing summary line taken off (its count used, else the
/// items counted); a trailing empty line dropped; item markers drawn as
/// symbols.
pub open spec fn snapshot_lines(clean: Seq<char>) -> (Seq<Seq<char>>, Option<TodoSummary>) {
    let ls = lines(clean);
    let (ls2, summary) = if ls.len() > 0 && spec_summary_line(ls.last()).is_some() {
        let rest = ls.drop_last();
        (
            if rest.len() > 0 && rest.last().len() == 0 {
                rest.drop_last()
            } else {
                rest
            },
            spec_summary_line(ls.last()),
        )
    } else {
        (ls, spec_summarize(ls))
    };
    let ls3 = if ls2.len() > 0 && ls2.last().len() == 0 {
        ls2.drop_last()
    } else {
        ls2
    };
    (ls3.map_values(|l: Seq<char>| marked(l)), summary)
}

/// Whether a rendered todo list says there is nothing to do.
pub open spec fn empty_snapshot(clean: Seq<char>) -> bool {
    trim(clean).len() == 0 || trim(clean) == "No todos."@
}

impl App {
    /// `after` is `before` showing the todo list `rendered` of turn
    /// `turn_id`.
    pub open spec fn todo_snapshot_shown(before: App, after: App, turn_id: u64, rendered: Seq<char>) -> bool {
        let clean = without_escapes(rendered);
        &&& after.last_todo_turn_id == Some(turn_id)
        &&& if empty_snapshot(clean) {
            &&& after.todo_status == TodoPanelStatus::Empty
            &&& after.todo_summary == Some(TodoSummary { completed: 0, total: 0 })
            &&& views(after.todo_lines@) == todo_empty()
        } else {
            &&& after.todo_status == TodoPanelStatus::Ready
            &&& after.todo_summary == snapshot_lines(clean).1
            &&& views(after.todo_lines@) == snapshot_lines(clean).0
        }
        &&& after == (App {
            last_todo_turn_id: Some(turn_id),
            todo_status: after.todo_status,
            todo_summary: after.todo_summary,
            todo_lines: after.todo_lines,
            ..before
        })
    }

    /// Shows the todo list that turn `turn_id` rendered.
    pub fn set_todo_snapshot(&mut self, turn_id: u64, rendered: &str)
        ensures
            App::todo_snapshot_shown(*old(self), *final(self), turn_id, rendered@),
    {
        let clean = strip_ansi(rendered);
        self.last_todo_turn_id = Some(turn_id);
        let t = trim_string(clean.as_str());
        if is_blank(clean.as_str()) || str_eq(t.as_str(), "No todos.") {
            self.todo_status = TodoPanelStatus::Empty;
            self.todo_summary = Some(TodoSummary { completed: 0, total: 0 });
            self.todo_lines = todo_empty_lines();
            return;
        }
        let mut ls = split_lines(clean.as_str());
        let ghost l0 = views(ls@);
        let summary = match extract_summary(&mut ls) {
            Some(s) => Some(s),
            None => summarize_todo_lines(&ls),
        };
        proof {
            assert(views(ls@) =~= if l0.len() > 0 && spec_summary_line(l0.last()).is_some() {
                let rest = l0.drop_last();
                if rest.len() > 0 && rest.last().len() == 0 {
                    rest.drop_last()
                } else {
                    rest
                }
            } else {
                l0
            });
        }
        let ghost l2 = views(ls@);
        if ls.len() > 0 && chars_of(ls[ls.len() - 1].as_str()).len() == 0 {
            ls.pop();
            proof {
                assert(views(ls@) =~= l2.drop_last());
            }
        }
        let ghost l3 = views(ls@);
        let mut out: Vec<String> = Vec::new();
        let mut i: usize = 0;
        while i < ls.len()
            invariant
                i <= ls@.len(),
                l3 == views(ls@),
                views(out@) == l3.take(i as int).map_values(|l: Seq<char>| marked(l)),
            decreases ls.len() - i,
        {
            let m = mark_line(ls[i].as_str());
            let ghost prev = views(out@);
            out.push(m);
            proof {
                assert(l3[i as int] == ls@[i as int]@);
                assert(l3.take(i + 1).map_values(|l: Seq<char>| marked(l)) =~= l3.take(i as int).map_values(
                    |l: Seq<char>| marked(l),
                ).push(marked(l3[i as int])));
                assert(views(out@) =~= prev.push(m@));
            }
            i = i + 1;
        }
        proof {
            assert(l3.take(ls@.len() as int) =~= l3);
        }
        self.todo_status = TodoPanelStatus::Ready;
        self.todo_summary = summary;
        self.todo_lines = out;
    }

    /// The base title of the todo panel, by its state.
    pub open spec fn todo_title_base(self) -> Seq<char> {
        match self.todo_status {
            TodoPanelStatus::NeverSynced => " Todos "@,
            TodoPanelStatus::Empty => " Todos empty "@,
            TodoPanelStatus::Ready => match self.todo_summary {
                Some(s) => " Todos "@ + dec(s.completed as nat) + "/"@ + dec(s.total as nat) + " "@,
                None => " Todos "@,
            },
        }
    }

    /// The title of the todo panel: its count, `(stale)` while a newer turn
    /// runs without a snapshot, and the focus marker.
    pub open spec fn spec_todo_title(self) -> Seq<char> {
        let base = self.todo_title_base();
        let stale = self.is_running && self.last_todo_turn_id != Some(self.active_turn_id);
        let t = if stale {
            trim_end(base) + "(stale) "@
        } else {
            base
        };
        titled(t, self.focused_panel == Panel::Todo)
    }

    pub fn todo_panel_title(&self) -> (r: String)
        ensures
            r@ == self.spec_todo_title(),
    {
        let mut title = match self.todo_status {
            TodoPanelStatus::NeverSynced => " Todos ".to_owned(),
            TodoPanelStatus::Empty => " Todos empty ".to_owned(),
            TodoPanelStatus::Ready => match self.todo_summary {
                Some(s) => {
                    let mut t = " Todos ".to_owned();
                    push_str(&mut t, dec_usize(s.completed).as_str());
                    push_str(&mut t, "/");
                    push_str(&mut t, dec_usize(s.total).as_str());
                    push_str(&mut t, " ");
                    t
                },
                None => " Todos ".to_owned(),
            },
        };
        if self.todo_refresh_pending() {
            let mut t = trim_end_string(title.as_str());
            push_str(&mut t, "(stale) ");
            title = t;
        }
        title_with_focus(title.as_str(), self.focused_panel == Panel::Todo)
    }
}

} // verus!
