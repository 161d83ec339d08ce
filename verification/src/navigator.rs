//! The document navigator: a rail of linked documents beside the body of
//! the active one, with a short history of the documents visited before.
use vstd::prelude::*;

use crate::app::{sat_sub, Panel};
use crate::chars::{chars_of, owned, str_eq};

verus! {

#[derive(Debug, Clone, Copy, PartialEq, Eq, Structural)]
pub enum DocumentNavigatorGroup {
    Context,
    Related,
    History,
}

#[derive(Debug, Clone, Copy, PartialEq, Eq, Structural)]
pub enum DocumentNavigatorEntryKind {
    Document,
    File,
}

#[derive(Debug, Clone, Copy, PartialEq, Eq, Structural)]
pub enum DocumentNavigatorBodyKind {
    Markdown,
    File,
}

/// What the navigator shows of an entry when it is active.
#[derive(Debug, Clone, PartialEq, Eq)]
pub struct DocumentNavigatorBody {
    pub title: String,
    pub subtitle: Option<String>,
    pub breadcrumbs: Vec<String>,
    pub kind: DocumentNavigatorBodyKind,
    pub lines: Vec<String>,
}

/// One linked document.
#[derive(Debug, Clone, PartialEq, Eq)]
pub struct DocumentNavigatorEntry {
    pub id: String,
    pub label: String,
    pub subtitle: Option<String>,
    pub preview: Option<String>,
    pub group: DocumentNavigatorGroup,
    pub kind: DocumentNavigatorEntryKind,
    pub disabled_reason: Option<String>,
    pub body: DocumentNavigatorBody,
}

/// What the runtime asks the navigator to show.
#[derive(Debug, Clone, PartialEq, Eq)]
pub struct DocumentNavigatorRequest {
    pub navigator_id: String,
    pub title: String,
    pub origin_label: String,
    pub active_entry_id: String,
    pub entries: Vec<DocumentNavigatorEntry>,
}

#[derive(Debug, Clone, Copy, PartialEq, Eq, Structural)]
pub enum DocumentNavigatorFocus {
    Rail,
    Content,
}

/// A row of the rail.
#[derive(Debug, Clone, PartialEq, Eq)]
pub struct DocumentNavigatorRailItem {
    pub id: String,
    pub group: DocumentNavigatorGroup,
    pub label: String,
    pub subtitle: Option<String>,
    pub kind: DocumentNavigatorEntryKind,
}

#[derive(Debug, Clone, PartialEq, Eq)]
pub struct DocumentNavigatorOverlay {
    pub origin_panel: Panel,
    pub request: DocumentNavigatorRequest,
    pub selected: usize,
    pub focus: DocumentNavigatorFocus,
    pub content_scroll: usize,
    pub history_entry_ids: Vec<String>,
    pub dismiss_on_backdrop: bool,
}

/// How many documents the history keeps.
pub const HISTORY_LIMIT: usize = 5;

/// The position of the first entry from `i` on with id `id`, or -1.
pub open spec fn entry_index_from(entries: Seq<DocumentNavigatorEntry>, id: Seq<char>, i: int) -> int
    decreases entries.len() - i,
{
    if i < 0 || i >= entries.len() {
        -1
    } else if entries[i].id@ == id {
        i
    } else {
        entry_index_from(entries, id, i + 1)
    }
}

/// The position of the first entry with id `id`, or -1.
pub open spec fn entry_index(entries: Seq<DocumentNavigatorEntry>, id: Seq<char>) -> int {
    entry_index_from(entries, id, 0)
}

/// The rows of the rail among the first `n` entries: the positions of the
/// entries outside the history group, in order.
pub open spec fn main_rows(entries: Seq<DocumentNavigatorEntry>, n: int) -> Seq<(int, bool)>
    decreases n,
{
    if n <= 0 {
        Seq::empty()
    } else if entries[n - 1].group != DocumentNavigatorGroup::History {
        main_rows(entries, n - 1).push((n - 1, false))
    } else {
        main_rows(entries, n - 1)
    }
}

/// The history rows for the `n` newest history ids, newest first: the
/// position of the entry each names, where one does.
pub open spec fn history_rows(entries: Seq<DocumentNavigatorEntry>, history: Seq<Seq<char>>, n: int) -> Seq<(int, bool)>
    decreases n,
{
    if n <= 0 || n > history.len() {
        Seq::empty()
    } else {
        let rest = history_rows(entries, history, n - 1);
        let idx = entry_index(entries, history[history.len() - n]);
        if idx >= 0 {
            rest.push((idx, true))
        } else {
            rest
        }
    }
}

/// `history` without the ids equal to `x`.
pub open spec fn without_id(history: Seq<Seq<char>>, x: Seq<char>) -> Seq<Seq<char>>
    decreases history.len(),
{
    if history.len() == 0 {
        history
    } else {
        let rest = without_id(history.drop_last(), x);
        if history.last() == x {
            rest
        } else {
            rest.push(history.last())
        }
    }
}

/// `history` without the ids that name no entry.
pub open spec fn known_ids(history: Seq<Seq<char>>, entries: Seq<DocumentNavigatorEntry>) -> Seq<Seq<char>>
    decreases history.len(),
{
    if history.len() == 0 {
        history
    } else {
        let rest = known_ids(history.drop_last(), entries);
        if entry_index(entries, history.last()) >= 0 {
            rest.push(history.last())
        } else {
            rest
        }
    }
}

/// `previous` moved to the end of the history, of which the last five
/// are kept; an empty id leaves it as it is.
pub open spec fn visited(history: Seq<Seq<char>>, previous: Seq<char>) -> Seq<Seq<char>> {
    if previous.len() == 0 {
        history
    } else {
        let h = without_id(history, previous).push(previous);
        if h.len() > 5 {
            h.skip(h.len() - 5)
        } else {
            h
        }
    }
}

/// The active entry after a new request: the one it names when it has
/// it, else the one active before when the new request has it, else its
/// first entry (none when it is empty).
pub open spec fn replaced_active(request: DocumentNavigatorRequest, previous: Seq<char>) -> Seq<char> {
    if entry_index(request.entries@, request.active_entry_id@) >= 0 {
        request.active_entry_id@
    } else if entry_index(request.entries@, previous) >= 0 {
        previous
    } else if request.entries@.len() > 0 {
        request.entries@[0].id@
    } else {
        Seq::empty()
    }
}

/// The first row from `j` on whose entry has id `id`, or the first row.
pub open spec fn row_of_from(
    rows: Seq<(int, bool)>,
    entries: Seq<DocumentNavigatorEntry>,
    id: Seq<char>,
    j: int,
) -> int
    decreases rows.len() - j,
{
    if j < 0 || j >= rows.len() {
        0
    } else if entries[rows[j].0].id@ == id {
        j
    } else {
        row_of_from(rows, entries, id, j + 1)
    }
}

impl DocumentNavigatorOverlay {
    pub open spec fn history(self) -> Seq<Seq<char>> {
        self.history_entry_ids@.map_values(|s: String| s@)
    }

    /// The rows of the rail: the entries outside the history group, then
    /// the history, newest first.
    pub open spec fn rows(self) -> Seq<(int, bool)> {
        main_rows(self.request.entries@, self.request.entries@.len() as int) + history_rows(
            self.request.entries@,
            self.history(),
            self.history().len() as int,
        )
    }

    /// The row of the active entry, or the first row.
    pub open spec fn active_row(self) -> int {
        row_of_from(self.rows(), self.request.entries@, self.request.active_entry_id@, 0)
    }

    /// Whether `item` is the rail row for `row`.
    pub open spec fn shows_row(self, item: DocumentNavigatorRailItem, row: (int, bool)) -> bool {
        let e = self.request.entries@[row.0];
        &&& item.id@ == e.id@
        &&& item.label@ == e.label@
        &&& item.subtitle == e.subtitle
        &&& item.kind == e.kind
        &&& item.group == if row.1 {
            DocumentNavigatorGroup::History
        } else {
            e.group
        }
    }
}

proof fn lemma_entry_index_from(entries: Seq<DocumentNavigatorEntry>, id: Seq<char>, i: int)
    requires
        0 <= i,
    ensures
        entry_index_from(entries, id, i) == -1 || (i <= entry_index_from(entries, id, i) < entries.len()
            && entries[entry_index_from(entries, id, i)].id@ == id),
    decreases entries.len() - i,
{
    if i < entries.len() && entries[i].id@ != id {
        lemma_entry_index_from(entries, id, i + 1);
    }
}

proof fn lemma_without_id_len(history: Seq<Seq<char>>, x: Seq<char>)
    ensures
        without_id(history, x).len() <= history.len(),
        forall|k: int| 0 <= k < without_id(history, x).len() ==> #[trigger] without_id(history, x)[k] != x,
    decreases history.len(),
{
    if history.len() > 0 {
        lemma_without_id_len(history.drop_last(), x);
    }
}

/// Visiting a document keeps the history at most five long, ends it with
/// the document visited (when it has an id), and keeps that document there
/// once only.
pub proof fn law_history_bounded(history: Seq<Seq<char>>, previous: Seq<char>)
    requires
        history.len() <= 5,
    ensures
        visited(history, previous).len() <= 5,
        previous.len() > 0 ==> visited(history, previous).last() == previous,
        previous.len() > 0 ==> forall|k: int|
            0 <= k < visited(history, previous).len() - 1 ==> #[trigger] visited(history, previous)[k] != previous,
{
    if previous.len() > 0 {
        lemma_without_id_len(history, previous);
        let h = without_id(history, previous).push(previous);
        if h.len() > 5 {
            assert forall|k: int| 0 <= k < h.skip(h.len() - 5).len() - 1 implies #[trigger] h.skip(h.len() - 5)[k]
                != previous by {
                assert(h.skip(h.len() - 5)[k] == without_id(history, previous)[k + h.len() - 5]);
            }
        } else {
            assert forall|k: int| 0 <= k < h.len() - 1 implies #[trigger] h[k] != previous by {
                assert(h[k] == without_id(history, previous)[k]);
            }
        }
    }
}

proof fn lemma_main_rows(entries: Seq<DocumentNavigatorEntry>, n: int)
    requires
        0 <= n <= entries.len(),
    ensures
        forall|j: int| 0 <= j < main_rows(entries, n).len() ==> 0 <= #[trigger] main_rows(entries, n)[j].0 < n,
    decreases n,
{
    if n > 0 {
        lemma_main_rows(entries, n - 1);
        let prev = main_rows(entries, n - 1);
        assert forall|j: int| 0 <= j < main_rows(entries, n).len() implies 0 <= #[trigger] main_rows(entries, n)[j].0
            < n by {
            if j < prev.len() {
                assert(main_rows(entries, n)[j] == prev[j]);
            }
        }
    }
}

proof fn lemma_history_rows(entries: Seq<DocumentNavigatorEntry>, history: Seq<Seq<char>>, m: int)
    ensures
        forall|j: int|
            0 <= j < history_rows(entries, history, m).len() ==> 0 <= #[trigger] history_rows(entries, history, m)[j].0
                < entries.len(),
    decreases m,
{
    if m > 0 && m <= history.len() {
        lemma_history_rows(entries, history, m - 1);
        lemma_entry_index_from(entries, history[history.len() - m], 0);
        let prev = history_rows(entries, history, m - 1);
        assert forall|j: int| 0 <= j < history_rows(entries, history, m).len() implies 0 <= #[trigger] history_rows(
            entries,
            history,
            m,
        )[j].0 < entries.len() by {
            if j < prev.len() {
                assert(history_rows(entries, history, m)[j] == prev[j]);
            }
        }
    }
}

/// The position of the first entry with id `id`.
fn find_entry(entries: &Vec<DocumentNavigatorEntry>, id: &str) -> (r: Option<usize>)
    ensures
        match r {
            Some(i) => i == entry_index(entries@, id@) && i < entries@.len(),
            None => entry_index(entries@, id@) == -1,
        },
{
    let mut i: usize = 0;
    while i < entries.len()
        invariant
            i <= entries@.len(),
            entry_index(entries@, id@) == entry_index_from(entries@, id@, i as int),
        decreases entries.len() - i,
    {
        if str_eq(entries[i].id.as_str(), id) {
            return Some(i);
        }
        i = i + 1;
    }
    None
}

/// `history` without `x`.
fn remove_id(history: &Vec<String>, x: &str) -> (r: Vec<String>)
    ensures
        r@.map_values(|s: String| s@) == without_id(history@.map_values(|s: String| s@), x@),
{
    let mut out: Vec<String> = Vec::new();
    let mut i: usize = 0;
    while i < history.len()
        invariant
            i <= history@.len(),
            out@.map_values(|s: String| s@) == without_id(history@.map_values(|s: String| s@).take(i as int), x@),
        decreases history.len() - i,
    {
        let ghost h = history@.map_values(|s: String| s@);
        let ghost before = out@;
        proof {
            assert(h.take(i + 1).drop_last() =~= h.take(i as int));
            assert(h.take(i + 1).last() == history@[i as int]@);
        }
        if !str_eq(history[i].as_str(), x) {
            out.push(owned(history[i].as_str()));
            proof {
                assert(out@.map_values(|s: String| s@) =~= before.map_values(|s: String| s@).push(history@[i as int]@));
            }
        }
        i = i + 1;
    }
    proof {
        assert(history@.map_values(|s: String| s@).take(history@.len() as int) =~= history@.map_values(|s: String| s@));
    }
    out
}

/// `history` without the ids that name no entry.
fn keep_known(history: &Vec<String>, entries: &Vec<DocumentNavigatorEntry>) -> (r: Vec<String>)
    ensures
        r@.map_values(|s: String| s@) == known_ids(history@.map_values(|s: String| s@), entries@),
{
    let mut out: Vec<String> = Vec::new();
    let mut i: usize = 0;
    while i < history.len()
        invariant
            i <= history@.len(),
            out@.map_values(|s: String| s@) == known_ids(history@.map_values(|s: String| s@).take(i as int), entries@),
        decreases history.len() - i,
    {
        let ghost h = history@.map_values(|s: String| s@);
        let ghost before = out@;
        proof {
            assert(h.take(i + 1).drop_last() =~= h.take(i as int));
            assert(h.take(i + 1).last() == history@[i as int]@);
        }
        if find_entry(entries, history[i].as_str()).is_some() {
            out.push(owned(history[i].as_str()));
            proof {
                assert(out@.map_values(|s: String| s@) =~= before.map_values(|s: String| s@).push(history@[i as int]@));
            }
        }
        i = i + 1;
    }
    proof {
        assert(history@.map_values(|s: String| s@).take(history@.len() as int) =~= history@.map_values(|s: String| s@));
    }
    out
}

/// `previous` moved to the end of `history`, the last five kept.
fn visit(history: &Vec<String>, previous: &str) -> (r: Vec<String>)
    requires
        previous@.len() > 0,
    ensures
        r@.map_values(|s: String| s@) == visited(history@.map_values(|s: String| s@), previous@),
{
    let mut h = remove_id(history, previous);
    let ghost before = h@;
    h.push(owned(previous));
    proof {
        assert(h@.map_values(|s: String| s@) =~= before.map_values(|s: String| s@).push(previous@));
    }
    if h.len() > HISTORY_LIMIT {
        let start = h.len() - HISTORY_LIMIT;
        let mut out: Vec<String> = Vec::new();
        let mut i: usize = start;
        while i < h.len()
            invariant
                start <= i <= h@.len(),
                start == h@.len() - 5,
                out@.map_values(|s: String| s@) == h@.map_values(|s: String| s@).subrange(start as int, i as int),
            decreases h.len() - i,
        {
            let ghost b = out@;
            out.push(owned(h[i].as_str()));
            proof {
                assert(out@.map_values(|s: String| s@) =~= b.map_values(|s: String| s@).push(h@[i as int]@));
                assert(h@.map_values(|s: String| s@).subrange(start as int, i + 1) =~= h@.map_values(
                    |s: String| s@,
                ).subrange(start as int, i as int).push(h@[i as int]@));
            }
            i = i + 1;
        }
        proof {
            assert(h@.map_values(|s: String| s@).subrange(start as int, h@.len() as int) =~= h@.map_values(
                |s: String| s@,
            ).skip(h@.len() - 5));
        }
        out
    } else {
        h
    }
}

impl DocumentNavigatorOverlay {
    /// The rows of the rail, as positions of entries and whether they stand
    /// for the history.
    fn rail_rows(&self) -> (r: Vec<(usize, bool)>)
        ensures
            r@.len() == self.rows().len(),
            forall|j: int|
                0 <= j < r@.len() ==> r@[j].0 == self.rows()[j].0 && r@[j].1 == self.rows()[j].1
                    && r@[j].0 < self.request.entries@.len(),
    {
        let entries = &self.request.entries;
        let ghost es = entries@;
        let ghost h = self.history();
        let mut out: Vec<(usize, bool)> = Vec::new();
        let mut i: usize = 0;
        while i < entries.len()
            invariant
                i <= es.len(),
                es == entries@,
                out@.len() == main_rows(es, i as int).len(),
                forall|j: int|
                    0 <= j < out@.len() ==> out@[j].0 == main_rows(es, i as int)[j].0 && out@[j].1 == main_rows(
                        es,
                        i as int,
                    )[j].1 && out@[j].0 < i,
            decreases entries.len() - i,
        {
            let is_history = match entries[i].group {
                DocumentNavigatorGroup::History => true,
                _ => false,
            };
            if !is_history {
                out.push((i, false));
            }
            i = i + 1;
        }
        let ghost main_len = out@.len();
        let history = &self.history_entry_ids;
        let mut k: usize = 0;
        while k < history.len()
            invariant
                k <= history@.len(),
                h == history@.map_values(|s: String| s@),
                es == entries@,
                main_len == main_rows(es, es.len() as int).len(),
                out@.len() == main_len + history_rows(es, h, k as int).len(),
                forall|j: int|
                    0 <= j < main_len ==> out@[j].0 == main_rows(es, es.len() as int)[j].0 && out@[j].1 == main_rows(
                        es,
                        es.len() as int,
                    )[j].1 && out@[j].0 < es.len(),
                forall|j: int|
                    0 <= j < history_rows(es, h, k as int).len() ==> out@[main_len + j].0 == history_rows(
                        es,
                        h,
                        k as int,
                    )[j].0 && out@[main_len + j].1 == history_rows(es, h, k as int)[j].1 && out@[main_len + j].0
                        < es.len(),
            decreases history.len() - k,
        {
            let id = &history[history.len() - 1 - k];
            proof {
                assert(h[h.len() - (k + 1)] == id@);
                lemma_entry_index_from(es, id@, 0);
            }
            match find_entry(entries, id.as_str()) {
                Some(idx) => {
                    out.push((idx, true));
                },
                None => {},
            }
            k = k + 1;
        }
        proof {
            let main = main_rows(es, es.len() as int);
            let hist = history_rows(es, h, h.len() as int);
            assert(self.rows() == main + hist);
            assert forall|j: int| 0 <= j < out@.len() implies out@[j].0 == self.rows()[j].0 && out@[j].1
                == self.rows()[j].1 && out@[j].0 < self.request.entries@.len() by {
                if j >= main_len {
                    let jj = j - main_len;
                    assert(out@[main_len + jj].0 == hist[jj].0);
                }
            }
        }
        out
    }

    /// The row of the active entry, or the first row.
    fn active_row_index(&self) -> (r: usize)
        ensures
            r == self.active_row(),
    {
        let rows = self.rail_rows();
        let ghost rs = self.rows();
        let ghost es = self.request.entries@;
        let ghost active = self.request.active_entry_id@;
        let mut j: usize = 0;
        while j < rows.len()
            invariant
                j <= rows@.len(),
                rows@.len() == rs.len(),
                rs == self.rows(),
                es == self.request.entries@,
                active == self.request.active_entry_id@,
                forall|t: int|
                    0 <= t < rows@.len() ==> rows@[t].0 == rs[t].0 && rows@[t].1 == rs[t].1 && rows@[t].0 < es.len(),
                self.active_row() == row_of_from(rs, es, active, j as int),
            decreases rows.len() - j,
        {
            let idx = rows[j].0;
            if str_eq(self.request.entries[idx].id.as_str(), self.request.active_entry_id.as_str()) {
                return j;
            }
            j = j + 1;
        }
        0
    }

    fn sync_selection_to_active(&mut self)
        ensures
            final(self).selected == old(self).active_row(),
            *final(self) == (DocumentNavigatorOverlay { selected: final(self).selected, ..*old(self) }),
            final(self).rows() == old(self).rows(),
            final(self).active_row() == old(self).active_row(),
    {
        let found = self.active_row_index();
        self.selected = found;
    }
}

fn copy_opt_text(o: &Option<String>) -> (r: Option<String>)
    ensures
        r == *o,
{
    match o {
        Some(t) => Some(t.clone()),
        None => None,
    }
}

impl DocumentNavigatorOverlay {
    /// `self` with everything but the request, the history, the scroll and
    /// the selection kept from `other`.
    pub open spec fn same_frame(self, other: Self) -> bool {
        &&& self.origin_panel == other.origin_panel
        &&& self.focus == other.focus
        &&& self.dismiss_on_backdrop == other.dismiss_on_backdrop
    }

    /// Whether `after` is `before` with the selected row's entry made the
    /// active one: a change of entry moves the one that was active to the
    /// end of the history (keeping the last five) and scrolls the body to
    /// the start; the selection then follows the active entry. Without a
    /// selected row nothing changes.
    pub open spec fn activated(before: Self, after: Self) -> bool {
        if before.selected >= before.rows().len() {
            after == before
        } else {
            let sid = before.request.entries@[before.rows()[before.selected as int].0].id@;
            let changed = before.request.active_entry_id@ != sid;
            &&& after.request.active_entry_id@ == sid
            &&& after.request == (DocumentNavigatorRequest {
                active_entry_id: after.request.active_entry_id,
                ..before.request
            })
            &&& after.history() == if changed {
                visited(before.history(), before.request.active_entry_id@)
            } else {
                before.history()
            }
            &&& after.content_scroll == if changed {
                0
            } else {
                before.content_scroll
            }
            &&& after.selected == after.active_row()
            &&& after.same_frame(before)
        }
    }

    /// The body scroll that shows the last screenful of the active entry.
    pub open spec fn end_scroll(self, viewport_lines: usize) -> usize {
        let i = entry_index(self.request.entries@, self.request.active_entry_id@);
        if i < 0 {
            0
        } else {
            sat_sub(
                self.request.entries@[i].body.lines@.len() as int,
                if viewport_lines >= 1 {
                    viewport_lines as int
                } else {
                    1
                },
            ) as usize
        }
    }

    /// The selection moved `amount` rows forward (staying on the last row)
    /// or back (staying on the first).
    pub open spec fn selected_by(self, amount: int, forward: bool) -> usize {
        if !forward {
            sat_sub(self.selected as int, amount) as usize
        } else if self.rows().len() == 0 {
            self.selected
        } else if self.selected + amount < self.rows().len() {
            (self.selected + amount) as usize
        } else {
            (self.rows().len() - 1) as usize
        }
    }

    /// The body scroll moved `amount` lines down (saturating) or up.
    pub open spec fn scrolled_by(self, amount: int, down: bool) -> usize {
        if down {
            if self.content_scroll + amount > usize::MAX {
                usize::MAX
            } else {
                (self.content_scroll + amount) as usize
            }
        } else {
            sat_sub(self.content_scroll as int, amount) as usize
        }
    }

    /// `self` with the selection at row `selected`.
    pub open spec fn with_selected(self, selected: usize) -> Self {
        DocumentNavigatorOverlay { selected, ..self }
    }

    /// `self` with the body scrolled to `scroll`.
    pub open spec fn with_scroll(self, scroll: usize) -> Self {
        DocumentNavigatorOverlay { content_scroll: scroll, ..self }
    }

    /// A navigator over `origin_panel` for `request`: rail focused, no
    /// history, the active entry's row selected.
    pub fn new(origin_panel: Panel, request: DocumentNavigatorRequest) -> (r: Self)
        ensures
            r.origin_panel == origin_panel,
            r.request == request,
            r.focus == DocumentNavigatorFocus::Rail,
            r.content_scroll == 0,
            r.history_entry_ids@.len() == 0,
            r.dismiss_on_backdrop,
            r.selected == r.active_row(),
    {
        let mut overlay = DocumentNavigatorOverlay {
            origin_panel,
            request,
            selected: 0,
            focus: DocumentNavigatorFocus::Rail,
            content_scroll: 0,
            history_entry_ids: Vec::new(),
            dismiss_on_backdrop: true,
        };
        overlay.sync_selection_to_active();
        overlay
    }

    /// The rows of the rail: the entries outside the history group, then
    /// the documents visited before, newest first.
    pub fn visible_items(&self) -> (r: Vec<DocumentNavigatorRailItem>)
        ensures
            r@.len() == self.rows().len(),
            forall|j: int| 0 <= j < r@.len() ==> self.shows_row(#[trigger] r@[j], self.rows()[j]),
    {
        let rows = self.rail_rows();
        let mut out: Vec<DocumentNavigatorRailItem> = Vec::new();
        let mut j: usize = 0;
        while j < rows.len()
            invariant
                j <= rows@.len(),
                rows@.len() == self.rows().len(),
                forall|t: int|
                    0 <= t < rows@.len() ==> rows@[t].0 == self.rows()[t].0 && rows@[t].1 == self.rows()[t].1
                        && rows@[t].0 < self.request.entries@.len(),
                out@.len() == j,
                forall|t: int| 0 <= t < j ==> self.shows_row(#[trigger] out@[t], self.rows()[t]),
            decreases rows.len() - j,
        {
            let (idx, in_history) = rows[j];
            let e = &self.request.entries[idx];
            let group = if in_history {
                DocumentNavigatorGroup::History
            } else {
                e.group
            };
            out.push(
                DocumentNavigatorRailItem {
                    id: e.id.clone(),
                    group,
                    label: e.label.clone(),
                    subtitle: copy_opt_text(&e.subtitle),
                    kind: e.kind,
                },
            );
            j = j + 1;
        }
        out
    }

    /// The active entry, if the request has it.
    pub fn active_entry(&self) -> (r: Option<&DocumentNavigatorEntry>)
        ensures
            match r {
                Some(e) => {
                    let i = entry_index(self.request.entries@, self.request.active_entry_id@);
                    0 <= i < self.request.entries@.len() && *e == self.request.entries@[i]
                },
                None => entry_index(self.request.entries@, self.request.active_entry_id@) == -1,
            },
    {
        match find_entry(&self.request.entries, self.request.active_entry_id.as_str()) {
            Some(i) => Some(&self.request.entries[i]),
            None => None,
        }
    }

    /// How many rows the rail has.
    pub fn visible_items_len(&self) -> (r: usize)
        ensures
            r == self.rows().len(),
    {
        self.rail_rows().len()
    }

    pub fn move_selection_up(&mut self)
        ensures
            *final(self) == (DocumentNavigatorOverlay {
                selected: sat_sub(old(self).selected as int, 1) as usize,
                ..*old(self)
            }),
    {
        if self.selected > 0 {
            self.selected = self.selected - 1;
        }
    }

    pub fn move_selection_down(&mut self)
        ensures
            *final(self) == (DocumentNavigatorOverlay {
                selected: if old(self).rows().len() == 0 {
                    old(self).selected
                } else if old(self).selected + 1 < old(self).rows().len() {
                    (old(self).selected + 1) as usize
                } else {
                    (old(self).rows().len() - 1) as usize
                },
                ..*old(self)
            }),
    {
        let len = self.visible_items_len();
        if len > 0 {
            if self.selected < len - 1 {
                self.selected = self.selected + 1;
            } else {
                self.selected = len - 1;
            }
        }
    }

    pub fn move_selection_to_start(&mut self)
        ensures
            *final(self) == (DocumentNavigatorOverlay { selected: 0, ..*old(self) }),
    {
        self.selected = 0;
    }

    pub fn move_selection_to_end(&mut self)
        ensures
            *final(self) == (DocumentNavigatorOverlay {
                selected: if old(self).rows().len() == 0 {
                    old(self).selected
                } else {
                    (old(self).rows().len() - 1) as usize
                },
                ..*old(self)
            }),
    {
        let len = self.visible_items_len();
        if len > 0 {
            self.selected = len - 1;
        }
    }

    /// Moves the selection `amount` rows forward (staying on the last row)
    /// or back (staying on the first).
    pub fn move_selection_by(&mut self, amount: usize, forward: bool)
        ensures
            *final(self) == (DocumentNavigatorOverlay {
                selected: if !forward {
                    sat_sub(old(self).selected as int, amount as int) as usize
                } else if old(self).rows().len() == 0 {
                    old(self).selected
                } else if old(self).selected + amount < old(self).rows().len() {
                    (old(self).selected + amount) as usize
                } else {
                    (old(self).rows().len() - 1) as usize
                },
                ..*old(self)
            }),
    {
        if forward {
            let len = self.visible_items_len();
            if len > 0 {
                if self.selected < len - 1 && amount < len - 1 - self.selected {
                    self.selected = self.selected + amount;
                } else {
                    self.selected = len - 1;
                }
            }
        } else {
            self.selected = self.selected.saturating_sub(amount);
        }
    }

    pub fn set_focus(&mut self, focus: DocumentNavigatorFocus)
        ensures
            *final(self) == (DocumentNavigatorOverlay { focus, ..*old(self) }),
    {
        self.focus = focus;
    }

    pub fn toggle_focus(&mut self)
        ensures
            *final(self) == (DocumentNavigatorOverlay {
                focus: if old(self).focus == DocumentNavigatorFocus::Rail {
                    DocumentNavigatorFocus::Content
                } else {
                    DocumentNavigatorFocus::Rail
                },
                ..*old(self)
            }),
    {
        self.focus = match self.focus {
            DocumentNavigatorFocus::Rail => DocumentNavigatorFocus::Content,
            DocumentNavigatorFocus::Content => DocumentNavigatorFocus::Rail,
        };
    }

    pub fn scroll_content_up(&mut self, amount: usize)
        ensures
            *final(self) == (DocumentNavigatorOverlay {
                content_scroll: sat_sub(old(self).content_scroll as int, amount as int) as usize,
                ..*old(self)
            }),
    {
        self.content_scroll = self.content_scroll.saturating_sub(amount);
    }

    pub fn scroll_content_down(&mut self, amount: usize)
        ensures
            *final(self) == (DocumentNavigatorOverlay {
                content_scroll: if old(self).content_scroll + amount > usize::MAX {
                    usize::MAX
                } else {
                    (old(self).content_scroll + amount) as usize
                },
                ..*old(self)
            }),
    {
        self.content_scroll = self.content_scroll.saturating_add(amount);
    }

    pub fn scroll_content_to_start(&mut self)
        ensures
            *final(self) == (DocumentNavigatorOverlay { content_scroll: 0, ..*old(self) }),
    {
        self.content_scroll = 0;
    }

    /// Scrolls to the last screenful of the active entry's body (of at
    /// least one line), or to the start when there is no active entry.
    pub fn scroll_content_to_end(&mut self, viewport_lines: usize)
        ensures
            *final(self) == (DocumentNavigatorOverlay {
                content_scroll: {
                    let i = entry_index(old(self).request.entries@, old(self).request.active_entry_id@);
                    if i < 0 {
                        0
                    } else {
                        sat_sub(
                            old(self).request.entries@[i].body.lines@.len() as int,
                            if viewport_lines >= 1 {
                                viewport_lines as int
                            } else {
                                1
                            },
                        ) as usize
                    }
                },
                ..*old(self)
            }),
    {
        let view = if viewport_lines >= 1 {
            viewport_lines
        } else {
            1
        };
        let scroll = match self.active_entry() {
            Some(e) => e.body.lines.len().saturating_sub(view),
            None => 0,
        };
        self.content_scroll = scroll;
    }

    /// Makes the selected row's entry the active one. A change of entry
    /// moves the one that was active to the end of the history (keeping
    /// the last five) and scrolls the body to the start; the selection
    /// then follows the active entry.
    pub fn activate_selected(&mut self)
        ensures
            DocumentNavigatorOverlay::activated(*old(self), *final(self)),
    {
        let rows = self.rail_rows();
        if self.selected >= rows.len() {
            return;
        }
        let idx = rows[self.selected].0;
        let selected_id = owned(self.request.entries[idx].id.as_str());
        if !str_eq(self.request.active_entry_id.as_str(), selected_id.as_str()) {
            let previous = owned(self.request.active_entry_id.as_str());
            if chars_of(previous.as_str()).len() > 0 {
                proof {
                    assert(previous@.len() > 0);
                }
                let h = visit(&self.history_entry_ids, previous.as_str());
                self.history_entry_ids = h;
            }
            self.request.active_entry_id = selected_id;
            self.content_scroll = 0;
        }
        let ghost mid = *self;
        self.sync_selection_to_active();
        assert(self.selected == mid.active_row());
    }
    /// Shows a new request: the history keeps the ids that the request
    /// still has, the active entry is chosen as `replaced_active` says, a
    /// change of active entry moves the one active before to the end of
    /// the history, and the body scrolls to the start.
    pub fn replace_request(&mut self, request: DocumentNavigatorRequest)
        ensures
            ({
                let prev = old(self).request.active_entry_id@;
                let active = replaced_active(request, prev);
                let kept = known_ids(old(self).history(), request.entries@);
                &&& final(self).request == (DocumentNavigatorRequest {
                    active_entry_id: final(self).request.active_entry_id,
                    ..request
                })
                &&& final(self).request.active_entry_id@ == active
                &&& final(self).history() == if prev != active && prev.len() > 0 {
                    visited(kept, prev)
                } else {
                    kept
                }
                &&& final(self).content_scroll == 0
                &&& final(self).selected == final(self).active_row()
                &&& final(self).same_frame(*old(self))
            }),
    {
        let mut request = request;
        let previous = owned(self.request.active_entry_id.as_str());
        let kept = keep_known(&self.history_entry_ids, &request.entries);
        if find_entry(&request.entries, request.active_entry_id.as_str()).is_none() {
            if find_entry(&request.entries, previous.as_str()).is_some() {
                request.active_entry_id = owned(previous.as_str());
            } else if request.entries.len() > 0 {
                request.active_entry_id = owned(request.entries[0].id.as_str());
            } else {
                request.active_entry_id = String::new();
            }
        }
        let moved = !str_eq(previous.as_str(), request.active_entry_id.as_str()) && chars_of(previous.as_str()).len() > 0;
        if moved {
            self.history_entry_ids = visit(&kept, previous.as_str());
        } else {
            self.history_entry_ids = kept;
        }
        self.request = request;
        self.content_scroll = 0;
        self.sync_selection_to_active();
    }
}

} // verus!
