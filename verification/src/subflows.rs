//! Subflows: a step that works through the items of a todo list runs one
//! subflow per item. The app keeps their statuses in order, finds the one
//! that is active, and reads an item's state back from the todo list when
//! no status was reported for it.
use vstd::prelude::*;

use crate::app::{App, Msg, WorkflowRunRole};
use crate::chars::{
    before_char, cat, chars_of, contains_seq, dec, index_of_char, is_blank, lex_le, lines, opt_line, push_num,
    push_opt_line, push_str, push_text, push_texts, slice_vec, split_lines, starts_with, str_contains, str_eq,
    str_le, str_starts_with, string_of, trim, trim_start, trim_start_string, trim_string, views,
};
use crate::lanes::opt_seq;
use crate::text::{strip_ansi, without_escapes};
use crate::response_text::derefs;
use crate::transcript::msg_position;
use crate::turn_delivery::{ToolRun, ToolRunStatus};

verus! {

/// Where a subflow stands.
#[derive(Debug, Clone, Copy, PartialEq, Eq, Structural)]
pub enum StepSubflowState {
    Queued,
    Running,
    Complete,
    Failed,
}

/// The subflow a response section belongs to: its parent step, and which
/// item of how many it works on.
#[derive(Debug, Clone, PartialEq, Eq)]
pub struct StepSubflowRef {
    pub parent_workflow_id: String,
    pub parent_step_id: String,
    pub parent_step_label: String,
    pub subflow_id: String,
    pub item_id: Option<String>,
    pub item_label: Option<String>,
    pub item_index: usize,
    pub item_total: usize,
}

/// The reported status of one subflow.
#[derive(Debug, Clone, PartialEq, Eq)]
pub struct StepSubflowStatus {
    pub workflow_id: String,
    pub workflow_role: WorkflowRunRole,
    pub step_id: String,
    pub step_label: String,
    pub subflow_id: String,
    pub item_id: Option<String>,
    pub item_label: Option<String>,
    pub item_index: usize,
    pub item_total: usize,
    pub status: StepSubflowState,
    pub repeat_count_for_item: u32,
    pub no_progress_streak_for_item: u32,
    pub completion_source: Option<String>,
}

/// What a todo line says of its item: its state, id and label.
#[derive(Debug, Clone, PartialEq, Eq)]
pub struct TodoSubflowFallback {
    pub status: StepSubflowState,
    pub item_id: Option<String>,
    pub item_label: Option<String>,
}

pub open spec fn spec_status_label(status: StepSubflowState) -> Seq<char> {
    match status {
        StepSubflowState::Queued => "queued"@,
        StepSubflowState::Running => "running"@,
        StepSubflowState::Complete => "done"@,
        StepSubflowState::Failed => "failed"@,
    }
}

/// The state of a subflow in words, as its detail shows it.
pub fn status_label(status: StepSubflowState) -> (r: &'static str)
    ensures
        r@ == spec_status_label(status),
{
    match status {
        StepSubflowState::Queued => "queued",
        StepSubflowState::Running => "running",
        StepSubflowState::Complete => "done",
        StepSubflowState::Failed => "failed",
    }
}

pub open spec fn spec_subflow_status_label(status: StepSubflowState) -> Seq<char> {
    match status {
        StepSubflowState::Queued => "◦"@,
        StepSubflowState::Running => "◉"@,
        StepSubflowState::Complete => "●"@,
        StepSubflowState::Failed => "✕"@,
    }
}

/// The state of a subflow as a symbol, as the timeline shows it.
pub fn subflow_status_label(status: StepSubflowState) -> (r: &'static str)
    ensures
        r@ == spec_subflow_status_label(status),
{
    match status {
        StepSubflowState::Queued => "◦",
        StepSubflowState::Running => "◉",
        StepSubflowState::Complete => "●",
        StepSubflowState::Failed => "✕",
    }
}

// ---------------------------------------------------------------------------
// Reading an item back from the todo list
// ---------------------------------------------------------------------------

/// The state a todo line's marker gives and the length of that marker.
pub open spec fn marker_of(t: Seq<char>) -> Option<(StepSubflowState, int)> {
    if starts_with(t, "[x] "@) {
        Some((StepSubflowState::Complete, 4))
    } else if starts_with(t, "✓ "@) {
        Some((StepSubflowState::Complete, 2))
    } else if starts_with(t, "[>] "@) {
        Some((StepSubflowState::Running, 4))
    } else if starts_with(t, "→ "@) {
        Some((StepSubflowState::Running, 2))
    } else if starts_with(t, "[ ] "@) {
        Some((StepSubflowState::Queued, 4))
    } else if starts_with(t, "○ "@) {
        Some((StepSubflowState::Queued, 2))
    } else {
        None
    }
}

/// The id and label after a marker: `#id: label`, `#id`, or a bare label.
pub open spec fn item_of(rest: Seq<char>) -> (Option<Seq<char>>, Option<Seq<char>>) {
    if rest.len() > 0 && rest[0] == '#' {
        let r = rest.skip(1);
        let id = before_char(r, ':');
        if id.len() < r.len() {
            (Some(trim(id)), Some(trim(r.skip(id.len() as int + 1))))
        } else {
            (Some(trim(r)), None)
        }
    } else if trim(rest).len() > 0 {
        (None, Some(trim(rest)))
    } else {
        (None, None)
    }
}

/// What a todo line says of its item, if it is an item: after the
/// indentation, a marker (`[x] ` or `✓ ` done, `[>] ` or `→ ` running,
/// `[ ] ` or `○ ` queued), then the item.
pub open spec fn spec_todo_fallback(line: Seq<char>) -> Option<(StepSubflowState, Option<Seq<char>>, Option<Seq<char>>)> {
    let t = trim_start(line);
    match marker_of(t) {
        Some((status, n)) => {
            let (id, label) = item_of(t.skip(n));
            Some((status, id, label))
        },
        None => None,
    }
}

pub open spec fn fallback_view(f: TodoSubflowFallback) -> (StepSubflowState, Option<Seq<char>>, Option<Seq<char>>) {
    (f.status, opt_seq(f.item_id), opt_seq(f.item_label))
}

fn drop_chars(s: &str, k: usize) -> (r: String)
    requires
        k <= s@.len(),
    ensures
        r@ == s@.skip(k as int),
{
    let v = chars_of(s);
    let r = string_of(slice_vec(&v, k, v.len()).as_slice());
    proof {
        assert(r@ =~= s@.skip(k as int));
    }
    r
}

fn marker_len(t: &str) -> (r: Option<(StepSubflowState, usize)>)
    ensures
        match marker_of(t@) {
            Some((status, n)) => r == Some((status, n as usize)) && n <= t@.len(),
            None => r.is_none(),
        },
{
    proof {
        reveal_strlit("[x] ");
        reveal_strlit("✓ ");
        reveal_strlit("[>] ");
        reveal_strlit("→ ");
        reveal_strlit("[ ] ");
        reveal_strlit("○ ");
    }
    if str_starts_with(t, "[x] ") {
        Some((StepSubflowState::Complete, 4))
    } else if str_starts_with(t, "✓ ") {
        Some((StepSubflowState::Complete, 2))
    } else if str_starts_with(t, "[>] ") {
        Some((StepSubflowState::Running, 4))
    } else if str_starts_with(t, "→ ") {
        Some((StepSubflowState::Running, 2))
    } else if str_starts_with(t, "[ ] ") {
        Some((StepSubflowState::Queued, 4))
    } else if str_starts_with(t, "○ ") {
        Some((StepSubflowState::Queued, 2))
    } else {
        None
    }
}

fn parse_item(rest: &str) -> (r: (Option<String>, Option<String>))
    ensures
        (opt_seq(r.0), opt_seq(r.1)) == item_of(rest@),
{
    let v = chars_of(rest);
    if v.len() > 0 && v[0] == '#' {
        let r = slice_vec(&v, 1, v.len());
        let end = index_of_char(&r, ':');
        proof {
            assert(r@ =~= rest@.skip(1));
        }
        if end < r.len() {
            let id = string_of(slice_vec(&r, 0, end).as_slice());
            let label = string_of(slice_vec(&r, end + 1, r.len()).as_slice());
            proof {
                assert(id@ =~= before_char(r@, ':'));
                assert(label@ =~= r@.skip(end + 1));
            }
            (Some(trim_string(id.as_str())), Some(trim_string(label.as_str())))
        } else {
            let all = string_of(r.as_slice());
            proof {
                assert(r@.take(end as int) =~= r@);
            }
            (Some(trim_string(all.as_str())), None)
        }
    } else {
        let label = trim_string(rest);
        if chars_of(label.as_str()).len() > 0 {
            (None, Some(label))
        } else {
            (None, None)
        }
    }
}

/// What the todo line `line` says of its item, if it is an item.
pub fn parse_todo_subflow_fallback(line: &str) -> (r: Option<TodoSubflowFallback>)
    ensures
        match r {
            Some(f) => spec_todo_fallback(line@) == Some(fallback_view(f)),
            None => spec_todo_fallback(line@).is_none(),
        },
{
    let t = trim_start_string(line);
    let (status, n) = match marker_len(t.as_str()) {
        Some(m) => m,
        None => return None,
    };
    let rest = drop_chars(t.as_str(), n);
    let (item_id, item_label) = parse_item(rest.as_str());
    Some(TodoSubflowFallback { status, item_id, item_label })
}

// ---------------------------------------------------------------------------
// Keeping statuses in order
// ---------------------------------------------------------------------------

/// Whether two statuses are of the same subflow of the same step.
pub open spec fn same_subflow(a: StepSubflowStatus, b: StepSubflowStatus) -> bool {
    a.workflow_id@ == b.workflow_id@ && a.step_id@ == b.step_id@ && a.subflow_id@ == b.subflow_id@
}

/// The first status at or after `i` of the subflow of `x`, or -1.
pub open spec fn subflow_position_from(s: Seq<StepSubflowStatus>, x: StepSubflowStatus, i: int) -> int
    decreases s.len() - i,
{
    if i < 0 || i >= s.len() {
        -1
    } else if same_subflow(s[i], x) {
        i
    } else {
        subflow_position_from(s, x, i + 1)
    }
}

pub proof fn lemma_subflow_position(s: Seq<StepSubflowStatus>, x: StepSubflowStatus, i: int)
    requires
        0 <= i,
    ensures
        subflow_position_from(s, x, i) == -1 || (i <= subflow_position_from(s, x, i) < s.len() && same_subflow(
            s[subflow_position_from(s, x, i)],
            x,
        )),
    decreases s.len() - i,
{
    if i < s.len() && !same_subflow(s[i], x) {
        lemma_subflow_position(s, x, i + 1);
    }
}

/// The order of the timeline: by workflow, then step, then item.
pub open spec fn subflow_key_le(a: StepSubflowStatus, b: StepSubflowStatus) -> bool {
    if a.workflow_id@ != b.workflow_id@ {
        lex_le(a.workflow_id@, b.workflow_id@)
    } else if a.step_id@ != b.step_id@ {
        lex_le(a.step_id@, b.step_id@)
    } else {
        a.item_index <= b.item_index
    }
}

fn subflow_key_le_of(a: &StepSubflowStatus, b: &StepSubflowStatus) -> (r: bool)
    ensures
        r == subflow_key_le(*a, *b),
{
    if !str_eq(a.workflow_id.as_str(), b.workflow_id.as_str()) {
        return str_le(a.workflow_id.as_str(), b.workflow_id.as_str());
    }
    if !str_eq(a.step_id.as_str(), b.step_id.as_str()) {
        return str_le(a.step_id.as_str(), b.step_id.as_str());
    }
    a.item_index <= b.item_index
}

/// `x` placed into `s` after every status that comes no later than it,
/// from the end: the insertion of a stable sort.
pub open spec fn insert_subflow(s: Seq<StepSubflowStatus>, x: StepSubflowStatus) -> Seq<StepSubflowStatus>
    decreases s.len(),
{
    if s.len() == 0 {
        seq![x]
    } else if subflow_key_le(s.last(), x) {
        s.push(x)
    } else {
        insert_subflow(s.drop_last(), x).push(s.last())
    }
}

/// The statuses in timeline order; statuses of equal order keep their
/// order (a stable sort).
pub open spec fn in_subflow_order(s: Seq<StepSubflowStatus>) -> Seq<StepSubflowStatus>
    decreases s.len(),
{
    if s.len() == 0 {
        s
    } else {
        insert_subflow(in_subflow_order(s.drop_last()), s.last())
    }
}

proof fn lemma_insert_subflow_len(s: Seq<StepSubflowStatus>, x: StepSubflowStatus)
    ensures
        insert_subflow(s, x).len() == s.len() + 1,
    decreases s.len(),
{
    if s.len() > 0 && !subflow_key_le(s.last(), x) {
        lemma_insert_subflow_len(s.drop_last(), x);
    }
}

proof fn lemma_subflow_order_len(s: Seq<StepSubflowStatus>)
    ensures
        in_subflow_order(s).len() == s.len(),
    decreases s.len(),
{
    if s.len() > 0 {
        lemma_subflow_order_len(s.drop_last());
        lemma_insert_subflow_len(in_subflow_order(s.drop_last()), s.last());
    }
}

/// Puts the statuses in timeline order, keeping the order of equal ones.
fn sort_subflows(v: &mut Vec<StepSubflowStatus>)
    ensures
        final(v)@ == in_subflow_order(old(v)@),
{
    let ghost orig = v@;
    let n = v.len();
    let mut i: usize = 0;
    while i < n
        invariant
            i <= n,
            n == orig.len(),
            v@.len() == n,
            v@.take(i as int) == in_subflow_order(orig.take(i as int)),
            v@.skip(i as int) == orig.skip(i as int),
        decreases n - i,
    {
        let ghost sorted = v@.take(i as int);
        proof {
            lemma_subflow_order_len(orig.take(i as int));
            assert(orig.take(i + 1).drop_last() =~= orig.take(i as int));
            assert(orig.take(i + 1).last() == orig[i as int]);
            assert(v@[i as int] == v@.skip(i as int)[0]);
        }
        let ghost before = v@;
        let x = v.remove(i);
        proof {
            assert(x == orig[i as int]);
            assert(v@.take(i as int) =~= sorted);
            assert forall|k: int| 0 <= k < n - i - 1 implies #[trigger] v@.skip(i as int)[k] == orig.skip(i + 1)[k] by {
                assert(before.skip(i as int)[k + 1] == before[i + 1 + k]);
                assert(orig.skip(i as int)[k + 1] == orig[i + 1 + k]);
            }
            assert(v@.skip(i as int) =~= orig.skip(i + 1));
            assert(sorted.len() == i);
            assert(sorted.take(i as int) =~= sorted);
            assert(sorted.subrange(i as int, i as int) =~= Seq::<StepSubflowStatus>::empty());
            assert(insert_subflow(sorted, x) =~= insert_subflow(sorted.take(i as int), x) + sorted.subrange(
                i as int,
                i as int,
            ));
        }
        let mut j: usize = i;
        while j > 0 && !subflow_key_le_of(&v[j - 1], &x)
            invariant
                j <= i,
                i < n,
                v@.len() == n - 1,
                v@.take(i as int) == sorted,
                v@.skip(i as int) == orig.skip(i + 1),
                insert_subflow(sorted, x) == insert_subflow(sorted.take(j as int), x) + sorted.subrange(
                    j as int,
                    i as int,
                ),
            decreases j,
        {
            proof {
                let t = sorted.take(j as int);
                assert(t.last() == v@[j - 1]);
                assert(t.drop_last() =~= sorted.take(j - 1));
                assert(sorted.subrange(j - 1, i as int) =~= seq![t.last()] + sorted.subrange(j as int, i as int));
            }
            j = j - 1;
        }
        proof {
            let t = sorted.take(j as int);
            if j > 0 {
                assert(t.last() == v@[j - 1]);
                assert(insert_subflow(t, x) == t.push(x));
            } else {
                assert(t =~= Seq::<StepSubflowStatus>::empty());
            }
            assert(insert_subflow(t, x) =~= t.push(x));
        }
        v.insert(j, x);
        proof {
            let t = sorted.take(j as int);
            assert(v@.take(i + 1) =~= t.push(x) + sorted.subrange(j as int, i as int));
            assert(v@.take(i + 1) == in_subflow_order(orig.take(i + 1)));
            assert(v@.skip(i + 1) =~= orig.skip(i + 1));
        }
        i = i + 1;
    }
    proof {
        assert(v@.take(n as int) =~= v@);
        assert(orig.take(n as int) =~= orig);
    }
}

/// The statuses once `x` replaced the status of its subflow (or joined
/// them), in timeline order.
pub open spec fn subflows_upserted(s: Seq<StepSubflowStatus>, x: StepSubflowStatus) -> Seq<StepSubflowStatus> {
    let k = subflow_position_from(s, x, 0);
    in_subflow_order(
        if k >= 0 {
            s.update(k, x)
        } else {
            s.push(x)
        },
    )
}

impl App {
    fn find_subflow(&self, x: &StepSubflowStatus) -> (r: Option<usize>)
        ensures
            match r {
                Some(k) => k as int == subflow_position_from(self.step_subflows@, *x, 0) && k < self.step_subflows@.len(),
                None => subflow_position_from(self.step_subflows@, *x, 0) == -1,
            },
    {
        proof {
            lemma_subflow_position(self.step_subflows@, *x, 0);
        }
        let mut i: usize = 0;
        while i < self.step_subflows.len()
            invariant
                i <= self.step_subflows@.len(),
                subflow_position_from(self.step_subflows@, *x, 0) == subflow_position_from(
                    self.step_subflows@,
                    *x,
                    i as int,
                ),
            decreases self.step_subflows.len() - i,
        {
            let e = &self.step_subflows[i];
            if str_eq(e.workflow_id.as_str(), x.workflow_id.as_str()) && str_eq(e.step_id.as_str(), x.step_id.as_str())
                && str_eq(e.subflow_id.as_str(), x.subflow_id.as_str()) {
                return Some(i);
            }
            i = i + 1;
        }
        None
    }

    /// Records the status of a subflow: it replaces the status of the same
    /// subflow or joins the others, and the statuses stay in timeline order.
    pub fn upsert_step_subflow(&mut self, subflow: StepSubflowStatus)
        ensures
            final(self).step_subflows@ == subflows_upserted(old(self).step_subflows@, subflow),
            *final(self) == (App { step_subflows: final(self).step_subflows, ..*old(self) }),
    {
        match self.find_subflow(&subflow) {
            Some(k) => {
                self.step_subflows.set(k, subflow);
            },
            None => {
                self.step_subflows.push(subflow);
            },
        }
        sort_subflows(&mut self.step_subflows);
    }
}

// ---------------------------------------------------------------------------
// Finding statuses
// ---------------------------------------------------------------------------

/// Whether `st` is the status of the subflow that `r` names.
pub open spec fn of_ref(st: StepSubflowStatus, r: StepSubflowRef) -> bool {
    st.workflow_id@ == r.parent_workflow_id@ && st.step_id@ == r.parent_step_id@ && st.subflow_id@ == r.subflow_id@
}

/// Whether `st` is a status of a subflow of the step that `r` belongs to.
pub open spec fn of_parent(st: StepSubflowStatus, r: StepSubflowRef) -> bool {
    st.workflow_id@ == r.parent_workflow_id@ && st.step_id@ == r.parent_step_id@
}

/// Whether a subflow holds up the ones after it: running or failed.
pub open spec fn is_blocking(st: StepSubflowStatus) -> bool {
    st.status == StepSubflowState::Running || st.status == StepSubflowState::Failed
}

/// The first status at or after `i` of the subflow `r` names, or -1.
pub open spec fn ref_position_from(s: Seq<StepSubflowStatus>, r: StepSubflowRef, i: int) -> int
    decreases s.len() - i,
{
    if i < 0 || i >= s.len() {
        -1
    } else if of_ref(s[i], r) {
        i
    } else {
        ref_position_from(s, r, i + 1)
    }
}

pub proof fn lemma_ref_position(s: Seq<StepSubflowStatus>, r: StepSubflowRef, i: int)
    requires
        0 <= i,
    ensures
        ref_position_from(s, r, i) == -1 || (i <= ref_position_from(s, r, i) < s.len() && of_ref(
            s[ref_position_from(s, r, i)],
            r,
        )),
    decreases s.len() - i,
{
    if i < s.len() && !of_ref(s[i], r) {
        lemma_ref_position(s, r, i + 1);
    }
}

/// The first status at or after `i` in state `state`, or -1.
pub open spec fn state_position_from(s: Seq<StepSubflowStatus>, state: StepSubflowState, i: int) -> int
    decreases s.len() - i,
{
    if i < 0 || i >= s.len() {
        -1
    } else if s[i].status == state {
        i
    } else {
        state_position_from(s, state, i + 1)
    }
}

pub proof fn lemma_state_position(s: Seq<StepSubflowStatus>, state: StepSubflowState, i: int)
    requires
        0 <= i,
    ensures
        state_position_from(s, state, i) == -1 || (i <= state_position_from(s, state, i) < s.len()
            && s[state_position_from(s, state, i)].status == state),
    decreases s.len() - i,
{
    if i < s.len() && s[i].status != state {
        lemma_state_position(s, state, i + 1);
    }
}

/// The first blocking status at or after `i` of the step `r` belongs to,
/// or -1.
pub open spec fn blocking_position_from(s: Seq<StepSubflowStatus>, r: StepSubflowRef, i: int) -> int
    decreases s.len() - i,
{
    if i < 0 || i >= s.len() {
        -1
    } else if of_parent(s[i], r) && is_blocking(s[i]) {
        i
    } else {
        blocking_position_from(s, r, i + 1)
    }
}

pub proof fn lemma_blocking_position(s: Seq<StepSubflowStatus>, r: StepSubflowRef, i: int)
    requires
        0 <= i,
    ensures
        blocking_position_from(s, r, i) == -1 || (i <= blocking_position_from(s, r, i) < s.len() && of_parent(
            s[blocking_position_from(s, r, i)],
            r,
        ) && is_blocking(s[blocking_position_from(s, r, i)])),
    decreases s.len() - i,
{
    if i < s.len() && !(of_parent(s[i], r) && is_blocking(s[i])) {
        lemma_blocking_position(s, r, i + 1);
    }
}

/// The first status at or after `i` of item `item` of the step `r` belongs
/// to, or -1.
pub open spec fn item_position_from(s: Seq<StepSubflowStatus>, r: StepSubflowRef, item: usize, i: int) -> int
    decreases s.len() - i,
{
    if i < 0 || i >= s.len() {
        -1
    } else if of_parent(s[i], r) && s[i].item_index == item {
        i
    } else {
        item_position_from(s, r, item, i + 1)
    }
}

pub proof fn lemma_item_position(s: Seq<StepSubflowStatus>, r: StepSubflowRef, item: usize, i: int)
    requires
        0 <= i,
    ensures
        item_position_from(s, r, item, i) == -1 || (i <= item_position_from(s, r, item, i) < s.len() && of_parent(
            s[item_position_from(s, r, item, i)],
            r,
        ) && s[item_position_from(s, r, item, i)].item_index == item),
    decreases s.len() - i,
{
    if i < s.len() && !(of_parent(s[i], r) && s[i].item_index == item) {
        lemma_item_position(s, r, item, i + 1);
    }
}

/// The last status among the first `n` of the step `r` belongs to, or -1.
pub open spec fn last_of_parent(s: Seq<StepSubflowStatus>, r: StepSubflowRef, n: int) -> int
    decreases n,
{
    if n <= 0 {
        -1
    } else if of_parent(s[n - 1], r) {
        n - 1
    } else {
        last_of_parent(s, r, n - 1)
    }
}

/// Whether every status among the first `n` of the step `r` belongs to is
/// complete.
pub open spec fn parent_all_complete(s: Seq<StepSubflowStatus>, r: StepSubflowRef, n: int) -> bool {
    forall|j: int| 0 <= j < n && of_parent(#[trigger] s[j], r) ==> s[j].status == StepSubflowState::Complete
}

/// The status the summary of a subflow group reports as current: the first
/// running or failed one of the step; else, unless all of the step's are
/// complete, its last one.
pub open spec fn current_position(s: Seq<StepSubflowStatus>, r: StepSubflowRef) -> int {
    let b = blocking_position_from(s, r, 0);
    if b >= 0 {
        b
    } else {
        let l = last_of_parent(s, r, s.len() as int);
        if l >= 0 && parent_all_complete(s, r, s.len() as int) {
            -1
        } else {
            l
        }
    }
}

/// How many of the first `n` statuses of the step `r` belongs to are
/// complete.
pub open spec fn complete_count(s: Seq<StepSubflowStatus>, r: StepSubflowRef, n: int) -> nat
    decreases n,
{
    if n <= 0 {
        0
    } else {
        complete_count(s, r, n - 1) + if of_parent(s[n - 1], r) && s[n - 1].status == StepSubflowState::Complete {
            1nat
        } else {
            0nat
        }
    }
}

/// The largest item count among the first `n` statuses of the step `r`
/// belongs to, none without one.
pub open spec fn status_total(s: Seq<StepSubflowStatus>, r: StepSubflowRef, n: int) -> Option<usize>
    decreases n,
{
    if n <= 0 {
        None
    } else {
        let before = status_total(s, r, n - 1);
        if of_parent(s[n - 1], r) {
            match before {
                Some(m) => Some(if m >= s[n - 1].item_total { m } else { s[n - 1].item_total }),
                None => Some(s[n - 1].item_total),
            }
        } else {
            before
        }
    }
}

pub open spec fn spec_ref_matches(a: StepSubflowRef, b: StepSubflowRef) -> bool {
    a.parent_workflow_id@ == b.parent_workflow_id@ && a.parent_step_id@ == b.parent_step_id@
}

fn of_ref_of(st: &StepSubflowStatus, r: &StepSubflowRef) -> (b: bool)
    ensures
        b == of_ref(*st, *r),
{
    str_eq(st.workflow_id.as_str(), r.parent_workflow_id.as_str()) && str_eq(st.step_id.as_str(), r.parent_step_id.as_str())
        && str_eq(st.subflow_id.as_str(), r.subflow_id.as_str())
}

fn of_parent_of(st: &StepSubflowStatus, r: &StepSubflowRef) -> (b: bool)
    ensures
        b == of_parent(*st, *r),
{
    str_eq(st.workflow_id.as_str(), r.parent_workflow_id.as_str()) && str_eq(st.step_id.as_str(), r.parent_step_id.as_str())
}

fn is_blocking_of(st: &StepSubflowStatus) -> (b: bool)
    ensures
        b == is_blocking(*st),
{
    st.status == StepSubflowState::Running || st.status == StepSubflowState::Failed
}

pub open spec fn opt_at(s: Seq<StepSubflowStatus>, k: int) -> Option<StepSubflowStatus> {
    if 0 <= k < s.len() {
        Some(s[k])
    } else {
        None
    }
}

/// Whether `r` is the status at `k`, none when `k` is -1.
pub open spec fn found_at(r: Option<&StepSubflowStatus>, s: Seq<StepSubflowStatus>, k: int) -> bool {
    match r {
        Some(x) => 0 <= k < s.len() && *x == s[k],
        None => k == -1,
    }
}

impl App {
    pub(crate) fn find_ref(&self, r: &StepSubflowRef) -> (k: Option<usize>)
        ensures
            match k {
                Some(k) => k as int == ref_position_from(self.step_subflows@, *r, 0) && k < self.step_subflows@.len(),
                None => ref_position_from(self.step_subflows@, *r, 0) == -1,
            },
    {
        proof {
            lemma_ref_position(self.step_subflows@, *r, 0);
        }
        let mut i: usize = 0;
        while i < self.step_subflows.len()
            invariant
                i <= self.step_subflows@.len(),
                ref_position_from(self.step_subflows@, *r, 0) == ref_position_from(self.step_subflows@, *r, i as int),
            decreases self.step_subflows.len() - i,
        {
            if of_ref_of(&self.step_subflows[i], r) {
                return Some(i);
            }
            i = i + 1;
        }
        None
    }

    /// The status of the subflow `subflow_ref` names, if one was reported.
    pub fn step_subflow_status_for_ref(&self, subflow_ref: &StepSubflowRef) -> (r: Option<&StepSubflowStatus>)
        ensures
            found_at(r, self.step_subflows@, ref_position_from(self.step_subflows@, *subflow_ref, 0)),
    {
        match self.find_ref(subflow_ref) {
            Some(k) => Some(&self.step_subflows[k]),
            None => None,
        }
    }

    fn find_state(&self, state: StepSubflowState) -> (k: Option<usize>)
        ensures
            match k {
                Some(k) => k as int == state_position_from(self.step_subflows@, state, 0) && k < self.step_subflows@.len(),
                None => state_position_from(self.step_subflows@, state, 0) == -1,
            },
    {
        proof {
            lemma_state_position(self.step_subflows@, state, 0);
        }
        let mut i: usize = 0;
        while i < self.step_subflows.len()
            invariant
                i <= self.step_subflows@.len(),
                state_position_from(self.step_subflows@, state, 0) == state_position_from(
                    self.step_subflows@,
                    state,
                    i as int,
                ),
            decreases self.step_subflows.len() - i,
        {
            if self.step_subflows[i].status == state {
                return Some(i);
            }
            i = i + 1;
        }
        None
    }

    /// The position of the active subflow: the first running one, else the
    /// first failed one, -1 without either.
    pub open spec fn active_position(self) -> int {
        let k = state_position_from(self.step_subflows@, StepSubflowState::Running, 0);
        if k >= 0 {
            k
        } else {
            state_position_from(self.step_subflows@, StepSubflowState::Failed, 0)
        }
    }

    /// The subflow at work: the first running one, else the first failed one.
    pub fn active_step_subflow(&self) -> (r: Option<&StepSubflowStatus>)
        ensures
            found_at(r, self.step_subflows@, self.active_position()),
    {
        proof {
            lemma_state_position(self.step_subflows@, StepSubflowState::Running, 0);
            lemma_state_position(self.step_subflows@, StepSubflowState::Failed, 0);
        }
        match self.find_state(StepSubflowState::Running) {
            Some(k) => Some(&self.step_subflows[k]),
            None => match self.find_state(StepSubflowState::Failed) {
                Some(k) => Some(&self.step_subflows[k]),
                None => None,
            },
        }
    }

    pub(crate) fn find_blocking(&self, r: &StepSubflowRef) -> (k: Option<usize>)
        ensures
            match k {
                Some(k) => k as int == blocking_position_from(self.step_subflows@, *r, 0) && k < self.step_subflows@.len(),
                None => blocking_position_from(self.step_subflows@, *r, 0) == -1,
            },
    {
        proof {
            lemma_blocking_position(self.step_subflows@, *r, 0);
        }
        let mut i: usize = 0;
        while i < self.step_subflows.len()
            invariant
                i <= self.step_subflows@.len(),
                blocking_position_from(self.step_subflows@, *r, 0) == blocking_position_from(
                    self.step_subflows@,
                    *r,
                    i as int,
                ),
            decreases self.step_subflows.len() - i,
        {
            let st = &self.step_subflows[i];
            if of_parent_of(st, r) && is_blocking_of(st) {
                return Some(i);
            }
            i = i + 1;
        }
        None
    }

    /// The first running or failed subflow of the step `subflow_ref`
    /// belongs to: the items after it wait.
    pub fn active_blocking_subflow_status(&self, subflow_ref: &StepSubflowRef) -> (r: Option<&StepSubflowStatus>)
        ensures
            found_at(r, self.step_subflows@, blocking_position_from(self.step_subflows@, *subflow_ref, 0)),
    {
        match self.find_blocking(subflow_ref) {
            Some(k) => Some(&self.step_subflows[k]),
            None => None,
        }
    }

    pub(crate) fn find_item(&self, r: &StepSubflowRef, item: usize) -> (k: Option<usize>)
        ensures
            match k {
                Some(k) => k as int == item_position_from(self.step_subflows@, *r, item, 0) && k
                    < self.step_subflows@.len(),
                None => item_position_from(self.step_subflows@, *r, item, 0) == -1,
            },
    {
        proof {
            lemma_item_position(self.step_subflows@, *r, item, 0);
        }
        let mut i: usize = 0;
        while i < self.step_subflows.len()
            invariant
                i <= self.step_subflows@.len(),
                item_position_from(self.step_subflows@, *r, item, 0) == item_position_from(
                    self.step_subflows@,
                    *r,
                    item,
                    i as int,
                ),
            decreases self.step_subflows.len() - i,
        {
            let st = &self.step_subflows[i];
            if of_parent_of(st, r) && st.item_index == item {
                return Some(i);
            }
            i = i + 1;
        }
        None
    }

    pub(crate) fn find_current(&self, r: &StepSubflowRef) -> (k: Option<usize>)
        ensures
            match k {
                Some(k) => k as int == current_position(self.step_subflows@, *r) && k < self.step_subflows@.len(),
                None => current_position(self.step_subflows@, *r) == -1,
            },
    {
        if let Some(k) = self.find_blocking(r) {
            return Some(k);
        }
        let ghost s = self.step_subflows@;
        let mut last: Option<usize> = None;
        let mut all_complete = true;
        let mut i: usize = 0;
        while i < self.step_subflows.len()
            invariant
                s == self.step_subflows@,
                i <= s.len(),
                match last {
                    Some(l) => l as int == last_of_parent(s, *r, i as int) && l < i,
                    None => last_of_parent(s, *r, i as int) == -1,
                },
                all_complete == parent_all_complete(s, *r, i as int),
            decreases s.len() - i,
        {
            let st = &self.step_subflows[i];
            if of_parent_of(st, r) {
                last = Some(i);
                if st.status != StepSubflowState::Complete {
                    all_complete = false;
                }
            }
            proof {
                if !of_parent(s[i as int], *r) || s[i as int].status == StepSubflowState::Complete {
                    assert(parent_all_complete(s, *r, i + 1) == parent_all_complete(s, *r, i as int));
                }
            }
            i = i + 1;
        }
        match last {
            Some(l) => {
                if all_complete {
                    None
                } else {
                    Some(l)
                }
            },
            None => None,
        }
    }

    /// The subflow a group's summary reports as current: the first running
    /// or failed one of the step; else, unless all of the step's subflows
    /// are complete, the last one reported.
    pub fn current_subflow_status(&self, subflow_ref: &StepSubflowRef) -> (r: Option<&StepSubflowStatus>)
        ensures
            found_at(r, self.step_subflows@, current_position(self.step_subflows@, *subflow_ref)),
    {
        match self.find_current(subflow_ref) {
            Some(k) => Some(&self.step_subflows[k]),
            None => None,
        }
    }

    pub(crate) fn count_complete(&self, r: &StepSubflowRef) -> (c: usize)
        ensures
            c == complete_count(self.step_subflows@, *r, self.step_subflows@.len() as int),
    {
        let ghost s = self.step_subflows@;
        let mut c: usize = 0;
        let mut i: usize = 0;
        while i < self.step_subflows.len()
            invariant
                s == self.step_subflows@,
                i <= s.len(),
                c == complete_count(s, *r, i as int),
                c <= i,
            decreases s.len() - i,
        {
            let st = &self.step_subflows[i];
            if of_parent_of(st, r) && st.status == StepSubflowState::Complete {
                c = c + 1;
            }
            i = i + 1;
        }
        c
    }

    pub(crate) fn max_status_total(&self, r: &StepSubflowRef) -> (m: Option<usize>)
        ensures
            m == status_total(self.step_subflows@, *r, self.step_subflows@.len() as int),
    {
        let ghost s = self.step_subflows@;
        let mut m: Option<usize> = None;
        let mut i: usize = 0;
        while i < self.step_subflows.len()
            invariant
                s == self.step_subflows@,
                i <= s.len(),
                m == status_total(s, *r, i as int),
            decreases s.len() - i,
        {
            let st = &self.step_subflows[i];
            if of_parent_of(st, r) {
                m = match m {
                    Some(x) => Some(if x >= st.item_total { x } else { st.item_total }),
                    None => Some(st.item_total),
                };
            }
            i = i + 1;
        }
        m
    }
}

// ---------------------------------------------------------------------------
// Items, totals and the detail of a subflow
// ---------------------------------------------------------------------------

/// The largest item count that the first `n` messages' subflows give, none
/// without a subflow message.
pub open spec fn msg_total(ms: Seq<Msg>, n: int) -> Option<usize>
    decreases n,
{
    if n <= 0 {
        None
    } else {
        let before = msg_total(ms, n - 1);
        match ms[n - 1].subflow_ref {
            Some(r) => match before {
                Some(m) => Some(if m >= r.item_total { m } else { r.item_total }),
                None => Some(r.item_total),
            },
            None => before,
        }
    }
}

pub open spec fn or_default(o: Option<usize>, d: usize) -> usize {
    match o {
        Some(m) => m,
        None => d,
    }
}

/// How many items a subflow group has: the most that its messages or the
/// step's statuses name, `first`'s count where neither names any.
pub open spec fn spec_subflow_total(s: Seq<StepSubflowStatus>, ms: Seq<Msg>, first: StepSubflowRef) -> usize {
    let a = or_default(msg_total(ms, ms.len() as int), first.item_total);
    let b = or_default(status_total(s, first, s.len() as int), first.item_total);
    if a >= b {
        a
    } else {
        b
    }
}

/// Whether todo line `line` is the item of status `st`: it holds `#id:` of
/// the item's id, or the item's label.
pub open spec fn names_item(line: Seq<char>, st: StepSubflowStatus) -> bool {
    (st.item_id matches Some(id) && contains_seq(line, "#"@ + id@ + ":"@)) || (st.item_label matches Some(l)
        && contains_seq(line, l@))
}

/// The first todo line at or after `i` that names the item of `st`, or -1.
pub open spec fn item_line_from(ls: Seq<String>, st: StepSubflowStatus, i: int) -> int
    decreases ls.len() - i,
{
    if i < 0 || i >= ls.len() {
        -1
    } else if names_item(ls[i]@, st) {
        i
    } else {
        item_line_from(ls, st, i + 1)
    }
}

pub proof fn lemma_item_line(ls: Seq<String>, st: StepSubflowStatus, i: int)
    requires
        0 <= i,
    ensures
        item_line_from(ls, st, i) == -1 || (i <= item_line_from(ls, st, i) < ls.len()),
    decreases ls.len() - i,
{
    if i < ls.len() && !names_item(ls[i]@, st) {
        lemma_item_line(ls, st, i + 1);
    }
}

/// What the todo line of item `item` (counted from 1) says of it.
pub open spec fn spec_item_fallback(ls: Seq<String>, item: usize) -> Option<
    (StepSubflowState, Option<Seq<char>>, Option<Seq<char>>),
> {
    if 1 <= item <= ls.len() {
        spec_todo_fallback(ls[item - 1]@)
    } else {
        None
    }
}

/// The tool calls of section `id`, in order.
pub open spec fn section_runs(s: Seq<ToolRun>, id: Seq<char>) -> Seq<ToolRun>
    decreases s.len(),
{
    if s.len() == 0 {
        s
    } else {
        section_runs(s.drop_last(), id) + if s.last().parent_section_id@ == id {
            seq![s.last()]
        } else {
            Seq::empty()
        }
    }
}

pub open spec fn run_state_word(status: ToolRunStatus) -> Seq<char> {
    match status {
        ToolRunStatus::Running => "running"@,
        ToolRunStatus::Completed => "done"@,
        ToolRunStatus::Failed => "failed"@,
    }
}

pub open spec fn run_line(t: ToolRun) -> Seq<char> {
    "- "@ + t.tool_name@ + " ["@ + run_state_word(t.status) + "] "@ + t.invocation_preview@
}

/// The first `n` items of `s`, all of them when there are fewer.
pub open spec fn at_most(s: Seq<Seq<char>>, n: int) -> Seq<Seq<char>> {
    if s.len() <= n {
        s
    } else {
        s.take(n)
    }
}

/// The detail of the subflow of message `m`: which item it is, its status,
/// the tools its section called, and the first lines of its body.
pub open spec fn spec_subflow_detail(
    m: Msg,
    r: StepSubflowRef,
    status: Option<StepSubflowStatus>,
    runs: Seq<ToolRun>,
) -> Seq<Seq<char>> {
    seq!["subflow: "@ + r.subflow_id@ + " ("@ + dec(r.item_index as nat) + "/"@ + dec(r.item_total as nat) + ")"@]
        + opt_line("todo: #"@, r.item_id) + opt_line("label: "@, r.item_label) + status_block(status) + tools_block(runs)
        + body_block(m.text@)
}

fn copy_ref(r: &StepSubflowRef) -> (c: StepSubflowRef)
    ensures
        c == *r,
{
    StepSubflowRef {
        parent_workflow_id: r.parent_workflow_id.clone(),
        parent_step_id: r.parent_step_id.clone(),
        parent_step_label: r.parent_step_label.clone(),
        subflow_id: r.subflow_id.clone(),
        item_id: match &r.item_id {
            Some(x) => Some(x.clone()),
            None => None,
        },
        item_label: match &r.item_label {
            Some(x) => Some(x.clone()),
            None => None,
        },
        item_index: r.item_index,
        item_total: r.item_total,
    }
}

fn push_count_line(v: &mut Vec<String>, label: &str, n: u64)
    ensures
        views(final(v)@) == views(old(v)@).push(label@ + dec(n as nat)),
{
    let mut t = label.to_owned();
    push_num(&mut t, n);
    push_text(v, t);
}

impl App {
    /// The largest item count of a group's messages, none without one.
    fn max_msg_total(messages: &[Msg]) -> (m: Option<usize>)
        ensures
            m == msg_total(messages@, messages@.len() as int),
    {
        let mut m: Option<usize> = None;
        let mut i: usize = 0;
        while i < messages.len()
            invariant
                i <= messages@.len(),
                m == msg_total(messages@, i as int),
            decreases messages.len() - i,
        {
            match &messages[i].subflow_ref {
                Some(r) => {
                    m = match m {
                        Some(x) => Some(if x >= r.item_total { x } else { r.item_total }),
                        None => Some(r.item_total),
                    };
                },
                None => {},
            }
            i = i + 1;
        }
        m
    }

    /// How many items the subflow group of `messages` has.
    pub fn subflow_total(&self, messages: &[Msg], first_ref: &StepSubflowRef) -> (r: usize)
        ensures
            r == spec_subflow_total(self.step_subflows@, messages@, *first_ref),
    {
        let a = match Self::max_msg_total(messages) {
            Some(m) => m,
            None => first_ref.item_total,
        };
        let b = match self.max_status_total(first_ref) {
            Some(m) => m,
            None => first_ref.item_total,
        };
        if a >= b {
            a
        } else {
            b
        }
    }

    /// The todo line of the active subflow's item, if one names it.
    pub fn highlighted_todo_line_index(&self) -> (r: Option<usize>)
        ensures
            ({
                let k = self.active_position();
                if k >= 0 {
                    let p = item_line_from(self.todo_lines@, self.step_subflows@[k], 0);
                    if p >= 0 {
                        r == Some(p as usize)
                    } else {
                        r.is_none()
                    }
                } else {
                    r.is_none()
                }
            }),
    {
        proof {
            lemma_state_position(self.step_subflows@, StepSubflowState::Running, 0);
            lemma_state_position(self.step_subflows@, StepSubflowState::Failed, 0);
        }
        let active = match self.active_step_subflow() {
            Some(a) => a,
            None => return None,
        };
        let ghost st = *active;
        let tag: Option<String> = match &active.item_id {
            Some(id) => {
                let mut t = "#".to_owned();
                push_str(&mut t, id.as_str());
                push_str(&mut t, ":");
                Some(t)
            },
            None => None,
        };
        proof {
            lemma_item_line(self.todo_lines@, st, 0);
        }
        let mut i: usize = 0;
        while i < self.todo_lines.len()
            invariant
                i <= self.todo_lines@.len(),
                item_line_from(self.todo_lines@, st, 0) == item_line_from(self.todo_lines@, st, i as int),
                match tag {
                    Some(t) => st.item_id matches Some(id) && t@ == "#"@ + id@ + ":"@,
                    None => st.item_id.is_none(),
                },
                st.item_label == active.item_label,
                0 <= self.active_position() < self.step_subflows@.len(),
                st == self.step_subflows@[self.active_position()],
            decreases self.todo_lines.len() - i,
        {
            let line = self.todo_lines[i].as_str();
            let by_id = match &tag {
                Some(t) => str_contains(line, t.as_str()),
                None => false,
            };
            let by_label = match &active.item_label {
                Some(l) => str_contains(line, l.as_str()),
                None => false,
            };
            if by_id || by_label {
                proof {
                    assert(names_item(self.todo_lines@[i as int]@, st));
                }
                return Some(i);
            }
            i = i + 1;
        }
        None
    }

    /// What the todo list says of item `item_index` (counted from 1).
    pub fn todo_subflow_fallback(&self, item_index: usize) -> (r: Option<TodoSubflowFallback>)
        ensures
            match r {
                Some(f) => spec_item_fallback(self.todo_lines@, item_index) == Some(fallback_view(f)),
                None => spec_item_fallback(self.todo_lines@, item_index).is_none(),
            },
    {
        if item_index == 0 || item_index > self.todo_lines.len() {
            return None;
        }
        parse_todo_subflow_fallback(self.todo_lines[item_index - 1].as_str())
    }

    /// The tool calls of section `section_id`, in order.
    pub fn tool_runs_for_section(&self, section_id: &str) -> (r: Vec<&ToolRun>)
        ensures
            derefs(r@) == section_runs(self.tool_runs@, section_id@),
    {
        let mut out: Vec<&ToolRun> = Vec::new();
        let mut i: usize = 0;
        while i < self.tool_runs.len()
            invariant
                i <= self.tool_runs@.len(),
                derefs(out@) == section_runs(self.tool_runs@.take(i as int), section_id@),
            decreases self.tool_runs.len() - i,
        {
            proof {
                assert(self.tool_runs@.take(i + 1).drop_last() =~= self.tool_runs@.take(i as int));
            }
            let t = &self.tool_runs[i];
            if str_eq(t.parent_section_id.as_str(), section_id) {
                out.push(t);
            }
            proof {
                assert(derefs(out@) =~= section_runs(self.tool_runs@.take(i + 1), section_id@));
            }
            i = i + 1;
        }
        proof {
            assert(self.tool_runs@.take(self.tool_runs@.len() as int) =~= self.tool_runs@);
        }
        out
    }
}

fn run_lines(runs: &[&ToolRun]) -> (r: Vec<String>)
    ensures
        views(r@) == derefs(runs@).map_values(|t: ToolRun| run_line(t)),
{
    let ghost rs = derefs(runs@);
    let mut out: Vec<String> = Vec::new();
    let mut i: usize = 0;
    while i < runs.len()
        invariant
            rs == derefs(runs@),
            i <= rs.len(),
            views(out@) == rs.take(i as int).map_values(|t: ToolRun| run_line(t)),
        decreases runs.len() - i,
    {
        let t = &runs[i];
        let mut l = "- ".to_owned();
        push_str(&mut l, t.tool_name.as_str());
        push_str(&mut l, " [");
        push_str(
            &mut l,
            match t.status {
                ToolRunStatus::Running => "running",
                ToolRunStatus::Completed => "done",
                ToolRunStatus::Failed => "failed",
            },
        );
        push_str(&mut l, "] ");
        push_str(&mut l, t.invocation_preview.as_str());
        push_text(&mut out, l);
        proof {
            let f = |t: ToolRun| run_line(t);
            assert(rs.take(i + 1).map_values(f) =~= rs.take(i as int).map_values(f).push(f(rs[i as int])));
        }
        i = i + 1;
    }
    proof {
        assert(rs.take(rs.len() as int) =~= rs);
    }
    out
}

fn first_lines(ls: Vec<String>, n: usize) -> (r: Vec<String>)
    ensures
        views(r@) == at_most(views(ls@), n as int),
{
    let mut out: Vec<String> = Vec::new();
    let mut i: usize = 0;
    while i < ls.len() && i < n
        invariant
            i <= ls@.len(),
            i <= n,
            out@ == ls@.take(i as int),
        decreases ls.len() - i,
    {
        out.push(ls[i].clone());
        proof {
            assert(out@ =~= ls@.take(i + 1));
        }
        i = i + 1;
    }
    proof {
        if ls@.len() <= n {
            assert(ls@.take(ls@.len() as int) =~= ls@);
        }
        assert(views(out@) =~= at_most(views(ls@), n as int));
    }
    out
}

/// The status part of a subflow's detail.
pub open spec fn status_block(status: Option<StepSubflowStatus>) -> Seq<Seq<char>> {
    match status {
        Some(st) => seq!["status: "@ + spec_status_label(st.status)] + (if st.repeat_count_for_item > 0 {
            seq!["repeats: "@ + dec(st.repeat_count_for_item as nat)]
        } else {
            Seq::empty()
        }) + (if st.no_progress_streak_for_item > 0 {
            seq!["no-progress rounds: "@ + dec(st.no_progress_streak_for_item as nat)]
        } else {
            Seq::empty()
        }) + opt_line("completion: "@, st.completion_source),
        None => Seq::empty(),
    }
}

/// The tools part of a subflow's detail.
pub open spec fn tools_block(runs: Seq<ToolRun>) -> Seq<Seq<char>> {
    if runs.len() > 0 {
        seq![Seq::empty(), "tools: "@ + dec(runs.len())] + runs.map_values(|t: ToolRun| run_line(t))
    } else {
        Seq::empty()
    }
}

/// The body part of a subflow's detail: its first lines, escape sequences
/// removed, unless it is blank.
pub open spec fn body_block(text: Seq<char>) -> Seq<Seq<char>> {
    if trim(without_escapes(text)).len() > 0 {
        seq![Seq::empty(), "body:"@] + at_most(lines(without_escapes(text)), 8)
    } else {
        Seq::empty()
    }
}

fn status_block_of(status: Option<&StepSubflowStatus>) -> (out: Vec<String>)
    ensures
        views(out@) == status_block(match status {
            Some(st) => Some(*st),
            None => None,
        }),
{
    let mut lines: Vec<String> = Vec::new();
    match status {
        Some(st) => {
            push_text(&mut lines, cat("status: ", status_label(st.status)));
            if st.repeat_count_for_item > 0 {
                push_count_line(&mut lines, "repeats: ", st.repeat_count_for_item as u64);
            }
            if st.no_progress_streak_for_item > 0 {
                push_count_line(&mut lines, "no-progress rounds: ", st.no_progress_streak_for_item as u64);
            }
            push_opt_line(&mut lines, "completion: ", &st.completion_source);
        },
        None => {},
    }
    proof {
        assert(views(lines@) =~= status_block(match status {
            Some(st) => Some(*st),
            None => None,
        }));
    }
    lines
}

fn tools_block_of(runs: &[&ToolRun]) -> (out: Vec<String>)
    ensures
        views(out@) == tools_block(derefs(runs@)),
{
    let mut lines: Vec<String> = Vec::new();
    if runs.len() > 0 {
        push_text(&mut lines, String::new());
        push_count_line(&mut lines, "tools: ", runs.len() as u64);
        push_texts(&mut lines, run_lines(runs));
    }
    proof {
        assert(views(lines@) =~= tools_block(derefs(runs@)));
    }
    lines
}

fn body_block_of(text: &str) -> (out: Vec<String>)
    ensures
        views(out@) == body_block(text@),
{
    let mut lines: Vec<String> = Vec::new();
    let body = strip_ansi(text);
    if !is_blank(body.as_str()) {
        push_text(&mut lines, String::new());
        push_text(&mut lines, "body:".to_owned());
        push_texts(&mut lines, first_lines(split_lines(body.as_str()), 8));
    }
    proof {
        assert(views(lines@) =~= body_block(text@));
    }
    lines
}

impl App {
    fn subflow_detail_lines(&self, m: &Msg, r: &StepSubflowRef) -> (out: Vec<String>)
        ensures
            views(out@) == spec_subflow_detail(
                *m,
                *r,
                opt_at(self.step_subflows@, ref_position_from(self.step_subflows@, *r, 0)),
                match m.id {
                    Some(id) => section_runs(self.tool_runs@, id@),
                    None => Seq::empty(),
                },
            ),
    {
        let mut lines: Vec<String> = Vec::new();
        let mut head = "subflow: ".to_owned();
        push_str(&mut head, r.subflow_id.as_str());
        push_str(&mut head, " (");
        push_num(&mut head, r.item_index as u64);
        push_str(&mut head, "/");
        push_num(&mut head, r.item_total as u64);
        push_str(&mut head, ")");
        push_text(&mut lines, head);
        push_opt_line(&mut lines, "todo: #", &r.item_id);
        push_opt_line(&mut lines, "label: ", &r.item_label);
        push_texts(&mut lines, status_block_of(self.step_subflow_status_for_ref(r)));
        let runs: Vec<&ToolRun> = match &m.id {
            Some(id) => self.tool_runs_for_section(id.as_str()),
            None => Vec::new(),
        };
        proof {
            assert(derefs(runs@) =~= match m.id {
                Some(id) => section_runs(self.tool_runs@, id@),
                None => Seq::<ToolRun>::empty(),
            });
        }
        push_texts(&mut lines, tools_block_of(runs.as_slice()));
        push_texts(&mut lines, body_block_of(m.text.as_str()));
        lines
    }

    /// Opens the detail of the subflow of message `id` and gives the
    /// item's label (the subflow's id without one); none when there is no
    /// such message or it belongs to no subflow.
    pub fn open_step_subflow_detail(&mut self, id: &str) -> (r: Option<String>)
        ensures
            ({
                let k = msg_position(old(self).output_msgs@, Some(id@), 0);
                if k >= 0 && old(self).output_msgs@[k].subflow_ref.is_some() {
                    let m = old(self).output_msgs@[k];
                    let sr = m.subflow_ref.unwrap();
                    &&& r matches Some(l) && l@ == match sr.item_label {
                        Some(x) => x@,
                        None => sr.subflow_id@,
                    }
                    &&& App::detail_opened(
                        *old(self),
                        *final(self),
                        " Subflow: "@ + sr.subflow_id@ + " "@,
                        spec_subflow_detail(
                            m,
                            sr,
                            opt_at(old(self).step_subflows@, ref_position_from(old(self).step_subflows@, sr, 0)),
                            match m.id {
                                Some(mid) => section_runs(old(self).tool_runs@, mid@),
                                None => Seq::empty(),
                            },
                        ),
                    )
                } else {
                    r.is_none() && *final(self) == *old(self)
                }
            }),
    {
        let key = Some(id.to_owned());
        let k = match self.find_msg(&key) {
            Some(k) => k,
            None => return None,
        };
        let m = &self.output_msgs[k];
        let r = match &m.subflow_ref {
            Some(r) => r,
            None => return None,
        };
        let lines = self.subflow_detail_lines(m, r);
        let mut title = " Subflow: ".to_owned();
        push_str(&mut title, r.subflow_id.as_str());
        push_str(&mut title, " ");
        let label = match &r.item_label {
            Some(l) => l.clone(),
            None => r.subflow_id.clone(),
        };
        self.open_detail_overlay(title.as_str(), lines);
        Some(label)
    }
}

} // verus!
