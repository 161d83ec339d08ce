//! The transcript's sections and the tool calls of a turn: sections are
//! opened, streamed into and closed by id; tool calls are kept by id.
use vstd::prelude::*;

use crate::app::{App, Msg, MsgKind, SectionState};
use crate::chars::{push_str, str_eq, views};
use crate::text::{clean_option, clean_texts, cleaned, cleaned_texts, strip_ansi, without_escapes};
use crate::turn_delivery::{ToolRun, ToolRunDetail, ToolRunStatus};

verus! {

/// The characters of an optional id.
pub open spec fn opt_view(o: Option<String>) -> Option<Seq<char>> {
    match o {
        Some(s) => Some(s@),
        None => None,
    }
}

/// The first message at or after `i` whose id is `id`, or -1.
pub open spec fn msg_position(s: Seq<Msg>, id: Option<Seq<char>>, i: int) -> int
    decreases s.len() - i,
{
    if i < 0 || i >= s.len() {
        -1
    } else if opt_view(s[i].id) == id {
        i
    } else {
        msg_position(s, id, i + 1)
    }
}

/// The first message whose id is `id`, or -1.
pub open spec fn section_position(s: Seq<Msg>, id: Option<Seq<char>>) -> int {
    msg_position(s, id, 0)
}

pub proof fn lemma_msg_position(s: Seq<Msg>, id: Option<Seq<char>>, i: int)
    requires
        0 <= i,
    ensures
        msg_position(s, id, i) == -1 || (i <= msg_position(s, id, i) < s.len() && opt_view(
            s[msg_position(s, id, i)].id,
        ) == id),
        msg_position(s, id, i) == -1 ==> forall|j: int| i <= j < s.len() ==> opt_view(#[trigger] s[j].id) != id,
    decreases s.len() - i,
{
    if i < s.len() && opt_view(s[i].id) != id {
        lemma_msg_position(s, id, i + 1);
    }
}

/// A message after a streaming failure: a streaming section fails, and a
/// failed reasoning section folds.
pub open spec fn failed_if_streaming(m: Msg) -> Msg {
    if m.state == Some(SectionState::Streaming) {
        Msg {
            state: Some(SectionState::Failed),
            collapsed: m.collapsed || m.kind == MsgKind::Thinking,
            ..m
        }
    } else {
        m
    }
}

/// The first tool call at or after `i` whose id is `id`, or -1.
pub open spec fn run_position_from(s: Seq<ToolRun>, id: Seq<char>, i: int) -> int
    decreases s.len() - i,
{
    if i < 0 || i >= s.len() {
        -1
    } else if s[i].id@ == id {
        i
    } else {
        run_position_from(s, id, i + 1)
    }
}

/// The first tool call whose id is `id`, or -1.
pub open spec fn run_position(s: Seq<ToolRun>, id: Seq<char>) -> int {
    run_position_from(s, id, 0)
}

pub proof fn lemma_run_position(s: Seq<ToolRun>, id: Seq<char>, i: int)
    requires
        0 <= i,
    ensures
        run_position_from(s, id, i) == -1 || (i <= run_position_from(s, id, i) < s.len()
            && s[run_position_from(s, id, i)].id@ == id),
    decreases s.len() - i,
{
    if i < s.len() && s[i].id@ != id {
        lemma_run_position(s, id, i + 1);
    }
}

/// A tool call as it is kept: its previews and its detail without escapes.
pub open spec fn sanitized(old_run: ToolRun, new_run: ToolRun) -> bool {
    &&& new_run.id == old_run.id
    &&& new_run.parent_section_id == old_run.parent_section_id
    &&& new_run.tool_name == old_run.tool_name
    &&& new_run.status == old_run.status
    &&& new_run.invocation_preview@ == without_escapes(old_run.invocation_preview@)
    &&& cleaned(old_run.result_preview, new_run.result_preview)
    &&& new_run.detail.title@ == without_escapes(old_run.detail.title@)
    &&& cleaned_texts(old_run.detail.lines@, new_run.detail.lines@)
}

/// A tool call without escape sequences in its previews and detail.
pub fn sanitize_tool_run(t: ToolRun) -> (r: ToolRun)
    ensures
        sanitized(t, r),
{
    let ToolRun { id, parent_section_id, tool_name, status, invocation_preview, result_preview, detail } = t;
    let ToolRunDetail { title, lines } = detail;
    ToolRun {
        id,
        parent_section_id,
        tool_name,
        status,
        invocation_preview: strip_ansi(invocation_preview.as_str()),
        result_preview: clean_option(result_preview),
        detail: ToolRunDetail { title: strip_ansi(title.as_str()), lines: clean_texts(lines) },
    }
}

/// A tool call that was running has failed.
pub open spec fn failed_if_running(t: ToolRun) -> ToolRun {
    if t.status == ToolRunStatus::Running {
        ToolRun { status: ToolRunStatus::Failed, ..t }
    } else {
        t
    }
}

/// The messages once every streaming section has failed.
pub open spec fn settled_msgs(msgs: Seq<Msg>) -> Seq<Msg> {
    msgs.map_values(|m: Msg| failed_if_streaming(m))
}

/// The tool calls once every running call has failed.
pub open spec fn settled_runs(runs: Seq<ToolRun>) -> Seq<ToolRun> {
    runs.map_values(|t: ToolRun| failed_if_running(t))
}

/// Failing what streams and what runs leaves nothing streaming or running,
/// and changes nothing else.
pub proof fn law_failing_settles_every_section_and_call(msgs: Seq<Msg>, runs: Seq<ToolRun>)
    ensures
        settled_msgs(msgs).len() == msgs.len(),
        forall|j: int| 0 <= j < msgs.len() ==> (#[trigger] settled_msgs(msgs)[j]).state != Some(SectionState::Streaming),
        forall|j: int|
            0 <= j < msgs.len() && msgs[j].state != Some(SectionState::Streaming) ==> #[trigger] settled_msgs(msgs)[j]
                == msgs[j],
        settled_runs(runs).len() == runs.len(),
        forall|j: int| 0 <= j < runs.len() ==> (#[trigger] settled_runs(runs)[j]).status != ToolRunStatus::Running,
        forall|j: int|
            0 <= j < runs.len() && runs[j].status != ToolRunStatus::Running ==> #[trigger] settled_runs(runs)[j]
                == runs[j],
{
}

fn opt_str_eq(a: &Option<String>, b: &Option<String>) -> (r: bool)
    ensures
        r == (opt_view(*a) == opt_view(*b)),
{
    match (a, b) {
        (Some(x), Some(y)) => str_eq(x.as_str(), y.as_str()),
        (None, None) => true,
        _ => false,
    }
}

impl App {
    /// `after` is `before` with the section `next` opened: it replaces the
    /// first message with the same id, or comes last.
    pub open spec fn section_begun(before: App, after: App, next: Msg) -> bool {
        let k = section_position(before.output_msgs@, opt_view(next.id));
        &&& after.output_msgs@ == if k >= 0 {
            before.output_msgs@.update(k, next)
        } else {
            before.output_msgs@.push(next)
        }
        &&& after == (App { output_msgs: after.output_msgs, ..before })
    }

    /// `after` is `before` with `delta`, without escapes, streamed into the
    /// section `id` (when there is one).
    pub open spec fn section_appended(before: App, after: App, id: Seq<char>, delta: Seq<char>) -> bool {
        let k = section_position(before.output_msgs@, Some(id));
        &&& if k >= 0 {
            &&& after.output_msgs@.len() == before.output_msgs@.len()
            &&& forall|j: int|
                0 <= j < before.output_msgs@.len() && j != k ==> #[trigger] after.output_msgs@[j]
                    == before.output_msgs@[j]
            &&& after.output_msgs@[k].text@ == before.output_msgs@[k].text@ + without_escapes(delta)
            &&& after.output_msgs@[k] == (Msg { text: after.output_msgs@[k].text, ..before.output_msgs@[k] })
        } else {
            after.output_msgs@ == before.output_msgs@
        }
        &&& after == (App { output_msgs: after.output_msgs, ..before })
    }

    /// `after` is `before` with the section `id` (when there is one) closed
    /// with `state`; a reasoning section folds.
    pub open spec fn section_completed(before: App, after: App, id: Seq<char>, state: SectionState) -> bool {
        let k = section_position(before.output_msgs@, Some(id));
        let m = before.output_msgs@[k];
        &&& after.output_msgs@ == if k >= 0 {
            before.output_msgs@.update(
                k,
                Msg { state: Some(state), collapsed: m.collapsed || m.kind == MsgKind::Thinking, ..m },
            )
        } else {
            before.output_msgs@
        }
        &&& after == (App { output_msgs: after.output_msgs, ..before })
    }

    /// `after` is `before` with the tool call `run` kept (its preview
    /// without escapes): in place of the first call with its id, or last;
    /// the delivery panel shows the result.
    pub open spec fn tool_run_recorded(before: App, after: App, run: ToolRun) -> bool {
        &&& exists|t: ToolRun|
            #![trigger sanitized(run, t)]
            sanitized(run, t) && {
                let k = run_position(before.tool_runs@, run.id@);
                after.tool_runs@ == if k >= 0 {
                    before.tool_runs@.update(k, t)
                } else {
                    before.tool_runs@.push(t)
                }
            }
        &&& after.shows_panel(views(after.delivery_lines@))
        &&& after == (App { tool_runs: after.tool_runs, delivery_lines: after.delivery_lines, ..before })
    }

    /// `after` is `before` with the tool call `id` (when there is one) set
    /// to `status`; the delivery panel shows the result.
    pub open spec fn tool_run_completed(before: App, after: App, id: Seq<char>, status: ToolRunStatus) -> bool {
        let k = run_position(before.tool_runs@, id);
        &&& after.tool_runs@ == if k >= 0 {
            before.tool_runs@.update(k, ToolRun { status, ..before.tool_runs@[k] })
        } else {
            before.tool_runs@
        }
        &&& after.shows_panel(views(after.delivery_lines@))
        &&& after == (App { tool_runs: after.tool_runs, delivery_lines: after.delivery_lines, ..before })
    }

    pub(crate) fn find_msg(&self, id: &Option<String>) -> (r: Option<usize>)
        ensures
            match r {
                Some(k) => k as int == section_position(self.output_msgs@, opt_view(*id)) && k
                    < self.output_msgs@.len(),
                None => section_position(self.output_msgs@, opt_view(*id)) == -1,
            },
    {
        proof {
            lemma_msg_position(self.output_msgs@, opt_view(*id), 0);
        }
        let mut i: usize = 0;
        while i < self.output_msgs.len()
            invariant
                i <= self.output_msgs@.len(),
                section_position(self.output_msgs@, opt_view(*id)) == msg_position(
                    self.output_msgs@,
                    opt_view(*id),
                    i as int,
                ),
            decreases self.output_msgs.len() - i,
        {
            if opt_str_eq(&self.output_msgs[i].id, id) {
                return Some(i);
            }
            i = i + 1;
        }
        None
    }

    /// Opens a transcript section: it replaces the first message with the
    /// same id, or comes last.
    pub fn begin_response_section(&mut self, next: Msg)
        ensures
            App::section_begun(*old(self), *final(self), next),
    {
        match self.find_msg(&next.id) {
            Some(k) => {
                self.output_msgs.set(k, next);
            },
            None => {
                self.output_msgs.push(next);
            },
        }
    }

    /// Streams `delta`, without escape sequences, into the section `id`.
    pub fn append_response_section(&mut self, id: &str, delta: &str)
        ensures
            App::section_appended(*old(self), *final(self), id@, delta@),
    {
        let key = Some(id.to_owned());
        match self.find_msg(&key) {
            Some(k) => {
                let clean = strip_ansi(delta);
                let mut m = self.output_msgs.remove(k);
                push_str(&mut m.text, clean.as_str());
                self.output_msgs.insert(k, m);
            },
            None => {},
        }
    }

    /// Closes the section `id` with `state`; a reasoning section folds.
    pub fn complete_response_section(&mut self, id: &str, state: SectionState)
        ensures
            App::section_completed(*old(self), *final(self), id@, state),
    {
        let key = Some(id.to_owned());
        match self.find_msg(&key) {
            Some(k) => {
                let mut m = self.output_msgs.remove(k);
                m.state = Some(state);
                if m.kind == MsgKind::Thinking {
                    m.collapsed = true;
                }
                self.output_msgs.insert(k, m);
                proof {
                    assert(self.output_msgs@ =~= old(self).output_msgs@.update(k as int, m));
                }
            },
            None => {},
        }
    }

    /// Fails every section that is still streaming.
    pub fn fail_streaming_response_sections(&mut self)
        ensures
            final(self).output_msgs@ == settled_msgs(old(self).output_msgs@),
            *final(self) == (App { output_msgs: final(self).output_msgs, ..*old(self) }),
    {
        let mut i: usize = 0;
        while i < self.output_msgs.len()
            invariant
                i <= self.output_msgs@.len(),
                self.output_msgs@.len() == old(self).output_msgs@.len(),
                forall|j: int| 0 <= j < i ==> #[trigger] self.output_msgs@[j] == failed_if_streaming(old(self).output_msgs@[j]),
                forall|j: int| i <= j < self.output_msgs@.len() ==> #[trigger] self.output_msgs@[j] == old(self).output_msgs@[j],
                *self == (App { output_msgs: self.output_msgs, ..*old(self) }),
            decreases self.output_msgs.len() - i,
        {
            let streaming = match self.output_msgs[i].state {
                Some(SectionState::Streaming) => true,
                _ => false,
            };
            if streaming {
                let mut m = self.output_msgs.remove(i);
                m.state = Some(SectionState::Failed);
                if m.kind == MsgKind::Thinking {
                    m.collapsed = true;
                }
                self.output_msgs.insert(i, m);
            }
            i = i + 1;
        }
        proof {
            assert(self.output_msgs@ =~= old(self).output_msgs@.map_values(|m: Msg| failed_if_streaming(m)));
        }
    }

    pub(crate) fn find_tool_run(&self, id: &str) -> (r: Option<usize>)
        ensures
            match r {
                Some(k) => k as int == run_position(self.tool_runs@, id@) && k < self.tool_runs@.len(),
                None => run_position(self.tool_runs@, id@) == -1,
            },
    {
        proof {
            lemma_run_position(self.tool_runs@, id@, 0);
        }
        let mut i: usize = 0;
        while i < self.tool_runs.len()
            invariant
                i <= self.tool_runs@.len(),
                run_position(self.tool_runs@, id@) == run_position_from(self.tool_runs@, id@, i as int),
            decreases self.tool_runs.len() - i,
        {
            if str_eq(self.tool_runs[i].id.as_str(), id) {
                return Some(i);
            }
            i = i + 1;
        }
        None
    }

    /// Keeps a tool call: it replaces the first call with its id, or comes
    /// last when `append_if_missing`.
    fn upsert_tool_run(&mut self, tool_run: ToolRun, append_if_missing: bool)
        ensures
            exists|t: ToolRun|
                #![trigger sanitized(tool_run, t)]
                sanitized(tool_run, t) && {
                    let k = run_position(old(self).tool_runs@, tool_run.id@);
                    final(self).tool_runs@ == if k >= 0 {
                        old(self).tool_runs@.update(k, t)
                    } else if append_if_missing {
                        old(self).tool_runs@.push(t)
                    } else {
                        old(self).tool_runs@
                    }
                },
            final(self).tool_runs@.len() <= old(self).tool_runs@.len() + 1,
            *final(self) == (App { tool_runs: final(self).tool_runs, ..*old(self) }),
    {
        let ghost original = tool_run;
        let clean = sanitize_tool_run(tool_run);
        assert(sanitized(original, clean));
        match self.find_tool_run(clean.id.as_str()) {
            Some(k) => {
                self.tool_runs.set(k, clean);
            },
            None => {
                if append_if_missing {
                    self.tool_runs.push(clean);
                }
            },
        }
    }

    /// Records a tool call that started, and refreshes the delivery panel.
    pub fn begin_tool_run(&mut self, tool_run: ToolRun)
        requires
            old(self).delivery_fits(),
            old(self).tool_runs@.len() < u32::MAX,
        ensures
            App::tool_run_recorded(*old(self), *final(self), tool_run),
    {
        self.upsert_tool_run(tool_run, true);
        self.refresh_delivery_panel();
    }

    /// Records a change to a tool call, and refreshes the delivery panel.
    pub fn update_tool_run(&mut self, tool_run: ToolRun)
        requires
            old(self).delivery_fits(),
            old(self).tool_runs@.len() < u32::MAX,
        ensures
            App::tool_run_recorded(*old(self), *final(self), tool_run),
    {
        self.upsert_tool_run(tool_run, true);
        self.refresh_delivery_panel();
    }

    /// Sets the status of the tool call `id`, and refreshes the delivery
    /// panel.
    pub fn complete_tool_run(&mut self, id: &str, status: ToolRunStatus)
        requires
            old(self).delivery_fits(),
        ensures
            App::tool_run_completed(*old(self), *final(self), id@, status),
    {
        match self.find_tool_run(id) {
            Some(k) => {
                let mut t = self.tool_runs.remove(k);
                t.status = status;
                self.tool_runs.insert(k, t);
                proof {
                    assert(self.tool_runs@ =~= old(self).tool_runs@.update(k as int, t));
                }
            },
            None => {},
        }
        self.refresh_delivery_panel();
    }

    /// Fails every tool call that is still running, and refreshes the
    /// delivery panel.
    pub fn fail_running_tool_runs(&mut self)
        requires
            old(self).delivery_fits(),
        ensures
            final(self).tool_runs@ == settled_runs(old(self).tool_runs@),
            final(self).shows_panel(views(final(self).delivery_lines@)),
            *final(self) == (App {
                tool_runs: final(self).tool_runs,
                delivery_lines: final(self).delivery_lines,
                ..*old(self)
            }),
    {
        let mut i: usize = 0;
        while i < self.tool_runs.len()
            invariant
                i <= self.tool_runs@.len(),
                self.tool_runs@.len() == old(self).tool_runs@.len(),
                forall|j: int| 0 <= j < i ==> #[trigger] self.tool_runs@[j] == failed_if_running(old(self).tool_runs@[j]),
                forall|j: int| i <= j < self.tool_runs@.len() ==> #[trigger] self.tool_runs@[j] == old(self).tool_runs@[j],
                *self == (App { tool_runs: self.tool_runs, ..*old(self) }),
            decreases self.tool_runs.len() - i,
        {
            if self.tool_runs[i].status == ToolRunStatus::Running {
                let mut t = self.tool_runs.remove(i);
                t.status = ToolRunStatus::Failed;
                self.tool_runs.insert(i, t);
            }
            i = i + 1;
        }
        proof {
            assert(self.tool_runs@ =~= old(self).tool_runs@.map_values(|t: ToolRun| failed_if_running(t)));
        }
        self.refresh_delivery_panel();
    }
}

} // verus!
