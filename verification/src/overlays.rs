//! Opening, scrolling and closing the overlays of the UI, and counting the
//! matches of a panel search.
use vstd::prelude::*;

use crate::app::{sat_sub, App, Panel};
use crate::chars::{chars_of, lower_chars, lower_seq, matches_at, occurs_at, trim, trim_string, views};
use crate::navigator::{DocumentNavigatorFocus, DocumentNavigatorOverlay, DocumentNavigatorRequest};
use crate::picker::{OperatorPickerRequest, PickerOverlay};
use crate::overlay::{
    ConfirmChoice, ConfirmIntent, ConfirmOverlay, DetailOverlay, InputPromptOverlay, OverlayState,
    SearchOverlay, SearchResultsOverlay,
};

verus! {

/// The number of non-overlapping occurrences of `p` in `s` from `i` on,
/// taken from left to right (what `str::matches(..).count()` counts).
pub open spec fn matches_from(s: Seq<char>, p: Seq<char>, i: int) -> nat
    decreases s.len() - i,
{
    if p.len() == 0 || i < 0 || i + p.len() > s.len() {
        0
    } else if occurs_at(s, p, i) {
        1 + matches_from(s, p, i + p.len())
    } else {
        matches_from(s, p, i + 1)
    }
}

/// The number of matches of `p` over all lines.
pub open spec fn total_matches(ls: Seq<Seq<char>>, p: Seq<char>) -> nat
    decreases ls.len(),
{
    if ls.len() == 0 {
        0
    } else {
        total_matches(ls.drop_last(), p) + matches_from(lower_seq(ls.last()), p, 0)
    }
}

proof fn lemma_matches_bound(s: Seq<char>, p: Seq<char>, i: int)
    requires
        0 <= i,
    ensures
        matches_from(s, p, i) <= if i <= s.len() {
            s.len() - i
        } else {
            0
        },
    decreases s.len() - i,
{
    if p.len() > 0 && i + p.len() <= s.len() {
        if occurs_at(s, p, i) {
            lemma_matches_bound(s, p, i + p.len());
        } else {
            lemma_matches_bound(s, p, i + 1);
        }
    }
}

fn count_matches(s: &Vec<char>, p: &Vec<char>) -> (r: usize)
    requires
        p@.len() > 0,
    ensures
        r == matches_from(s@, p@, 0),
{
    let mut i: usize = 0;
    let mut count: usize = 0;
    while p.len() <= s.len() - i
        invariant
            p@.len() > 0,
            i <= s@.len(),
            count <= i,
            count + matches_from(s@, p@, i as int) == matches_from(s@, p@, 0),
        decreases s.len() - i,
    {
        if matches_at(s, i, p) {
            count = count + 1;
            i = i + p.len();
        } else {
            i = i + 1;
        }
    }
    count
}

impl App {
    /// `after` is `before` with an empty search overlay over the focused
    /// panel, and a notice saying so.
    pub open spec fn search_opened(before: App, after: App) -> bool {
        &&& after.overlay matches Some(OverlayState::Search(o)) && o.origin_panel == before.focused_panel
            && o.target_panel == before.focused_panel && o.query@.len() == 0 && o.cursor_pos == 0
        &&& after.status_notice matches Some(n) && n@ == "Search popup opened for the focused panel."@
        &&& after == (App {
            overlay: after.overlay,
            pending_key_sequence: None,
            status_notice: after.status_notice,
            ..before
        })
    }

    /// `after` is `before` with a fresh picker for `request` over the
    /// focused panel.
    pub open spec fn picker_opened(before: App, after: App, request: OperatorPickerRequest) -> bool {
        &&& after.overlay matches Some(OverlayState::Picker(p)) && PickerOverlay::is_fresh(
            p,
            before.focused_panel,
            request,
        )
        &&& after == (App { overlay: after.overlay, pending_key_sequence: None, ..before })
    }

    /// `after` is `before` with a search results overlay titled `title`
    /// listing `lines`, and a notice saying so.
    pub open spec fn search_results_opened(before: App, after: App, title: Seq<char>, lines: Seq<Seq<char>>) -> bool {
        &&& after.overlay matches Some(OverlayState::SearchResults(o)) && o.origin_panel == before.focused_panel
            && o.title@ == title && views(o.lines@) == lines && o.scroll == 0 && o.dismiss_on_backdrop
        &&& after.status_notice matches Some(n) && n@ == "Search results overlay opened."@
        &&& after == (App {
            overlay: after.overlay,
            pending_key_sequence: None,
            status_notice: after.status_notice,
            ..before
        })
    }

    /// `after` is `before` with a runtime approval message `message` to
    /// acknowledge, and a notice saying so.
    pub open spec fn approval_opened(before: App, after: App, message: Seq<char>) -> bool {
        &&& after.overlay matches Some(OverlayState::Confirm(o)) && o.origin_panel == before.focused_panel
            && o.title@ == " Approval Required "@ && o.message@ == message && o.confirm_label@ == "Acknowledge"@
            && o.cancel_label@ == "Close"@ && o.selected == ConfirmChoice::Confirm && o.intent
            == ConfirmIntent::Dismiss && o.dismiss_on_backdrop
        &&& after.status_notice matches Some(n) && n@ == "Approval overlay opened for the current tool action."@
        &&& after == (App {
            overlay: after.overlay,
            pending_key_sequence: None,
            status_notice: after.status_notice,
            ..before
        })
    }

    /// `after` is `before` with a detail overlay titled `title` showing
    /// `lines`.
    pub open spec fn detail_opened(before: App, after: App, title: Seq<char>, lines: Seq<Seq<char>>) -> bool {
        &&& after.overlay matches Some(OverlayState::Detail(o)) && o.origin_panel == before.focused_panel
            && o.title@ == title && views(o.lines@) == lines && o.scroll == 0 && o.dismiss_on_backdrop
        &&& after == (App { overlay: after.overlay, pending_key_sequence: None, ..before })
    }

    /// `after` is `before` with an empty prompt overlay.
    pub open spec fn input_prompt_opened(before: App, after: App, title: Seq<char>, prompt: Seq<char>) -> bool {
        &&& after.overlay matches Some(OverlayState::InputPrompt(o)) && o.origin_panel == before.focused_panel
            && o.title@ == title && o.prompt@ == prompt && o.value@.len() == 0 && o.cursor_pos == 0
            && o.dismiss_on_backdrop
        &&& after == (App { overlay: after.overlay, pending_key_sequence: None, ..before })
    }

    /// `after` is `before` with its overlay closed and the focus back on the
    /// panel it was opened from (or the response panel, when that panel is
    /// not laid out).
    pub open spec fn overlay_closed(before: App, after: App) -> bool {
        match before.overlay {
            None => after == before,
            Some(o) => {
                let back = App { overlay: None, focused_panel: o.spec_origin_panel(), ..before };
                after == (App {
                    focused_panel: if back.spec_visible(o.spec_origin_panel()) {
                        o.spec_origin_panel()
                    } else {
                        Panel::Response
                    },
                    ..back
                })
            },
        }
    }

    /// Opens the search overlay over the focused panel.
    pub fn open_search_overlay(&mut self)
        ensures
            App::search_opened(*old(self), *final(self)),
    {
        self.overlay = Some(
            OverlayState::Search(
                SearchOverlay {
                    origin_panel: self.focused_panel,
                    target_panel: self.focused_panel,
                    query: String::new(),
                    cursor_pos: 0,
                },
            ),
        );
        self.clear_leader_pending();
        self.status_notice = Some("Search popup opened for the focused panel.".to_owned());
    }

    /// Opens the picker for `request` over the focused panel.
    pub fn open_picker_overlay(&mut self, request: OperatorPickerRequest)
        ensures
            App::picker_opened(*old(self), *final(self), request),
    {
        self.overlay = Some(OverlayState::Picker(PickerOverlay::new(self.focused_panel, request)));
        self.clear_leader_pending();
    }

    /// Opens the document navigator for `request` over the focused panel,
    /// with the rail focused and the active entry's row selected.
    pub fn open_document_navigator_overlay(&mut self, request: DocumentNavigatorRequest)
        ensures
            final(self).overlay matches Some(OverlayState::DocumentNavigator(n)) && n.origin_panel
                == old(self).focused_panel && n.request == request && n.focus == DocumentNavigatorFocus::Rail
                && n.content_scroll == 0 && n.history_entry_ids@.len() == 0 && n.dismiss_on_backdrop
                && n.selected == n.active_row(),
            *final(self) == (App { overlay: final(self).overlay, pending_key_sequence: None, ..*old(self) }),
    {
        self.overlay = Some(OverlayState::DocumentNavigator(DocumentNavigatorOverlay::new(self.focused_panel, request)));
        self.clear_leader_pending();
    }

    /// Opens an overlay listing search results.
    pub fn open_search_results_overlay(&mut self, title: &str, lines: Vec<String>)
        ensures
            final(self).overlay matches Some(OverlayState::SearchResults(o)) && o.origin_panel
                == old(self).focused_panel && o.title@ == title@ && o.lines == lines && o.scroll == 0
                && o.dismiss_on_backdrop,
            final(self).status_notice matches Some(n) && n@ == "Search results overlay opened."@,
            *final(self) == (App {
                overlay: final(self).overlay,
                pending_key_sequence: None,
                status_notice: final(self).status_notice,
                ..*old(self)
            }),
    {
        self.overlay = Some(
            OverlayState::SearchResults(
                SearchResultsOverlay {
                    origin_panel: self.focused_panel,
                    title: title.to_owned(),
                    lines,
                    scroll: 0,
                    dismiss_on_backdrop: true,
                },
            ),
        );
        self.clear_leader_pending();
        self.status_notice = Some("Search results overlay opened.".to_owned());
    }

    /// Asks for confirmation before interrupting turn `turn_id`; the safe
    /// choice (keep running) is selected, and a click outside does not
    /// close it.
    pub fn open_interrupt_confirm_overlay(&mut self, turn_id: u64)
        ensures
            final(self).overlay matches Some(OverlayState::Confirm(o)) && o.origin_panel == old(self).focused_panel
                && o.title@ == " Confirm interrupt "@
                && o.message@ == "Stop the running turn and keep the current transcript?"@
                && o.confirm_label@ == "Interrupt"@ && o.cancel_label@ == "Keep running"@
                && o.selected == ConfirmChoice::Cancel && o.intent == (ConfirmIntent::InterruptTurn { turn_id })
                && !o.dismiss_on_backdrop,
            final(self).status_notice matches Some(n) && n@
                == "Confirm interrupt in the overlay before stopping the turn."@,
            *final(self) == (App {
                overlay: final(self).overlay,
                pending_key_sequence: None,
                status_notice: final(self).status_notice,
                ..*old(self)
            }),
    {
        self.overlay = Some(
            OverlayState::Confirm(
                ConfirmOverlay {
                    origin_panel: self.focused_panel,
                    title: " Confirm interrupt ".to_owned(),
                    message: "Stop the running turn and keep the current transcript?".to_owned(),
                    confirm_label: "Interrupt".to_owned(),
                    cancel_label: "Keep running".to_owned(),
                    selected: ConfirmChoice::Cancel,
                    intent: ConfirmIntent::InterruptTurn { turn_id },
                    dismiss_on_backdrop: false,
                },
            ),
        );
        self.clear_leader_pending();
        self.status_notice = Some("Confirm interrupt in the overlay before stopping the turn.".to_owned());
    }

    /// Shows a runtime approval message to acknowledge.
    pub fn open_runtime_confirm_overlay(&mut self, message: &str)
        ensures
            final(self).overlay matches Some(OverlayState::Confirm(o)) && o.origin_panel == old(self).focused_panel
                && o.title@ == " Approval Required "@ && o.message@ == message@
                && o.confirm_label@ == "Acknowledge"@ && o.cancel_label@ == "Close"@
                && o.selected == ConfirmChoice::Confirm && o.intent == ConfirmIntent::Dismiss
                && o.dismiss_on_backdrop,
            final(self).status_notice matches Some(n) && n@
                == "Approval overlay opened for the current tool action."@,
            *final(self) == (App {
                overlay: final(self).overlay,
                pending_key_sequence: None,
                status_notice: final(self).status_notice,
                ..*old(self)
            }),
    {
        self.overlay = Some(
            OverlayState::Confirm(
                ConfirmOverlay {
                    origin_panel: self.focused_panel,
                    title: " Approval Required ".to_owned(),
                    message: message.to_owned(),
                    confirm_label: "Acknowledge".to_owned(),
                    cancel_label: "Close".to_owned(),
                    selected: ConfirmChoice::Confirm,
                    intent: ConfirmIntent::Dismiss,
                    dismiss_on_backdrop: true,
                },
            ),
        );
        self.clear_leader_pending();
        self.status_notice = Some("Approval overlay opened for the current tool action.".to_owned());
    }

    /// Opens a detail overlay with the given title and lines.
    pub fn open_detail_overlay(&mut self, title: &str, lines: Vec<String>)
        ensures
            final(self).overlay matches Some(OverlayState::Detail(o)) && o.origin_panel == old(self).focused_panel
                && o.title@ == title@ && o.lines == lines && o.scroll == 0 && o.dismiss_on_backdrop,
            *final(self) == (App { overlay: final(self).overlay, pending_key_sequence: None, ..*old(self) }),
    {
        self.overlay = Some(
            OverlayState::Detail(
                DetailOverlay {
                    origin_panel: self.focused_panel,
                    title: title.to_owned(),
                    lines,
                    scroll: 0,
                    dismiss_on_backdrop: true,
                },
            ),
        );
        self.clear_leader_pending();
    }

    /// Opens a prompt for a line of text.
    pub fn open_input_prompt_overlay(&mut self, title: &str, prompt: &str)
        ensures
            App::input_prompt_opened(*old(self), *final(self), title@, prompt@),
    {
        self.overlay = Some(
            OverlayState::InputPrompt(
                InputPromptOverlay {
                    origin_panel: self.focused_panel,
                    title: title.to_owned(),
                    prompt: prompt.to_owned(),
                    value: String::new(),
                    cursor_pos: 0,
                    dismiss_on_backdrop: true,
                },
            ),
        );
        self.clear_leader_pending();
    }

    /// Closes the overlay and gives focus back to the panel it was opened
    /// from (or the response panel, when that panel is no longer laid out).
    pub fn close_overlay(&mut self)
        ensures
            App::overlay_closed(*old(self), *final(self)),
    {
        let mut taken: Option<OverlayState> = None;
        std::mem::swap(&mut taken, &mut self.overlay);
        match taken {
            Some(overlay) => {
                self.focused_panel = overlay.origin_panel();
                self.normalize_focus();
            },
            None => {},
        }
    }

    /// The lines an overlay shows at once: its height less 4, at least 8.
    pub open spec fn spec_overlay_viewport(self) -> int {
        let h = sat_sub(self.overlay_rect.height as int, 4);
        if h >= 8 {
            h
        } else {
            8
        }
    }

    pub fn overlay_viewport_lines(&self) -> (r: usize)
        ensures
            r == self.spec_overlay_viewport(),
    {
        let height = self.overlay_rect.height.saturating_sub(4) as usize;
        if height >= 8 {
            height
        } else {
            8
        }
    }

    /// How far a page key scrolls an overlay: one line less than it shows.
    pub fn overlay_page_step(&self) -> (r: usize)
        ensures
            r == self.spec_overlay_viewport() - 1,
    {
        let lines = self.overlay_viewport_lines();
        let step = lines - 1;
        if step >= 1 {
            step
        } else {
            1
        }
    }

    /// Whether the overlay scrolls (search results and details do).
    pub open spec fn overlay_scrolls(self) -> bool {
        self.overlay matches Some(OverlayState::SearchResults(_)) || self.overlay matches Some(
            OverlayState::Detail(_),
        )
    }

    /// The scroll position of a scrolling overlay.
    pub open spec fn overlay_scroll(self) -> usize {
        match self.overlay {
            Some(OverlayState::SearchResults(o)) => o.scroll,
            Some(OverlayState::Detail(o)) => o.scroll,
            _ => 0,
        }
    }

    /// The number of lines of a scrolling overlay.
    pub open spec fn overlay_line_count(self) -> int {
        match self.overlay {
            Some(OverlayState::SearchResults(o)) => o.lines@.len() as int,
            Some(OverlayState::Detail(o)) => o.lines@.len() as int,
            _ => 0,
        }
    }

    /// The state with the scrolling overlay moved to `scroll`.
    pub open spec fn with_overlay_scroll(self, scroll: usize) -> App {
        match self.overlay {
            Some(OverlayState::SearchResults(o)) => App {
                overlay: Some(OverlayState::SearchResults(SearchResultsOverlay { scroll, ..o })),
                ..self
            },
            Some(OverlayState::Detail(o)) => App {
                overlay: Some(OverlayState::Detail(DetailOverlay { scroll, ..o })),
                ..self
            },
            _ => self,
        }
    }

    /// Moves the scroll position of a scrolling overlay; other overlays are
    /// left alone.
    fn set_overlay_scroll(&mut self, scroll: usize) -> (r: bool)
        ensures
            r == old(self).overlay_scrolls(),
            *final(self) == old(self).with_overlay_scroll(scroll),
    {
        let mut taken: Option<OverlayState> = None;
        std::mem::swap(&mut taken, &mut self.overlay);
        match taken {
            Some(OverlayState::SearchResults(o)) => {
                self.overlay = Some(OverlayState::SearchResults(SearchResultsOverlay { scroll, ..o }));
                true
            },
            Some(OverlayState::Detail(o)) => {
                self.overlay = Some(OverlayState::Detail(DetailOverlay { scroll, ..o }));
                true
            },
            other => {
                self.overlay = other;
                false
            },
        }
    }

    fn current_overlay_scroll(&self) -> (r: (usize, usize))
        ensures
            r.0 == self.overlay_scroll(),
            r.1 == self.overlay_line_count(),
    {
        match &self.overlay {
            Some(OverlayState::SearchResults(o)) => (o.scroll, o.lines.len()),
            Some(OverlayState::Detail(o)) => (o.scroll, o.lines.len()),
            _ => (0, 0),
        }
    }

    pub fn scroll_active_overlay_up(&mut self, amount: usize) -> (r: bool)
        ensures
            r == old(self).overlay_scrolls(),
            *final(self) == old(self).with_overlay_scroll(
                sat_sub(old(self).overlay_scroll() as int, amount as int) as usize,
            ),
    {
        let (scroll, _) = self.current_overlay_scroll();
        self.set_overlay_scroll(scroll.saturating_sub(amount))
    }

    pub fn scroll_active_overlay_down(&mut self, amount: usize) -> (r: bool)
        ensures
            r == old(self).overlay_scrolls(),
            *final(self) == old(self).with_overlay_scroll(
                (if old(self).overlay_scroll() + amount > usize::MAX {
                    usize::MAX as int
                } else {
                    old(self).overlay_scroll() + amount
                }) as usize,
            ),
    {
        let (scroll, _) = self.current_overlay_scroll();
        self.set_overlay_scroll(scroll.saturating_add(amount))
    }

    pub fn scroll_active_overlay_to_start(&mut self) -> (r: bool)
        ensures
            r == old(self).overlay_scrolls(),
            *final(self) == old(self).with_overlay_scroll(0),
    {
        self.set_overlay_scroll(0)
    }

    /// Scrolls to the last screenful of the overlay.
    pub fn scroll_active_overlay_to_end(&mut self) -> (r: bool)
        ensures
            r == old(self).overlay_scrolls(),
            *final(self) == old(self).with_overlay_scroll(
                sat_sub(old(self).overlay_line_count(), old(self).spec_overlay_viewport()) as usize,
            ),
    {
        let viewport = self.overlay_viewport_lines();
        let (_, count) = self.current_overlay_scroll();
        self.set_overlay_scroll(count.saturating_sub(viewport))
    }

    /// What the search overlay counts: its target panel and the matches of
    /// its trimmed, ASCII lower-cased query in the lower-cased lines of that
    /// panel (0 for a blank query).
    pub open spec fn spec_search_count(self) -> Option<(Panel, nat)> {
        match self.overlay {
            Some(OverlayState::Search(o)) => {
                let q = trim(o.query@);
                if q.len() == 0 {
                    Some((o.target_panel, 0))
                } else {
                    Some((o.target_panel, total_matches(self.panel_text(o.target_panel), lower_seq(q))))
                }
            },
            _ => None,
        }
    }

    pub fn panel_search_match_count(&self) -> (r: Option<(Panel, usize)>)
        requires
            match self.spec_search_count() {
                Some((_, n)) => n <= usize::MAX,
                None => true,
            },
        ensures
            match self.spec_search_count() {
                Some((p, n)) => r == Some((p, n as usize)),
                None => r.is_none(),
            },
    {
        let overlay = match &self.overlay {
            Some(OverlayState::Search(o)) => o,
            _ => return None,
        };
        let query = chars_of(trim_string(overlay.query.as_str()).as_str());
        if query.len() == 0 {
            return Some((overlay.target_panel, 0));
        }
        let q = lower_chars(&query);
        let lines = self.panel_lines(overlay.target_panel);
        let ghost ls = views(lines@);
        let ghost total = total_matches(ls, q@);
        let mut count: usize = 0;
        let mut i: usize = 0;
        while i < lines.len()
            invariant
                i <= lines@.len(),
                ls == views(lines@),
                q@.len() > 0,
                total == total_matches(ls, q@),
                total <= usize::MAX,
                count == total_matches(ls.take(i as int), q@),
            decreases lines.len() - i,
        {
            proof {
                assert(ls.take(i + 1).drop_last() =~= ls.take(i as int));
                assert(ls.take(i + 1).last() == lines@[i as int]@);
                lemma_total_prefix(ls, q@, i + 1);
            }
            let line = lower_chars(&chars_of(lines[i].as_str()));
            let n = count_matches(&line, &q);
            count = count + n;
            i = i + 1;
        }
        proof {
            assert(ls.take(lines@.len() as int) =~= ls);
        }
        Some((overlay.target_panel, count))
    }
}

proof fn lemma_total_prefix(ls: Seq<Seq<char>>, p: Seq<char>, i: int)
    requires
        0 <= i <= ls.len(),
    ensures
        total_matches(ls.take(i), p) <= total_matches(ls, p),
    decreases ls.len() - i,
{
    if i < ls.len() {
        lemma_total_prefix(ls, p, i + 1);
        assert(ls.take(i + 1).drop_last() =~= ls.take(i));
    } else {
        assert(ls.take(i) =~= ls);
    }
}

} // verus!
