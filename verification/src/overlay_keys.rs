//! What a key press does while an overlay is open: it edits the overlay's
//! text field, moves its selection or scroll, closes it, or hands back an
//! action that needs the agent session.
use vstd::prelude::*;

use crate::app::{sat_sub, App, MsgKind};
use crate::text::without_escapes;
use crate::chars::{chars_of, concat2, concat3, dec, dec_usize, owned, push_str, to_ascii_lower, ascii_lower};
use crate::clipboard::{KeyCode, KeyInput, CONTROL, SHIFT};
use crate::input::{insert_char_at, inserted, remove_char_at, removed};
use crate::navigator::{DocumentNavigatorFocus, DocumentNavigatorOverlay};
use crate::overlay::{ConfirmChoice, ConfirmIntent, ConfirmOverlay, InputPromptOverlay, OverlayState, SearchOverlay};
use crate::picker::{
    same_item, shortcut_action, OperatorPickerAction, OperatorPickerIntent, OperatorPickerItem, OperatorPickerShortcut,
    PickerOverlay,
};
use crate::tools::copy_strings;

verus! {

/// What a key press in an overlay leaves for the caller to do.
#[derive(Debug, Clone, PartialEq, Eq)]
pub enum OverlayKeyOutcome {
    /// Nothing more: the key was handled, or ignored.
    Done,
    /// The confirmation was accepted: run its intent.
    RunConfirm(ConfirmIntent),
    /// A picker action was triggered on the selected item.
    RunPickerAction { action: OperatorPickerAction, selected_item: Option<OperatorPickerItem> },
}

/// What an editing key does to a one-line text field and its cursor: the
/// arrows, Home and End move the cursor, Backspace and Delete remove a
/// character, a character typed alone or with Shift is inserted. Other
/// keys do not edit.
pub open spec fn field_edit(text: Seq<char>, cursor: usize, key: KeyInput) -> Option<(Seq<char>, usize)> {
    match key.code {
        KeyCode::Left => Some((text, sat_sub(cursor as int, 1) as usize)),
        KeyCode::Right => Some(
            (
                text,
                if cursor < text.len() {
                    (cursor + 1) as usize
                } else {
                    cursor
                },
            ),
        ),
        KeyCode::Home => Some((text, 0usize)),
        KeyCode::End => Some((text, text.len() as usize)),
        KeyCode::Backspace => Some(
            if cursor > 0 {
                (removed(text, cursor - 1), (cursor - 1) as usize)
            } else {
                (text, cursor)
            },
        ),
        KeyCode::Delete => Some(
            if cursor < text.len() {
                (removed(text, cursor as int), cursor)
            } else {
                (text, cursor)
            },
        ),
        KeyCode::Char(c) => if key.modifiers == 0 || key.modifiers == SHIFT {
            Some((inserted(text, cursor as int, c), (cursor + 1) as usize))
        } else {
            None
        },
        _ => None,
    }
}

/// Whether an edit changes the text (and so the filter of a picker).
pub open spec fn edits_text(key: KeyInput) -> bool {
    key.code matches KeyCode::Backspace || key.code matches KeyCode::Delete || key.code matches KeyCode::Char(_)
}

/// Whether a cursor stands within its text, whose length fits a `usize`.
pub open spec fn cursor_fits(text: Seq<char>, cursor: usize) -> bool {
    cursor <= text.len() && text.len() < usize::MAX
}

/// Applies an editing key to a text field.
fn edit_field(text: &mut String, cursor: &mut usize, key: KeyInput) -> (r: bool)
    requires
        cursor_fits(old(text)@, *old(cursor)),
    ensures
        r == field_edit(old(text)@, *old(cursor), key).is_some(),
        match field_edit(old(text)@, *old(cursor), key) {
            Some((t, c)) => final(text)@ == t && *final(cursor) == c && c <= t.len(),
            None => *final(text) == *old(text) && *final(cursor) == *old(cursor),
        },
{
    let count = chars_of(text.as_str()).len();
    let c0 = *cursor;
    match key.code {
        KeyCode::Left => {
            if c0 > 0 {
                *cursor = c0 - 1;
            }
            true
        },
        KeyCode::Right => {
            if c0 < count {
                *cursor = c0 + 1;
            }
            true
        },
        KeyCode::Home => {
            *cursor = 0;
            true
        },
        KeyCode::End => {
            *cursor = count;
            true
        },
        KeyCode::Backspace => {
            if c0 > 0 {
                let t = remove_char_at(text, c0 - 1);
                *text = t;
                *cursor = c0 - 1;
            }
            true
        },
        KeyCode::Delete => {
            if c0 < count {
                let t = remove_char_at(text, c0);
                *text = t;
            }
            true
        },
        KeyCode::Char(ch) => {
            if key.modifiers == 0 || key.modifiers == SHIFT {
                let t = insert_char_at(text, c0, ch);
                *text = t;
                *cursor = c0 + 1;
                true
            } else {
                false
            }
        },
        _ => false,
    }
}

/// The shortcut a key press names in a picker: Enter alone, or a letter
/// with Ctrl (lower-cased).
pub open spec fn key_shortcut(key: KeyInput) -> Option<OperatorPickerShortcut> {
    match key.code {
        KeyCode::Enter => if key.modifiers == 0 {
            Some(OperatorPickerShortcut::Enter)
        } else {
            None
        },
        KeyCode::Char(c) => if key.modifiers == CONTROL {
            Some(OperatorPickerShortcut::Ctrl(ascii_lower(c)))
        } else {
            None
        },
        _ => None,
    }
}

/// The action a key press triggers in picker `p`.
pub open spec fn picker_key_action(p: PickerOverlay, key: KeyInput) -> Option<OperatorPickerAction> {
    match key_shortcut(key) {
        Some(s) => shortcut_action(p.request, s),
        None => None,
    }
}

/// Whether `r` hands back the action that `key` triggers in picker `p`,
/// with the selected item (or nothing, when the key triggers no action).
pub open spec fn picked(p: PickerOverlay, key: KeyInput, r: OverlayKeyOutcome) -> bool {
    match picker_key_action(p, key) {
        Some(a) => r matches OverlayKeyOutcome::RunPickerAction { action, selected_item } && action == a && match (
            selected_item,
            p.spec_visible_item(p.selected as int),
        ) {
            (Some(x), Some(y)) => same_item(x, y),
            (None, None) => true,
            _ => false,
        },
        None => r is Done,
    }
}

/// How a picker reads a key press, in the order its keys are tried.
pub enum PickerKey {
    Close,
    Up,
    Down,
    Filter,
    Edit,
    Other,
}

pub open spec fn picker_key(p: PickerOverlay, key: KeyInput) -> PickerKey {
    let m = key.modifiers;
    if key.code == KeyCode::Esc {
        PickerKey::Close
    } else if (key.code == KeyCode::Up || key.code == KeyCode::Char('k')) && m == 0 {
        PickerKey::Up
    } else if (key.code == KeyCode::Down || key.code == KeyCode::Tab || key.code == KeyCode::Char('j')) && m == 0 {
        PickerKey::Down
    } else if key.code == KeyCode::Char('/') && m == 0 {
        PickerKey::Filter
    } else if p.filter_mode && field_edit(p.filter_query@, p.filter_cursor_pos, key).is_some() {
        PickerKey::Edit
    } else {
        PickerKey::Other
    }
}

/// What a key press other than Esc makes of picker `p` (`q`, handing
/// back `r`): Up, `k`, Down, Tab and `j` (without modifiers) move the
/// selection and leave filter mode; `/` starts the filter; in filter mode
/// the editing keys edit the filter, which is applied when its text
/// changes; any other key leaves the picker as it is and may trigger an
/// action, handed back with the selected item.
pub open spec fn picker_moved(p: PickerOverlay, q: PickerOverlay, key: KeyInput, r: OverlayKeyOutcome) -> bool {
    match picker_key(p, key) {
        PickerKey::Close => true,
        PickerKey::Up => r is Done && q == (PickerOverlay {
            selected: if p.selected == 0 {
                0
            } else {
                (p.selected - 1) as usize
            },
            filter_mode: false,
            ..p
        }),
        PickerKey::Down => r is Done && q == (PickerOverlay {
            selected: if p.visible_item_indices@.len() == 0 {
                p.selected
            } else if p.selected + 1 < p.visible_item_indices@.len() {
                (p.selected + 1) as usize
            } else {
                (p.visible_item_indices@.len() - 1) as usize
            },
            filter_mode: false,
            ..p
        }),
        PickerKey::Filter => r is Done && q == (PickerOverlay {
            filter_mode: p.filter_mode || p.request.filter_enabled,
            ..p
        }),
        PickerKey::Edit => {
            let (t, c) = field_edit(p.filter_query@, p.filter_cursor_pos, key).unwrap();
            &&& r is Done
            &&& q.filter_query@ == t
            &&& q.filter_cursor_pos == c
            &&& if edits_text(key) {
                (PickerOverlay { filter_query: q.filter_query, filter_cursor_pos: c, ..p }).refreshed(q)
            } else {
                q == (PickerOverlay { filter_query: q.filter_query, filter_cursor_pos: c, ..p })
            }
        },
        PickerKey::Other => q == p && picked(p, key, r),
    }
}

/// What a key press does in the navigator `n` (other than Esc, which
/// closes it): Tab switches focus, Left and Right focus the rail and the
/// body, the arrows, `j` and `k` (without modifiers), the page keys, Home
/// and End move the selection when the rail has focus and scroll the body
/// otherwise, and Enter on the rail opens the selected entry.
pub open spec fn navigator_moved(n: DocumentNavigatorOverlay, q: DocumentNavigatorOverlay, key: KeyInput, page: usize, viewport: usize) -> bool {
    let rail = n.focus == DocumentNavigatorFocus::Rail;
    let m = key.modifiers;
    if key.code == KeyCode::Tab {
        q == (DocumentNavigatorOverlay {
            focus: if rail {
                DocumentNavigatorFocus::Content
            } else {
                DocumentNavigatorFocus::Rail
            },
            ..n
        })
    } else if key.code == KeyCode::Left && !rail {
        q == (DocumentNavigatorOverlay { focus: DocumentNavigatorFocus::Rail, ..n })
    } else if key.code == KeyCode::Right && n.focus != DocumentNavigatorFocus::Content {
        q == (DocumentNavigatorOverlay { focus: DocumentNavigatorFocus::Content, ..n })
    } else if (key.code == KeyCode::Up || key.code == KeyCode::Char('k')) && m == 0 {
        q == if rail { n.with_selected(n.selected_by(1, false)) } else { n.with_scroll(n.scrolled_by(1, false)) }
    } else if (key.code == KeyCode::Down || key.code == KeyCode::Char('j')) && m == 0 {
        q == if rail { n.with_selected(n.selected_by(1, true)) } else { n.with_scroll(n.scrolled_by(1, true)) }
    } else if key.code == KeyCode::PageUp {
        q == if rail { n.with_selected(n.selected_by(page as int, false)) } else { n.with_scroll(n.scrolled_by(page as int, false)) }
    } else if key.code == KeyCode::PageDown {
        q == if rail { n.with_selected(n.selected_by(page as int, true)) } else { n.with_scroll(n.scrolled_by(page as int, true)) }
    } else if key.code == KeyCode::Home {
        q == if rail { n.with_selected(0) } else { n.with_scroll(0) }
    } else if key.code == KeyCode::End {
        q == if rail {
            n.with_selected(
                if n.rows().len() == 0 {
                    n.selected
                } else {
                    (n.rows().len() - 1) as usize
                },
            )
        } else {
            n.with_scroll(n.end_scroll(viewport))
        }
    } else if key.code == KeyCode::Enter && rail {
        DocumentNavigatorOverlay::activated(n, q)
    } else {
        q == n
    }
}

impl App {
    /// `after` is `before` with the notice `text` set.
    pub open spec fn notice_set(before: App, after: App, text: Seq<char>) -> bool {
        &&& after.status_notice matches Some(n) && n@ == text
        &&& after == (App { status_notice: after.status_notice, ..before })
    }

    /// `after` is `before` with the overlay closed and the notice `text` set.
    pub open spec fn closed_with_notice(before: App, after: App, text: Seq<char>) -> bool {
        &&& after.status_notice matches Some(n) && n@ == text
        &&& App::overlay_closed(before, App { status_notice: before.status_notice, ..after })
    }

    /// `after` is `before` with its overlay replaced by `o`.
    pub open spec fn overlay_now(before: App, after: App, o: OverlayState) -> bool {
        after == (App { overlay: Some(o), ..before })
    }

    /// Whether the text cursors of the open overlay stand within their
    /// texts, and what a search would count fits a `usize`.
    pub open spec fn overlay_keys_fit(self) -> bool {
        match self.overlay {
            Some(OverlayState::Search(o)) => cursor_fits(o.query@, o.cursor_pos) && match self.spec_search_count() {
                Some((_, n)) => n <= usize::MAX,
                None => true,
            },
            Some(OverlayState::InputPrompt(o)) => cursor_fits(o.value@, o.cursor_pos),
            Some(OverlayState::Picker(p)) => cursor_fits(p.filter_query@, p.filter_cursor_pos),
            _ => true,
        }
    }

    /// What a key press does in the search overlay `o`.
    pub open spec fn search_key_stepped(before: App, o: SearchOverlay, after: App, key: KeyInput) -> bool {
        match key.code {
            KeyCode::Esc => App::closed_with_notice(before, after, "Search popup closed."@),
            KeyCode::Enter => match before.spec_search_count() {
                Some((_, n)) => App::notice_set(
                    before,
                    after,
                    "Search popup captured '"@ + o.query@ + "' with "@ + dec(n)
                        + " match(es). Jump navigation lands in Task 15B-11."@,
                ),
                None => false,
            },
            _ => match field_edit(o.query@, o.cursor_pos, key) {
                Some((t, c)) => after.overlay matches Some(OverlayState::Search(p)) && p.query@ == t
                    && p.cursor_pos == c && p.origin_panel == o.origin_panel && p.target_panel
                    == o.target_panel && after == (App { overlay: after.overlay, ..before }),
                None => after == before,
            },
        }
    }

    /// What a key press does in a scrolling overlay (search results or a
    /// detail): Esc closes it, the arrows move one line, the page keys a
    /// page, Home and End go to the start and to the last screenful.
    pub open spec fn scroll_key_stepped(before: App, after: App, key: KeyInput, closing_notice: Option<Seq<char>>) -> bool {
        let page = before.spec_overlay_viewport() - 1;
        let s = before.overlay_scroll() as int;
        let down = |amount: int|
            if s + amount > usize::MAX {
                usize::MAX as int
            } else {
                s + amount
            };
        match key.code {
            KeyCode::Esc => match closing_notice {
                Some(t) => App::closed_with_notice(before, after, t),
                None => App::overlay_closed(before, after),
            },
            KeyCode::Up => after == before.with_overlay_scroll(sat_sub(s, 1) as usize),
            KeyCode::Down => after == before.with_overlay_scroll(down(1) as usize),
            KeyCode::PageUp => after == before.with_overlay_scroll(sat_sub(s, page) as usize),
            KeyCode::PageDown => after == before.with_overlay_scroll(down(page) as usize),
            KeyCode::Home => after == before.with_overlay_scroll(0),
            KeyCode::End => after == before.with_overlay_scroll(
                sat_sub(before.overlay_line_count(), before.spec_overlay_viewport()) as usize,
            ),
            _ => after == before,
        }
    }

    /// What a key press does in the confirmation `o`: the arrows, Tab, `y`
    /// and `n` choose, Esc cancels, Enter runs the intent when confirming
    /// and cancels otherwise.
    pub open spec fn confirm_key_stepped(
        before: App,
        o: ConfirmOverlay,
        after: App,
        key: KeyInput,
        r: OverlayKeyOutcome,
    ) -> bool {
        let chosen = |c: ConfirmChoice|
            r is Done && App::overlay_now(before, after, OverlayState::Confirm(ConfirmOverlay { selected: c, ..o }));
        match key.code {
            KeyCode::Esc => r is Done && App::closed_with_notice(before, after, "Confirm action cancelled."@),
            KeyCode::Left => chosen(ConfirmChoice::Cancel),
            KeyCode::Right | KeyCode::Tab => chosen(
                if o.selected == ConfirmChoice::Cancel {
                    ConfirmChoice::Confirm
                } else {
                    ConfirmChoice::Cancel
                },
            ),
            KeyCode::Char(c) => if c == 'y' || c == 'Y' {
                chosen(ConfirmChoice::Confirm)
            } else if c == 'n' || c == 'N' {
                chosen(ConfirmChoice::Cancel)
            } else {
                r is Done && after == before
            },
            KeyCode::Enter => if o.selected == ConfirmChoice::Confirm {
                r == OverlayKeyOutcome::RunConfirm(o.intent) && after == before
            } else {
                r is Done && App::closed_with_notice(before, after, "Interrupt request cancelled."@)
            },
            _ => r is Done && after == before,
        }
    }

    /// What a key press does in the picker `p`: Esc closes it, and any
    /// other key changes the picker as `picker_moved` says.
    pub open spec fn picker_key_stepped(
        before: App,
        p: PickerOverlay,
        after: App,
        key: KeyInput,
        r: OverlayKeyOutcome,
    ) -> bool {
        match picker_key(p, key) {
            PickerKey::Close => r is Done && App::overlay_closed(before, after),
            _ => after.overlay matches Some(OverlayState::Picker(q)) && picker_moved(p, q, key, r) && after == (App {
                overlay: after.overlay,
                ..before
            }),
        }
    }

    /// What a key press does in the input prompt `o`: Esc closes it, Enter
    /// closes it and reports the value, the editing keys edit the value.
    pub open spec fn prompt_key_stepped(before: App, o: InputPromptOverlay, after: App, key: KeyInput) -> bool {
        match key.code {
            KeyCode::Esc => App::overlay_closed(before, after),
            KeyCode::Enter => App::closed_with_notice(before, after, "Input prompt submitted '"@ + o.value@ + "'."@),
            _ => match field_edit(o.value@, o.cursor_pos, key) {
                Some((t, c)) => after.overlay matches Some(OverlayState::InputPrompt(q)) && q.value@ == t
                    && q.cursor_pos == c && q == (InputPromptOverlay { value: q.value, cursor_pos: c, ..o })
                    && after == (App { overlay: after.overlay, ..before }),
                None => after == before,
            },
        }
    }

    /// What a key press does while an overlay is open.
    pub open spec fn overlay_key_stepped(before: App, after: App, key: KeyInput, r: OverlayKeyOutcome) -> bool {
        match before.overlay {
            None => r is Done && after == before,
            Some(OverlayState::Search(o)) => r is Done && App::search_key_stepped(before, o, after, key),
            Some(OverlayState::SearchResults(_)) => r is Done && App::scroll_key_stepped(
                before,
                after,
                key,
                Some("Search results overlay closed."@),
            ),
            Some(OverlayState::Confirm(o)) => App::confirm_key_stepped(before, o, after, key, r),
            Some(OverlayState::Detail(_)) => r is Done && App::scroll_key_stepped(before, after, key, None),
            Some(OverlayState::DocumentNavigator(n)) => r is Done && if key.code == KeyCode::Esc {
                App::overlay_closed(before, after)
            } else {
                after.overlay matches Some(OverlayState::DocumentNavigator(q)) && navigator_moved(
                    n,
                    q,
                    key,
                    (before.spec_overlay_viewport() - 1) as usize,
                    before.spec_overlay_viewport() as usize,
                ) && after == (App { overlay: after.overlay, ..before })
            },
            Some(OverlayState::Picker(p)) => App::picker_key_stepped(before, p, after, key, r),
            Some(OverlayState::InputPrompt(o)) => r is Done && App::prompt_key_stepped(before, o, after, key),
        }
    }
}

fn copy_opt(o: &Option<String>) -> (r: Option<String>)
    ensures
        r == *o,
{
    match o {
        Some(s) => Some(s.clone()),
        None => None,
    }
}

fn copy_confirm_intent(i: &ConfirmIntent) -> (r: ConfirmIntent)
    ensures
        r == *i,
{
    match i {
        ConfirmIntent::Dismiss => ConfirmIntent::Dismiss,
        ConfirmIntent::InterruptTurn { turn_id } => ConfirmIntent::InterruptTurn { turn_id: *turn_id },
        ConfirmIntent::SubmitSlashCommand { command } => ConfirmIntent::SubmitSlashCommand { command: command.clone() },
    }
}

fn copy_picker_intent(i: &OperatorPickerIntent) -> (r: OperatorPickerIntent)
    ensures
        r == *i,
{
    match i {
        OperatorPickerIntent::OpenDetail => OperatorPickerIntent::OpenDetail,
        OperatorPickerIntent::SubmitSlashCommand { command_template } => OperatorPickerIntent::SubmitSlashCommand {
            command_template: command_template.clone(),
        },
        OperatorPickerIntent::RequestConfirmSlashCommand {
            title_template,
            message_template,
            confirm_label,
            command_template,
        } => OperatorPickerIntent::RequestConfirmSlashCommand {
            title_template: title_template.clone(),
            message_template: message_template.clone(),
            confirm_label: confirm_label.clone(),
            command_template: command_template.clone(),
        },
        OperatorPickerIntent::RefreshPicker => OperatorPickerIntent::RefreshPicker,
        OperatorPickerIntent::ClosePicker => OperatorPickerIntent::ClosePicker,
    }
}

fn copy_action(a: &OperatorPickerAction) -> (r: OperatorPickerAction)
    ensures
        r == *a,
{
    OperatorPickerAction {
        action_id: a.action_id.clone(),
        label: a.label.clone(),
        shortcut: a.shortcut,
        requires_selection: a.requires_selection,
        overlay_behavior: a.overlay_behavior,
        intent: copy_picker_intent(&a.intent),
    }
}

fn copy_item(item: &OperatorPickerItem) -> (r: OperatorPickerItem)
    ensures
        same_item(r, *item),
{
    let badges = copy_strings(&item.badges);
    proof {
        assert(badges@ =~= item.badges@);
    }
    OperatorPickerItem {
        id: item.id.clone(),
        title: item.title.clone(),
        subtitle: copy_opt(&item.subtitle),
        badges,
        preview: copy_opt(&item.preview),
        disabled_reason: copy_opt(&item.disabled_reason),
    }
}

/// What an accepted confirmation leaves for the agent session.
#[derive(Debug, Clone, PartialEq, Eq)]
pub enum ConfirmFollowUp {
    Nothing,
    /// Interrupt this turn in the session.
    Interrupt(u64),
    /// Send this slash command.
    Submit(String),
}

/// Applies a key press other than Esc to a navigator.
#[verifier::spinoff_prover]
fn navigator_on_key(n: &mut DocumentNavigatorOverlay, key: KeyInput, page: usize, viewport: usize)
    ensures
        navigator_moved(*old(n), *final(n), key, page, viewport),
{
    let rail = n.focus == DocumentNavigatorFocus::Rail;
    let m = key.modifiers;
    if key.code == KeyCode::Tab {
        n.toggle_focus();
    } else if key.code == KeyCode::Left && !rail {
        n.set_focus(DocumentNavigatorFocus::Rail);
    } else if key.code == KeyCode::Right && n.focus != DocumentNavigatorFocus::Content {
        n.set_focus(DocumentNavigatorFocus::Content);
    } else if (key.code == KeyCode::Up || key.code == KeyCode::Char('k')) && m == 0 {
        if rail {
            n.move_selection_up();
        } else {
            n.scroll_content_up(1);
        }
    } else if (key.code == KeyCode::Down || key.code == KeyCode::Char('j')) && m == 0 {
        if rail {
            n.move_selection_down();
        } else {
            n.scroll_content_down(1);
        }
    } else if key.code == KeyCode::PageUp {
        if rail {
            n.move_selection_by(page, false);
        } else {
            n.scroll_content_up(page);
        }
    } else if key.code == KeyCode::PageDown {
        if rail {
            n.move_selection_by(page, true);
        } else {
            n.scroll_content_down(page);
        }
    } else if key.code == KeyCode::Home {
        if rail {
            n.move_selection_to_start();
        } else {
            n.scroll_content_to_start();
        }
    } else if key.code == KeyCode::End {
        if rail {
            n.move_selection_to_end();
        } else {
            n.scroll_content_to_end(viewport);
        }
    } else if key.code == KeyCode::Enter && rail {
        n.activate_selected();
    }
}

/// Applies a key press other than Esc to a picker.
#[verifier::spinoff_prover]
fn picker_on_key(p: &mut PickerOverlay, key: KeyInput) -> (r: OverlayKeyOutcome)
    requires
        cursor_fits(old(p).filter_query@, old(p).filter_cursor_pos),
        key.code != KeyCode::Esc,
    ensures
        picker_moved(*old(p), *final(p), key, r),
{
    let m = key.modifiers;
    if (key.code == KeyCode::Up || key.code == KeyCode::Char('k')) && m == 0 {
        p.move_selection_up();
        return OverlayKeyOutcome::Done;
    }
    if (key.code == KeyCode::Down || key.code == KeyCode::Tab || key.code == KeyCode::Char('j')) && m == 0 {
        p.move_selection_down();
        return OverlayKeyOutcome::Done;
    }
    if key.code == KeyCode::Char('/') && m == 0 {
        p.enter_filter_mode();
        return OverlayKeyOutcome::Done;
    }
    if p.filter_mode {
        let edited = edit_field(&mut p.filter_query, &mut p.filter_cursor_pos, key);
        if edited {
            let text_changed = match key.code {
                KeyCode::Backspace | KeyCode::Delete | KeyCode::Char(_) => true,
                _ => false,
            };
            if text_changed {
                p.apply_filter_query();
            }
            return OverlayKeyOutcome::Done;
        }
    }
    picker_action_outcome(p, key)
}

/// The action a key press triggers in picker `p`, with the selected item.
fn picker_action_outcome(p: &PickerOverlay, key: KeyInput) -> (r: OverlayKeyOutcome)
    ensures
        picked(*p, key, r),
{
    let m = key.modifiers;
    let shortcut = match key.code {
        KeyCode::Enter => if m == 0 {
            Some(OperatorPickerShortcut::Enter)
        } else {
            None
        },
        KeyCode::Char(c) => if m == CONTROL {
            Some(OperatorPickerShortcut::Ctrl(to_ascii_lower(c)))
        } else {
            None
        },
        _ => None,
    };
    match shortcut {
        Some(s) => match p.action_for_shortcut(s) {
            Some(a) => {
                let action = copy_action(a);
                let selected_item = match p.selected_item() {
                    Some(item) => Some(copy_item(item)),
                    None => None,
                };
                OverlayKeyOutcome::RunPickerAction { action, selected_item }
            },
            None => OverlayKeyOutcome::Done,
        },
        None => OverlayKeyOutcome::Done,
    }
}

impl App {
    /// Handles a key press while an overlay is open.
    pub fn overlay_key_step(&mut self, key: KeyInput) -> (r: OverlayKeyOutcome)
        requires
            old(self).overlay_keys_fit(),
        ensures
            App::overlay_key_stepped(*old(self), *final(self), key, r),
    {
        let kind: u8 = match &self.overlay {
            None => 0,
            Some(OverlayState::Search(_)) => 1,
            Some(OverlayState::SearchResults(_)) => 2,
            Some(OverlayState::Confirm(_)) => 3,
            Some(OverlayState::Detail(_)) => 4,
            Some(OverlayState::Picker(_)) => 5,
            Some(OverlayState::InputPrompt(_)) => 6,
            Some(OverlayState::DocumentNavigator(_)) => 7,
        };
        if kind == 0 {
            OverlayKeyOutcome::Done
        } else if kind == 1 {
            self.search_key(key);
            OverlayKeyOutcome::Done
        } else if kind == 2 {
            self.scroll_key(key, true);
            OverlayKeyOutcome::Done
        } else if kind == 3 {
            self.confirm_key(key)
        } else if kind == 4 {
            self.scroll_key(key, false);
            OverlayKeyOutcome::Done
        } else if kind == 5 {
            self.picker_key_step(key)
        } else if kind == 7 {
            self.navigator_key(key);
            OverlayKeyOutcome::Done
        } else {
            self.prompt_key(key);
            OverlayKeyOutcome::Done
        }
    }

    /// Runs the intent of an accepted confirmation: a dismissal closes the
    /// overlay; an interrupt of the running turn interrupts it (as
    /// `interrupt_turn` says), marks the transcript, closes the overlay and
    /// hands the turn back to be interrupted in the session, while an
    /// interrupt of a turn that is no longer running only closes the
    /// overlay; a slash command closes the overlay and is handed back to be
    /// sent.
    pub fn run_confirm_intent(&mut self, intent: ConfirmIntent) -> (r: ConfirmFollowUp)
        requires
            old(self).delivery_fits(),
        ensures
            match intent {
                ConfirmIntent::Dismiss => r is Nothing && App::closed_with_notice(
                    *old(self),
                    *final(self),
                    "Approval overlay dismissed."@,
                ),
                ConfirmIntent::InterruptTurn { turn_id } => if old(self).is_running && old(self).active_turn_id == turn_id {
                    &&& r == ConfirmFollowUp::Interrupt(turn_id)
                    &&& final(self).overlay is None
                    &&& !final(self).is_running
                    &&& final(self).active_turn_id == crate::turns::next_turn(turn_id)
                    &&& final(self).output_msgs@.last().kind == MsgKind::Error
                    &&& final(self).output_msgs@.last().text@ == without_escapes("\u{26a0} Interrupted"@)
                    &&& final(self).status_notice matches Some(n) && n@ == "Running turn interrupted."@
                } else {
                    r is Nothing && App::closed_with_notice(*old(self), *final(self), "Running turn already finished."@)
                },
                ConfirmIntent::SubmitSlashCommand { command } => r == ConfirmFollowUp::Submit(command)
                    && App::closed_with_notice(*old(self), *final(self), "Running operator action: "@ + command@),
            },
    {
        match intent {
            ConfirmIntent::Dismiss => {
                self.close_overlay();
                self.set_status_notice("Approval overlay dismissed.");
                ConfirmFollowUp::Nothing
            },
            ConfirmIntent::InterruptTurn { turn_id } => {
                if self.is_running && self.is_current_turn(turn_id) {
                    self.interrupt_turn();
                    self.push_msg(MsgKind::Error, "\u{26a0} Interrupted");
                    self.close_overlay();
                    self.set_status_notice("Running turn interrupted.");
                    ConfirmFollowUp::Interrupt(turn_id)
                } else {
                    self.close_overlay();
                    self.set_status_notice("Running turn already finished.");
                    ConfirmFollowUp::Nothing
                }
            },
            ConfirmIntent::SubmitSlashCommand { command } => {
                self.close_overlay();
                let notice = concat2("Running operator action: ", command.as_str());
                self.set_status_notice(notice.as_str());
                ConfirmFollowUp::Submit(command)
            },
        }
    }

    fn search_key(&mut self, key: KeyInput)
        requires
            old(self).overlay matches Some(OverlayState::Search(_)),
            old(self).overlay_keys_fit(),
        ensures
            old(self).overlay matches Some(OverlayState::Search(o)) && App::search_key_stepped(
                *old(self),
                o,
                *final(self),
                key,
            ),
    {
        let ghost before = *self;
        match key.code {
            KeyCode::Esc => {
                self.close_overlay();
                self.set_status_notice("Search popup closed.");
            },
            KeyCode::Enter => {
                let query = match &self.overlay {
                    Some(OverlayState::Search(o)) => owned(o.query.as_str()),
                    _ => String::new(),
                };
                match self.panel_search_match_count() {
                    Some((_, n)) => {
                        let mut s = concat3("Search popup captured '", query.as_str(), "' with ");
                        let count = dec_usize(n);
                        push_str(&mut s, count.as_str());
                        push_str(&mut s, " match(es). Jump navigation lands in Task 15B-11.");
                        self.set_status_notice(s.as_str());
                    },
                    None => {},
                }
            },
            _ => {
                let mut taken: Option<OverlayState> = None;
                std::mem::swap(&mut taken, &mut self.overlay);
                match taken {
                    Some(OverlayState::Search(o)) => {
                        let mut q = owned(o.query.as_str());
                        let mut c = o.cursor_pos;
                        let edited = edit_field(&mut q, &mut c, key);
                        if edited {
                            self.overlay = Some(
                                OverlayState::Search(
                                    SearchOverlay {
                                        origin_panel: o.origin_panel,
                                        target_panel: o.target_panel,
                                        query: q,
                                        cursor_pos: c,
                                    },
                                ),
                            );
                        } else {
                            self.overlay = Some(OverlayState::Search(o));
                        }
                    },
                    other => {
                        self.overlay = other;
                    },
                }
            },
        }
    }

    fn scroll_key(&mut self, key: KeyInput, results: bool)
        requires
            old(self).overlay_scrolls(),
            results == old(self).overlay matches Some(OverlayState::SearchResults(_)),
        ensures
            App::scroll_key_stepped(
                *old(self),
                *final(self),
                key,
                if results {
                    Some("Search results overlay closed."@)
                } else {
                    None
                },
            ),
    {
        match key.code {
            KeyCode::Esc => {
                self.close_overlay();
                if results {
                    self.set_status_notice("Search results overlay closed.");
                }
            },
            KeyCode::Up => {
                self.scroll_active_overlay_up(1);
            },
            KeyCode::Down => {
                self.scroll_active_overlay_down(1);
            },
            KeyCode::PageUp => {
                let step = self.overlay_page_step();
                self.scroll_active_overlay_up(step);
            },
            KeyCode::PageDown => {
                let step = self.overlay_page_step();
                self.scroll_active_overlay_down(step);
            },
            KeyCode::Home => {
                self.scroll_active_overlay_to_start();
            },
            KeyCode::End => {
                self.scroll_active_overlay_to_end();
            },
            _ => {},
        }
    }

    fn confirm_key(&mut self, key: KeyInput) -> (r: OverlayKeyOutcome)
        requires
            old(self).overlay matches Some(OverlayState::Confirm(_)),
        ensures
            old(self).overlay matches Some(OverlayState::Confirm(o)) && App::confirm_key_stepped(
                *old(self),
                o,
                *final(self),
                key,
                r,
            ),
    {
        let mut taken: Option<OverlayState> = None;
        std::mem::swap(&mut taken, &mut self.overlay);
        let o = match taken {
            Some(OverlayState::Confirm(o)) => o,
            other => {
                self.overlay = other;
                return OverlayKeyOutcome::Done;
            },
        };
        let choice = match key.code {
            KeyCode::Left => Some(ConfirmChoice::Cancel),
            KeyCode::Right | KeyCode::Tab => Some(
                match o.selected {
                    ConfirmChoice::Cancel => ConfirmChoice::Confirm,
                    ConfirmChoice::Confirm => ConfirmChoice::Cancel,
                },
            ),
            KeyCode::Char(c) => if c == 'y' || c == 'Y' {
                Some(ConfirmChoice::Confirm)
            } else if c == 'n' || c == 'N' {
                Some(ConfirmChoice::Cancel)
            } else {
                None
            },
            _ => None,
        };
        match choice {
            Some(c) => {
                self.overlay = Some(OverlayState::Confirm(ConfirmOverlay { selected: c, ..o }));
                return OverlayKeyOutcome::Done;
            },
            None => {},
        }
        match key.code {
            KeyCode::Esc => {
                self.overlay = Some(OverlayState::Confirm(o));
                self.close_overlay();
                self.set_status_notice("Confirm action cancelled.");
                OverlayKeyOutcome::Done
            },
            KeyCode::Enter => {
                let confirming = match o.selected {
                    ConfirmChoice::Confirm => true,
                    ConfirmChoice::Cancel => false,
                };
                if confirming {
                    let intent = copy_confirm_intent(&o.intent);
                    self.overlay = Some(OverlayState::Confirm(o));
                    OverlayKeyOutcome::RunConfirm(intent)
                } else {
                    self.overlay = Some(OverlayState::Confirm(o));
                    self.close_overlay();
                    self.set_status_notice("Interrupt request cancelled.");
                    OverlayKeyOutcome::Done
                }
            },
            _ => {
                self.overlay = Some(OverlayState::Confirm(o));
                OverlayKeyOutcome::Done
            },
        }
    }

    fn picker_key_step(&mut self, key: KeyInput) -> (r: OverlayKeyOutcome)
        requires
            old(self).overlay matches Some(OverlayState::Picker(_)),
            old(self).overlay_keys_fit(),
        ensures
            old(self).overlay matches Some(OverlayState::Picker(p)) && App::picker_key_stepped(
                *old(self),
                p,
                *final(self),
                key,
                r,
            ),
    {
        if key.code == KeyCode::Esc {
            self.close_overlay();
            return OverlayKeyOutcome::Done;
        }
        let mut taken: Option<OverlayState> = None;
        std::mem::swap(&mut taken, &mut self.overlay);
        match taken {
            Some(OverlayState::Picker(p)) => {
                let mut p = p;
                let r = picker_on_key(&mut p, key);
                self.overlay = Some(OverlayState::Picker(p));
                r
            },
            other => {
                self.overlay = other;
                OverlayKeyOutcome::Done
            },
        }
    }

    fn navigator_key(&mut self, key: KeyInput)
        requires
            old(self).overlay matches Some(OverlayState::DocumentNavigator(_)),
        ensures
            old(self).overlay matches Some(OverlayState::DocumentNavigator(n)) && if key.code == KeyCode::Esc {
                App::overlay_closed(*old(self), *final(self))
            } else {
                final(self).overlay matches Some(OverlayState::DocumentNavigator(q)) && navigator_moved(
                    n,
                    q,
                    key,
                    (old(self).spec_overlay_viewport() - 1) as usize,
                    old(self).spec_overlay_viewport() as usize,
                ) && *final(self) == (App { overlay: final(self).overlay, ..*old(self) })
            },
    {
        if key.code == KeyCode::Esc {
            self.close_overlay();
            return;
        }
        let page = self.overlay_page_step();
        let viewport = self.overlay_viewport_lines();
        let mut taken: Option<OverlayState> = None;
        std::mem::swap(&mut taken, &mut self.overlay);
        match taken {
            Some(OverlayState::DocumentNavigator(n)) => {
                let mut n = n;
                navigator_on_key(&mut n, key, page, viewport);
                self.overlay = Some(OverlayState::DocumentNavigator(n));
            },
            other => {
                self.overlay = other;
            },
        }
    }

    fn prompt_key(&mut self, key: KeyInput)
        requires
            old(self).overlay matches Some(OverlayState::InputPrompt(_)),
            old(self).overlay_keys_fit(),
        ensures
            old(self).overlay matches Some(OverlayState::InputPrompt(o)) && App::prompt_key_stepped(
                *old(self),
                o,
                *final(self),
                key,
            ),
    {
        match key.code {
            KeyCode::Esc => {
                self.close_overlay();
            },
            KeyCode::Enter => {
                let value = match &self.overlay {
                    Some(OverlayState::InputPrompt(o)) => owned(o.value.as_str()),
                    _ => String::new(),
                };
                self.close_overlay();
                let notice = concat3("Input prompt submitted '", value.as_str(), "'.");
                self.set_status_notice(notice.as_str());
            },
            _ => {
                let mut taken: Option<OverlayState> = None;
                std::mem::swap(&mut taken, &mut self.overlay);
                match taken {
                    Some(OverlayState::InputPrompt(o)) => {
                        let mut v = owned(o.value.as_str());
                        let mut c = o.cursor_pos;
                        let edited = edit_field(&mut v, &mut c, key);
                        if edited {
                            self.overlay = Some(OverlayState::InputPrompt(InputPromptOverlay { value: v, cursor_pos: c, ..o }));
                        } else {
                            self.overlay = Some(OverlayState::InputPrompt(o));
                        }
                    },
                    other => {
                        self.overlay = other;
                    },
                }
            },
        }
    }
}

} // verus!
