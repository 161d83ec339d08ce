//! Running a picker action on the selected item: showing its detail,
//! asking for confirmation, or handing a slash command back to be sent.
use vstd::prelude::*;

use crate::app::App;
use crate::chars::{
    concat2, concat3, is_blank, join, join_strings, lines, owned, replace_all, replace_str, split_lines, trim, views,
};
use crate::overlay::{ConfirmChoice, ConfirmIntent, ConfirmOverlay, OverlayState};
use crate::picker::{OperatorPickerAction, OperatorPickerIntent, OperatorPickerItem, OperatorPickerOverlayBehavior};

verus! {

/// A template with `{id}` and then `{title}` replaced by the item's.
pub open spec fn template_value(template: Seq<char>, item: OperatorPickerItem) -> Seq<char> {
    replace_all(replace_all(template, "{id}"@, item.id@), "{title}"@, item.title@)
}

/// The command a template gives for the selected item, or the template
/// itself when nothing is selected.
pub open spec fn command_from(template: Seq<char>, item: Option<OperatorPickerItem>) -> Seq<char> {
    match item {
        Some(x) => template_value(template, x),
        None => template,
    }
}

/// The summary line of an item's detail, from its subtitle.
pub open spec fn summary_part(item: OperatorPickerItem) -> Seq<Seq<char>> {
    match item.subtitle {
        Some(s) => seq!["summary: "@ + s@],
        None => Seq::empty(),
    }
}

/// The badges line of an item's detail, when it has badges.
pub open spec fn badges_part(item: OperatorPickerItem) -> Seq<Seq<char>> {
    if item.badges@.len() > 0 {
        seq!["badges: "@ + join(views(item.badges@), ", "@)]
    } else {
        Seq::empty()
    }
}

/// The line of an item's detail that says why it is disabled.
pub open spec fn disabled_part(item: OperatorPickerItem) -> Seq<Seq<char>> {
    match item.disabled_reason {
        Some(d) => seq!["disabled: "@ + d@],
        None => Seq::empty(),
    }
}

/// A blank line and the lines of the preview, when it is not blank.
pub open spec fn preview_part(item: OperatorPickerItem) -> Seq<Seq<char>> {
    match item.preview {
        Some(p) => if trim(p@).len() > 0 {
            seq![Seq::<char>::empty()] + lines(p@)
        } else {
            Seq::empty()
        },
        None => Seq::empty(),
    }
}

/// The lines of an item's detail: its id; its subtitle as summary, its
/// badges and the reason it is disabled, where it has them; and, after a
/// blank line, the lines of a preview that is not blank.
pub open spec fn detail_lines(item: OperatorPickerItem) -> Seq<Seq<char>> {
    seq!["id: "@ + item.id@] + summary_part(item) + badges_part(item) + disabled_part(item) + preview_part(item)
}

/// `{id}` and `{title}` of a template filled in from an item.
fn fill_template(template: &str, item: &OperatorPickerItem) -> (r: String)
    ensures
        r@ == template_value(template@, *item),
{
    proof {
        reveal_strlit("{id}");
        reveal_strlit("{title}");
    }
    let with_id = replace_str(template, "{id}", item.id.as_str());
    replace_str(with_id.as_str(), "{title}", item.title.as_str())
}

fn item_detail_lines(item: &OperatorPickerItem) -> (r: Vec<String>)
    ensures
        views(r@) == detail_lines(*item),
{
    let mut out: Vec<String> = Vec::new();
    out.push(concat2("id: ", item.id.as_str()));
    let ghost a = seq!["id: "@ + item.id@];
    proof {
        assert(views(out@) =~= a);
    }
    match &item.subtitle {
        Some(s) => out.push(concat2("summary: ", s.as_str())),
        None => {},
    }
    let ghost b = a + summary_part(*item);
    proof {
        assert(views(out@) =~= b);
    }
    if item.badges.len() > 0 {
        let joined = join_strings(&item.badges, ", ");
        out.push(concat2("badges: ", joined.as_str()));
    }
    let ghost c = b + badges_part(*item);
    proof {
        assert(views(out@) =~= c);
    }
    match &item.disabled_reason {
        Some(d) => out.push(concat2("disabled: ", d.as_str())),
        None => {},
    }
    let ghost d = c + disabled_part(*item);
    proof {
        assert(views(out@) =~= d);
    }
    match &item.preview {
        Some(p) => {
            if !is_blank(p.as_str()) {
                out.push(String::new());
                let ghost with_blank = out@;
                proof {
                    assert(views(out@) =~= d + seq![Seq::<char>::empty()]);
                }
                let more = split_lines(p.as_str());
                let mut i: usize = 0;
                while i < more.len()
                    invariant
                        i <= more@.len(),
                        views(out@) == d + seq![Seq::<char>::empty()] + views(more@.take(i as int)),
                    decreases more.len() - i,
                {
                    let ghost before = out@;
                    out.push(owned(more[i].as_str()));
                    proof {
                        assert(views(out@) =~= views(before).push(more@[i as int]@));
                        assert(views(more@.take(i + 1)) =~= views(more@.take(i as int)).push(more@[i as int]@));
                    }
                    i = i + 1;
                }
                proof {
                    assert(more@.take(more@.len() as int) =~= more@);
                    assert(views(out@) =~= detail_lines(*item));
                }
            } else {
                proof {
                    assert(views(out@) =~= detail_lines(*item));
                }
            }
        },
        None => {
            proof {
                assert(views(out@) =~= detail_lines(*item));
            }
        },
    }
    out
}

impl App {
    /// What running `action` on `item` does: an action that needs a
    /// selection reports that one is missing, or the reason the selected
    /// item is disabled; otherwise the detail of the item opens, a command
    /// is handed back to be sent (after closing the picker when the action
    /// says so), a confirmation of the command opens, the picker waits for
    /// the runtime, or it closes.
    pub open spec fn picker_action_run(
        before: App,
        after: App,
        action: OperatorPickerAction,
        item: Option<OperatorPickerItem>,
        r: Option<String>,
    ) -> bool {
        if action.requires_selection && item is None {
            r is None && App::notice_set(before, after, "Select an item before running that action."@)
        } else if action.requires_selection && item.unwrap().disabled_reason is Some {
            r is None && App::notice_set(before, after, item.unwrap().disabled_reason.unwrap()@)
        } else {
            match action.intent {
                OperatorPickerIntent::OpenDetail => r is None && match item {
                    None => after == before,
                    Some(x) => after.status_notice matches Some(n) && n@ == "Opened "@ + x.title@ + " detail."@
                        && App::detail_opened(
                        before,
                        App { status_notice: before.status_notice, ..after },
                        " "@ + x.title@ + " "@,
                        detail_lines(x),
                    ),
                },
                OperatorPickerIntent::SubmitSlashCommand { command_template } => {
                    let cmd = command_from(command_template@, item);
                    let notice = "Running operator action: "@ + cmd;
                    &&& r matches Some(c) && c@ == cmd
                    &&& if action.overlay_behavior == OperatorPickerOverlayBehavior::CloseOverlay {
                        App::closed_with_notice(before, after, notice)
                    } else {
                        App::notice_set(before, after, notice)
                    }
                },
                OperatorPickerIntent::RequestConfirmSlashCommand {
                    title_template,
                    message_template,
                    confirm_label,
                    command_template,
                } => r is None && match item {
                    None => after == before,
                    Some(x) => {
                        &&& after.overlay matches Some(OverlayState::Confirm(o)) && o.origin_panel
                            == before.focused_panel && o.title@ == template_value(title_template@, x)
                            && o.message@ == template_value(message_template@, x) && o.confirm_label
                            == confirm_label && o.cancel_label@ == "Cancel"@ && o.selected
                            == ConfirmChoice::Cancel && o.dismiss_on_backdrop
                            && (o.intent matches ConfirmIntent::SubmitSlashCommand { command } && command@
                            == template_value(command_template@, x))
                        &&& after.status_notice matches Some(n) && n@ == "Confirm the session action in the overlay."@
                        &&& after == (App {
                            overlay: after.overlay,
                            pending_key_sequence: None,
                            status_notice: after.status_notice,
                            ..before
                        })
                    },
                },
                OperatorPickerIntent::RefreshPicker => r is None && App::notice_set(
                    before,
                    after,
                    "Picker refresh is waiting on a runtime-driven update."@,
                ),
                OperatorPickerIntent::ClosePicker => r is None && App::overlay_closed(before, after),
            }
        }
    }

    /// Runs a picker action on the selected item; returns the slash command
    /// to send, when the action submits one.
    pub fn run_picker_action(&mut self, action: OperatorPickerAction, selected_item: Option<OperatorPickerItem>) -> (r:
        Option<String>)
        ensures
            App::picker_action_run(*old(self), *final(self), action, selected_item, r),
    {
        if action.requires_selection {
            match &selected_item {
                None => {
                    self.set_status_notice("Select an item before running that action.");
                    return None;
                },
                Some(item) => match &item.disabled_reason {
                    Some(reason) => {
                        self.set_status_notice(reason.as_str());
                        return None;
                    },
                    None => {},
                },
            }
        }
        match &action.intent {
            OperatorPickerIntent::OpenDetail => match &selected_item {
                None => None,
                Some(item) => {
                    let lines = item_detail_lines(item);
                    let title = concat3(" ", item.title.as_str(), " ");
                    self.open_detail_overlay(title.as_str(), lines);
                    let notice = concat3("Opened ", item.title.as_str(), " detail.");
                    self.set_status_notice(notice.as_str());
                    None
                },
            },
            OperatorPickerIntent::SubmitSlashCommand { command_template } => {
                let command = match &selected_item {
                    Some(item) => fill_template(command_template.as_str(), item),
                    None => owned(command_template.as_str()),
                };
                let close = match action.overlay_behavior {
                    OperatorPickerOverlayBehavior::CloseOverlay => true,
                    OperatorPickerOverlayBehavior::KeepOpen => false,
                };
                if close {
                    self.close_overlay();
                }
                let notice = concat2("Running operator action: ", command.as_str());
                self.set_status_notice(notice.as_str());
                Some(command)
            },
            OperatorPickerIntent::RequestConfirmSlashCommand {
                title_template,
                message_template,
                confirm_label,
                command_template,
            } => match &selected_item {
                None => None,
                Some(item) => {
                    let command = fill_template(command_template.as_str(), item);
                    let title = fill_template(title_template.as_str(), item);
                    let message = fill_template(message_template.as_str(), item);
                    self.overlay = Some(
                        OverlayState::Confirm(
                            ConfirmOverlay {
                                origin_panel: self.focused_panel,
                                title,
                                message,
                                confirm_label: confirm_label.clone(),
                                cancel_label: "Cancel".to_owned(),
                                selected: ConfirmChoice::Cancel,
                                intent: ConfirmIntent::SubmitSlashCommand { command },
                                dismiss_on_backdrop: true,
                            },
                        ),
                    );
                    self.clear_leader_pending();
                    self.set_status_notice("Confirm the session action in the overlay.");
                    None
                },
            },
            OperatorPickerIntent::RefreshPicker => {
                self.set_status_notice("Picker refresh is waiting on a runtime-driven update.");
                None
            },
            OperatorPickerIntent::ClosePicker => {
                self.close_overlay();
                None
            },
        }
    }
}

} // verus!
