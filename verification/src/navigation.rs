//! Moving through the response panel, and what mouse presses, drags,
//! releases and wheel turns do to the UI.
use vstd::prelude::*;

use crate::app::{App, ListState, Panel, PanelScroll};
use crate::chars::{chars_of, dec, dec_usize, push_str};
use crate::overlay::OverlayState;
use crate::selection::point_le;

verus! {

/// The response line that selecting line `line` of `n` lands on: none
/// without lines, the last one past the end.
pub open spec fn clamped_line(n: nat, line: usize) -> Option<usize> {
    if n == 0 {
        None
    } else if line < n {
        Some(line)
    } else {
        Some((n - 1) as usize)
    }
}


/// What the mouse did.
#[derive(Debug, Clone, Copy, PartialEq, Eq, Structural)]
pub enum MouseAction {
    LeftDown,
    LeftDrag,
    LeftUp,
    ScrollUp,
    ScrollDown,
    Other,
}

/// A mouse event at a screen cell.
#[derive(Debug, Clone, Copy, PartialEq, Eq, Structural)]
pub struct MouseInput {
    pub kind: MouseAction,
    pub column: u16,
    pub row: u16,
}

impl App {
    /// The response panel with `selected` selected and pinned.
    pub open spec fn with_response_selection(self, selected: Option<usize>) -> App {
        App {
            response_scroll: PanelScroll {
                list: ListState {
                    offset: if selected.is_none() {
                        0
                    } else {
                        self.response_scroll.list.offset
                    },
                    selected,
                },
                pinned: if selected.is_none() {
                    self.response_scroll.pinned
                } else {
                    true
                },
                ..self.response_scroll
            },
            ..self
        }
    }

    /// Selects response line `line_index` (the last line when past it),
    /// pinning the panel; with no lines, clears the selection.
    pub fn select_response_line(&mut self, line_index: usize) -> (r: bool)
        ensures
            r == (old(self).response_lines@.len() > 0),
            *final(self) == old(self).with_response_selection(
                if old(self).response_lines@.len() == 0 {
                    None
                } else if line_index < old(self).response_lines@.len() {
                    Some(line_index)
                } else {
                    Some((old(self).response_lines@.len() - 1) as usize)
                },
            ),
    {
        let total = self.response_lines.len();
        if total == 0 {
            self.response_scroll.list.select(None);
            return false;
        }
        let selected = if line_index < total {
            line_index
        } else {
            total - 1
        };
        self.response_scroll.pinned = true;
        self.response_scroll.list.select(Some(selected));
        true
    }

    /// Moves the response selection one line up (from the first line when
    /// none is selected).
    pub fn move_response_selection_up(&mut self) -> (r: bool)
        ensures
            r == (old(self).response_lines@.len() > 0),
            *final(self) == old(self).with_response_selection(
                if old(self).response_lines@.len() == 0 {
                    None
                } else {
                    let current = match old(self).response_scroll.list.selected {
                        Some(s) => s as int,
                        None => 0,
                    };
                    Some(
                        (if current >= 1 {
                            current - 1
                        } else {
                            0
                        }) as usize,
                    )
                },
            ),
    {
        let total = self.response_lines.len();
        if total == 0 {
            self.response_scroll.list.select(None);
            return false;
        }
        let current = match self.response_scroll.list.selected() {
            Some(s) => s,
            None => 0,
        };
        self.response_scroll.pinned = true;
        self.response_scroll.list.select(Some(current.saturating_sub(1)));
        true
    }

    /// Moves the response selection one line down, stopping at the last
    /// line (from the first line when none is selected).
    pub fn move_response_selection_down(&mut self) -> (r: bool)
        ensures
            r == (old(self).response_lines@.len() > 0),
            *final(self) == old(self).with_response_selection(
                if old(self).response_lines@.len() == 0 {
                    None
                } else {
                    let current = match old(self).response_scroll.list.selected {
                        Some(s) => s as int,
                        None => 0,
                    };
                    let last = old(self).response_lines@.len() - 1;
                    Some(
                        (if current + 1 <= last {
                            current + 1
                        } else {
                            last
                        }) as usize,
                    )
                },
            ),
    {
        let total = self.response_lines.len();
        if total == 0 {
            self.response_scroll.list.select(None);
            return false;
        }
        let current = match self.response_scroll.list.selected() {
            Some(s) => s,
            None => 0,
        };
        let last = total - 1;
        let next = if current < last {
            current + 1
        } else {
            last
        };
        self.response_scroll.pinned = true;
        self.response_scroll.list.select(Some(next));
        true
    }

    /// The state after starting a selection in `panel` at a cell.
    pub open spec fn after_begin_selection(self, panel: Panel, col: u16, row: u16) -> App {
        match self.spec_point_at(panel, col, row) {
            Some(p) => App {
                text_selection: Some(crate::app::PanelTextSelection { panel, anchor: p, focus: p }),
                mouse_selection_active: true,
                ..self
            },
            None => App { text_selection: None, mouse_selection_active: false, ..self },
        }
    }

    /// The panel a left press focuses and selects in: the diagnostics,
    /// document, memory, todo or logs panel under the cell when it is laid
    /// out, the response panel otherwise.
    pub open spec fn press_target(self, col: u16, row: u16) -> Panel {
        let p = self.spec_panel_at(col, row);
        if (p == Panel::Diagnostics || p == Panel::Document || p == Panel::Memory || p == Panel::Todo
            || p == Panel::Logs) && self.spec_visible(p) {
            p
        } else {
            Panel::Response
        }
    }

    /// Whether the cell lies in the laid-out overlay.
    pub open spec fn in_overlay(self, col: u16, row: u16) -> bool {
        self.overlay_rect.spec_hit(col, row)
    }

    /// Whether every panel's scrolled rows fit at `row`.
    pub open spec fn all_rows_fit(self, row: u16) -> bool {
        forall|p: Panel| #[trigger] self.rows_fit(p, row)
    }

    /// A left press: on the rail it focuses the rail; elsewhere it focuses
    /// the panel under the cell (or the response panel) and starts a
    /// selection there.
    pub fn mouse_press(&mut self, col: u16, row: u16)
        requires
            old(self).all_rows_fit(row),
        ensures
            old(self).spec_panel_at(col, row) == Panel::SidebarRail ==> *final(self) == (App {
                text_selection: None,
                mouse_selection_active: false,
                focused_panel: if old(self).spec_visible(Panel::SidebarRail) {
                    Panel::SidebarRail
                } else {
                    old(self).focused_panel
                },
                ..*old(self)
            }),
            old(self).spec_panel_at(col, row) != Panel::SidebarRail ==> *final(self) == (App {
                focused_panel: old(self).press_target(col, row),
                ..*old(self)
            }).after_begin_selection(old(self).press_target(col, row), col, row),
    {
        let panel = self.panel_at(col, row);
        if panel == Panel::SidebarRail {
            self.clear_text_selection();
            self.focus_sidebar_rail();
            return;
        }
        let visible = match panel {
            Panel::Diagnostics => self.diagnostics_visible(),
            Panel::Document => self.document_visible(),
            Panel::Memory => self.memory_visible(),
            Panel::Todo => self.todo_visible(),
            Panel::Logs => self.logs_visible(),
            _ => false,
        };
        let target = if visible {
            panel
        } else {
            Panel::Response
        };
        self.focused_panel = target;
        proof {
            assert(old(self).rows_fit(target, row));
            assert(self.spec_inner_rect(target) == old(self).spec_inner_rect(target));
            assert(self.spec_scroll_offset(target) == old(self).spec_scroll_offset(target));
        }
        self.begin_mouse_selection(target, col, row);
    }

    /// The response line a release clicks: the selection was started in
    /// the response panel and the release lands on its anchor.
    pub open spec fn clicked_response_line(self, col: u16, row: u16) -> Option<usize> {
        match self.text_selection {
            Some(sel) => if sel.panel == Panel::Response {
                match self.spec_point_at(Panel::Response, col, row) {
                    Some(p) => if p == sel.anchor {
                        Some(p.line_index)
                    } else {
                        None
                    },
                    None => None,
                }
            } else {
                None
            },
            None => None,
        }
    }

    /// A left release: ends the selection, announcing how many characters
    /// are ready to copy; a plain click on a response line selects that
    /// line instead and returns it, for its item to be activated.
    pub fn mouse_release(&mut self, col: u16, row: u16) -> (r: Option<usize>)
        requires
            old(self).all_rows_fit(row),
        ensures
            ({
                let (fin, selected) = old(self).finish_effect(col, row);
                match selected {
                    Some(t) => {
                        &&& r.is_none()
                        &&& final(self).status_notice matches Some(n) && n@ == "Selected "@ + dec(t.len())
                            + " chars. Press y or Ctrl+C to copy."@
                        &&& *final(self) == (App { status_notice: final(self).status_notice, ..fin })
                    },
                    None => match old(self).clicked_response_line(col, row) {
                        Some(line) => r == Some(line) && *final(self) == (App {
                            focused_panel: Panel::Response,
                            ..fin
                        }).with_response_selection(clamped_line(fin.response_lines@.len(), line)),
                        None => r.is_none() && *final(self) == fin,
                    },
                }
            }),
    {
        let click = match self.text_selection {
            Some(sel) => if sel.panel == Panel::Response {
                proof {
                    assert(self.rows_fit(Panel::Response, row));
                }
                match self.panel_text_point_at(Panel::Response, col, row) {
                    Some(p) => if p == sel.anchor {
                        Some(p.line_index)
                    } else {
                        None
                    },
                    None => None,
                }
            } else {
                None
            },
            None => None,
        };
        proof {
            match self.text_selection {
                Some(sel) => {
                    assert(self.rows_fit(sel.panel, row));
                },
                None => {},
            }
        }
        match self.finish_mouse_selection(col, row) {
            Some(text) => {
                let mut notice = "Selected ".to_owned();
                push_str(&mut notice, dec_usize(chars_of(text.as_str()).len()).as_str());
                push_str(&mut notice, " chars. Press y or Ctrl+C to copy.");
                self.status_notice = Some(notice);
                None
            },
            None => match click {
                Some(line) => {
                    self.focused_panel = Panel::Response;
                    self.select_response_line(line);
                    Some(line)
                },
                None => None,
            },
        }
    }

    /// Whether the cell lies in the input box.
    pub open spec fn in_input(self, col: u16, row: u16) -> bool {
        self.input_rect.spec_hit(col, row)
    }

    /// A mouse event. With an overlay open, only a press outside an overlay
    /// that allows it does something: it closes the overlay. Otherwise
    /// presses, drags and releases select text, and the wheel scrolls the
    /// input box or the panel under the pointer by three lines. Returns the
    /// response line whose item a click asks to activate.
    pub fn handle_mouse_event(&mut self, mouse: MouseInput) -> (r: Option<usize>)
        requires
            old(self).all_rows_fit(mouse.row),
            old(self).input_scroll_top + 3 <= usize::MAX,
        ensures
            old(self).overlay.is_some() ==> r.is_none() && if mouse.kind == MouseAction::LeftDown
                && !old(self).in_overlay(mouse.column, mouse.row)
                && old(self).overlay.unwrap().spec_dismiss_on_backdrop() {
                final(self).overlay.is_none() && (final(self).status_notice matches Some(n) && n@
                    == "Overlay closed."@)
            } else {
                *final(self) == *old(self)
            },
            old(self).overlay.is_none() && mouse.kind == MouseAction::Other ==> *final(self) == *old(self)
                && r.is_none(),
            old(self).overlay.is_none() && (mouse.kind == MouseAction::ScrollUp || mouse.kind
                == MouseAction::ScrollDown) && old(self).in_input(mouse.column, mouse.row)
                ==> final(self).input_scroll_top == if mouse.kind == MouseAction::ScrollUp {
                if old(self).input_scroll_top >= 3 {
                    old(self).input_scroll_top - 3
                } else {
                    0
                }
            } else {
                let limit = crate::app::sat_sub(
                    old(self).input_positions().last().0 + 1,
                    old(self).input_rect.height as int,
                );
                if old(self).input_scroll_top + 3 <= limit {
                    old(self).input_scroll_top + 3
                } else {
                    limit
                }
            },
            r.is_some() ==> mouse.kind == MouseAction::LeftUp && r == old(self).clicked_response_line(
                mouse.column,
                mouse.row,
            ),
    {
        if self.overlay_active() {
            let inside = self.overlay_rect.hit(mouse.column, mouse.row);
            if mouse.kind == MouseAction::LeftDown && !inside {
                let dismiss = match &self.overlay {
                    Some(o) => o.dismiss_on_backdrop(),
                    None => false,
                };
                if dismiss {
                    self.close_overlay();
                    self.set_status_notice("Overlay closed.");
                }
            }
            return None;
        }
        match mouse.kind {
            MouseAction::LeftDown => {
                self.mouse_press(mouse.column, mouse.row);
                None
            },
            MouseAction::LeftDrag => {
                proof {
                    match self.text_selection {
                        Some(sel) => {
                            assert(self.rows_fit(sel.panel, mouse.row));
                        },
                        None => {},
                    }
                }
                self.update_mouse_selection(mouse.column, mouse.row);
                None
            },
            MouseAction::LeftUp => self.mouse_release(mouse.column, mouse.row),
            MouseAction::ScrollUp => {
                if self.input_rect.hit(mouse.column, mouse.row) {
                    self.scroll_input_up(3);
                } else {
                    let panel = self.panel_at(mouse.column, mouse.row);
                    self.scroll_panel_up(panel, 3);
                }
                None
            },
            MouseAction::ScrollDown => {
                if self.input_rect.hit(mouse.column, mouse.row) {
                    self.scroll_input_down(3);
                } else {
                    let panel = self.panel_at(mouse.column, mouse.row);
                    self.scroll_panel_down(panel, 3);
                }
                None
            },
            MouseAction::Other => None,
        }
    }
}

} // verus!
