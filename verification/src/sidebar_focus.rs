//! Moving focus and selection among the panels of the sidebar.
use vstd::prelude::*;

use crate::app::{push_if, push_panel_if, App, ListState, Panel, PanelScroll};

verus! {

/// Whether a panel keeps a list selection (every panel but the response
/// panel and the rail).
pub open spec fn is_list_panel(p: Panel) -> bool {
    p != Panel::Response && p != Panel::SidebarRail
}

impl App {
    /// The sidebar panels that focus cycles through, in order: those of
    /// diagnostics, delivery, skills, project, documents, todos and logs
    /// that are laid out.
    pub open spec fn sidebar_panels(self) -> Seq<Panel> {
        let s1 = push_if(Seq::empty(), self.spec_visible(Panel::Diagnostics), Panel::Diagnostics);
        let s2 = push_if(s1, self.spec_visible(Panel::Delivery), Panel::Delivery);
        let s3 = push_if(s2, self.spec_visible(Panel::Skills), Panel::Skills);
        let s4 = push_if(s3, self.spec_visible(Panel::Project), Panel::Project);
        let s5 = push_if(s4, self.spec_visible(Panel::Document), Panel::Document);
        let s6 = push_if(s5, self.spec_visible(Panel::Todo), Panel::Todo);
        push_if(s6, self.spec_visible(Panel::Logs), Panel::Logs)
    }

    /// `self` with panel `p` selecting its first line, when it is a list
    /// panel with lines and nothing selected yet.
    pub open spec fn seeded(self, p: Panel) -> App {
        if is_list_panel(p) && self.panel_text(p).len() > 0 && self.list_of(p).selected.is_none() {
            self.with_list(p, ListState { selected: Some(0), ..self.list_of(p) }, self.pinned_of(p))
        } else {
            self
        }
    }

    /// `self` with focus on `p`, its first line selected when nothing was.
    pub open spec fn sidebar_focused(self, p: Panel) -> App {
        App { focused_panel: p, ..self }.seeded(p)
    }

    /// The laid-out sidebar panels, in the order focus cycles through them.
    pub fn visible_sidebar_panels(&self) -> (r: Vec<Panel>)
        ensures
            r@ == self.sidebar_panels(),
    {
        let mut panels: Vec<Panel> = Vec::new();
        push_panel_if(&mut panels, self.diagnostics_visible(), Panel::Diagnostics);
        push_panel_if(&mut panels, self.delivery_visible(), Panel::Delivery);
        push_panel_if(&mut panels, self.skills_visible(), Panel::Skills);
        push_panel_if(&mut panels, self.project_visible(), Panel::Project);
        push_panel_if(&mut panels, self.document_visible(), Panel::Document);
        push_panel_if(&mut panels, self.todo_visible(), Panel::Todo);
        push_panel_if(&mut panels, self.logs_visible(), Panel::Logs);
        panels
    }

    fn panel_is_visible(&self, p: Panel) -> (r: bool)
        ensures
            r == self.spec_visible(p),
    {
        match p {
            Panel::Response => true,
            Panel::SidebarRail => self.sidebar_visible(),
            Panel::Diagnostics => self.diagnostics_visible(),
            Panel::Delivery => self.delivery_visible(),
            Panel::Skills => self.skills_visible(),
            Panel::Project => self.project_visible(),
            Panel::Document => self.document_visible(),
            Panel::Memory => self.memory_visible(),
            Panel::Todo => self.todo_visible(),
            Panel::Logs => self.logs_visible(),
        }
    }

    /// Focuses a laid-out sidebar panel that shows lines, pins it and
    /// selects its line `index` (its last line at most); reports whether it
    /// did.
    pub fn select_sidebar_panel_item(&mut self, panel: Panel, index: usize) -> (r: bool)
        ensures
            r == (is_list_panel(panel) && old(self).spec_visible(panel) && old(self).displayed_of(panel) > 0),
            r ==> *final(self) == (App {
                focused_panel: panel,
                ..old(self).with_list(
                    panel,
                    ListState {
                        selected: Some(
                            if index < old(self).displayed_of(panel) {
                                index
                            } else {
                                (old(self).displayed_of(panel) - 1) as usize
                            },
                        ),
                        ..old(self).list_of(panel)
                    },
                    true,
                )
            }),
            !r ==> *final(self) == *old(self),
    {
        let list_panel = match panel {
            Panel::Response | Panel::SidebarRail => false,
            _ => true,
        };
        if !list_panel || !self.panel_is_visible(panel) {
            return false;
        }
        let (sc, _) = self.scroll_parts(panel);
        if sc.displayed == 0 {
            return false;
        }
        let k = if index < sc.displayed {
            index
        } else {
            sc.displayed - 1
        };
        let list = ListState { selected: Some(k), ..sc.list };
        self.set_scroll(panel, PanelScroll { list, pinned: true, displayed: sc.displayed });
        self.focused_panel = panel;
        true
    }

    /// Focuses a sidebar panel, selecting its first line when nothing was.
    pub fn focus_sidebar_panel(&mut self, panel: Panel)
        ensures
            *final(self) == old(self).sidebar_focused(panel),
    {
        self.focused_panel = panel;
        let list_panel = match panel {
            Panel::Response | Panel::SidebarRail => false,
            _ => true,
        };
        if !list_panel {
            return;
        }
        let total = self.panel_lines(panel).len();
        if total == 0 {
            return;
        }
        let (sc, _) = self.scroll_parts(panel);
        if sc.list.selected.is_none() {
            let list = ListState { selected: Some(0), ..sc.list };
            self.set_scroll(panel, PanelScroll { list, ..sc });
        }
    }

    /// Focuses the sidebar panel that was clicked.
    pub fn focus_sidebar_panel_from_pointer(&mut self, panel: Panel)
        ensures
            *final(self) == old(self).sidebar_focused(panel),
    {
        self.focus_sidebar_panel(panel);
    }

    /// Focuses the next laid-out sidebar panel (the first when focus is
    /// elsewhere), wrapping around.
    pub fn cycle_focused_sidebar_panel_next(&mut self)
        ensures
            ({
                let ps = old(self).sidebar_panels();
                let k = App::index_from(ps, old(self).focused_panel, 0);
                if ps.len() == 0 {
                    *final(self) == *old(self)
                } else {
                    *final(self) == old(self).sidebar_focused(
                        ps[if k < 0 {
                            0
                        } else {
                            (k + 1) % (ps.len() as int)
                        }],
                    )
                }
            }),
    {
        let panels = self.visible_sidebar_panels();
        if panels.len() == 0 {
            return;
        }
        let k = self.sidebar_position(&panels);
        let next = match k {
            Some(i) => (i + 1) % panels.len(),
            None => 0,
        };
        self.focus_sidebar_panel(panels[next]);
    }

    /// Focuses the previous laid-out sidebar panel (the last when focus is
    /// elsewhere), wrapping around.
    pub fn cycle_focused_sidebar_panel_previous(&mut self)
        ensures
            ({
                let ps = old(self).sidebar_panels();
                let k = App::index_from(ps, old(self).focused_panel, 0);
                if ps.len() == 0 {
                    *final(self) == *old(self)
                } else {
                    *final(self) == old(self).sidebar_focused(
                        ps[if k <= 0 {
                            ps.len() - 1
                        } else {
                            k - 1
                        }],
                    )
                }
            }),
    {
        let panels = self.visible_sidebar_panels();
        if panels.len() == 0 {
            return;
        }
        let k = self.sidebar_position(&panels);
        let prev = match k {
            Some(0) => panels.len() - 1,
            Some(i) => i - 1,
            None => panels.len() - 1,
        };
        self.focus_sidebar_panel(panels[prev]);
    }

    fn sidebar_position(&self, panels: &Vec<Panel>) -> (r: Option<usize>)
        ensures
            match r {
                Some(i) => i as int == App::index_from(panels@, self.focused_panel, 0) && i < panels@.len(),
                None => App::index_from(panels@, self.focused_panel, 0) < 0,
            },
    {
        let mut i: usize = 0;
        while i < panels.len()
            invariant
                i <= panels@.len(),
                App::index_from(panels@, self.focused_panel, 0) == App::index_from(panels@, self.focused_panel, i as int),
            decreases panels.len() - i,
        {
            if panels[i] == self.focused_panel {
                return Some(i);
            }
            i = i + 1;
        }
        None
    }
}

} // verus!
