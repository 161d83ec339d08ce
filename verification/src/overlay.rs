//! Modal overlays drawn above the panels, and where on screen they go.
use vstd::prelude::*;

use crate::app::{Panel, Rect};
use crate::navigator::DocumentNavigatorOverlay;
use crate::picker::PickerOverlay;

verus! {

#[derive(Debug, Clone, Copy, PartialEq, Eq, Structural)]
pub enum OverlaySize {
    Small,
    Medium,
    Large,
}

#[derive(Debug, Clone, Copy, PartialEq, Eq, Structural)]
pub enum ConfirmChoice {
    Cancel,
    Confirm,
}

#[derive(Debug, Clone, PartialEq, Eq)]
pub enum ConfirmIntent {
    Dismiss,
    InterruptTurn { turn_id: u64 },
    SubmitSlashCommand { command: String },
}

#[derive(Debug, Clone, PartialEq, Eq)]
pub struct SearchOverlay {
    pub origin_panel: Panel,
    pub target_panel: Panel,
    pub query: String,
    pub cursor_pos: usize,
}

#[derive(Debug, Clone, PartialEq, Eq)]
pub struct SearchResultsOverlay {
    pub origin_panel: Panel,
    pub title: String,
    pub lines: Vec<String>,
    pub scroll: usize,
    pub dismiss_on_backdrop: bool,
}

#[derive(Debug, Clone, PartialEq, Eq)]
pub struct ConfirmOverlay {
    pub origin_panel: Panel,
    pub title: String,
    pub message: String,
    pub confirm_label: String,
    pub cancel_label: String,
    pub selected: ConfirmChoice,
    pub intent: ConfirmIntent,
    pub dismiss_on_backdrop: bool,
}

#[derive(Debug, Clone, PartialEq, Eq)]
pub struct DetailOverlay {
    pub origin_panel: Panel,
    pub title: String,
    pub lines: Vec<String>,
    pub scroll: usize,
    pub dismiss_on_backdrop: bool,
}

#[derive(Debug, Clone, Copy, PartialEq, Eq, Structural)]
pub enum DocumentNavigatorFocus {
    Rail,
    Content,
}

#[derive(Debug, Clone, PartialEq, Eq)]
pub struct InputPromptOverlay {
    pub origin_panel: Panel,
    pub title: String,
    pub prompt: String,
    pub value: String,
    pub cursor_pos: usize,
    pub dismiss_on_backdrop: bool,
}

#[derive(Debug, Clone, PartialEq, Eq)]
pub enum OverlayState {
    Search(SearchOverlay),
    SearchResults(SearchResultsOverlay),
    Confirm(ConfirmOverlay),
    Detail(DetailOverlay),
    DocumentNavigator(DocumentNavigatorOverlay),
    Picker(PickerOverlay),
    InputPrompt(InputPromptOverlay),
}

impl OverlayState {
    pub open spec fn spec_origin_panel(&self) -> Panel {
        match self {
            OverlayState::Search(o) => o.origin_panel,
            OverlayState::SearchResults(o) => o.origin_panel,
            OverlayState::Confirm(o) => o.origin_panel,
            OverlayState::Detail(o) => o.origin_panel,
            OverlayState::DocumentNavigator(o) => o.origin_panel,
            OverlayState::Picker(o) => o.origin_panel,
            OverlayState::InputPrompt(o) => o.origin_panel,
        }
    }

    /// The panel that had focus when the overlay opened.
    pub fn origin_panel(&self) -> (r: Panel)
        ensures
            r == self.spec_origin_panel(),
    {
        match self {
            OverlayState::Search(o) => o.origin_panel,
            OverlayState::SearchResults(o) => o.origin_panel,
            OverlayState::Confirm(o) => o.origin_panel,
            OverlayState::Detail(o) => o.origin_panel,
            OverlayState::DocumentNavigator(o) => o.origin_panel,
            OverlayState::Picker(o) => o.origin_panel,
            OverlayState::InputPrompt(o) => o.origin_panel,
        }
    }

    pub open spec fn spec_size(&self) -> OverlaySize {
        match self {
            OverlayState::Search(_) => OverlaySize::Small,
            OverlayState::SearchResults(_) => OverlaySize::Large,
            OverlayState::Confirm(_) => OverlaySize::Small,
            OverlayState::Detail(_) => OverlaySize::Large,
            OverlayState::DocumentNavigator(_) => OverlaySize::Large,
            OverlayState::Picker(_) => OverlaySize::Medium,
            OverlayState::InputPrompt(_) => OverlaySize::Small,
        }
    }

    /// Search, confirmation and prompt overlays are small, the picker is
    /// medium, result lists, details and the navigator are large.
    pub fn size(&self) -> (r: OverlaySize)
        ensures
            r == self.spec_size(),
    {
        match self {
            OverlayState::Search(_) => OverlaySize::Small,
            OverlayState::SearchResults(_) => OverlaySize::Large,
            OverlayState::Confirm(_) => OverlaySize::Small,
            OverlayState::Detail(_) => OverlaySize::Large,
            OverlayState::DocumentNavigator(_) => OverlaySize::Large,
            OverlayState::Picker(_) => OverlaySize::Medium,
            OverlayState::InputPrompt(_) => OverlaySize::Small,
        }
    }

    pub open spec fn spec_dismiss_on_backdrop(&self) -> bool {
        match self {
            OverlayState::Search(_) => true,
            OverlayState::SearchResults(o) => o.dismiss_on_backdrop,
            OverlayState::Confirm(o) => o.dismiss_on_backdrop,
            OverlayState::Detail(o) => o.dismiss_on_backdrop,
            OverlayState::DocumentNavigator(o) => o.dismiss_on_backdrop,
            OverlayState::Picker(o) => o.dismiss_on_backdrop,
            OverlayState::InputPrompt(o) => o.dismiss_on_backdrop,
        }
    }

    /// Whether a click outside the overlay closes it (always for search).
    pub fn dismiss_on_backdrop(&self) -> (r: bool)
        ensures
            r == self.spec_dismiss_on_backdrop(),
    {
        match self {
            OverlayState::Search(_) => true,
            OverlayState::SearchResults(o) => o.dismiss_on_backdrop,
            OverlayState::Confirm(o) => o.dismiss_on_backdrop,
            OverlayState::Detail(o) => o.dismiss_on_backdrop,
            OverlayState::DocumentNavigator(o) => o.dismiss_on_backdrop,
            OverlayState::Picker(o) => o.dismiss_on_backdrop,
            OverlayState::InputPrompt(o) => o.dismiss_on_backdrop,
        }
    }
}

/// Width percentage, height percentage, minimum width and minimum height
/// of an overlay of the given size.
pub open spec fn size_params(size: OverlaySize) -> (int, int, int, int) {
    match size {
        OverlaySize::Small => (52, 28, 36, 7),
        OverlaySize::Medium => (68, 42, 50, 10),
        OverlaySize::Large => (82, 60, 64, 14),
    }
}

pub open spec fn min_u16(a: int, b: int) -> int {
    if a <= b {
        a
    } else {
        b
    }
}

pub open spec fn max_u16(a: int, b: int) -> int {
    if a >= b {
        a
    } else {
        b
    }
}

/// `a - b` saturated at zero.
pub open spec fn sat_sub16(a: int, b: int) -> int {
    if a >= b {
        a - b
    } else {
        0
    }
}

/// `a + b` saturated at the largest `u16`.
pub open spec fn cap16(a: int) -> int {
    if a > 65535 {
        65535
    } else {
        a
    }
}

/// One side of an overlay: `pct` percent of `total` (the product saturated
/// at the largest `u16`), at least `min_len`, at most `total - 2` (and at
/// least 1 cell).
pub open spec fn overlay_extent(total: int, pct: int, min_len: int) -> int {
    let limit = max_u16(sat_sub16(total, 2), 1);
    min_u16(max_u16(cap16(total * pct) / 100, min_len), limit)
}

/// The overlay rectangle centred in `area`.
pub open spec fn overlay_rect(area: Rect, size: OverlaySize) -> Rect {
    let (wp, hp, mw, mh) = size_params(size);
    let width = overlay_extent(area.width as int, wp, mw);
    let height = overlay_extent(area.height as int, hp, mh);
    let x = cap16(area.x + sat_sub16(area.width as int, width) / 2);
    let y = cap16(area.y + sat_sub16(area.height as int, height) / 2);
    Rect { x: x as u16, y: y as u16, width: width as u16, height: height as u16 }
}

fn extent(total: u16, pct: u16, min_len: u16) -> (r: u16)
    requires
        pct <= 100,
    ensures
        r == overlay_extent(total as int, pct as int, min_len as int),
{
    let shrunk = total.saturating_sub(2);
    let limit = if shrunk >= 1 {
        shrunk
    } else {
        1
    };
    assert((total as int) * (pct as int) <= 65535 * 100) by (nonlinear_arith)
        requires
            total <= 65535,
            pct <= 100,
    ;
    let product: u32 = (total as u32) * (pct as u32);
    let capped: u32 = if product > 65535 {
        65535
    } else {
        product
    };
    let scaled = (capped / 100) as u16;
    let at_least = if scaled >= min_len {
        scaled
    } else {
        min_len
    };
    if at_least <= limit {
        at_least
    } else {
        limit
    }
}

/// The screen area of an overlay of the given size inside `area`: a share
/// of the area by size, never below the size's minimum unless the area is
/// too small, always at least one cell and two cells short of the area's
/// width and height, centred.
pub fn overlay_area(area: Rect, size: OverlaySize) -> (r: Rect)
    ensures
        r == overlay_rect(area, size),
        r.width >= 1,
        r.height >= 1,
        area.width >= 3 ==> r.width <= area.width - 2,
        area.height >= 3 ==> r.height <= area.height - 2,
{
    let (wp, hp, mw, mh): (u16, u16, u16, u16) = match size {
        OverlaySize::Small => (52, 28, 36, 7),
        OverlaySize::Medium => (68, 42, 50, 10),
        OverlaySize::Large => (82, 60, 64, 14),
    };
    let width = extent(area.width, wp, mw);
    let height = extent(area.height, hp, mh);
    let x = area.x.saturating_add(area.width.saturating_sub(width) / 2);
    let y = area.y.saturating_add(area.height.saturating_sub(height) / 2);
    Rect::new(x, y, width, height)
}

} // verus!
