//! Copying the selection: which keys copy, and writing to a clipboard that
//! is opened once and opened again after a failed write.
use vstd::prelude::*;

use crate::app::App;
use crate::chars::chars_of;

verus! {

/// The key of a key press, as far as the UI tells keys apart.
#[derive(Debug, Clone, Copy, PartialEq, Eq, Structural)]
pub enum KeyCode {
    Char(char),
    Esc,
    Enter,
    Tab,
    Backspace,
    Delete,
    Left,
    Right,
    Up,
    Down,
    Home,
    End,
    BackTab,
    PageUp,
    PageDown,
    Insert,
    F(u8),
    Null,
}

/// The modifier bits of a key press.
pub const SHIFT: u8 = 1;
pub const CONTROL: u8 = 2;
pub const ALT: u8 = 4;

/// A key press: the key and its modifier bits.
#[derive(Debug, Clone, Copy, PartialEq, Eq, Structural)]
pub struct KeyInput {
    pub code: KeyCode,
    pub modifiers: u8,
}

/// `y` or `Y` alone or with Shift, or Ctrl+C.
pub open spec fn spec_copy_shortcut(key: KeyInput) -> bool {
    ((key.code == KeyCode::Char('y') || key.code == KeyCode::Char('Y')) && (key.modifiers == 0
        || key.modifiers == SHIFT)) || (key.code == KeyCode::Char('c') && key.modifiers == CONTROL)
}

pub fn is_copy_shortcut(key: KeyInput) -> (r: bool)
    ensures
        r == spec_copy_shortcut(key),
{
    let yank = match key.code {
        KeyCode::Char(c) => c == 'y' || c == 'Y',
        _ => false,
    };
    let ctrl_c = match key.code {
        KeyCode::Char(c) => c == 'c',
        _ => false,
    };
    (yank && (key.modifiers == 0 || key.modifiers == SHIFT)) || (ctrl_c && key.modifiers == CONTROL)
}

/// A clipboard that text can be written to. An implementation may say
/// what its clipboard holds and how a write to it can fail; one that says
/// nothing allows anything.
pub trait ClipboardBackend {
    /// Whether the clipboard may hold `text`.
    closed spec fn holds(&self, text: Seq<char>) -> bool {
        true
    }

    /// Whether writing `text` to this clipboard may fail with `e`.
    closed spec fn write_error(&self, text: Seq<char>, e: String) -> bool {
        true
    }

    /// Writes `text`: on success the clipboard holds it.
    fn set_text(&mut self, text: &str) -> (r: Result<(), String>)
        ensures
            match r {
                Ok(()) => final(self).holds(text@),
                Err(e) => old(self).write_error(text@, e),
            },
    ;
}

/// Writes `text` to the clipboard in `backend`, opening one with `init`
/// when there is none; when the write fails, a fresh clipboard is opened
/// and the write tried once more. Errors of `init` and of the write to a
/// fresh clipboard are returned; after a success the clipboard in
/// `backend` holds `text`. Without one to begin with, none is stored only when `init`
/// failed, and then its error is returned; an `init` that can only fail
/// leaves none.
pub fn write_text_with_backend<B: ClipboardBackend, F: Fn() -> Result<B, String>>(
    backend: &mut Option<B>,
    text: &str,
    init: F,
) -> (r: Result<(), String>)
    requires
        init.requires(()),
    ensures
        r is Ok ==> (*final(backend) matches Some(b) && b.holds(text@)),
        r matches Err(e) ==> call_ensures(init, (), Err::<B, String>(e)) || exists|fresh: B|
            #[trigger] call_ensures(init, (), Ok::<B, String>(fresh)) && fresh.write_error(text@, e),
        old(backend).is_some() ==> final(backend).is_some(),
        old(backend).is_none() && final(backend).is_none() ==> (r matches Err(e) && call_ensures(
            init,
            (),
            Err::<B, String>(e),
        )),
        old(backend).is_none() && (forall|res: Result<B, String>| #[trigger] call_ensures(init, (), res) ==> res is Err)
            ==> final(backend).is_none(),
{
    let mut current: Option<B> = None;
    std::mem::swap(&mut current, backend);
    let mut clipboard = match current {
        Some(b) => b,
        None => match init() {
            Ok(b) => b,
            Err(e) => return Err(e),
        },
    };
    match clipboard.set_text(text) {
        Ok(()) => {
            *backend = Some(clipboard);
            return Ok(());
        },
        Err(_) => {},
    }
    let mut fresh = match init() {
        Ok(b) => b,
        Err(e) => {
            *backend = Some(clipboard);
            return Err(e);
        },
    };
    let ghost opened = fresh;
    let result = fresh.set_text(text);
    *backend = Some(fresh);
    proof {
        let rr = result;
        if let Err(e) = rr {
            assert(call_ensures(init, (), Ok::<B, String>(opened)) && opened.write_error(text@, e));
        }
    }
    result
}

/// Copies the selected text with the given clipboard: the number of
/// characters copied, none without a selection, or the clipboard's error.
pub fn copy_selected_text_with_backend<B: ClipboardBackend, F: Fn() -> Result<B, String>>(
    app: &App,
    backend: &mut Option<B>,
    init: F,
) -> (r: Result<Option<usize>, String>)
    requires
        init.requires(()),
    ensures
        app.spec_selected_text().is_none() ==> r == Ok::<Option<usize>, String>(None)
            && *final(backend) == *old(backend),
        match app.spec_selected_text() {
            Some(t) => match r {
                Ok(Some(n)) => n == t.len() && (*final(backend) matches Some(b) && b.holds(t)),
                Ok(None) => false,
                Err(_) => true,
            },
            None => true,
        },
{
    let text = match app.selected_text() {
        Some(t) => t,
        None => return Ok(None),
    };
    let count = chars_of(text.as_str()).len();
    match write_text_with_backend(backend, text.as_str(), init) {
        Ok(()) => Ok(Some(count)),
        Err(e) => Err(e),
    }
}

} // verus!
