//! The keyboard command surface, as plain values: a key code plus the
//! modifier flags the dispatcher reads.

use vstd::prelude::*;

verus! {

/// The keys the console reacts to; anything else is `Other`.
#[derive(Clone, Copy, Debug, PartialEq)]
pub enum KeyCode {
    Char(char),
    Up,
    Down,
    Enter,
    Esc,
    Backspace,
    Tab,
    Other,
}

/// One keyboard event: the key and the modifiers held with it.
#[derive(Clone, Copy, Debug, PartialEq)]
pub struct KeyInput {
    pub code: KeyCode,
    pub ctrl: bool,
    pub alt: bool,
    pub shift: bool,
}

impl KeyInput {
    /// No modifier is held.
    pub open spec fn no_modifiers(self) -> bool {
        !self.ctrl && !self.alt && !self.shift
    }

    /// A key pressed with no modifiers.
    pub fn plain(code: KeyCode) -> (r: Self)
        ensures
            r.code == code,
            r.no_modifiers(),
    {
        KeyInput { code, ctrl: false, alt: false, shift: false }
    }

    /// A key pressed with the control modifier.
    pub fn control(code: KeyCode) -> (r: Self)
        ensures
            r.code == code,
            r.ctrl && !r.alt && !r.shift,
    {
        KeyInput { code, ctrl: true, alt: false, shift: false }
    }
}

} // verus!
