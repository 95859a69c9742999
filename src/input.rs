//! Key events as the dispatcher reads them.
use vstd::prelude::*;

verus! {

#[derive(Debug, Clone, Copy, PartialEq, Eq, Structural)]
pub enum KeyCode {
    Char(char),
    Esc,
    Enter,
    Tab,
    BackTab,
    Backspace,
    Up,
    Down,
    Left,
    Right,
    Other,
}

/// The modifier keys held with a key; `other` stands for any modifier
/// besides shift, control and alt.
#[derive(Debug, Clone, Copy, PartialEq, Eq, Structural)]
pub struct KeyModifiers {
    pub shift: bool,
    pub control: bool,
    pub alt: bool,
    pub other: bool,
}

impl KeyModifiers {
    pub open spec fn spec_is_none(self) -> bool {
        !self.shift && !self.control && !self.alt && !self.other
    }

    pub open spec fn spec_is_shift(self) -> bool {
        self.shift && !self.control && !self.alt && !self.other
    }

    pub open spec fn spec_is_control(self) -> bool {
        !self.shift && self.control && !self.alt && !self.other
    }

    /// No modifier at all.
    pub fn is_none(self) -> (r: bool)
        ensures
            r == self.spec_is_none(),
    {
        !self.shift && !self.control && !self.alt && !self.other
    }

    /// Shift alone.
    pub fn is_shift(self) -> (r: bool)
        ensures
            r == self.spec_is_shift(),
    {
        self.shift && !self.control && !self.alt && !self.other
    }

    /// Control alone.
    pub fn is_control(self) -> (r: bool)
        ensures
            r == self.spec_is_control(),
    {
        !self.shift && self.control && !self.alt && !self.other
    }
}

#[derive(Debug, Clone, Copy, PartialEq, Eq, Structural)]
pub struct KeyEvent {
    pub code: KeyCode,
    pub modifiers: KeyModifiers,
}

} // verus!
