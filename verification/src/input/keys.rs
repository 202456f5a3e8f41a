use vstd::prelude::*;

verus! {

/// A keyboard key, identified by its numeric key code.
pub type KeyCode = u32;

/// Keyboard modifier state (shift, control, alt, logo), as a bit set.
#[derive(Clone, Copy, Debug, PartialEq, Eq, Hash)]
pub struct Modifiers(pub u32);

impl Modifiers {
    /// No modifier held.
    pub fn empty() -> (m: Self)
        ensures
            m.0 == 0,
    {
        Modifiers(0)
    }
}

pub const ESCAPE: KeyCode = 1;
pub const ARROW_UP: KeyCode = 2;
pub const ARROW_DOWN: KeyCode = 3;
pub const ARROW_LEFT: KeyCode = 4;
pub const ARROW_RIGHT: KeyCode = 5;
pub const ENTER: KeyCode = 6;
pub const SHIFT_RIGHT: KeyCode = 7;
pub const ALT_LEFT: KeyCode = 8;
pub const CONTROL_LEFT: KeyCode = 9;
pub const F1: KeyCode = 10;
pub const F2: KeyCode = 11;
pub const DIGIT0: KeyCode = 20;
pub const DIGIT1: KeyCode = 21;
pub const DIGIT2: KeyCode = 22;
pub const DIGIT9: KeyCode = 29;
pub const KEY_A: KeyCode = 30;
pub const KEY_D: KeyCode = 33;
pub const KEY_S: KeyCode = 48;
pub const KEY_W: KeyCode = 52;

} // verus!
