use vstd::prelude::*;

use crate::input::{spec_mask, JoypadButton};
use crate::input::keys::{
    KeyCode, ALT_LEFT, ARROW_DOWN, ARROW_LEFT, ARROW_RIGHT, ARROW_UP, CONTROL_LEFT, DIGIT0, DIGIT1, DIGIT2,
    DIGIT9, ENTER, KEY_A, KEY_D, KEY_S, KEY_W, SHIFT_RIGHT,
};

verus! {

/// Whether a key went down or up.
#[derive(Debug, Clone, Copy, PartialEq, Eq, Structural)]
pub enum ElementState {
    Pressed,
    Released,
}

/// A key event of the keyboard.
#[derive(Debug, Clone, Copy)]
pub struct KeyboardInput {
    pub state: ElementState,
    pub virtual_keycode: Option<KeyCode>,
}

/// A joypad driven by eight keyboard keys, with the joypad byte it holds.
#[derive(Debug, Clone, Copy)]
pub struct JoypadMappings {
    pub up: KeyCode,
    pub down: KeyCode,
    pub left: KeyCode,
    pub right: KeyCode,
    pub a: KeyCode,
    pub b: KeyCode,
    pub select: KeyCode,
    pub start: KeyCode,
    pub state: u8,
}

impl JoypadMappings {
    /// The joypad bit of `code`: that of the first button, in the order up,
    /// down, left, right, start, select, b, a, that is bound to it, or none.
    pub open spec fn spec_mask(&self, code: KeyCode) -> u8 {
        if code == self.up {
            0b0001_0000
        } else if code == self.down {
            0b0010_0000
        } else if code == self.left {
            0b0100_0000
        } else if code == self.right {
            0b1000_0000
        } else if code == self.start {
            0b0000_1000
        } else if code == self.select {
            0b0000_0100
        } else if code == self.b {
            0b0000_0010
        } else if code == self.a {
            0b0000_0001
        } else {
            0
        }
    }

    /// The joypad byte after a key event: a press sets the key's bit, a release
    /// flips it.
    pub open spec fn spec_apply(&self, code: KeyCode, state: ElementState) -> u8 {
        match state {
            ElementState::Pressed => self.state | self.spec_mask(code),
            ElementState::Released => self.state ^ self.spec_mask(code),
        }
    }

    /// Updates the joypad byte with a key event and returns it.
    pub fn apply(&mut self, input: &KeyboardInput) -> (new_state: u8)
        requires
            input.virtual_keycode is Some,
        ensures
            new_state == old(self).spec_apply(input.virtual_keycode->Some_0, input.state),
            final(self).state == new_state,
            *final(self) == (JoypadMappings { state: new_state, ..*old(self) }),
    {
        let code = match input.virtual_keycode {
            Some(c) => c,
            None => {
                assert(false);
                0
            },
        };
        let mask: u8 = if code == self.up {
            0b0001_0000u8
        } else if code == self.down {
            0b0010_0000u8
        } else if code == self.left {
            0b0100_0000u8
        } else if code == self.right {
            0b1000_0000u8
        } else if code == self.start {
            0b0000_1000u8
        } else if code == self.select {
            0b0000_0100u8
        } else if code == self.b {
            0b0000_0010u8
        } else if code == self.a {
            0b0000_0001u8
        } else {
            0b0000_0000u8
        };
        match input.state {
            ElementState::Pressed => self.state = self.state | mask,
            ElementState::Released => self.state = self.state ^ mask,
        }
        self.state
    }

    /// The default keys of the first joypad: arrows, enter, right shift, 1 and 2.
    pub fn default_pad1() -> (m: JoypadMappings)
        ensures
            m == (JoypadMappings {
                up: ARROW_UP,
                down: ARROW_DOWN,
                left: ARROW_LEFT,
                right: ARROW_RIGHT,
                start: ENTER,
                select: SHIFT_RIGHT,
                b: DIGIT1,
                a: DIGIT2,
                state: 0,
            }),
    {
        JoypadMappings {
            up: ARROW_UP,
            down: ARROW_DOWN,
            left: ARROW_LEFT,
            right: ARROW_RIGHT,
            start: ENTER,
            select: SHIFT_RIGHT,
            b: DIGIT1,
            a: DIGIT2,
            state: 0,
        }
    }

    /// The default keys of the second joypad: W, S, A, D, 9, 0, left alt and left control.
    pub fn default_pad2() -> (m: JoypadMappings)
        ensures
            m == (JoypadMappings {
                up: KEY_W,
                down: KEY_S,
                left: KEY_A,
                right: KEY_D,
                start: DIGIT9,
                select: DIGIT0,
                b: ALT_LEFT,
                a: CONTROL_LEFT,
                state: 0,
            }),
    {
        JoypadMappings {
            up: KEY_W,
            down: KEY_S,
            left: KEY_A,
            right: KEY_D,
            start: DIGIT9,
            select: DIGIT0,
            b: ALT_LEFT,
            a: CONTROL_LEFT,
            state: 0,
        }
    }
}

/// The key a joypad button is bound to.
pub open spec fn bound_key(m: JoypadMappings, button: JoypadButton) -> KeyCode {
    match button {
        JoypadButton::Up => m.up,
        JoypadButton::Down => m.down,
        JoypadButton::Left => m.left,
        JoypadButton::Right => m.right,
        JoypadButton::Start => m.start,
        JoypadButton::Select => m.select,
        JoypadButton::B => m.b,
        JoypadButton::A => m.a,
    }
}

/// A key bound to exactly one joypad button sets that button's NES bit when
/// pressed and flips it when released; every other bit stays as it was.
pub proof fn lemma_bound_key_drives_its_button(m: JoypadMappings, code: KeyCode, button: JoypadButton)
    requires
        bound_key(m, button) == code,
        forall|other: JoypadButton| other != button ==> #[trigger] bound_key(m, other) != code,
    ensures
        m.spec_apply(code, ElementState::Pressed) == m.state | spec_mask(button),
        m.spec_apply(code, ElementState::Released) == m.state ^ spec_mask(button),
        m.spec_apply(code, ElementState::Pressed) & spec_mask(button) == spec_mask(button),
        m.spec_apply(code, ElementState::Pressed) & !spec_mask(button) == m.state & !spec_mask(button),
{
    assert(button != JoypadButton::Up ==> bound_key(m, JoypadButton::Up) != code);
    assert(button != JoypadButton::Down ==> bound_key(m, JoypadButton::Down) != code);
    assert(button != JoypadButton::Left ==> bound_key(m, JoypadButton::Left) != code);
    assert(button != JoypadButton::Right ==> bound_key(m, JoypadButton::Right) != code);
    assert(button != JoypadButton::Start ==> bound_key(m, JoypadButton::Start) != code);
    assert(button != JoypadButton::Select ==> bound_key(m, JoypadButton::Select) != code);
    assert(button != JoypadButton::B ==> bound_key(m, JoypadButton::B) != code);
    assert(button != JoypadButton::A ==> bound_key(m, JoypadButton::A) != code);
    assert(m.spec_mask(code) == spec_mask(button));
    let s = m.state;
    let k = spec_mask(button);
    assert((s | k) & k == k && (s | k) & !k == s & !k) by (bit_vector);
}

/// On the default first joypad, each arrow key drives the direction of its
/// name: pressing it adds exactly that direction's NES bit.
pub proof fn lemma_default_pad1_arrows(state: u8)
    ensures
        ({
            let m = JoypadMappings { state, ..default_pad1_spec() };
            &&& m.spec_apply(ARROW_UP, ElementState::Pressed) == state | 0x10
            &&& m.spec_apply(ARROW_DOWN, ElementState::Pressed) == state | 0x20
            &&& m.spec_apply(ARROW_LEFT, ElementState::Pressed) == state | 0x40
            &&& m.spec_apply(ARROW_RIGHT, ElementState::Pressed) == state | 0x80
        }),
{
}

/// The bindings of the first default joypad.
pub open spec fn default_pad1_spec() -> JoypadMappings {
    JoypadMappings {
        up: ARROW_UP,
        down: ARROW_DOWN,
        left: ARROW_LEFT,
        right: ARROW_RIGHT,
        start: ENTER,
        select: SHIFT_RIGHT,
        b: DIGIT1,
        a: DIGIT2,
        state: 0,
    }
}

/// Pressing and then releasing a key clears the key's joypad bit and leaves
/// every other bit as it was.
pub proof fn lemma_press_release(m: JoypadMappings, code: KeyCode)
    ensures
        ({
            let pressed = JoypadMappings { state: m.spec_apply(code, ElementState::Pressed), ..m };
            pressed.spec_apply(code, ElementState::Released) == m.state & !m.spec_mask(code)
        }),
{
    let s = m.state;
    let k = m.spec_mask(code);
    assert((s | k) ^ k == s & !k) by (bit_vector);
}

/// A key that no joypad button is bound to leaves the joypad byte unchanged.
pub proof fn lemma_unbound_key(m: JoypadMappings, code: KeyCode, state: ElementState)
    requires
        code != m.up && code != m.down && code != m.left && code != m.right && code != m.start
            && code != m.select && code != m.b && code != m.a,
    ensures
        m.spec_apply(code, state) == m.state,
{
    let s = m.state;
    assert(s | 0 == s && s ^ 0 == s) by (bit_vector);
}

} // verus!
