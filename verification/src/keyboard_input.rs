use vstd::prelude::*;
use std::collections::HashSet;

use crate::input::keys::{
    KeyCode, ALT_LEFT, ARROW_DOWN, ARROW_LEFT, ARROW_RIGHT, ARROW_UP, CONTROL_LEFT, DIGIT0, DIGIT1, DIGIT2,
    DIGIT9, ENTER, KEY_A, KEY_D, KEY_S, KEY_W, SHIFT_RIGHT,
};
use crate::input::{spec_mask, JoypadButton, JoypadMapping};
use crate::joypad_mappings::{ElementState, KeyboardInput};

verus! {

broadcast use vstd::std_specs::hash::group_hash_axioms;

/// Anything that yields a joypad byte.
pub trait JoypadInput {
    spec fn spec_u8(&self) -> u8;

    fn to_u8(&self) -> (r: u8)
        ensures
            r == self.spec_u8(),
    ;

    fn is_pressed(&self, button: JoypadButton) -> (r: bool)
        ensures
            r == (self.spec_u8() & spec_mask(button) != 0),
    {
        self.to_u8() & button.mask() != 0
    }
}

/// The keyboard key (if any) bound to each joypad button.
#[derive(Debug, Clone, Copy)]
pub struct JoypadKeyMap {
    pub map: JoypadMapping<KeyCode>,
}

impl JoypadKeyMap {
    pub fn new(
        up: Option<KeyCode>,
        down: Option<KeyCode>,
        left: Option<KeyCode>,
        right: Option<KeyCode>,
        start: Option<KeyCode>,
        select: Option<KeyCode>,
        b: Option<KeyCode>,
        a: Option<KeyCode>,
    ) -> (m: Self)
        ensures
            m.map == (JoypadMapping { up, down, left, right, start, select, b, a }),
    {
        JoypadKeyMap { map: JoypadMapping { up, down, left, right, start, select, b, a } }
    }

    /// The key bound to `button`, to be changed in place.
    pub fn lookup(&mut self, button: &JoypadButton) -> (key: &mut Option<KeyCode>)
        ensures
            *key == old(self).map.spec_lookup(*button),
            final(self).map == old(self).map.spec_with(*button, *final(key)),
    {
        self.map.lookup(button)
    }

    /// Binds `button` to `key`.
    pub fn bind(&mut self, button: &JoypadButton, key: Option<KeyCode>)
        ensures
            final(self).map == old(self).map.spec_with(*button, key),
    {
        self.map.set_binding(button, key)
    }

    /// The joypad bits of every button bound to `key_code`.
    pub open spec fn spec_reverse_lookup(&self, key_code: KeyCode) -> u8 {
        self.map.spec_state(set![key_code])
    }

    /// The joypad bits of every button bound to `key_code`.
    pub fn reverse_lookup(&self, key_code: &KeyCode) -> (mask: u8)
        ensures
            mask == self.spec_reverse_lookup(*key_code),
    {
        let mut keys: HashSet<KeyCode> = HashSet::new();
        keys.insert(*key_code);
        proof {
            assert(keys@ =~= set![*key_code]);
        }
        self.map.calculate_state(&keys).0
    }

    /// Arrows, enter, right shift, 1 and 2.
    pub fn default_pad1() -> (m: JoypadKeyMap)
        ensures
            m.map == (JoypadMapping {
                up: Some(ARROW_UP),
                down: Some(ARROW_DOWN),
                left: Some(ARROW_LEFT),
                right: Some(ARROW_RIGHT),
                start: Some(ENTER),
                select: Some(SHIFT_RIGHT),
                b: Some(DIGIT1),
                a: Some(DIGIT2),
            }),
    {
        JoypadKeyMap::new(
            Some(ARROW_UP),
            Some(ARROW_DOWN),
            Some(ARROW_LEFT),
            Some(ARROW_RIGHT),
            Some(ENTER),
            Some(SHIFT_RIGHT),
            Some(DIGIT1),
            Some(DIGIT2),
        )
    }

    /// W, S, A, D, 9, 0, left alt and left control.
    pub fn default_pad2() -> (m: JoypadKeyMap)
        ensures
            m.map == (JoypadMapping {
                up: Some(KEY_W),
                down: Some(KEY_S),
                left: Some(KEY_A),
                right: Some(KEY_D),
                start: Some(DIGIT9),
                select: Some(DIGIT0),
                b: Some(ALT_LEFT),
                a: Some(CONTROL_LEFT),
            }),
    {
        JoypadKeyMap::new(
            Some(KEY_W),
            Some(KEY_S),
            Some(KEY_A),
            Some(KEY_D),
            Some(DIGIT9),
            Some(DIGIT0),
            Some(ALT_LEFT),
            Some(CONTROL_LEFT),
        )
    }

    /// No button bound to any key.
    pub fn unmapped() -> (m: JoypadKeyMap)
        ensures
            forall|b: JoypadButton| m.map.spec_lookup(b) is None,
    {
        JoypadKeyMap::new(None, None, None, None, None, None, None, None)
    }
}

/// A joypad driven by the keyboard through a key map.
pub struct JoypadKeyboardInput {
    pub mapping: JoypadKeyMap,
    pub state: u8,
}

impl JoypadKeyboardInput {
    pub fn new(mapping: JoypadKeyMap) -> (i: Self)
        ensures
            i.mapping == mapping,
            i.state == 0,
    {
        JoypadKeyboardInput { mapping, state: 0 }
    }

    /// Updates the joypad byte with a key event and returns it: a press sets
    /// the bits of the buttons bound to the key, a release flips them.
    pub fn apply(&mut self, input: &KeyboardInput) -> (new_state: u8)
        requires
            input.virtual_keycode is Some,
        ensures
            new_state == match input.state {
                ElementState::Pressed => old(self).state | old(self).mapping.spec_reverse_lookup(input.virtual_keycode->Some_0),
                ElementState::Released => old(self).state ^ old(self).mapping.spec_reverse_lookup(input.virtual_keycode->Some_0),
            },
            final(self).state == new_state,
            final(self).mapping == old(self).mapping,
    {
        let code = match input.virtual_keycode {
            Some(c) => c,
            None => {
                assert(false);
                0
            },
        };
        let mask = self.mapping.reverse_lookup(&code);
        match input.state {
            ElementState::Pressed => self.state = self.state | mask,
            ElementState::Released => self.state = self.state ^ mask,
        }
        self.state
    }
}

impl JoypadInput for JoypadKeyboardInput {
    open spec fn spec_u8(&self) -> u8 {
        self.state
    }

    fn to_u8(&self) -> (r: u8) {
        self.state
    }
}

/// A joypad whose byte never changes.
#[derive(Debug)]
pub struct StaticJoypadInput(pub u8);

impl JoypadInput for StaticJoypadInput {
    open spec fn spec_u8(&self) -> u8 {
        self.0
    }

    fn to_u8(&self) -> (r: u8) {
        self.0
    }
}

} // verus!
