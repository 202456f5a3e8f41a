use vstd::prelude::*;
use std::collections::HashSet;

use crate::input::buttons::GamepadButton;
use crate::input::gamepad::first_pressed;
use crate::input::keys::{KeyCode, Modifiers};
use crate::input::settings::{index_of, InputSettings};

pub mod buttons;
pub mod gamepad;
pub mod keyboard;
pub mod keys;
pub mod settings;

verus! {

broadcast use vstd::std_specs::hash::group_hash_axioms;

/// The identifier of an input device configuration.
pub type InputId = String;

/// Converts a platform device identifier into an [`InputId`].
pub trait ToInputId {
    fn to_input_id(&self) -> InputId;
}

impl ToInputId for u32 {
    /// The decimal text of the number.
    fn to_input_id(&self) -> (id: InputId)
        ensures
            id@ == crate::fps::decimal(*self as nat),
    {
        crate::fps::decimal_string(*self as u64)
    }
}

/// A named input device with its joypad mapping.
#[derive(Debug, Hash)]
pub struct InputConfiguration {
    pub id: InputId,
    pub name: String,
    pub kind: InputConfigurationKind,
}

/// The kind of device a configuration maps, with its mapping.
#[derive(Debug, Hash)]
pub enum InputConfigurationKind {
    Keyboard(JoypadMapping<KeyCode>),
    Gamepad(JoypadMapping<GamepadButton>),
}

/// A pending request to bind `button` of the configuration `input_id` to the
/// next key or controller button that is held down.
#[derive(Debug)]
pub struct MapRequest {
    pub input_id: InputId,
    pub button: JoypadButton,
}

/// A keyboard event as the library sees it.
#[derive(Clone, Debug)]
pub enum KeyEvent {
    Pressed(KeyCode),
    Released(KeyCode),
    ModifiersChanged(Modifiers),
}

/// The eight buttons of a NES joypad.
#[derive(Debug, Clone, Copy, PartialEq, Eq, Hash, Structural)]
pub enum JoypadButton {
    Up,
    Down,
    Left,
    Right,
    Start,
    Select,
    B,
    A,
}

/// The bit that a button occupies in the NES joypad byte.
pub open spec fn spec_mask(button: JoypadButton) -> u8 {
    match button {
        JoypadButton::Up => 0b0001_0000,
        JoypadButton::Down => 0b0010_0000,
        JoypadButton::Left => 0b0100_0000,
        JoypadButton::Right => 0b1000_0000,
        JoypadButton::Start => 0b0000_1000,
        JoypadButton::Select => 0b0000_0100,
        JoypadButton::B => 0b0000_0010,
        JoypadButton::A => 0b0000_0001,
    }
}

impl JoypadButton {
    /// The bit of this button in the joypad byte.
    pub fn mask(&self) -> (m: u8)
        ensures
            m == spec_mask(*self),
    {
        match self {
            JoypadButton::Up => 0b0001_0000,
            JoypadButton::Down => 0b0010_0000,
            JoypadButton::Left => 0b0100_0000,
            JoypadButton::Right => 0b1000_0000,
            JoypadButton::Start => 0b0000_1000,
            JoypadButton::Select => 0b0000_0100,
            JoypadButton::B => 0b0000_0010,
            JoypadButton::A => 0b0000_0001,
        }
    }
}

/// The pressed buttons of one joypad, one bit per button.
#[derive(Debug, Clone, Copy)]
pub struct JoypadState(pub u8);

impl JoypadState {
    pub open spec fn spec_is_pressed(self, button: JoypadButton) -> bool {
        self.0 & spec_mask(button) != 0
    }

    pub fn is_pressed(&self, button: JoypadButton) -> (r: bool)
        ensures
            r == self.spec_is_pressed(button),
    {
        self.0 & button.mask() != 0
    }
}

/// A key type that a joypad mapping can bind: it has a numeric code that
/// identifies it among the keys that are pressed.
pub trait MappingKey: Copy + Sized {
    spec fn spec_code(&self) -> u32;

    fn code(&self) -> (c: u32)
        ensures
            c == self.spec_code(),
    ;

    /// The key with the given code, if there is one.
    spec fn spec_from_code(c: u32) -> Option<Self>;

    fn from_code(c: u32) -> (k: Option<Self>)
        ensures
            k == Self::spec_from_code(c),
            k matches Some(key) ==> key.spec_code() == c,
    ;
}

impl MappingKey for u32 {
    open spec fn spec_code(&self) -> u32 {
        *self
    }

    fn code(&self) -> (c: u32) {
        *self
    }

    open spec fn spec_from_code(c: u32) -> Option<u32> {
        Some(c)
    }

    fn from_code(c: u32) -> (k: Option<u32>) {
        Some(c)
    }
}

/// Which key (or gamepad button) each joypad button is bound to.
#[derive(Debug, Clone, Copy, Hash, PartialEq, Eq)]
pub struct JoypadMapping<KeyType> {
    pub up: Option<KeyType>,
    pub down: Option<KeyType>,
    pub left: Option<KeyType>,
    pub right: Option<KeyType>,
    pub start: Option<KeyType>,
    pub select: Option<KeyType>,
    pub b: Option<KeyType>,
    pub a: Option<KeyType>,
}

/// Whether `button` is bound to a key whose code is in `pressed`.
pub open spec fn bound_and_pressed<K: MappingKey>(binding: Option<K>, pressed: Set<u32>) -> bool {
    binding matches Some(k) && pressed.contains(k.spec_code())
}

pub open spec fn bit(on: bool, mask: u8) -> u8 {
    if on { mask } else { 0 }
}

impl<KeyType: MappingKey> JoypadMapping<KeyType> {
    pub open spec fn spec_lookup(self, button: JoypadButton) -> Option<KeyType> {
        match button {
            JoypadButton::Up => self.up,
            JoypadButton::Down => self.down,
            JoypadButton::Left => self.left,
            JoypadButton::Right => self.right,
            JoypadButton::Start => self.start,
            JoypadButton::Select => self.select,
            JoypadButton::B => self.b,
            JoypadButton::A => self.a,
        }
    }

    /// The mapping with `button` bound to `binding` and every other button unchanged.
    pub open spec fn spec_with(self, button: JoypadButton, binding: Option<KeyType>) -> Self {
        match button {
            JoypadButton::Up => JoypadMapping { up: binding, ..self },
            JoypadButton::Down => JoypadMapping { down: binding, ..self },
            JoypadButton::Left => JoypadMapping { left: binding, ..self },
            JoypadButton::Right => JoypadMapping { right: binding, ..self },
            JoypadButton::Start => JoypadMapping { start: binding, ..self },
            JoypadButton::Select => JoypadMapping { select: binding, ..self },
            JoypadButton::B => JoypadMapping { b: binding, ..self },
            JoypadButton::A => JoypadMapping { a: binding, ..self },
        }
    }

    /// The joypad byte for a set of pressed key codes: the bit of every button
    /// whose bound key is pressed.
    pub open spec fn spec_state(self, pressed: Set<u32>) -> u8 {
        bit(bound_and_pressed(self.up, pressed), 0b0001_0000)
            | bit(bound_and_pressed(self.down, pressed), 0b0010_0000)
            | bit(bound_and_pressed(self.left, pressed), 0b0100_0000)
            | bit(bound_and_pressed(self.right, pressed), 0b1000_0000)
            | bit(bound_and_pressed(self.start, pressed), 0b0000_1000)
            | bit(bound_and_pressed(self.select, pressed), 0b0000_0100)
            | bit(bound_and_pressed(self.b, pressed), 0b0000_0010)
            | bit(bound_and_pressed(self.a, pressed), 0b0000_0001)
    }

    /// The binding of `button`.
    pub fn binding(&self, button: &JoypadButton) -> (binding: Option<KeyType>)
        ensures
            binding == self.spec_lookup(*button),
    {
        match button {
            JoypadButton::Up => self.up,
            JoypadButton::Down => self.down,
            JoypadButton::Left => self.left,
            JoypadButton::Right => self.right,
            JoypadButton::Start => self.start,
            JoypadButton::Select => self.select,
            JoypadButton::B => self.b,
            JoypadButton::A => self.a,
        }
    }

    /// The binding of `button`, to be changed in place.
    pub fn lookup(&mut self, button: &JoypadButton) -> (binding: &mut Option<KeyType>)
        ensures
            *binding == old(self).spec_lookup(*button),
            *final(self) == old(self).spec_with(*button, *final(binding)),
    {
        match button {
            JoypadButton::Up => &mut self.up,
            JoypadButton::Down => &mut self.down,
            JoypadButton::Left => &mut self.left,
            JoypadButton::Right => &mut self.right,
            JoypadButton::Start => &mut self.start,
            JoypadButton::Select => &mut self.select,
            JoypadButton::B => &mut self.b,
            JoypadButton::A => &mut self.a,
        }
    }

    /// Binds `button` to `binding`.
    pub fn set_binding(&mut self, button: &JoypadButton, binding: Option<KeyType>)
        ensures
            *final(self) == old(self).spec_with(*button, binding),
    {
        match button {
            JoypadButton::Up => self.up = binding,
            JoypadButton::Down => self.down = binding,
            JoypadButton::Left => self.left = binding,
            JoypadButton::Right => self.right = binding,
            JoypadButton::Start => self.start = binding,
            JoypadButton::Select => self.select = binding,
            JoypadButton::B => self.b = binding,
            JoypadButton::A => self.a = binding,
        }
    }

    fn is_bound_and_pressed(binding: Option<KeyType>, keys: &HashSet<u32>) -> (r: bool)
        ensures
            r == bound_and_pressed(binding, keys@),
    {
        match binding {
            Some(k) => keys.contains(&k.code()),
            None => false,
        }
    }

    /// The joypad state that the pressed keys produce under this mapping.
    pub fn calculate_state(&self, keys: &HashSet<u32>) -> (state: JoypadState)
        ensures
            state.0 == self.spec_state(keys@),
            forall|b: JoypadButton| #[trigger] state.spec_is_pressed(b)
                <==> bound_and_pressed(self.spec_lookup(b), keys@),
    {
        let up = Self::is_bound_and_pressed(self.up, keys);
        let down = Self::is_bound_and_pressed(self.down, keys);
        let left = Self::is_bound_and_pressed(self.left, keys);
        let right = Self::is_bound_and_pressed(self.right, keys);
        let start = Self::is_bound_and_pressed(self.start, keys);
        let select = Self::is_bound_and_pressed(self.select, keys);
        let b = Self::is_bound_and_pressed(self.b, keys);
        let a = Self::is_bound_and_pressed(self.a, keys);
        let acc: u8 = (if up { 0x10u8 } else { 0u8 }) | (if down { 0x20u8 } else { 0u8 })
            | (if left { 0x40u8 } else { 0u8 }) | (if right { 0x80u8 } else { 0u8 })
            | (if start { 0x08u8 } else { 0u8 }) | (if select { 0x04u8 } else { 0u8 })
            | (if b { 0x02u8 } else { 0u8 }) | (if a { 0x01u8 } else { 0u8 });
        proof {
            lemma_joypad_bits(up, down, left, right, start, select, b, a, acc);
        }
        JoypadState(acc)
    }
}

/// The joypad byte assembled from eight button flags has exactly the bits of
/// the flags that are set.
pub proof fn lemma_joypad_bits(up: bool, down: bool, left: bool, right: bool, start: bool, select: bool, b: bool, a: bool, acc: u8)
    requires
        acc == bit(up, 0x10) | bit(down, 0x20) | bit(left, 0x40) | bit(right, 0x80)
            | bit(start, 0x08) | bit(select, 0x04) | bit(b, 0x02) | bit(a, 0x01),
    ensures
        (acc & 0x10 != 0) == up,
        (acc & 0x20 != 0) == down,
        (acc & 0x40 != 0) == left,
        (acc & 0x80 != 0) == right,
        (acc & 0x08 != 0) == start,
        (acc & 0x04 != 0) == select,
        (acc & 0x02 != 0) == b,
        (acc & 0x01 != 0) == a,
{
    assert((acc & 0x10 != 0) == up && (acc & 0x20 != 0) == down && (acc & 0x40 != 0) == left
        && (acc & 0x80 != 0) == right && (acc & 0x08 != 0) == start && (acc & 0x04 != 0) == select
        && (acc & 0x02 != 0) == b && (acc & 0x01 != 0) == a) by (bit_vector)
        requires
            acc == (if up { 0x10u8 } else { 0u8 }) | (if down { 0x20u8 } else { 0u8 })
                | (if left { 0x40u8 } else { 0u8 }) | (if right { 0x80u8 } else { 0u8 })
                | (if start { 0x08u8 } else { 0u8 }) | (if select { 0x04u8 } else { 0u8 })
                | (if b { 0x02u8 } else { 0u8 }) | (if a { 0x01u8 } else { 0u8 }),
    ;
}

/// Whether the device of a configuration is available: a keyboard always is,
/// a game controller when it is among the connected ones.
pub open spec fn spec_is_connected(conf: InputConfiguration, connected_gamepads: Seq<InputId>) -> bool {
    match conf.kind {
        InputConfigurationKind::Keyboard(_) => true,
        InputConfigurationKind::Gamepad(_) => exists|i: int| 0 <= i < connected_gamepads.len()
            && #[trigger] connected_gamepads[i]@ == conf.id@,
    }
}

/// Whether the device of `input_conf` is available; `connected_gamepads` are
/// the identifiers of the connected game controllers.
pub fn is_connected(input_conf: &InputConfiguration, connected_gamepads: &Vec<InputId>) -> (r: bool)
    ensures
        r == spec_is_connected(*input_conf, connected_gamepads@),
{
    match &input_conf.kind {
        InputConfigurationKind::Keyboard(_) => true,
        InputConfigurationKind::Gamepad(_) => {
            let n = connected_gamepads.len();
            let mut i: usize = 0;
            while i < n
                invariant
                    n == connected_gamepads@.len(),
                    i <= n,
                    forall|j: int| 0 <= j < i ==> connected_gamepads@[j]@ != input_conf.id@,
                decreases n - i,
            {
                if connected_gamepads[i] == input_conf.id {
                    return true;
                }
                i = i + 1;
            }
            false
        },
    }
}

/// The joypad state that a configuration's device produces: `pressed_keys` are
/// the keyboard keys held down, `gamepad_pressed` the buttons held down on the
/// configuration's game controller, if that is known.
pub fn joypad_for_configuration(
    input_conf: &InputConfiguration,
    pressed_keys: &HashSet<KeyCode>,
    gamepad_pressed: Option<&HashSet<u32>>,
) -> (state: JoypadState)
    ensures
        match input_conf.kind {
            InputConfigurationKind::Keyboard(m) => state.0 == m.spec_state(pressed_keys@),
            InputConfigurationKind::Gamepad(m) => match gamepad_pressed {
                Some(g) => state.0 == m.spec_state(g@),
                None => state.0 == 0,
            },
        },
{
    match &input_conf.kind {
        InputConfigurationKind::Keyboard(mapping) => mapping.calculate_state(pressed_keys),
        InputConfigurationKind::Gamepad(mapping) => crate::input::gamepad::gamepad_joypad(gamepad_pressed, mapping),
    }
}

/// The configuration `conf` with `button` bound to the key or controller
/// button whose code is `code`.
pub open spec fn rebound(conf: InputConfiguration, button: JoypadButton, code: u32) -> InputConfiguration {
    match conf.kind {
        InputConfigurationKind::Keyboard(m) => InputConfiguration {
            kind: InputConfigurationKind::Keyboard(m.spec_with(button, Some(code))),
            ..conf
        },
        InputConfigurationKind::Gamepad(m) => InputConfiguration {
            kind: InputConfigurationKind::Gamepad(
                m.spec_with(button, GamepadButton::spec_from_code(code)),
            ),
            ..conf
        },
    }
}

/// A button bound to a held-down keyboard key by a remap reads as pressed
/// while the key stays held.
pub proof fn lemma_remapped_key_reads_pressed(mapping: JoypadMapping<KeyCode>, button: JoypadButton, code: u32, pressed: Set<u32>)
    requires
        pressed.contains(code),
    ensures
        bound_and_pressed(mapping.spec_with(button, Some(code)).spec_lookup(button), pressed),
        forall|other: JoypadButton| other != button ==> #[trigger] mapping.spec_with(button, Some(code)).spec_lookup(other)
            == mapping.spec_lookup(other),
{
}

/// A controller button bound by a remap reads as pressed while it stays held.
pub proof fn lemma_remapped_button_reads_pressed(mapping: JoypadMapping<GamepadButton>, button: JoypadButton, code: u32, pressed: Set<u32>)
    requires
        pressed.contains(code),
        code < 25,
    ensures
        bound_and_pressed(mapping.spec_with(button, GamepadButton::spec_from_code(code)).spec_lookup(button), pressed),
{
}

/// Binds the button of a pending map request to a key (or controller button)
/// that is held down, and clears the request once that is done. The
/// keyboard keys held down are `pressed_keys`; `gamepad_pressed` are the
/// buttons held down on the controller of the requested configuration, if it
/// is connected. Nothing changes while nothing suitable is held down.
pub fn remap_configuration(
    mapping_request: &mut Option<MapRequest>,
    input_settings: &mut InputSettings,
    pressed_keys: &HashSet<KeyCode>,
    gamepad_pressed: Option<&HashSet<u32>>,
)
    requires
        old(input_settings).wf(),
    ensures
        final(input_settings).wf(),
        final(input_settings).selected == old(input_settings).selected,
        final(input_settings).default_gamepad_mapping == old(input_settings).default_gamepad_mapping,
        // Either nothing changed, ...
        (*final(mapping_request) == *old(mapping_request) && final(input_settings).configurations@
            == old(input_settings).configurations@)
        // ... or the requested configuration had its button bound to a held-down code.
        || (*old(mapping_request) matches Some(req)
            && old(input_settings).configuration(req.input_id@) matches Some(conf)
            && *final(mapping_request) is None
            && exists|code: u32| #![trigger rebound(conf, req.button, code)] {
                &&& match conf.kind {
                    InputConfigurationKind::Keyboard(_) => pressed_keys@.contains(code),
                    InputConfigurationKind::Gamepad(_) => gamepad_pressed matches Some(g) && g@.contains(code) && code < 25,
                }
                &&& final(input_settings).configurations@ == old(input_settings).configurations@.update(
                    index_of(old(input_settings).configurations@, req.input_id@),
                    (old(input_settings).configurations@[index_of(old(input_settings).configurations@, req.input_id@)].0,
                     rebound(conf, req.button, code)),
                )
            }),
        // A request is settled whenever its configuration exists and something suitable is held down.
        (*old(mapping_request) matches Some(req) && old(input_settings).configuration(req.input_id@) matches Some(conf)
            && match conf.kind {
                InputConfigurationKind::Keyboard(_) => !pressed_keys@.is_empty(),
                InputConfigurationKind::Gamepad(_) => gamepad_pressed matches Some(g) && !g@.is_empty()
                    && forall|c: u32| #[trigger] g@.contains(c) ==> c < 25,
            }) ==> *final(mapping_request) is None,
{
    let target: Option<(usize, JoypadButton)> = match &*mapping_request {
        Some(map_request) => match input_settings.find(&map_request.input_id) {
            Some(i) => Some((i, map_request.button)),
            None => None,
        },
        None => None,
    };
    if let Some((i, button)) = target {
        {
            let ghost old_configs = input_settings.configurations@;
            let code: Option<u32> = match &input_settings.configurations[i].1.kind {
                InputConfigurationKind::Keyboard(_) => first_pressed(pressed_keys),
                InputConfigurationKind::Gamepad(_) => match gamepad_pressed {
                    Some(g) => match first_pressed(g) {
                        Some(c) => if c < 25 { Some(c) } else { None },
                        None => None,
                    },
                    None => None,
                },
            };
            if let Some(code) = code {
                let conf = &mut input_settings.configurations[i].1;
                match &mut conf.kind {
                    InputConfigurationKind::Keyboard(mapping) => mapping.set_binding(&button, Some(code)),
                    InputConfigurationKind::Gamepad(mapping) => mapping.set_binding(&button, GamepadButton::from_code(code)),
                }
                proof {
                    let s = input_settings.configurations@;
                    let ghost req = old(mapping_request)->Some_0;
                    assert(index_of(old_configs, req.input_id@) == i);
                    assert(s =~= old_configs.update(i as int, (old_configs[i as int].0, rebound(old_configs[i as int].1, button, code))));
                    assert forall|a: int, b: int| 0 <= a < b < s.len() implies #[trigger] s[a].0@ != #[trigger] s[b].0@ by {
                        assert(s[a].0 == old_configs[a].0 && s[b].0 == old_configs[b].0);
                    }
                }
                *mapping_request = None;
            }
        }
    }
}

} // verus!
