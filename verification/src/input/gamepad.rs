use vstd::prelude::*;
use std::collections::HashSet;

use super::buttons::GamepadButton;
use vstd::string::*;

use super::{InputConfiguration, InputConfigurationKind, InputId, JoypadMapping, JoypadState, MappingKey};

verus! {

broadcast use vstd::std_specs::hash::group_hash_axioms;

pub type JoypadGamepadMapping = JoypadMapping<GamepadButton>;

/// What a connected game controller reports.
pub trait GamepadState {
    fn is_connected(&self) -> bool;
    /// The codes of the buttons held down.
    fn get_pressed_buttons(&self) -> &HashSet<u32>;
    fn toogle_button(&mut self, button: &GamepadButton, on: bool);
}

/// An event of a game controller, as the library sees it.
#[derive(Clone, Debug)]
pub enum GamepadEvent {
    ControllerAdded { which: InputId },
    ControllerRemoved { which: InputId },
    ButtonDown { which: InputId, button: GamepadButton },
    ButtonUp { which: InputId, button: GamepadButton },
}

/// Converts a controller event of the platform into a [`GamepadEvent`].
pub trait ToGamepadEvent {
    fn to_gamepad_event(&self) -> Option<GamepadEvent>;
}

/// The identifier under which a game controller's configuration is stored.
pub fn to_gamepad_id(instance_id: &InputId) -> (id: InputId)
    ensures
        id@ == "01-gamepad-"@ + instance_id@,
{
    let mut id = String::from_str("01-gamepad-");
    id.append(instance_id.as_str());
    id
}

/// The configuration a newly seen game controller starts with: named after
/// its instance, mapped as the settings' default controller mapping.
pub fn new_gamepad_configuration(instance_id: &InputId, default_mapping: JoypadGamepadMapping) -> (conf: InputConfiguration)
    ensures
        conf.id@ == "01-gamepad-"@ + instance_id@,
        conf.name@ == "\u{1F3AE} Gamepad "@ + instance_id@,
        conf.kind == InputConfigurationKind::Gamepad(default_mapping),
{
    let mut name = String::from_str("\u{1F3AE} Gamepad ");
    name.append(instance_id.as_str());
    InputConfiguration { id: to_gamepad_id(instance_id), name, kind: InputConfigurationKind::Gamepad(default_mapping) }
}

/// The buttons held down on one game controller.
pub struct GamepadButtons {
    pub pressed_buttons: HashSet<u32>,
}

impl GamepadButtons {
    pub fn new() -> (g: Self)
        ensures
            g.pressed_buttons@ == Set::<u32>::empty(),
    {
        GamepadButtons { pressed_buttons: HashSet::new() }
    }

    pub fn get_pressed_buttons(&self) -> (pressed: &HashSet<u32>)
        ensures
            pressed@ == self.pressed_buttons@,
    {
        &self.pressed_buttons
    }

    /// Records a button as held down (`pressed`) or let go.
    pub fn toogle_button(&mut self, button: &GamepadButton, pressed: bool)
        ensures
            final(self).pressed_buttons@ == if pressed {
                old(self).pressed_buttons@.insert(button.spec_code())
            } else {
                old(self).pressed_buttons@.remove(button.spec_code())
            },
    {
        let code = button.code();
        if pressed {
            self.pressed_buttons.insert(code);
        } else {
            self.pressed_buttons.remove(&code);
        }
    }
}

/// The joypad state of a game controller under `mapping`; nothing is pressed
/// when the controller is unknown.
pub fn gamepad_joypad(pressed: Option<&HashSet<u32>>, mapping: &JoypadGamepadMapping) -> (state: JoypadState)
    ensures
        match pressed {
            Some(p) => state.0 == mapping.spec_state(p@),
            None => state.0 == 0,
        },
{
    match pressed {
        Some(p) => mapping.calculate_state(p),
        None => JoypadState(0),
    }
}

} // verus!

verus! {

/// One of the held-down codes, if any is held down.
pub fn first_pressed(pressed: &HashSet<u32>) -> (r: Option<u32>)
    ensures
        r matches Some(k) ==> pressed@.contains(k),
        r is None <==> pressed@.is_empty(),
{
    broadcast use vstd::std_specs::hash::group_hash_axioms;
    let ghost all = pressed@;
    for k in it: pressed.iter()
        invariant
            it.seq().unref().to_set() == all,
            it.index() == 0,
            it.seq().len() == 0 ==> all =~= Set::<u32>::empty(),
    {
        assert(it.seq().unref()[0] == *k);
        return Some(*k);
    }
    None
}

} // verus!
