use vstd::prelude::*;

use crate::input::buttons::GamepadButton;
use crate::input::gamepad::GamepadEvent;

pub mod gui;

verus! {

/// A key the user interface is steered with.
#[derive(Debug, Clone, Copy, PartialEq, Eq, Structural)]
pub enum NavKey {
    ArrowUp,
    ArrowDown,
    ArrowLeft,
    ArrowRight,
    Enter,
    Escape,
}

pub open spec fn spec_nav_key(button: GamepadButton) -> Option<NavKey> {
    match button {
        GamepadButton::DPadUp => Some(NavKey::ArrowUp),
        GamepadButton::DPadDown => Some(NavKey::ArrowDown),
        GamepadButton::DPadLeft => Some(NavKey::ArrowLeft),
        GamepadButton::DPadRight => Some(NavKey::ArrowRight),
        GamepadButton::South => Some(NavKey::Enter),
        GamepadButton::Guide => Some(NavKey::Escape),
        _ => None,
    }
}

/// The key of the user interface a controller button stands for: the
/// directional pad steers, south confirms, the guide button escapes.
pub fn to_egui_key(gamepad_button: &GamepadButton) -> (key: Option<NavKey>)
    ensures
        key == spec_nav_key(*gamepad_button),
{
    match gamepad_button {
        GamepadButton::DPadUp => Some(NavKey::ArrowUp),
        GamepadButton::DPadDown => Some(NavKey::ArrowDown),
        GamepadButton::DPadLeft => Some(NavKey::ArrowLeft),
        GamepadButton::DPadRight => Some(NavKey::ArrowRight),
        GamepadButton::South => Some(NavKey::Enter),
        GamepadButton::Guide => Some(NavKey::Escape),
        _ => None,
    }
}

/// The user interface key event (key, pressed) a controller event stands for.
pub fn to_egui_event(gamepad_event: &GamepadEvent) -> (event: Option<(NavKey, bool)>)
    ensures
        event == match *gamepad_event {
            GamepadEvent::ButtonDown { button, .. } => match spec_nav_key(button) {
                Some(k) => Some((k, true)),
                None => None,
            },
            GamepadEvent::ButtonUp { button, .. } => match spec_nav_key(button) {
                Some(k) => Some((k, false)),
                None => None,
            },
            _ => None,
        },
{
    match gamepad_event {
        GamepadEvent::ButtonDown { button, .. } => match to_egui_key(button) {
            Some(k) => Some((k, true)),
            None => None,
        },
        GamepadEvent::ButtonUp { button, .. } => match to_egui_key(button) {
            Some(k) => Some((k, false)),
            None => None,
        },
        _ => None,
    }
}

/// The user interface key event to feed for a controller event: while the
/// menu is shown every steering button counts, while it is hidden only the
/// guide button, which opens it.
pub fn gamepad_gui_event(gamepad_event: &GamepadEvent, gui_visible: bool) -> (event: Option<(NavKey, bool)>)
    ensures
        event matches Some((k, _)) ==> gui_visible || k == NavKey::Escape,
        gui_visible ==> event == match *gamepad_event {
            GamepadEvent::ButtonDown { button, .. } => match spec_nav_key(button) {
                Some(k) => Some((k, true)),
                None => None,
            },
            GamepadEvent::ButtonUp { button, .. } => match spec_nav_key(button) {
                Some(k) => Some((k, false)),
                None => None,
            },
            _ => None,
        },
        !gui_visible ==> event == match *gamepad_event {
            GamepadEvent::ButtonDown { button: GamepadButton::Guide, .. } => Some((NavKey::Escape, true)),
            GamepadEvent::ButtonUp { button: GamepadButton::Guide, .. } => Some((NavKey::Escape, false)),
            _ => None,
        },
{
    match to_egui_event(gamepad_event) {
        Some(event) => {
            if gui_visible {
                Some(event)
            } else {
                let is_guide = match gamepad_event {
                    GamepadEvent::ButtonDown { button: GamepadButton::Guide, .. } => true,
                    GamepadEvent::ButtonUp { button: GamepadButton::Guide, .. } => true,
                    _ => false,
                };
                if is_guide {
                    Some(event)
                } else {
                    None
                }
            }
        },
        None => None,
    }
}

/// A direction on screen.
#[derive(Debug, Clone, Copy, PartialEq, Eq, Structural)]
pub enum Direction {
    Up,
    Down,
    Left,
    Right,
}

/// The direction a directional-pad button points in, if it is one.
pub open spec fn pad_direction(button: GamepadButton) -> Option<Direction> {
    match button {
        GamepadButton::DPadUp => Some(Direction::Up),
        GamepadButton::DPadDown => Some(Direction::Down),
        GamepadButton::DPadLeft => Some(Direction::Left),
        GamepadButton::DPadRight => Some(Direction::Right),
        _ => None,
    }
}

/// The direction an arrow key points in, if it is one.
pub open spec fn arrow_direction(key: NavKey) -> Option<Direction> {
    match key {
        NavKey::ArrowUp => Some(Direction::Up),
        NavKey::ArrowDown => Some(Direction::Down),
        NavKey::ArrowLeft => Some(Direction::Left),
        NavKey::ArrowRight => Some(Direction::Right),
        _ => None,
    }
}

/// Every directional-pad button steers the menu with the arrow key of its
/// own direction, and only those buttons give arrow keys; the south button
/// alone confirms and the guide button alone escapes (the controller
/// events and the menu's key events follow this mapping; see
/// [`to_egui_event`] and [`gamepad_gui_event`]).
pub proof fn lemma_pad_steers_in_its_direction(button: GamepadButton)
    ensures
        pad_direction(button) is Some ==> spec_nav_key(button) is Some
            && arrow_direction(spec_nav_key(button)->Some_0) == pad_direction(button),
        spec_nav_key(button) is Some && arrow_direction(spec_nav_key(button)->Some_0) is Some
            ==> pad_direction(button) == arrow_direction(spec_nav_key(button)->Some_0),
        (spec_nav_key(button) == Some(NavKey::Enter)) == (button == GamepadButton::South),
        (spec_nav_key(button) == Some(NavKey::Escape)) == (button == GamepadButton::Guide),
{
}

} // verus!
