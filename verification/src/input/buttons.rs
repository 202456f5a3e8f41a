use vstd::prelude::*;

use crate::input::MappingKey;

verus! {

/// A button of a game controller.
#[derive(Debug, Copy, Clone, Hash, PartialEq, Eq, Structural)]
pub enum GamepadButton {
    South,
    East,
    West,
    North,
    Back,
    Start,
    Guide,
    LeftStick,
    RightStick,
    LeftShoulder,
    RightShoulder,
    DPadUp,
    DPadDown,
    DPadLeft,
    DPadRight,
    Touchpad,
    LeftPaddle1,
    RightPaddle1,
    LeftPaddle2,
    RightPaddle2,
    Misc1,
    Misc2,
    Misc3,
    Misc4,
    Misc5,
}

/// Converts a controller event's button into a [`GamepadButton`].
pub trait ToGamepadButton {
    fn to_gamepad_button(&self) -> Option<GamepadButton>;
}

/// The text under which a button is shown to the player.
pub open spec fn spec_label(button: GamepadButton) -> Seq<char> {
    match button {
        GamepadButton::South => "South"@,
        GamepadButton::East => "East"@,
        GamepadButton::West => "West"@,
        GamepadButton::North => "North"@,
        GamepadButton::Back => "Back"@,
        GamepadButton::Start => "Start"@,
        GamepadButton::Guide => "Guide"@,
        GamepadButton::LeftStick => "Stick Left"@,
        GamepadButton::RightStick => "Stick Right"@,
        GamepadButton::LeftShoulder => "Shoulder Left"@,
        GamepadButton::RightShoulder => "Shoulder Right"@,
        GamepadButton::DPadUp => "Up"@,
        GamepadButton::DPadDown => "Down"@,
        GamepadButton::DPadLeft => "Left"@,
        GamepadButton::DPadRight => "Right"@,
        GamepadButton::Touchpad => "Touchpad"@,
        GamepadButton::LeftPaddle1 => "LeftPaddle1"@,
        GamepadButton::RightPaddle1 => "RightPaddle1"@,
        GamepadButton::LeftPaddle2 => "LeftPaddle2"@,
        GamepadButton::RightPaddle2 => "RightPaddle2"@,
        GamepadButton::Misc1 => "Misc1"@,
        GamepadButton::Misc2 => "Misc2"@,
        GamepadButton::Misc3 => "Misc3"@,
        GamepadButton::Misc4 => "Misc4"@,
        GamepadButton::Misc5 => "Misc5"@,
    }
}

impl GamepadButton {
    /// The text under which this button is shown to the player.
    pub fn label(&self) -> (text: &'static str)
        ensures
            text@ == spec_label(*self),
    {
        match self {
            GamepadButton::South => "South",
            GamepadButton::East => "East",
            GamepadButton::West => "West",
            GamepadButton::North => "North",
            GamepadButton::Back => "Back",
            GamepadButton::Start => "Start",
            GamepadButton::Guide => "Guide",
            GamepadButton::LeftStick => "Stick Left",
            GamepadButton::RightStick => "Stick Right",
            GamepadButton::LeftShoulder => "Shoulder Left",
            GamepadButton::RightShoulder => "Shoulder Right",
            GamepadButton::DPadUp => "Up",
            GamepadButton::DPadDown => "Down",
            GamepadButton::DPadLeft => "Left",
            GamepadButton::DPadRight => "Right",
            GamepadButton::Touchpad => "Touchpad",
            GamepadButton::LeftPaddle1 => "LeftPaddle1",
            GamepadButton::RightPaddle1 => "RightPaddle1",
            GamepadButton::LeftPaddle2 => "LeftPaddle2",
            GamepadButton::RightPaddle2 => "RightPaddle2",
            GamepadButton::Misc1 => "Misc1",
            GamepadButton::Misc2 => "Misc2",
            GamepadButton::Misc3 => "Misc3",
            GamepadButton::Misc4 => "Misc4",
            GamepadButton::Misc5 => "Misc5",
        }
    }
}

impl MappingKey for GamepadButton {
    open spec fn spec_code(&self) -> u32 {
        match *self {
            GamepadButton::South => 0,
            GamepadButton::East => 1,
            GamepadButton::West => 2,
            GamepadButton::North => 3,
            GamepadButton::Back => 4,
            GamepadButton::Start => 5,
            GamepadButton::Guide => 6,
            GamepadButton::LeftStick => 7,
            GamepadButton::RightStick => 8,
            GamepadButton::LeftShoulder => 9,
            GamepadButton::RightShoulder => 10,
            GamepadButton::DPadUp => 11,
            GamepadButton::DPadDown => 12,
            GamepadButton::DPadLeft => 13,
            GamepadButton::DPadRight => 14,
            GamepadButton::Touchpad => 15,
            GamepadButton::LeftPaddle1 => 16,
            GamepadButton::RightPaddle1 => 17,
            GamepadButton::LeftPaddle2 => 18,
            GamepadButton::RightPaddle2 => 19,
            GamepadButton::Misc1 => 20,
            GamepadButton::Misc2 => 21,
            GamepadButton::Misc3 => 22,
            GamepadButton::Misc4 => 23,
            GamepadButton::Misc5 => 24,
        }
    }

    fn code(&self) -> (c: u32) {
        match self {
            GamepadButton::South => 0,
            GamepadButton::East => 1,
            GamepadButton::West => 2,
            GamepadButton::North => 3,
            GamepadButton::Back => 4,
            GamepadButton::Start => 5,
            GamepadButton::Guide => 6,
            GamepadButton::LeftStick => 7,
            GamepadButton::RightStick => 8,
            GamepadButton::LeftShoulder => 9,
            GamepadButton::RightShoulder => 10,
            GamepadButton::DPadUp => 11,
            GamepadButton::DPadDown => 12,
            GamepadButton::DPadLeft => 13,
            GamepadButton::DPadRight => 14,
            GamepadButton::Touchpad => 15,
            GamepadButton::LeftPaddle1 => 16,
            GamepadButton::RightPaddle1 => 17,
            GamepadButton::LeftPaddle2 => 18,
            GamepadButton::RightPaddle2 => 19,
            GamepadButton::Misc1 => 20,
            GamepadButton::Misc2 => 21,
            GamepadButton::Misc3 => 22,
            GamepadButton::Misc4 => 23,
            GamepadButton::Misc5 => 24,
        }
    }

    open spec fn spec_from_code(c: u32) -> Option<GamepadButton> {
        match c {
            0 => Some(GamepadButton::South),
            1 => Some(GamepadButton::East),
            2 => Some(GamepadButton::West),
            3 => Some(GamepadButton::North),
            4 => Some(GamepadButton::Back),
            5 => Some(GamepadButton::Start),
            6 => Some(GamepadButton::Guide),
            7 => Some(GamepadButton::LeftStick),
            8 => Some(GamepadButton::RightStick),
            9 => Some(GamepadButton::LeftShoulder),
            10 => Some(GamepadButton::RightShoulder),
            11 => Some(GamepadButton::DPadUp),
            12 => Some(GamepadButton::DPadDown),
            13 => Some(GamepadButton::DPadLeft),
            14 => Some(GamepadButton::DPadRight),
            15 => Some(GamepadButton::Touchpad),
            16 => Some(GamepadButton::LeftPaddle1),
            17 => Some(GamepadButton::RightPaddle1),
            18 => Some(GamepadButton::LeftPaddle2),
            19 => Some(GamepadButton::RightPaddle2),
            20 => Some(GamepadButton::Misc1),
            21 => Some(GamepadButton::Misc2),
            22 => Some(GamepadButton::Misc3),
            23 => Some(GamepadButton::Misc4),
            24 => Some(GamepadButton::Misc5),
            _ => None,
        }
    }

    fn from_code(c: u32) -> (k: Option<GamepadButton>)
        ensures
            c < 25 ==> k is Some,
    {
        match c {
            0 => Some(GamepadButton::South),
            1 => Some(GamepadButton::East),
            2 => Some(GamepadButton::West),
            3 => Some(GamepadButton::North),
            4 => Some(GamepadButton::Back),
            5 => Some(GamepadButton::Start),
            6 => Some(GamepadButton::Guide),
            7 => Some(GamepadButton::LeftStick),
            8 => Some(GamepadButton::RightStick),
            9 => Some(GamepadButton::LeftShoulder),
            10 => Some(GamepadButton::RightShoulder),
            11 => Some(GamepadButton::DPadUp),
            12 => Some(GamepadButton::DPadDown),
            13 => Some(GamepadButton::DPadLeft),
            14 => Some(GamepadButton::DPadRight),
            15 => Some(GamepadButton::Touchpad),
            16 => Some(GamepadButton::LeftPaddle1),
            17 => Some(GamepadButton::RightPaddle1),
            18 => Some(GamepadButton::LeftPaddle2),
            19 => Some(GamepadButton::RightPaddle2),
            20 => Some(GamepadButton::Misc1),
            21 => Some(GamepadButton::Misc2),
            22 => Some(GamepadButton::Misc3),
            23 => Some(GamepadButton::Misc4),
            24 => Some(GamepadButton::Misc5),
            _ => None,
        }
    }
}

/// Distinct buttons have distinct codes.
pub proof fn lemma_gamepad_codes_distinct(a: GamepadButton, b: GamepadButton)
    ensures
        a.spec_code() == b.spec_code() <==> a == b,
{
}

} // verus!
