use vstd::prelude::*;

pub mod audio;
pub mod bundle;
pub mod debug;
pub mod emulation;
pub mod fps;
pub mod gui;
pub mod input;
pub mod integer_scaling;
pub mod joypad_mappings;
pub mod keyboard_input;
pub mod main_view;
pub mod netplay;
pub mod resampling;
pub mod save_state;
pub mod settings;
pub mod time;

verus! {

/// Number of players a bundled game supports.
pub const MAX_PLAYERS: usize = 2;

} // verus!
