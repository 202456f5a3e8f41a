use vstd::prelude::*;
use std::sync::atomic::{AtomicU32, AtomicU8, Ordering};

use crate::input::JoypadState;
use crate::MAX_PLAYERS;

verus! {

/// What the emulator thread shares with the rest of the program.
pub struct SharedEmulatorState {
    pub frame: AtomicU32,
}

impl SharedEmulatorState {
    pub fn new() -> Self {
        SharedEmulatorState { frame: AtomicU32::new(0) }
    }

    /// Publishes the number of the frame the emulator is on.
    pub fn set_frame(&self, frame: u32) {
        self.frame.store(frame, Ordering::Relaxed);
    }

    /// The number of the frame the emulator was last seen on.
    pub fn frame(&self) -> u32 {
        self.frame.load(Ordering::Relaxed)
    }
}

/// The joypad states the user interface last published.
pub fn read_input_states(inputs: &[AtomicU8; MAX_PLAYERS]) -> [JoypadState; MAX_PLAYERS] {
    [JoypadState(inputs[0].load(Ordering::Relaxed)), JoypadState(inputs[1].load(Ordering::Relaxed))]
}

/// Publishes the joypad states for the emulator thread.
pub fn write_input_states(inputs: &[AtomicU8; MAX_PLAYERS], joypads: [JoypadState; MAX_PLAYERS]) {
    inputs[0].store(joypads[0].0, Ordering::Relaxed);
    inputs[1].store(joypads[1].0, Ordering::Relaxed);
}

} // verus!
