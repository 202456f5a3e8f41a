use vstd::prelude::*;

use crate::audio::AudioSettings;
use crate::emulation::NesRegion;
use crate::input::settings::InputSettings;

verus! {

/// The player's settings.
#[derive(Debug, Hash)]
pub struct Settings {
    pub audio: AudioSettings,
    pub input: InputSettings,
    pub nes_region: NesRegion,
    /// The battery-backed RAM of the game, as base64 text.
    pub save_state: Option<String>,
    /// The state remembered with the save-state key, as base64 text.
    pub last_save_state: Option<String>,
    /// The identifier of this installation on the netplay servers.
    pub netplay_id: Option<String>,
}

impl Settings {
    /// The NES region the game runs in.
    pub fn get_nes_region(&self) -> (region: NesRegion)
        ensures
            region == self.nes_region,
    {
        self.nes_region
    }

    /// Picks the NES region the game runs in.
    pub fn set_nes_region(&mut self, region: NesRegion)
        ensures
            *final(self) == (Settings { nes_region: region, ..*old(self) }),
    {
        self.nes_region = region;
    }
}

} // verus!
