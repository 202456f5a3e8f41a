use vstd::prelude::*;

use crate::emulation::NesRegion;
use crate::netplay::NetplayBuildConfiguration;
use crate::settings::Settings;

verus! {

/// How a bundle is built: the game's name, the settings a player starts
/// with and how netplay is set up.
#[derive(Debug)]
pub struct BuildConfiguration {
    pub name: String,
    pub default_settings: Settings,
    pub supported_nes_regions: Vec<NesRegion>,
    pub netplay: NetplayBuildConfiguration,
}

/// Reads the bundle the program runs.
pub trait LoadBundle {
    fn load() -> Result<Bundle, String>;
}

/// A game with its configuration.
pub struct Bundle {
    pub config: BuildConfiguration,
    pub rom: Vec<u8>,
    pub netplay_rom: Vec<u8>,
}

impl BuildConfiguration {
    /// Whether the player gets to choose the NES region: when the bundle
    /// supports more than one.
    pub fn offers_region_choice(&self) -> (r: bool)
        ensures
            r == (self.supported_nes_regions@.len() > 1),
    {
        self.supported_nes_regions.len() > 1
    }
}

} // verus!
