use vstd::prelude::*;

verus! {

/// The player's audio settings, with the latency in whole milliseconds.
#[derive(Debug, Clone, Hash)]
pub struct AudioSettings {
    pub latency: u8,
    pub volume: u8,
    pub output_device: Option<String>,
}

} // verus!
