use vstd::prelude::*;

use crate::netplay::{Fps, FPS};

verus! {

/// Settings of the debug window.
pub struct DebugSettings {
    pub override_fps: bool,
    pub fps: Fps,
}

impl DebugSettings {
    pub fn new() -> (s: Self)
        ensures
            !s.override_fps,
            s.fps == FPS,
    {
        DebugSettings { override_fps: false, fps: FPS }
    }
}

/// The debug window's state.
pub struct Debug {
    pub override_fps: bool,
    pub fps: Fps,
}

impl Debug {
    pub fn new() -> (d: Self)
        ensures
            !d.override_fps,
            d.fps == FPS,
    {
        Debug { override_fps: false, fps: FPS }
    }

    /// The frame rate to run at: the chosen one while overriding, else the normal one.
    pub fn effective_fps(&self) -> (fps: Fps)
        ensures
            fps == if self.override_fps { self.fps } else { FPS },
    {
        if self.override_fps {
            self.fps
        } else {
            FPS
        }
    }
}

} // verus!
