use vstd::prelude::*;
use std::time::Instant;

use crate::time::{instant_after_seconds, instant_ge, instant_now};

verus! {

/// The audio settings window.
pub struct AudioSettingsGui {
    pub is_open: bool,
    /// The output devices last listed, if they are still fresh.
    pub available_device_names: Option<Vec<String>>,
    pub next_device_names_clear: Instant,
}

impl AudioSettingsGui {
    pub fn new() -> (gui: Self)
        ensures
            gui.is_open,
            gui.available_device_names is None,
    {
        AudioSettingsGui { is_open: true, available_device_names: None, next_device_names_clear: instant_now() }
    }

    /// Forgets the listed output devices once they are more than a second
    /// old (the clock says so), so that they are listed again. Says whether
    /// they were forgotten. See [`Self::expire_device_names_at`].
    pub fn expire_device_names(&mut self) -> (expired: bool)
        ensures
            final(self).is_open == old(self).is_open,
            expired ==> final(self).available_device_names is None,
            !expired ==> *final(self) == *old(self),
    {
        let now = instant_now();
        let due = !instant_ge(&self.next_device_names_clear, &now);
        let later = match instant_after_seconds(&now, 1) {
            Some(later) => later,
            None => now,
        };
        self.expire_device_names_at(due, later)
    }

    /// When the listed output devices are `due` to be forgotten, forgets them
    /// and lists them again no sooner than `later`; otherwise changes nothing.
    /// Says whether they were forgotten.
    pub fn expire_device_names_at(&mut self, due: bool, later: Instant) -> (expired: bool)
        ensures
            expired == due,
            due ==> final(self).available_device_names is None && final(self).next_device_names_clear == later
                && final(self).is_open == old(self).is_open,
            !due ==> *final(self) == *old(self),
    {
        if due {
            self.next_device_names_clear = later;
            self.available_device_names = None;
        }
        due
    }
}

/// The netplay window.
pub struct NetplayGui {
    pub is_open: bool,
}

impl NetplayGui {
    pub fn new() -> (gui: Self)
        ensures
            gui.is_open,
    {
        NetplayGui { is_open: true }
    }

    /// Whether a room can be joined by this name: any name but the empty one.
    pub fn can_join(room_name: &String) -> (r: bool)
        ensures
            r == (room_name@.len() > 0),
    {
        !room_name.as_str().is_empty()
    }
}

} // verus!
