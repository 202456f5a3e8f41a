use vstd::prelude::*;
use std::time::Instant;

use crate::time::{instant_now, seconds_since};

verus! {

/// An audio latency measurement and when it was made.
pub struct AudioStat {
    pub latency: usize,
    pub birth: Instant,
}

impl AudioStat {
    pub fn new(latency: usize) -> (stat: Self)
        ensures
            stat.latency == latency,
    {
        AudioStat { latency, birth: instant_now() }
    }
}

/// Recent audio latency measurements, oldest first.
pub struct AudioStats {
    pub stats: Vec<AudioStat>,
}

impl AudioStats {
    pub fn new() -> (s: Self)
        ensures
            s.stats@.len() == 0,
    {
        AudioStats { stats: Vec::with_capacity(1000) }
    }

    /// Adds a measurement; the newest earlier one is dropped first when it is
    /// stale, that is when it was taken at least two seconds after the moment
    /// the new one is added (the age is asked of the clock).
    pub fn push_stat(&mut self, stat: AudioStat)
        ensures
            final(self).stats@ == old(self).stats@.push(stat)
                || (old(self).stats@.len() > 0 && final(self).stats@ == old(self).stats@.drop_last().push(stat)),
    {
        let n = self.stats.len();
        let stale = if n > 0 {
            let now = instant_now();
            Self::is_stale(seconds_since(&self.stats[n - 1].birth, &now))
        } else {
            false
        };
        self.push_stat_checked(stat, stale);
    }

    /// Whether a measurement this many seconds past the present is stale: two
    /// seconds or more.
    pub fn is_stale(seconds_past: u64) -> (stale: bool)
        ensures
            stale == (seconds_past >= 2),
    {
        seconds_past >= 2
    }

    /// Adds a measurement, dropping the newest earlier one first when
    /// `stale` says it is stale.
    pub fn push_stat_checked(&mut self, stat: AudioStat, stale: bool)
        ensures
            stale && old(self).stats@.len() > 0 ==> final(self).stats@ == old(self).stats@.drop_last().push(stat),
            !(stale && old(self).stats@.len() > 0) ==> final(self).stats@ == old(self).stats@.push(stat),
    {
        if stale && self.stats.len() > 0 {
            self.stats.pop();
        }
        self.stats.push(stat);
    }
}

} // verus!
