use vstd::prelude::*;

verus! {

/// Decides which samples at the emulator's clock rate are kept when
/// resampling to the output rate.
#[derive(Debug, Clone, Copy, PartialEq, Eq, Structural)]
pub struct SampleClock {
    pub clock_rate: u64,
    pub target_sample_rate: u64,
    /// The input sample being looked at.
    pub current_cycle: u64,
    /// The first input sample at which the next output sample is due.
    pub next_sample_at: u64,
    /// How many output samples were made.
    pub generated_samples: u64,
}

impl SampleClock {
    /// The first output sample is due at once; after `k` of them the next is
    /// due at input sample floor((k + 1) * clock_rate / target_sample_rate).
    pub open spec fn wf(self) -> bool {
        &&& self.target_sample_rate > 0
        &&& self.generated_samples <= self.current_cycle
        &&& if self.generated_samples == 0 {
            self.next_sample_at == 0
        } else {
            self.next_sample_at as int == ((self.generated_samples as int + 1) * self.clock_rate as int)
                / self.target_sample_rate as int
        }
    }

    pub fn new(clock_rate: u64, target_sample_rate: u64) -> (clock: Self)
        requires
            target_sample_rate > 0,
        ensures
            clock.wf(),
            clock.current_cycle == 0,
            clock.generated_samples == 0,
            clock.clock_rate == clock_rate,
            clock.target_sample_rate == target_sample_rate,
    {
        SampleClock { clock_rate, target_sample_rate, current_cycle: 0, next_sample_at: 0, generated_samples: 0 }
    }

    /// Moves past one input sample; says whether an output sample is made from it.
    pub fn tick(&mut self) -> (emit: bool)
        requires
            old(self).wf(),
            old(self).current_cycle < u64::MAX,
            old(self).generated_samples + 2 <= u64::MAX,
            (old(self).generated_samples + 2) * old(self).clock_rate <= u64::MAX,
        ensures
            final(self).wf(),
            emit == (old(self).current_cycle >= old(self).next_sample_at),
            final(self).current_cycle == old(self).current_cycle + 1,
            final(self).generated_samples == old(self).generated_samples + if emit { 1int } else { 0int },
            final(self).clock_rate == old(self).clock_rate,
            final(self).target_sample_rate == old(self).target_sample_rate,
    {
        let emit = self.current_cycle >= self.next_sample_at;
        if emit {
            let g = self.generated_samples;
            let c = self.clock_rate;
            let g1: u64 = g + 1;
            assert((g1 + 1) * c <= u64::MAX) by (nonlinear_arith)
                requires
                    (g + 2) * c <= u64::MAX,
                    g1 == g + 1,
            ;
            self.generated_samples = g1;
            self.next_sample_at = ((g1 + 1) * c) / self.target_sample_rate;
        }
        self.current_cycle = self.current_cycle + 1;
        emit
    }
}

} // verus!
