use vstd::prelude::*;

verus! {

/// Length of the cue interval in nanoseconds (three seconds).
pub const CUE_INTERVAL_NANOS: u64 = 3_000_000_000;

/// A repeating timer with a fixed interval of `CUE_INTERVAL_NANOS`.
/// `elapsed` is the time, in nanoseconds, since the interval last rolled over
/// or since the timer was reset.
#[derive(PartialEq, Eq, Structural, Clone, Copy, Debug)]
pub struct CueTimer {
    pub elapsed: u64,
}

impl CueTimer {
    pub open spec fn wf(self) -> bool {
        self.elapsed < CUE_INTERVAL_NANOS
    }

    /// Whether advancing by `delta` reaches the end of the interval.
    pub open spec fn finishes(self, delta: u64) -> bool {
        self.elapsed + delta >= CUE_INTERVAL_NANOS
    }

    /// The timer after advancing by `delta`, rolling over at each interval.
    pub open spec fn advanced(self, delta: u64) -> CueTimer {
        CueTimer { elapsed: ((self.elapsed + delta) % (CUE_INTERVAL_NANOS as int)) as u64 }
    }

    pub fn new() -> (r: CueTimer)
        ensures
            r.elapsed == 0,
            r.wf(),
    {
        CueTimer { elapsed: 0 }
    }

    pub fn elapsed(&self) -> (r: u64)
        ensures
            r == self.elapsed,
    {
        self.elapsed
    }

    /// Whether advancing by `delta` would reach the end of the interval,
    /// without advancing.
    pub fn would_finish(&self, delta: u64) -> (r: bool)
        requires
            self.wf(),
        ensures
            r == self.finishes(delta),
    {
        delta >= CUE_INTERVAL_NANOS - self.elapsed
    }

    /// Advances the timer by `delta` and reports whether the interval ended
    /// during this tick.
    pub fn tick(&mut self, delta: u64) -> (finished: bool)
        requires
            old(self).wf(),
        ensures
            finished == old(self).finishes(delta),
            *final(self) == old(self).advanced(delta),
            final(self).wf(),
    {
        let finished = delta >= CUE_INTERVAL_NANOS - self.elapsed;
        let sum = self.elapsed + delta % CUE_INTERVAL_NANOS;
        let wrapped = if sum >= CUE_INTERVAL_NANOS {
            sum - CUE_INTERVAL_NANOS
        } else {
            sum
        };
        proof {
            let e = self.elapsed as int;
            let d = delta as int;
            let n = CUE_INTERVAL_NANOS as int;
            vstd::arithmetic::div_mod::lemma_add_mod_noop(e, d, n);
            vstd::arithmetic::div_mod::lemma_small_mod(e as nat, n as nat);
            vstd::arithmetic::div_mod::lemma_mod_bound(d, n);
            let s = e + d % n;
            if s >= n {
                vstd::arithmetic::div_mod::lemma_mod_sub_multiples_vanish(s, n);
                vstd::arithmetic::div_mod::lemma_small_mod((s - n) as nat, n as nat);
            } else {
                vstd::arithmetic::div_mod::lemma_small_mod(s as nat, n as nat);
            }
        }
        self.elapsed = wrapped;
        finished
    }

    /// Starts the interval over.
    pub fn reset(&mut self)
        ensures
            final(self).elapsed == 0,
            final(self).wf(),
    {
        self.elapsed = 0;
    }
}

} // verus!
