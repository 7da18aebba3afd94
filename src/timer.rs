use vstd::prelude::*;
use vstd::arithmetic::div_mod::{lemma_mod_add_multiples_vanish, lemma_small_mod};

verus! {

/// A countdown that restarts each time it completes. Times are in nanoseconds.
#[derive(Clone, Copy, Debug, PartialEq, Eq, Structural)]
pub struct RepeatingTimer {
    /// Length of one period.
    pub duration: u64,
    /// Time elapsed in the current period.
    pub elapsed: u64,
}

impl RepeatingTimer {
    /// The period is not empty and the elapsed time lies inside it.
    pub open spec fn wf(self) -> bool {
        0 < self.duration && self.elapsed < self.duration
    }

    /// Whether advancing by `delta` completes the period.
    pub open spec fn finishes(self, delta: u64) -> bool {
        self.elapsed + delta >= self.duration
    }

    /// The timer after advancing by `delta`: the elapsed time wraps round the period.
    pub open spec fn advanced(self, delta: u64) -> RepeatingTimer {
        RepeatingTimer {
            elapsed: ((self.elapsed + delta) % (self.duration as int)) as u64,
            ..self
        }
    }

    /// A timer at the start of a period of `duration` nanoseconds.
    pub fn new(duration: u64) -> (r: RepeatingTimer)
        requires
            duration > 0,
        ensures
            r.wf(),
            r.duration == duration,
            r.elapsed == 0,
    {
        RepeatingTimer { duration, elapsed: 0 }
    }

    /// Advances the timer by `delta` and returns whether a period completed on the way.
    pub fn tick(&mut self, delta: u64) -> (r: bool)
        requires
            old(self).wf(),
        ensures
            final(self).wf(),
            r == old(self).finishes(delta),
            *final(self) == old(self).advanced(delta),
    {
        let d = self.duration;
        let e = self.elapsed;
        if delta >= d - e {
            let rest: u64 = delta - (d - e);
            proof {
                lemma_mod_add_multiples_vanish(rest as int, d as int);
                assert(e + delta == d + rest);
            }
            self.elapsed = rest % d;
            true
        } else {
            proof {
                lemma_small_mod((e + delta) as nat, d as nat);
            }
            self.elapsed = e + delta;
            false
        }
    }
}

} // verus!
