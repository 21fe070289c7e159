//! A timer that starts over each time it runs out.

use vstd::prelude::*;

verus! {

/// A repeating timer. `elapsed` is the time since it last ran out, and is
/// always less than `period`; both are in microseconds.
#[derive(Clone, Copy, Debug, PartialEq, Eq)]
pub struct RepeatingTimer {
    pub period: u32,
    pub elapsed: u32,
}

impl RepeatingTimer {
    pub open spec fn wf(&self) -> bool {
        0 < self.period && self.elapsed < self.period
    }

    /// Whether the timer runs out at least once within the next `delta`.
    pub open spec fn completes(&self, delta: u32) -> bool {
        self.elapsed + delta >= self.period
    }

    /// How often the timer runs out within the next `delta`.
    pub open spec fn completions(&self, delta: u32) -> int {
        (self.elapsed + delta) / (self.period as int)
    }

    /// The timer after `delta` more has passed: what is left over once every
    /// full period has been taken off.
    pub open spec fn after(&self, delta: u32) -> RepeatingTimer {
        RepeatingTimer {
            period: self.period,
            elapsed: ((self.elapsed + delta) % (self.period as int)) as u32,
        }
    }

    /// A timer of the given period with nothing elapsed; `None` for a period
    /// of zero, which would run out endlessly.
    pub fn new(period: u32) -> (r: Option<RepeatingTimer>)
        ensures
            r == (if period > 0 {
                Some((RepeatingTimer { period, elapsed: 0 }))
            } else {
                None
            }),
            r is Some ==> r.unwrap().wf(),
    {
        if period > 0 {
            Some(RepeatingTimer { period, elapsed: 0 })
        } else {
            None
        }
    }

    /// Lets `delta` pass, and says how often the timer ran out meanwhile.
    pub fn tick(&mut self, delta: u32) -> (times: u32)
        requires
            old(self).wf(),
        ensures
            *final(self) == old(self).after(delta),
            final(self).wf(),
            times == old(self).completions(delta),
            times > 0 <==> old(self).completes(delta),
    {
        let period: u64 = self.period as u64;
        let total: u64 = self.elapsed as u64 + delta as u64;
        let times: u64 = total / period;
        let rest: u64 = total % period;
        proof {
            let t: int = total as int;
            let p: int = period as int;
            assert(0 <= t / p <= t) by (nonlinear_arith)
                requires 0 <= t, 0 < p;
            assert(t >= p <==> t / p > 0) by (nonlinear_arith)
                requires 0 <= t, 0 < p;
            assert(t < 0x2_0000_0000);
            if t / p > 0xffff_ffff {
                assert(t >= 0x1_0000_0000 * p) by (nonlinear_arith)
                    requires t / p >= 0x1_0000_0000, 0 <= t, 0 < p;
                assert(p == 1 && self.elapsed == 0);
                assert(false);
            }
        }
        self.elapsed = rest as u32;
        times as u32
    }
}

} // verus!
