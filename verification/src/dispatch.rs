//! the subsystem that handles the scheduling of a single callback-driven
//! loop: the loop object computes its deltas and waits, and the caller does
//! the sleeping between iterations

use vstd::prelude::*;

use crate::timing::{Clock, TimingError};

verus! {

/// the time to sleep before a loop's next iteration: without catch-up it is
/// simply whatever remains of the interval; with catch-up the owed lag is
/// paid out of the idle time first
pub open spec fn spec_loop_wait(elapsed: u64, interval: u64, lag: u64, catchup: bool) -> u64 {
    if !catchup {
        if elapsed >= interval {
            0
        } else {
            (interval - elapsed) as u64
        }
    } else {
        if lag + elapsed <= interval {
            (interval - lag - elapsed) as u64
        } else {
            0
        }
    }
}

/// the lag owed after a loop iteration: without catch-up it is left alone;
/// with catch-up a fully rested iteration clears it, and an overrunning one
/// records the shortfall (saturating at `u64::MAX`)
pub open spec fn spec_loop_lag(elapsed: u64, interval: u64, lag: u64, catchup: bool) -> u64 {
    if !catchup {
        lag
    } else if lag + elapsed <= interval {
        0
    } else if lag + elapsed - interval > u64::MAX {
        u64::MAX
    } else {
        (lag + elapsed - interval) as u64
    }
}

/// an object that provides a means of controlling the rate at which a loop
/// is run, by repeatedly invoking a callback with the delta time
pub struct Loop<T> where T: Fn(u64) {
    /// callback function that gets looped, receiving the delta time in
    /// nanoseconds
    callback: T,
    /// whether or not each iteration advances by the same interval despite
    /// jitter (deterministic loops)
    lockstep_enabled: bool,
    /// whether or not the loop should attempt to catch up after incurring
    /// lag
    catchup_enabled: bool,
    /// the target duration between each iteration of the loop, in
    /// nanoseconds
    interval: u64,
    /// a clock measuring the time since the last call of the callback
    last_call: Clock,
    /// the duration of lag incurred behind the real-world elapsed time
    lag: u64,
}

impl<T> Loop<T> where T: Fn(u64) {
    /// the loop's callback (spec view)
    pub closed spec fn spec_callback(&self) -> T {
        self.callback
    }

    /// whether the loop reports a fixed delta each iteration (spec view)
    pub closed spec fn spec_lockstep_enabled(&self) -> bool {
        self.lockstep_enabled
    }

    /// whether the loop tracks and repays lag (spec view)
    pub closed spec fn spec_catchup_enabled(&self) -> bool {
        self.catchup_enabled
    }

    /// the target interval between iterations, in nanoseconds (spec view)
    pub closed spec fn spec_interval(&self) -> u64 {
        self.interval
    }

    /// the lag currently owed, in nanoseconds (spec view)
    pub closed spec fn spec_lag(&self) -> u64 {
        self.lag
    }

    /// a well-formed loop has a positive interval
    pub open spec fn wf(&self) -> bool {
        self.spec_interval() > 0
    }

    /// create a new loop; a zero interval is an invalid configuration
    pub fn new(callback: T, lockstep_enabled: bool, catchup_enabled: bool, interval: u64) -> (r:
        Result<Self, TimingError>)
        ensures
            r is Ok <==> interval > 0,
            r is Ok ==> {
                &&& r->Ok_0.spec_callback() == callback
                &&& r->Ok_0.spec_lockstep_enabled() == lockstep_enabled
                &&& r->Ok_0.spec_catchup_enabled() == catchup_enabled
                &&& r->Ok_0.spec_interval() == interval
                &&& r->Ok_0.spec_lag() == 0
                &&& r->Ok_0.wf()
            },
            r is Err ==> r->Err_0 == TimingError::InvalidConfiguration,
    {
        if interval == 0 {
            Err(TimingError::InvalidConfiguration)
        } else {
            Ok(
                Loop {
                    callback,
                    lockstep_enabled,
                    catchup_enabled,
                    interval,
                    last_call: Clock::new(),
                    lag: 0,
                },
            )
        }
    }

    /// create a new loop from a frequency (iterations per second) instead of
    /// an interval; a frequency of zero, or one above a billion, is an
    /// invalid configuration
    pub fn new_from_frequency(
        callback: T,
        lockstep_enabled: bool,
        catchup_enabled: bool,
        per_second: u32,
    ) -> (r: Result<Self, TimingError>)
        ensures
            r is Ok <==> 1 <= per_second <= 1_000_000_000,
            r is Ok ==> {
                &&& r->Ok_0.spec_callback() == callback
                &&& r->Ok_0.spec_lockstep_enabled() == lockstep_enabled
                &&& r->Ok_0.spec_catchup_enabled() == catchup_enabled
                &&& r->Ok_0.spec_interval() == 1_000_000_000 as int / per_second as int
                &&& r->Ok_0.spec_lag() == 0
                &&& r->Ok_0.wf()
            },
            r is Err ==> r->Err_0 == TimingError::InvalidConfiguration,
    {
        if per_second == 0 {
            Err(TimingError::InvalidConfiguration)
        } else {
            proof {
                crate::timing::lemma_frequency_interval(per_second as int);
            }
            Self::new(callback, lockstep_enabled, catchup_enabled, 1_000_000_000u64 / (
            per_second as u64))
        }
    }

    /// call the callback manually with a given delta, and note the moment as
    /// the start of the next iteration's window
    pub fn call(&mut self, delta: u64)
        requires
            call_requires(old(self).spec_callback(), (delta,)),
        ensures
            call_ensures(old(self).spec_callback(), (delta,), ()),
            final(self).spec_callback() == old(self).spec_callback(),
            final(self).spec_lockstep_enabled() == old(self).spec_lockstep_enabled(),
            final(self).spec_catchup_enabled() == old(self).spec_catchup_enabled(),
            final(self).spec_interval() == old(self).spec_interval(),
            final(self).spec_lag() == old(self).spec_lag(),
    {
        (self.callback)(delta);
        self.last_call.reset();
    }

    /// call the callback, automatically calculating the delta time: the
    /// fixed interval under lockstep, the wall-clock time since the last
    /// call otherwise
    pub fn call_now(&mut self)
        requires
            forall|d: u64| #[trigger] call_requires(old(self).spec_callback(), (d,)),
        ensures
            old(self).spec_lockstep_enabled() ==> call_ensures(
                old(self).spec_callback(),
                (old(self).spec_interval(),),
                (),
            ),
            exists|d: u64| #[trigger] call_ensures(old(self).spec_callback(), (d,), ()),
            final(self).spec_callback() == old(self).spec_callback(),
            final(self).spec_lockstep_enabled() == old(self).spec_lockstep_enabled(),
            final(self).spec_catchup_enabled() == old(self).spec_catchup_enabled(),
            final(self).spec_interval() == old(self).spec_interval(),
            final(self).spec_lag() == old(self).spec_lag(),
    {
        if self.lockstep_enabled {
            let delta = self.interval;
            self.call(delta);
        } else {
            let delta = self.last_call.elapsed();
            self.call(delta);
        }
    }

    /// settle the accounts of an iteration that took `elapsed` nanoseconds:
    /// returns the time to sleep before the next iteration and records the
    /// remaining lag
    pub fn wait_for_elapsed(&mut self, elapsed: u64) -> (w: u64)
        ensures
            w == spec_loop_wait(
                elapsed,
                old(self).spec_interval(),
                old(self).spec_lag(),
                old(self).spec_catchup_enabled(),
            ),
            final(self).spec_lag() == spec_loop_lag(
                elapsed,
                old(self).spec_interval(),
                old(self).spec_lag(),
                old(self).spec_catchup_enabled(),
            ),
            final(self).spec_callback() == old(self).spec_callback(),
            final(self).spec_lockstep_enabled() == old(self).spec_lockstep_enabled(),
            final(self).spec_catchup_enabled() == old(self).spec_catchup_enabled(),
            final(self).spec_interval() == old(self).spec_interval(),
    {
        if self.catchup_enabled {
            let owed: u128 = (self.lag as u128) + (elapsed as u128);
            if owed <= self.interval as u128 {
                self.lag = 0;
                self.interval - (owed as u64)
            } else {
                let shortfall: u128 = owed - (self.interval as u128);
                self.lag = if shortfall > u64::MAX as u128 {
                    u64::MAX
                } else {
                    shortfall as u64
                };
                0
            }
        } else {
            if elapsed >= self.interval {
                0
            } else {
                self.interval - elapsed
            }
        }
    }

    /// compute the time to sleep before the next iteration can run, paying
    /// owed lag out of the idle time when catch-up is enabled; the caller
    /// does the sleeping
    pub fn wait(&mut self) -> (w: u64)
        ensures
            final(self).spec_callback() == old(self).spec_callback(),
            final(self).spec_lockstep_enabled() == old(self).spec_lockstep_enabled(),
            final(self).spec_catchup_enabled() == old(self).spec_catchup_enabled(),
            final(self).spec_interval() == old(self).spec_interval(),
            !old(self).spec_catchup_enabled() ==> final(self).spec_lag() == old(self).spec_lag(),
            old(self).spec_catchup_enabled() ==> (w == 0 || final(self).spec_lag() == 0),
    {
        let elapsed = self.last_call.elapsed();
        self.wait_for_elapsed(elapsed)
    }

    /// prepare and execute the next iteration of the loop back to back:
    /// settles the wait and lag accounts, then invokes the callback; a
    /// caller that sleeps does so between `wait` and `call_now`
    pub fn next(&mut self) -> (w: u64)
        requires
            forall|d: u64| #[trigger] call_requires(old(self).spec_callback(), (d,)),
        ensures
            old(self).spec_lockstep_enabled() ==> call_ensures(
                old(self).spec_callback(),
                (old(self).spec_interval(),),
                (),
            ),
            exists|d: u64| #[trigger] call_ensures(old(self).spec_callback(), (d,), ()),
            final(self).spec_callback() == old(self).spec_callback(),
            final(self).spec_lockstep_enabled() == old(self).spec_lockstep_enabled(),
            final(self).spec_catchup_enabled() == old(self).spec_catchup_enabled(),
            final(self).spec_interval() == old(self).spec_interval(),
            !old(self).spec_catchup_enabled() ==> final(self).spec_lag() == old(self).spec_lag(),
            old(self).spec_catchup_enabled() ==> (w == 0 || final(self).spec_lag() == 0),
    {
        let w = self.wait();
        self.call_now();
        w
    }
}

} // verus!
