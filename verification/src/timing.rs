//! the subsystem that governs the timing of the loops: a monotonic clock and
//! a rate limiter with lockstep and lag catch-up modes
//!
//! All durations are measured in whole nanoseconds, held in `u64` values.

use vstd::prelude::*;

verus! {

/// declaration of the standard library's monotonic timestamp type, which the
/// clock stores as its reference point; Verus treats its values as opaque
#[verifier::external_type_specification]
#[verifier::external_body]
pub struct ExInstant(std::time::Instant);

/// Relies on std::time::Instant::now: a sample of the monotonic clock.
/// Nothing is promised of the value; everything computed from it is verified
/// for every sample.
pub assume_specification[ std::time::Instant::now ]() -> std::time::Instant;

/// Relies on std::time::Instant::saturating_duration_since: the time between
/// two samples, clamped to zero when `earlier` is the later one (never panics).
pub assume_specification[ std::time::Instant::saturating_duration_since ](
    this: &std::time::Instant,
    earlier: std::time::Instant,
) -> core::time::Duration;

/// Relies on core::time::Duration::as_nanos: the duration as a whole number
/// of nanoseconds.
pub assume_specification[ core::time::Duration::as_nanos ](
    this: &core::time::Duration,
) -> u128;

/// keeps track of the passing of time from a recorded instant
pub struct Clock {
    reset_time: std::time::Instant,
}

impl Clock {
    /// create a new clock (starting from the moment it's created)
    pub fn new() -> Self {
        Clock { reset_time: std::time::Instant::now() }
    }

    /// reset the clock back to its zero state (no elapsed time)
    pub fn reset(&mut self) {
        self.reset_time = std::time::Instant::now();
    }

    /// the nanoseconds that have passed since the reference point, clamped to
    /// zero from below and to `u64::MAX` from above; the value depends on the
    /// wall clock, so nothing is promised of it
    pub fn elapsed(&self) -> u64 {
        let since = std::time::Instant::now().saturating_duration_since(self.reset_time);
        let nanos = since.as_nanos();
        if nanos > u64::MAX as u128 {
            u64::MAX
        } else {
            nanos as u64
        }
    }
}

/// the ratio of passing time in a loop to passing real time, as a rational
/// number (`numer` simulated nanoseconds for every `denom` real ones)
#[derive(PartialEq, Eq, Structural, Clone, Copy, Debug)]
pub struct Speed {
    /// simulated time units
    pub numer: u64,
    /// real time units (must not be zero)
    pub denom: u64,
}

impl Speed {
    /// a well-formed speed has a non-zero denominator
    pub open spec fn wf(&self) -> bool {
        self.denom > 0
    }

    /// the identity speed: simulated time passes exactly as fast as real time
    pub fn real_time() -> (s: Speed)
        ensures
            s.numer == 1,
            s.denom == 1,
            s.wf(),
    {
        Speed { numer: 1, denom: 1 }
    }
}

/// `value * numer / denom` in unbounded arithmetic, saturating at `u64::MAX`
pub open spec fn spec_scale(value: u64, numer: u64, denom: u64) -> u64
    recommends
        denom > 0,
{
    if (value * numer) / (denom as int) > u64::MAX {
        u64::MAX
    } else {
        ((value * numer) / (denom as int)) as u64
    }
}

/// scale a duration by a speed ratio, saturating at `u64::MAX`
fn scale(value: u64, numer: u64, denom: u64) -> (r: u64)
    requires
        denom > 0,
    ensures
        r == spec_scale(value, numer, denom),
{
    proof {
        assert((value as int) * (numer as int) <= (u64::MAX as int) * (u64::MAX as int))
            by (nonlinear_arith)
            requires
                value <= u64::MAX,
                numer <= u64::MAX,
        ;
    }
    let product: u128 = (value as u128) * (numer as u128);
    let quotient: u128 = product / (denom as u128);
    if quotient > u64::MAX as u128 {
        u64::MAX
    } else {
        quotient as u64
    }
}

/// an error in the configuration of a timing component
#[derive(PartialEq, Eq, Structural, Clone, Copy, Debug)]
pub enum TimingError {
    /// the requested configuration is invalid (a zero interval, frequency or
    /// speed denominator)
    InvalidConfiguration,
}

/// the time to sleep before the next iteration of a loop may run, given how
/// long the finished iteration took, the target interval, and the lag owed:
/// an iteration that overran its interval waits not at all, and otherwise the
/// owed lag eats into the idle time that remains
pub open spec fn spec_wait(elapsed: u64, interval: u64, lag: u64) -> u64 {
    if elapsed >= interval {
        0
    } else if lag >= interval - elapsed {
        0
    } else {
        (interval - elapsed - lag) as u64
    }
}

/// the lag owed after an iteration that waited for `wait`: with catch-up
/// disabled there is never any lag; with it enabled, a wait of at least a
/// full interval grows the debt by the excess, and a shorter wait pays the
/// debt down by the shortfall (never below zero); the growth saturates at
/// `u64::MAX`
pub open spec fn spec_lag(wait: u64, interval: u64, lag: u64, catchup_enabled: bool) -> u64 {
    if !catchup_enabled {
        0
    } else if wait >= interval {
        if lag + (wait - interval) > u64::MAX {
            u64::MAX
        } else {
            (lag + (wait - interval)) as u64
        }
    } else {
        if lag >= interval - wait {
            (lag - (interval - wait)) as u64
        } else {
            0
        }
    }
}

/// a positive frequency maps to a positive interval exactly when it does not
/// exceed a billion iterations per second (the resolution of the clock)
pub(crate) proof fn lemma_frequency_interval(per_second: int)
    requires
        per_second >= 1,
    ensures
        per_second <= 1_000_000_000 ==> 1_000_000_000 as int / per_second >= 1,
        per_second > 1_000_000_000 ==> 1_000_000_000 as int / per_second == 0,
{
    if per_second <= 1_000_000_000 {
        assert(1_000_000_000 as int / per_second >= 1) by (nonlinear_arith)
            requires
                1 <= per_second <= 1_000_000_000,
        ;
    } else {
        assert(1_000_000_000 as int / per_second == 0) by (nonlinear_arith)
            requires
                per_second > 1_000_000_000,
        ;
    }
}

/// an object that represents a requested condition for the next iteration of
/// a simulation loop
pub struct Rev {
    /// nanoseconds of simulated time that should elapse during the iteration
    pub delta: u64,
    /// nanoseconds to wait before running the next iteration
    pub wait: u64,
}

impl Rev {
    /// create a new rev
    pub fn new(delta: u64, wait: u64) -> (r: Self)
        ensures
            r.delta == delta,
            r.wait == wait,
    {
        Rev { delta, wait }
    }
}

/// an object that provides a means of controlling the rate at which a loop is
/// run
pub struct RevLimiter {
    /// whether or not each iteration advances by the same interval despite
    /// jitter (deterministic loops)
    pub lockstep_enabled: bool,
    /// whether or not the loop should attempt to catch up after incurring lag
    pub catchup_enabled: bool,
    /// the target duration between each iteration of the loop, in nanoseconds
    pub interval: u64,
    /// a clock for keeping track of time elapsed since the last iteration
    pub clock: Clock,
    /// the duration of lag incurred behind the real-world elapsed time
    pub lag: u64,
    /// the ratio of passing time in the loop to passing real time
    pub speed: Speed,
}

impl RevLimiter {
    /// a well-formed limiter has a positive interval, a well-formed speed,
    /// and owes lag only when catch-up is enabled
    pub open spec fn wf(&self) -> bool {
        &&& self.interval > 0
        &&& self.speed.wf()
        &&& (!self.catchup_enabled ==> self.lag == 0)
    }

    /// calculate the sleep duration after a loop iteration: zero if the
    /// iteration overran the interval or the owed lag covers the idle time,
    /// and the idle time less the owed lag otherwise
    pub fn calculate_wait(current_elapsed: u64, target_interval: u64, current_lag: u64) -> (wait:
        u64)
        ensures
            wait == spec_wait(current_elapsed, target_interval, current_lag),
            current_elapsed >= target_interval ==> wait == 0,
            current_elapsed < target_interval && current_lag >= target_interval - current_elapsed
                ==> wait == 0,
            current_elapsed < target_interval && current_lag < target_interval - current_elapsed
                ==> wait == target_interval - current_elapsed - current_lag,
            wait <= target_interval,
    {
        if current_elapsed >= target_interval {
            0
        } else {
            let delta = target_interval - current_elapsed;
            if current_lag > delta {
                0
            } else {
                delta - current_lag
            }
        }
    }

    /// calculate the remaining lag after a loop iteration that waited for
    /// `last_wait`; with catch-up disabled the lag is always zero
    pub fn calculate_lag(
        last_wait: u64,
        target_interval: u64,
        accumulated_lag: u64,
        catchup_enabled: bool,
    ) -> (lag: u64)
        ensures
            lag == spec_lag(last_wait, target_interval, accumulated_lag, catchup_enabled),
            !catchup_enabled ==> lag == 0,
            catchup_enabled && last_wait >= target_interval && accumulated_lag + (last_wait
                - target_interval) <= u64::MAX ==> lag == accumulated_lag + (last_wait
                - target_interval),
            catchup_enabled && last_wait >= target_interval && accumulated_lag + (last_wait
                - target_interval) > u64::MAX ==> lag == u64::MAX,
            catchup_enabled && last_wait < target_interval ==> lag == (
            if accumulated_lag >= target_interval - last_wait {
                (accumulated_lag - (target_interval - last_wait)) as u64
            } else {
                0u64
            }),
    {
        if catchup_enabled {
            if last_wait >= target_interval {
                let lost_time = last_wait - target_interval;
                if accumulated_lag > u64::MAX - lost_time {
                    u64::MAX
                } else {
                    accumulated_lag + lost_time
                }
            } else {
                let gained_time = target_interval - last_wait;
                if accumulated_lag > gained_time {
                    accumulated_lag - gained_time
                } else {
                    0
                }
            }
        } else {
            0
        }
    }

    /// create a new rev limiter; a zero interval or a zero speed denominator
    /// is an invalid configuration
    pub fn new(lockstep_enabled: bool, catchup_enabled: bool, interval: u64, speed: Speed) -> (r:
        Result<Self, TimingError>)
        ensures
            r is Ok <==> (interval > 0 && speed.denom > 0),
            r is Ok ==> {
                &&& r->Ok_0.lockstep_enabled == lockstep_enabled
                &&& r->Ok_0.catchup_enabled == catchup_enabled
                &&& r->Ok_0.interval == interval
                &&& r->Ok_0.lag == 0
                &&& r->Ok_0.speed == speed
                &&& r->Ok_0.wf()
            },
            r is Err ==> r->Err_0 == TimingError::InvalidConfiguration,
    {
        if interval == 0 || speed.denom == 0 {
            Err(TimingError::InvalidConfiguration)
        } else {
            Ok(
                RevLimiter {
                    lockstep_enabled,
                    catchup_enabled,
                    interval,
                    clock: Clock::new(),
                    lag: 0,
                    speed,
                },
            )
        }
    }

    /// create a new rev limiter from a frequency (iterations per second)
    /// instead of an interval; a frequency of zero, or one above a billion
    /// (whose interval would round down to nothing), is an invalid
    /// configuration
    pub fn new_from_frequency(
        lockstep_enabled: bool,
        catchup_enabled: bool,
        per_second: u32,
        speed: Speed,
    ) -> (r: Result<Self, TimingError>)
        ensures
            r is Ok <==> (1 <= per_second <= 1_000_000_000 && speed.denom > 0),
            r is Ok ==> {
                &&& r->Ok_0.lockstep_enabled == lockstep_enabled
                &&& r->Ok_0.catchup_enabled == catchup_enabled
                &&& r->Ok_0.interval == 1_000_000_000 as int / per_second as int
                &&& r->Ok_0.lag == 0
                &&& r->Ok_0.speed == speed
                &&& r->Ok_0.wf()
            },
            r is Err ==> r->Err_0 == TimingError::InvalidConfiguration,
    {
        if per_second == 0 {
            Err(TimingError::InvalidConfiguration)
        } else {
            proof {
                lemma_frequency_interval(per_second as int);
            }
            Self::new(
                lockstep_enabled,
                catchup_enabled,
                1_000_000_000u64 / (per_second as u64),
                speed,
            )
        }
    }

    /// the delta time to report for this iteration: with lockstep enabled,
    /// the fixed interval scaled by the speed (deterministic, jitter-immune);
    /// otherwise the wall-clock time elapsed since the last iteration, scaled
    /// by the speed
    pub fn begin(&self) -> (delta: u64)
        requires
            self.wf(),
        ensures
            self.lockstep_enabled ==> delta == spec_scale(
                self.interval,
                self.speed.numer,
                self.speed.denom,
            ),
    {
        if self.lockstep_enabled {
            scale(self.interval, self.speed.numer, self.speed.denom)
        } else {
            scale(self.clock.elapsed(), self.speed.numer, self.speed.denom)
        }
    }

    /// signal that execution for this iteration took `elapsed` nanoseconds:
    /// computes the wait until the next iteration and settles the owed lag
    /// accordingly; the clock is left untouched
    pub fn end_with_elapsed(&mut self, elapsed: u64) -> (wait: u64)
        requires
            old(self).wf(),
        ensures
            final(self).wf(),
            wait == spec_wait(elapsed, old(self).interval, old(self).lag),
            final(self).lag == spec_lag(wait, old(self).interval, old(self).lag, old(self).catchup_enabled),
            !old(self).catchup_enabled ==> final(self).lag == 0,
            wait <= old(self).interval,
            final(self).lockstep_enabled == old(self).lockstep_enabled,
            final(self).catchup_enabled == old(self).catchup_enabled,
            final(self).interval == old(self).interval,
            final(self).speed == old(self).speed,
            final(self).clock == old(self).clock,
    {
        let wait = Self::calculate_wait(elapsed, self.interval, self.lag);
        self.lag = Self::calculate_lag(wait, self.interval, self.lag, self.catchup_enabled);
        wait
    }

    /// signal that execution for this iteration of the loop has completed,
    /// and prepare for the next iteration: returns the time to wait before
    /// it, settles the owed lag, and resets the clock
    pub fn end(&mut self) -> (wait: u64)
        requires
            old(self).wf(),
        ensures
            final(self).wf(),
            final(self).lag == spec_lag(wait, old(self).interval, old(self).lag, old(self).catchup_enabled),
            !old(self).catchup_enabled ==> final(self).lag == 0,
            wait <= old(self).interval,
            final(self).lockstep_enabled == old(self).lockstep_enabled,
            final(self).catchup_enabled == old(self).catchup_enabled,
            final(self).interval == old(self).interval,
            final(self).speed == old(self).speed,
    {
        let elapsed = self.clock.elapsed();
        let wait = self.end_with_elapsed(elapsed);
        self.clock.reset();
        wait
    }

    /// execute the next iteration of the loop: the delta to report and the
    /// time to wait, with the lag settled and the clock reset
    pub fn next(&mut self) -> (rev: Rev)
        requires
            old(self).wf(),
        ensures
            final(self).wf(),
            old(self).lockstep_enabled ==> rev.delta == spec_scale(
                old(self).interval,
                old(self).speed.numer,
                old(self).speed.denom,
            ),
            final(self).lag == spec_lag(
                rev.wait,
                old(self).interval,
                old(self).lag,
                old(self).catchup_enabled,
            ),
            !old(self).catchup_enabled ==> final(self).lag == 0,
            rev.wait <= old(self).interval,
            final(self).lockstep_enabled == old(self).lockstep_enabled,
            final(self).catchup_enabled == old(self).catchup_enabled,
            final(self).interval == old(self).interval,
            final(self).speed == old(self).speed,
    {
        let delta = self.begin();
        let wait = self.end();
        Rev::new(delta, wait)
    }

    /// set the interval in nanoseconds, taking effect on the next iteration;
    /// a zero interval is an invalid configuration and leaves the limiter
    /// unchanged
    pub fn set_interval(&mut self, interval: u64) -> (r: Result<(), TimingError>)
        requires
            old(self).wf(),
        ensures
            final(self).wf(),
            r is Ok <==> interval > 0,
            r is Ok ==> final(self).interval == interval,
            r is Err ==> final(self).interval == old(self).interval && r->Err_0
                == TimingError::InvalidConfiguration,
            final(self).lockstep_enabled == old(self).lockstep_enabled,
            final(self).catchup_enabled == old(self).catchup_enabled,
            final(self).lag == old(self).lag,
            final(self).speed == old(self).speed,
            final(self).clock == old(self).clock,
    {
        if interval == 0 {
            Err(TimingError::InvalidConfiguration)
        } else {
            self.interval = interval;
            Ok(())
        }
    }

    /// set the frequency in iterations per second, taking effect on the next
    /// iteration; a frequency of zero, or one above a billion, is an invalid
    /// configuration and leaves the limiter unchanged
    pub fn set_frequency(&mut self, per_second: u32) -> (r: Result<(), TimingError>)
        requires
            old(self).wf(),
        ensures
            final(self).wf(),
            r is Ok <==> 1 <= per_second <= 1_000_000_000,
            r is Ok ==> final(self).interval == 1_000_000_000 as int / per_second as int,
            r is Err ==> final(self).interval == old(self).interval && r->Err_0
                == TimingError::InvalidConfiguration,
            final(self).lockstep_enabled == old(self).lockstep_enabled,
            final(self).catchup_enabled == old(self).catchup_enabled,
            final(self).lag == old(self).lag,
            final(self).speed == old(self).speed,
            final(self).clock == old(self).clock,
    {
        if per_second == 0 {
            Err(TimingError::InvalidConfiguration)
        } else {
            proof {
                lemma_frequency_interval(per_second as int);
            }
            self.set_interval(1_000_000_000u64 / (per_second as u64))
        }
    }
}

/// builder for constructing a RevLimiter struct with a fluent API
pub struct RevLimiterBuilder {
    /// whether the limiter under construction reports a fixed delta
    pub lockstep_enabled: bool,
    /// whether the limiter under construction tracks and repays lag
    pub catchup_enabled: bool,
    /// the target interval of the limiter under construction, in nanoseconds
    pub interval: u64,
    /// the speed of the limiter under construction
    pub speed: Speed,
}

impl RevLimiterBuilder {
    /// begin building a RevLimiter based off of an interval (time between
    /// iterations) in nanoseconds; lockstep and catch-up start disabled
    pub fn new_from_interval(interval: u64) -> (b: Self)
        ensures
            !b.lockstep_enabled,
            !b.catchup_enabled,
            b.interval == interval,
            b.speed == (Speed { numer: 1, denom: 1 }),
    {
        RevLimiterBuilder {
            lockstep_enabled: false,
            catchup_enabled: false,
            interval,
            speed: Speed::real_time(),
        }
    }

    /// begin building a RevLimiter based off of a frequency (iterations per
    /// second); lockstep and catch-up start disabled
    pub fn new_from_frequency(per_second: u32) -> (b: Self)
        ensures
            !b.lockstep_enabled,
            !b.catchup_enabled,
            per_second > 0 ==> b.interval == 1_000_000_000 as int / per_second as int,
            per_second == 0 ==> b.interval == 0,
            b.speed == (Speed { numer: 1, denom: 1 }),
    {
        let interval: u64 = if per_second == 0 {
            0
        } else {
            1_000_000_000u64 / (per_second as u64)
        };
        RevLimiterBuilder {
            lockstep_enabled: false,
            catchup_enabled: false,
            interval,
            speed: Speed::real_time(),
        }
    }

    /// enable lockstep functionality: each iteration advances by the same
    /// interval despite jitter (deterministic loops)
    pub fn enable_lockstep(self) -> (b: Self)
        ensures
            b == (Self { lockstep_enabled: true, ..self }),
    {
        Self { lockstep_enabled: true, ..self }
    }

    /// disable lockstep functionality: each iteration may advance by a
    /// different amount of time depending on conditions
    pub fn disable_lockstep(self) -> (b: Self)
        ensures
            b == (Self { lockstep_enabled: false, ..self }),
    {
        Self { lockstep_enabled: false, ..self }
    }

    /// enable catchup functionality: the loop attempts to catch up after
    /// incurring lag
    pub fn enable_catchup(self) -> (b: Self)
        ensures
            b == (Self { catchup_enabled: true, ..self }),
    {
        Self { catchup_enabled: true, ..self }
    }

    /// disable catchup functionality: the loop does not attempt to catch up
    /// after incurring lag
    pub fn disable_catchup(self) -> (b: Self)
        ensures
            b == (Self { catchup_enabled: false, ..self }),
    {
        Self { catchup_enabled: false, ..self }
    }

    /// build the RevLimiter, disposing of the builder; an interval of zero
    /// (also the result of a zero or over-fine frequency) or an ill-formed
    /// speed is an invalid configuration
    pub fn build(self) -> (r: Result<RevLimiter, TimingError>)
        ensures
            r is Ok <==> (self.interval > 0 && self.speed.denom > 0),
            r is Ok ==> {
                &&& r->Ok_0.lockstep_enabled == self.lockstep_enabled
                &&& r->Ok_0.catchup_enabled == self.catchup_enabled
                &&& r->Ok_0.interval == self.interval
                &&& r->Ok_0.lag == 0
                &&& r->Ok_0.speed == self.speed
                &&& r->Ok_0.wf()
            },
            r is Err ==> r->Err_0 == TimingError::InvalidConfiguration,
    {
        RevLimiter::new(self.lockstep_enabled, self.catchup_enabled, self.interval, self.speed)
    }
}

} // verus!
