//! The fixed-timestep clock: real time goes in, whole updates come out.
//!
//! The clock counts in *tick fractions*: one nanosecond of real time at a rate
//! of `r` ticks per second is worth `r` fractions, and `FRACTIONS_PER_TICK` of
//! them make one tick. Counting this way keeps a rate such as 60 per second
//! exact, although its tick is no whole number of nanoseconds.

use vstd::prelude::*;

verus! {

/// The number of tick fractions in one tick, which is also the number of
/// nanoseconds in one second.
pub const FRACTIONS_PER_TICK: u64 = 1_000_000_000;

/// The catch-up limit of a clock that was not given one.
pub const DEFAULT_MAX_CATCH_UP: u32 = 8;

/// The tick fractions that wait to be simulated once `elapsed_ns` of real
/// time have been added to what was `accumulated`: at most `max_catch_up`
/// ticks' worth, the excess is dropped.
pub open spec fn backlog(accumulated: nat, elapsed_ns: nat, rate: nat, max_catch_up: nat) -> nat {
    if accumulated + elapsed_ns * rate <= max_catch_up * FRACTIONS_PER_TICK {
        accumulated + elapsed_ns * rate
    } else {
        max_catch_up * (FRACTIONS_PER_TICK as nat)
    }
}

/// The number of updates that the backlog pays for.
pub open spec fn updates_due(accumulated: nat, elapsed_ns: nat, rate: nat, max_catch_up: nat) -> nat {
    backlog(accumulated, elapsed_ns, rate, max_catch_up) / (FRACTIONS_PER_TICK as nat)
}

/// What is left of the backlog after those updates.
pub open spec fn carry_over(accumulated: nat, elapsed_ns: nat, rate: nat, max_catch_up: nat) -> nat {
    backlog(accumulated, elapsed_ns, rate, max_catch_up) % (FRACTIONS_PER_TICK as nat)
}

/// However long a frame took, no more than `max_catch_up` updates follow it.
pub proof fn lemma_catch_up_is_bounded(accumulated: nat, elapsed_ns: nat, rate: nat, max_catch_up: nat)
    ensures
        updates_due(accumulated, elapsed_ns, rate, max_catch_up) <= max_catch_up,
{
}

/// The updates and the remainder account for the whole backlog, the remainder
/// is less than a tick, no time is invented, and below the catch-up limit no
/// time is dropped.
pub proof fn lemma_time_is_accounted_for(accumulated: nat, elapsed_ns: nat, rate: nat, max_catch_up: nat)
    ensures
        updates_due(accumulated, elapsed_ns, rate, max_catch_up) * FRACTIONS_PER_TICK + carry_over(
            accumulated,
            elapsed_ns,
            rate,
            max_catch_up,
        ) == backlog(accumulated, elapsed_ns, rate, max_catch_up),
        carry_over(accumulated, elapsed_ns, rate, max_catch_up) < FRACTIONS_PER_TICK,
        backlog(accumulated, elapsed_ns, rate, max_catch_up) <= accumulated + elapsed_ns * rate,
        accumulated + elapsed_ns * rate <= max_catch_up * FRACTIONS_PER_TICK ==> backlog(
            accumulated,
            elapsed_ns,
            rate,
            max_catch_up,
        ) == accumulated + elapsed_ns * rate,
{
}

/// Below the catch-up limit it does not matter how real time is cut into
/// frames: two frames pay for as many updates as one frame of their length,
/// and leave as much on the clock.
pub proof fn lemma_frames_add_up(accumulated: nat, first_ns: nat, second_ns: nat, rate: nat, max_catch_up: nat)
    requires
        accumulated + (first_ns + second_ns) * rate <= max_catch_up * FRACTIONS_PER_TICK,
    ensures
        ({
            let kept = carry_over(accumulated, first_ns, rate, max_catch_up);
            &&& updates_due(accumulated, first_ns, rate, max_catch_up) + updates_due(
                kept,
                second_ns,
                rate,
                max_catch_up,
            ) == updates_due(accumulated, first_ns + second_ns, rate, max_catch_up)
            &&& carry_over(kept, second_ns, rate, max_catch_up) == carry_over(
                accumulated,
                first_ns + second_ns,
                rate,
                max_catch_up,
            )
        }),
{
    assert((first_ns + second_ns) * rate == first_ns * rate + second_ns * rate) by (nonlinear_arith);
    assert(first_ns * rate >= 0 && second_ns * rate >= 0) by (nonlinear_arith);
}

/// Turns the real time between frames into a number of fixed-length updates.
///
/// Time that does not fill a whole tick is kept for the next frame. A frame
/// that took longer than `max_catch_up` ticks is followed by `max_catch_up`
/// updates only: what exceeds the limit is dropped, not simulated. A rate of
/// zero never makes an update due.
#[derive(Debug)]
pub struct Clock {
    ticks_per_second: u32,
    max_catch_up: u32,
    accumulated: u64,
    last_frame_ns: u64,
}

impl Clock {
    #[verifier::type_invariant]
    closed spec fn well_formed(&self) -> bool {
        self.accumulated < FRACTIONS_PER_TICK
    }

    /// The number of ticks in a second.
    pub closed spec fn rate(&self) -> nat {
        self.ticks_per_second as nat
    }

    /// The most updates that may follow one frame.
    pub closed spec fn limit(&self) -> nat {
        self.max_catch_up as nat
    }

    /// The tick fractions kept from earlier frames.
    pub closed spec fn pending(&self) -> nat {
        self.accumulated as nat
    }

    /// The real time that the last frame took, in nanoseconds.
    pub closed spec fn delta(&self) -> nat {
        self.last_frame_ns as nat
    }

    /// A clock with nothing accumulated.
    pub fn new(ticks_per_second: u32, max_catch_up: u32) -> (clock: Clock)
        ensures
            clock.rate() == ticks_per_second,
            clock.limit() == max_catch_up,
            clock.pending() == 0,
            clock.delta() == 0,
    {
        Clock { ticks_per_second, max_catch_up, accumulated: 0, last_frame_ns: 0 }
    }

    pub fn ticks_per_second(&self) -> (rate: u32)
        ensures
            rate == self.rate(),
    {
        self.ticks_per_second
    }

    pub fn max_catch_up(&self) -> (limit: u32)
        ensures
            limit == self.limit(),
    {
        self.max_catch_up
    }

    /// The tick fractions kept from earlier frames: less than one tick.
    pub fn accumulated(&self) -> (fractions: u64)
        ensures
            fractions == self.pending(),
            fractions < FRACTIONS_PER_TICK,
    {
        proof {
            use_type_invariant(self);
        }
        self.accumulated
    }

    /// The real time that the last frame took, in nanoseconds: what was last
    /// given to `advance`, all of it, whether or not it was simulated.
    pub fn delta_ns(&self) -> (ns: u64)
        ensures
            ns == self.delta(),
    {
        self.last_frame_ns
    }

    /// Adds the time that the last frame took and says how many updates are
    /// due now. Their time is taken off the clock at once.
    pub fn advance(&mut self, elapsed_ns: u64) -> (updates: u32)
        ensures
            updates == updates_due(
                old(self).pending(),
                elapsed_ns as nat,
                old(self).rate(),
                old(self).limit(),
            ),
            final(self).pending() == carry_over(
                old(self).pending(),
                elapsed_ns as nat,
                old(self).rate(),
                old(self).limit(),
            ),
            final(self).rate() == old(self).rate(),
            final(self).limit() == old(self).limit(),
            final(self).delta() == elapsed_ns,
    {
        proof {
            use_type_invariant(&*self);
        }
        self.last_frame_ns = elapsed_ns;
        let rate: u128 = self.ticks_per_second as u128;
        let elapsed: u128 = elapsed_ns as u128;
        assert(elapsed * rate <= 0xffff_ffff_ffff_ffff * 0xffff_ffff) by (nonlinear_arith)
            requires
                0 <= elapsed <= 0xffff_ffff_ffff_ffff,
                0 <= rate <= 0xffff_ffff,
        ;
        let total: u128 = self.accumulated as u128 + elapsed * rate;
        let cap: u128 = (self.max_catch_up as u128) * 1_000_000_000;
        let waiting: u128 = if total <= cap {
            total
        } else {
            cap
        };
        let updates: u128 = waiting / 1_000_000_000;
        let rest: u128 = waiting % 1_000_000_000;
        self.accumulated = rest as u64;
        updates as u32
    }
}

} // verus!
