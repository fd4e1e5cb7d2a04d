//! The clock of the game: real time comes in, whole ticks go out.

use vstd::prelude::*;

verus! {

/// The milliseconds from one tick to the next.
pub const TICK_TIME: u64 = 250;

/// The nanoseconds in a millisecond.
pub const MS: u64 = 1_000_000;

/// The nanoseconds from one tick to the next.
pub open spec fn tick_ns() -> int {
    TICK_TIME * MS
}

/// Keeps count of the time that has passed and has not been played yet.
///
/// Time is read in nanoseconds since some moment that stays the same. What
/// has passed since the last reading is added to what was left over, and
/// every full tick in the sum is due to be played. No tick is lost: what is
/// short of a tick is kept for the next reading.
#[derive(Clone, Copy, Debug, PartialEq, Eq)]
pub struct Clock {
    last: u64,
    pending: u64,
}

impl Clock {
    #[verifier::type_invariant]
    spec fn less_than_a_tick_pending(self) -> bool {
        self.pending < tick_ns()
    }

    /// The last reading that the clock took.
    pub closed spec fn last_reading(self) -> int {
        self.last as int
    }

    /// The time that has passed and has not been played, in nanoseconds.
    pub closed spec fn left_over(self) -> int {
        self.pending as int
    }

    /// A clock that starts at the reading `now`, with nothing left over.
    pub fn new(now: u64) -> (clock: Clock)
        ensures
            clock.last_reading() == now,
            clock.left_over() == 0,
    {
        Clock { last: now, pending: 0 }
    }

    /// A clock that starts now.
    pub fn start() -> (clock: Clock)
        ensures
            clock.left_over() == 0,
    {
        Clock::new(precise_time_ns())
    }

    /// The last reading that the clock took.
    pub fn last(&self) -> (reading: u64)
        ensures
            reading == self.last_reading(),
    {
        self.last
    }

    /// The time that has passed and has not been played, in nanoseconds:
    /// always less than a tick.
    pub fn pending(&self) -> (ns: u64)
        ensures
            ns == self.left_over(),
            ns < tick_ns(),
    {
        proof {
            use_type_invariant(self);
        }
        self.pending
    }

    /// Takes the reading `now` and tells how many ticks are due.
    ///
    /// The time since the last reading and what was left over make up the
    /// ticks that are due and what is left over now, which is less than a
    /// tick. A reading from before the last one is passed over: the clock
    /// stays as it is and no tick is due.
    pub fn advance(&mut self, now: u64) -> (ticks: u64)
        ensures
            now >= old(self).last_reading() ==> {
                &&& final(self).last_reading() == now
                &&& old(self).left_over() + (now - old(self).last_reading()) == ticks * tick_ns()
                    + final(self).left_over()
                &&& 0 <= final(self).left_over() < tick_ns()
            },
            now < old(self).last_reading() ==> *final(self) == *old(self) && ticks == 0,
    {
        proof {
            use_type_invariant(&*self);
        }
        if now < self.last {
            return 0;
        }
        let period: u64 = TICK_TIME * MS;
        let elapsed: u64 = now - self.last;
        let carried: u64 = self.pending + elapsed % period;
        let ticks: u64 = elapsed / period + carried / period;
        self.last = now;
        self.pending = carried % period;
        ticks
    }

    /// Reads the time and tells how many ticks are due.
    pub fn poll(&mut self) -> (ticks: u64)
        ensures
            final(self).last_reading() >= old(self).last_reading(),
            old(self).left_over() + (final(self).last_reading() - old(self).last_reading())
                == ticks * tick_ns() + final(self).left_over(),
            0 <= final(self).left_over() < tick_ns(),
    {
        proof {
            use_type_invariant(&*self);
        }
        let now = precise_time_ns();
        self.advance(now)
    }

    /// The milliseconds to rest before the next reading: half of what is
    /// short of the next tick.
    pub fn pause(&self) -> (millis: u64)
        ensures
            millis == (TICK_TIME - self.left_over() / (MS as int)) / 2,
    {
        proof {
            use_type_invariant(self);
        }
        (TICK_TIME - self.pending / MS) / 2
    }
}

/// Reads `time::precise_time_ns`: the nanoseconds on a clock of the machine
/// since a moment that the machine chooses. Nothing is claimed of the number.
#[verifier::external_body]
fn precise_time_ns() -> (now: u64) {
    time::precise_time_ns()
}

} // verus!
