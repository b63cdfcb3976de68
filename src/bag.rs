//! The per-actor, per-operation-kind daily rate limiter.

use vstd::prelude::*;

verus! {

/// Seconds in one day of ledger time.
pub const SECONDS_PER_DAY: i64 = 86400;

/// Errors raised by the rate limiter and by the retrieve rules.
#[derive(Debug, Clone, Copy, PartialEq, Eq, Structural)]
pub enum BagError {
    /// The actor has used all of the day's operations of this kind.
    MaxDailyBottleExceeded,
    /// The bottle is no longer drifting.
    BottleAlreadyRetrieved,
    /// The sender of a bottle tried to retrieve it.
    CannotRetrieveOwnBottle,
}

/// Counts the operations of one kind made by one actor.
#[derive(Debug, Clone, Copy, PartialEq, Eq, Structural)]
pub struct Bag {
    /// Ledger time of the last operation counted in this bag.
    pub last_bottle_time: i64,
    /// How many operations have been counted since the last reset.
    pub counter: u8,
}

impl Bag {
    /// How many operations of one kind an actor may make in a day.
    pub const MAX_BOTTLES_PER_DAY: u8 = 3;

    /// The counter never exceeds the daily cap.
    pub open spec fn wf(self) -> bool {
        self.counter <= Self::MAX_BOTTLES_PER_DAY
    }

    /// Whether an operation at `now` is refused: the cap is reached and the
    /// last counted operation lies no more than a day back.
    pub open spec fn spec_refuses(self, now: i64) -> bool {
        self.counter >= Self::MAX_BOTTLES_PER_DAY && now as int - self.last_bottle_time as int
            <= SECONDS_PER_DAY as int
    }

    /// The bag after an operation at `now` is counted, or the refusal.
    /// A bag at the cap whose day has passed starts counting again from zero.
    pub open spec fn spec_next(self, now: i64) -> Result<Bag, BagError> {
        if self.spec_refuses(now) {
            Err(BagError::MaxDailyBottleExceeded)
        } else {
            let base: int = if self.counter >= Self::MAX_BOTTLES_PER_DAY {
                0
            } else {
                self.counter as int
            };
            Ok(Bag { last_bottle_time: now, counter: (base + 1) as u8 })
        }
    }

    /// A bag that has counted nothing yet.
    pub fn new() -> (r: Bag)
        ensures
            r.counter == 0,
            r.last_bottle_time == 0,
            r.wf(),
    {
        Bag { last_bottle_time: 0, counter: 0 }
    }

    /// Counts an operation made at `now`, or refuses it with
    /// `MaxDailyBottleExceeded`. The bag itself is left as it is: the caller
    /// stores the result once every other check has passed.
    pub fn next(&self, now: i64) -> (r: Result<Bag, BagError>)
        ensures
            r == self.spec_next(now),
            r is Err <==> self.spec_refuses(now),
            r matches Ok(b) ==> b.wf() && b.counter >= 1 && b.last_bottle_time == now,
    {
        let elapsed: i128 = now as i128 - self.last_bottle_time as i128;
        let mut counter: u8 = self.counter;
        if counter >= Self::MAX_BOTTLES_PER_DAY {
            if elapsed <= SECONDS_PER_DAY as i128 {
                return Err(BagError::MaxDailyBottleExceeded);
            }
            counter = 0;
        }
        Ok(Bag { last_bottle_time: now, counter: counter + 1 })
    }
}

/// Three operations counted in a fresh or well-formed bag within one day
/// leave it full: a fourth within that same day is refused.
pub proof fn lemma_fourth_within_day_refused(b0: Bag, t1: i64, t2: i64, t3: i64, t4: i64)
    requires
        b0.wf(),
        t1 <= t2 <= t3 <= t4,
        t4 as int - t1 as int <= SECONDS_PER_DAY as int,
        b0.spec_next(t1) is Ok,
        b0.spec_next(t1)->Ok_0.spec_next(t2) is Ok,
        b0.spec_next(t1)->Ok_0.spec_next(t2)->Ok_0.spec_next(t3) is Ok,
    ensures
        b0.spec_next(t1)->Ok_0.spec_next(t2)->Ok_0.spec_next(t3)->Ok_0.counter
            == Bag::MAX_BOTTLES_PER_DAY,
        b0.spec_next(t1)->Ok_0.spec_next(t2)->Ok_0.spec_next(t3)->Ok_0.spec_next(t4)
            == Err::<Bag, BagError>(BagError::MaxDailyBottleExceeded),
{
}

/// Once a full bag's day has passed, its counter starts again from zero and
/// the new operation is the first one counted.
pub proof fn lemma_window_elapsed_resets(b: Bag, now: i64)
    requires
        b.counter == Bag::MAX_BOTTLES_PER_DAY,
        now as int - b.last_bottle_time as int > SECONDS_PER_DAY as int,
    ensures
        b.spec_next(now) == Ok::<Bag, BagError>(Bag { last_bottle_time: now, counter: 1 }),
{
}

} // verus!
