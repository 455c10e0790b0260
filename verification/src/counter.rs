//! The life of one account's counter: absent until started, active until
//! reset. The three transitions are the whole rule book of the ledger; they
//! read and produce plain values, so a host can run them on an entry that it
//! keeps in a store of its own.

use vstd::prelude::*;
use crate::event::Error;
use crate::event::Event;

verus! {

/// What the ledger holds for one account.
#[derive(Clone, Copy, Debug, PartialEq, Eq, Structural)]
pub enum CounterState {
    /// The account never started a counter, or reset it since.
    Absent,
    /// The account has a counter, stored with this value.
    Active(u32),
}

impl CounterState {
    /// The value read for this state: the stored one, or zero where the
    /// account has no counter.
    pub open spec fn value(self) -> u32 {
        match self {
            CounterState::Absent => 0,
            CounterState::Active(v) => v,
        }
    }

    /// What `start` yields: an absent counter becomes active at zero, an
    /// active one is turned down.
    pub open spec fn spec_start<A>(self, who: A) -> Result<(CounterState, Event<A>), Error> {
        match self {
            CounterState::Absent => Ok((CounterState::Active(0), Event::CountStarted(who, 0))),
            CounterState::Active(_) => Err(Error::CountAlreadyExists),
        }
    }

    /// What `increment` yields: the event reports one more than the stored
    /// value, while the value stored afterwards is zero.
    pub open spec fn spec_increment<A>(self, who: A) -> Result<(CounterState, Event<A>), Error>
        recommends
            self.can_increment(),
    {
        match self {
            CounterState::Absent => Err(Error::NoAssociatedCount),
            CounterState::Active(v) => Ok(
                (CounterState::Active(0), Event::CountIncremented(who, (v + 1) as u32)),
            ),
        }
    }

    /// What `reset` yields: an active counter is removed, an absent one is
    /// turned down.
    pub open spec fn spec_reset<A>(self, who: A) -> Result<(CounterState, Event<A>), Error> {
        match self {
            CounterState::Absent => Err(Error::NoAssociatedCount),
            CounterState::Active(_) => Ok((CounterState::Absent, Event::CountDeleted(who))),
        }
    }

    /// The count that `increment` reports still fits in 32 bits.
    pub open spec fn can_increment(self) -> bool {
        self.value() < u32::MAX
    }

    /// Creates the counter of `who`.
    pub fn start<A>(self, who: A) -> (result: Result<(CounterState, Event<A>), Error>)
        ensures
            result == self.spec_start(who),
            result is Ok <==> self is Absent,
    {
        match self {
            CounterState::Absent => Ok((CounterState::Active(0), Event::CountStarted(who, 0))),
            CounterState::Active(_) => Err(Error::CountAlreadyExists),
        }
    }

    /// Increments the counter of `who`.
    pub fn increment<A>(self, who: A) -> (result: Result<(CounterState, Event<A>), Error>)
        requires
            self.can_increment(),
        ensures
            result == self.spec_increment(who),
            result is Ok <==> self is Active,
            result matches Ok((_, Event::CountIncremented(_, announced))) ==> announced
                == self.value() + 1,
    {
        match self {
            CounterState::Absent => Err(Error::NoAssociatedCount),
            CounterState::Active(v) => Ok(
                (CounterState::Active(0), Event::CountIncremented(who, v + 1)),
            ),
        }
    }

    /// Removes the counter of `who`.
    pub fn reset<A>(self, who: A) -> (result: Result<(CounterState, Event<A>), Error>)
        ensures
            result == self.spec_reset(who),
            result is Ok <==> self is Active,
    {
        match self {
            CounterState::Absent => Err(Error::NoAssociatedCount),
            CounterState::Active(_) => Ok((CounterState::Absent, Event::CountDeleted(who))),
        }
    }
}

} // verus!
