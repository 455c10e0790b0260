//! The ledger: one counter per account, kept in a map that the ledger owns and
//! that only the three calls change.

use std::collections::HashMap;
use vstd::prelude::*;
use crate::counter::CounterState;
use crate::event::AccountId;
use crate::event::Error;
use crate::event::Event;

verus! {

/// What a call leaves behind: the counts after it, and the event it announces
/// or the error it was turned down with.
pub ghost struct Outcome {
    pub counts: Map<AccountId, u32>,
    pub result: Result<Event<AccountId>, Error>,
}

/// The counters of all accounts. An account is a key of the map exactly while
/// it has a counter.
pub struct Pallet {
    counts: HashMap<AccountId, u32>,
}

impl View for Pallet {
    type V = Map<AccountId, u32>;

    closed spec fn view(&self) -> Map<AccountId, u32> {
        self.counts@
    }
}

impl Pallet {
    /// The state of `who` in `counts`: active with the stored value where the
    /// key is present, absent otherwise. A stored zero is an active counter.
    pub open spec fn state_at(counts: Map<AccountId, u32>, who: AccountId) -> CounterState {
        if counts.contains_key(who) {
            CounterState::Active(counts[who])
        } else {
            CounterState::Absent
        }
    }

    /// `counts` with the entry of `who` replaced by `state`.
    pub open spec fn with_state(
        counts: Map<AccountId, u32>,
        who: AccountId,
        state: CounterState,
    ) -> Map<AccountId, u32> {
        match state {
            CounterState::Absent => counts.remove(who),
            CounterState::Active(v) => counts.insert(who, v),
        }
    }

    /// `counts` with the entry of `who` settled as `step`, the result of a
    /// transition on that entry, says: replaced where the transition went
    /// through, untouched where it was turned down.
    pub open spec fn settled(
        counts: Map<AccountId, u32>,
        who: AccountId,
        step: Result<(CounterState, Event<AccountId>), Error>,
    ) -> Outcome {
        match step {
            Ok((next, event)) => Outcome {
                counts: Self::with_state(counts, who, next),
                result: Ok(event),
            },
            Err(error) => Outcome { counts, result: Err(error) },
        }
    }

    /// One more than the value stored for `who` in `counts`, if any is stored,
    /// fits in 32 bits.
    pub open spec fn can_increment(counts: Map<AccountId, u32>, who: AccountId) -> bool {
        counts.contains_key(who) ==> counts[who] < u32::MAX
    }

    /// `start_count` on `counts`: files a counter of zero for an account that
    /// has none, and turns down an account that has one.
    pub open spec fn spec_start_count(counts: Map<AccountId, u32>, who: AccountId) -> Outcome {
        if counts.contains_key(who) {
            Outcome { counts, result: Err(Error::CountAlreadyExists) }
        } else {
            Outcome { counts: counts.insert(who, 0), result: Ok(Event::CountStarted(who, 0)) }
        }
    }

    /// `increment_counter` on `counts`: announces one more than the stored
    /// value and stores zero, and turns down an account without a counter.
    pub open spec fn spec_increment_counter(
        counts: Map<AccountId, u32>,
        who: AccountId,
    ) -> Outcome
        recommends
            Self::can_increment(counts, who),
    {
        if counts.contains_key(who) {
            Outcome {
                counts: counts.insert(who, 0),
                result: Ok(Event::CountIncremented(who, (counts[who] + 1) as u32)),
            }
        } else {
            Outcome { counts, result: Err(Error::NoAssociatedCount) }
        }
    }

    /// `reset_count` on `counts`: removes the counter of an account that has
    /// one, and turns down an account without a counter.
    pub open spec fn spec_reset_count(counts: Map<AccountId, u32>, who: AccountId) -> Outcome {
        if counts.contains_key(who) {
            Outcome { counts: counts.remove(who), result: Ok(Event::CountDeleted(who)) }
        } else {
            Outcome { counts, result: Err(Error::NoAssociatedCount) }
        }
    }

    /// The ledger in which no account has a counter.
    pub fn new() -> (pallet: Pallet)
        ensures
            pallet@ == Map::<AccountId, u32>::empty(),
    {
        Pallet { counts: HashMap::new() }
    }

    /// The ledger that holds exactly `counts`.
    pub fn from_counts(counts: HashMap<AccountId, u32>) -> (pallet: Pallet)
        ensures
            pallet@ == counts@,
    {
        Pallet { counts }
    }

    /// The counts that the ledger holds.
    pub fn counts(&self) -> (counts: &HashMap<AccountId, u32>)
        ensures
            counts@ == self@,
    {
        &self.counts
    }

    /// Whether `who` has a counter. This, and not the value read, decides what
    /// the three calls do.
    pub fn contains_key(&self, who: AccountId) -> (present: bool)
        ensures
            present == self@.contains_key(who),
    {
        self.counts.contains_key(&who)
    }

    /// The value stored for `who`, or zero where `who` has no counter.
    pub fn get(&self, who: AccountId) -> (value: u32)
        ensures
            value == Self::state_at(self@, who).value(),
    {
        match self.counts.get(&who) {
            Some(v) => *v,
            None => 0,
        }
    }

    /// Reads the state of `who`.
    pub fn state_of(&self, who: AccountId) -> (state: CounterState)
        ensures
            state == Self::state_at(self@, who),
    {
        match self.counts.get(&who) {
            Some(v) => CounterState::Active(*v),
            None => CounterState::Absent,
        }
    }

    /// Settles `step`, the result of a transition on the entry of `who`:
    /// stores the new entry and hands on the event, or hands on the error and
    /// stores nothing.
    fn settle(
        &mut self,
        who: AccountId,
        step: Result<(CounterState, Event<AccountId>), Error>,
    ) -> (result: Result<Event<AccountId>, Error>)
        ensures
            final(self)@ == Self::settled(old(self)@, who, step).counts,
            result == Self::settled(old(self)@, who, step).result,
    {
        match step {
            Ok((next, event)) => {
                match next {
                    CounterState::Absent => {
                        self.counts.remove(&who);
                    },
                    CounterState::Active(v) => {
                        self.counts.insert(who, v);
                    },
                }
                Ok(event)
            },
            Err(error) => Err(error),
        }
    }

    /// Starts the counter of `who` at zero. An account that already has a
    /// counter is turned down with `CountAlreadyExists`, and the ledger stays
    /// as it was.
    pub fn start_count(&mut self, who: AccountId) -> (result: Result<Event<AccountId>, Error>)
        ensures
            final(self)@ == Self::spec_start_count(old(self)@, who).counts,
            result == Self::spec_start_count(old(self)@, who).result,
            result is Ok <==> !old(self)@.contains_key(who),
    {
        let step = self.state_of(who).start(who);
        self.settle(who, step)
    }

    /// Increments the counter of `who`: the event reports one more than the
    /// stored value, and the value stored afterwards is zero. An account
    /// without a counter is turned down with `NoAssociatedCount`, and the
    /// ledger stays as it was.
    pub fn increment_counter(&mut self, who: AccountId) -> (result: Result<
        Event<AccountId>,
        Error,
    >)
        requires
            Self::can_increment(old(self)@, who),
        ensures
            final(self)@ == Self::spec_increment_counter(old(self)@, who).counts,
            result == Self::spec_increment_counter(old(self)@, who).result,
            result is Ok <==> old(self)@.contains_key(who),
            result matches Ok(Event::CountIncremented(_, announced)) ==> announced == old(
                self,
            )@[who] + 1,
    {
        let step = self.state_of(who).increment(who);
        self.settle(who, step)
    }

    /// Removes the counter of `who`. An account without a counter is turned
    /// down with `NoAssociatedCount`, and the ledger stays as it was.
    pub fn reset_count(&mut self, who: AccountId) -> (result: Result<Event<AccountId>, Error>)
        ensures
            final(self)@ == Self::spec_reset_count(old(self)@, who).counts,
            result == Self::spec_reset_count(old(self)@, who).result,
            result is Ok <==> old(self)@.contains_key(who),
    {
        let step = self.state_of(who).reset(who);
        self.settle(who, step)
    }
}

} // verus!
