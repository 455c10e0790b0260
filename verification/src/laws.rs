//! What holds of the ledger whatever it contains, stated over the maps and
//! outcomes that the contracts of the three calls speak of.

use vstd::prelude::*;
use crate::event::AccountId;
use crate::event::Error;
use crate::event::Event;
use crate::pallet::Outcome;
use crate::pallet::Pallet;

verus! {

/// Every stored value of `counts` is zero, as it is in a ledger that grew from
/// the empty one.
pub open spec fn all_zero(counts: Map<AccountId, u32>) -> bool {
    forall|who: AccountId| counts.contains_key(who) ==> #[trigger] counts[who] == 0
}

/// An account without a counter can neither increment nor reset: both calls
/// are turned down with `NoAssociatedCount` and leave the counts as they were,
/// so that the same call, made again, is turned down in the same way.
pub proof fn absent_account_is_turned_down(counts: Map<AccountId, u32>, who: AccountId)
    requires
        !counts.contains_key(who),
    ensures
        Pallet::spec_increment_counter(counts, who) == (Outcome {
            counts,
            result: Err(Error::NoAssociatedCount),
        }),
        Pallet::spec_reset_count(counts, who) == (Outcome {
            counts,
            result: Err(Error::NoAssociatedCount),
        }),
        Pallet::spec_increment_counter(Pallet::spec_increment_counter(counts, who).counts, who)
            == Pallet::spec_increment_counter(counts, who),
        Pallet::spec_reset_count(Pallet::spec_reset_count(counts, who).counts, who)
            == Pallet::spec_reset_count(counts, who),
        Pallet::spec_reset_count(Pallet::spec_increment_counter(counts, who).counts, who)
            == Pallet::spec_reset_count(counts, who),
        Pallet::spec_increment_counter(Pallet::spec_reset_count(counts, who).counts, who)
            == Pallet::spec_increment_counter(counts, who),
{
}

/// An account cannot start twice: after a start that succeeded, a second start
/// is turned down with `CountAlreadyExists` and leaves the counts as the first
/// one left them.
pub proof fn second_start_is_turned_down(counts: Map<AccountId, u32>, who: AccountId)
    requires
        Pallet::spec_start_count(counts, who).result is Ok,
    ensures
        Pallet::spec_start_count(Pallet::spec_start_count(counts, who).counts, who) == (Outcome {
            counts: Pallet::spec_start_count(counts, who).counts,
            result: Err(Error::CountAlreadyExists),
        }),
{
}

/// An increment of a counter that stores `v` announces `v + 1` and leaves zero
/// in store, not `v + 1`. Nothing else in the counts changes.
pub proof fn increment_announces_successor_and_stores_zero(
    counts: Map<AccountId, u32>,
    who: AccountId,
)
    requires
        counts.contains_key(who),
        counts[who] < u32::MAX,
    ensures
        Pallet::spec_increment_counter(counts, who).result matches Ok(
            Event::CountIncremented(account, announced),
        ) && account == who && announced == counts[who] + 1,
        Pallet::spec_increment_counter(counts, who).counts.contains_key(who),
        Pallet::spec_increment_counter(counts, who).counts[who] == 0,
        Pallet::spec_increment_counter(counts, who).counts == counts.insert(who, 0),
{
}

/// A reset removes the account: afterwards it has no counter, an increment or
/// another reset is turned down with `NoAssociatedCount`, and a start succeeds
/// and files a counter of zero.
pub proof fn reset_clears_existence(counts: Map<AccountId, u32>, who: AccountId)
    requires
        Pallet::spec_reset_count(counts, who).result is Ok,
    ensures
        ({
            let after = Pallet::spec_reset_count(counts, who).counts;
            &&& !after.contains_key(who)
            &&& Pallet::spec_increment_counter(after, who) == (Outcome {
                counts: after,
                result: Err(Error::NoAssociatedCount),
            })
            &&& Pallet::spec_reset_count(after, who) == (Outcome {
                counts: after,
                result: Err(Error::NoAssociatedCount),
            })
            &&& Pallet::spec_start_count(after, who).result == Ok::<Event<AccountId>, Error>(
                Event::CountStarted(who, 0),
            )
            &&& Pallet::spec_start_count(after, who).counts.contains_key(who)
            &&& Pallet::spec_start_count(after, who).counts[who] == 0
        }),
{
}

/// No call of one account touches another: whatever `who` calls, and whether
/// or not the call succeeds, any `other` account has a counter afterwards
/// exactly if it had one before, with the same stored value.
pub proof fn other_accounts_are_untouched(
    counts: Map<AccountId, u32>,
    who: AccountId,
    other: AccountId,
)
    requires
        other != who,
    ensures
        Pallet::state_at(Pallet::spec_start_count(counts, who).counts, other) == Pallet::state_at(
            counts,
            other,
        ),
        Pallet::state_at(Pallet::spec_increment_counter(counts, who).counts, other)
            == Pallet::state_at(counts, other),
        Pallet::state_at(Pallet::spec_reset_count(counts, who).counts, other) == Pallet::state_at(
            counts,
            other,
        ),
{
}

/// A call that is turned down changes nothing.
pub proof fn turned_down_call_changes_nothing(counts: Map<AccountId, u32>, who: AccountId)
    ensures
        Pallet::spec_start_count(counts, who).result is Err ==> Pallet::spec_start_count(
            counts,
            who,
        ).counts == counts,
        Pallet::spec_increment_counter(counts, who).result is Err
            ==> Pallet::spec_increment_counter(counts, who).counts == counts,
        Pallet::spec_reset_count(counts, who).result is Err ==> Pallet::spec_reset_count(
            counts,
            who,
        ).counts == counts,
{
}

/// Each call does to the caller's entry what the counter's own transition
/// says, and announces what that transition announces.
pub proof fn calls_follow_the_counter(counts: Map<AccountId, u32>, who: AccountId)
    ensures
        Pallet::spec_start_count(counts, who) == Pallet::settled(
            counts,
            who,
            Pallet::state_at(counts, who).spec_start(who),
        ),
        Pallet::spec_increment_counter(counts, who) == Pallet::settled(
            counts,
            who,
            Pallet::state_at(counts, who).spec_increment(who),
        ),
        Pallet::spec_reset_count(counts, who) == Pallet::settled(
            counts,
            who,
            Pallet::state_at(counts, who).spec_reset(who),
        ),
{
}

/// Counts that are all zero stay so under every call, so that from the empty
/// ledger on no increment can ever announce a count that does not fit in 32
/// bits.
pub proof fn zero_counts_stay_zero(counts: Map<AccountId, u32>, who: AccountId)
    requires
        all_zero(counts),
    ensures
        all_zero(Pallet::spec_start_count(counts, who).counts),
        all_zero(Pallet::spec_increment_counter(counts, who).counts),
        all_zero(Pallet::spec_reset_count(counts, who).counts),
        Pallet::can_increment(counts, who),
{
}

} // verus!
