//! Runs of calls: what holds of the counts after any sequence of calls, made
//! by any accounts in any order.

use vstd::prelude::*;
use crate::event::AccountId;
use crate::laws::all_zero;
use crate::laws::zero_counts_stay_zero;
use crate::pallet::Outcome;
use crate::pallet::Pallet;

verus! {

/// One of the three calls, by name.
pub ghost enum Call {
    StartCount,
    IncrementCounter,
    ResetCount,
}

/// The outcome of `call`, made by `who` on `counts`.
pub open spec fn spec_call(counts: Map<AccountId, u32>, who: AccountId, call: Call) -> Outcome {
    match call {
        Call::StartCount => Pallet::spec_start_count(counts, who),
        Call::IncrementCounter => Pallet::spec_increment_counter(counts, who),
        Call::ResetCount => Pallet::spec_reset_count(counts, who),
    }
}

/// The counts after the calls of `run` were made in order on `counts`,
/// whether they succeeded or were turned down.
pub open spec fn counts_after(
    counts: Map<AccountId, u32>,
    run: Seq<(AccountId, Call)>,
) -> Map<AccountId, u32>
    decreases run.len(),
{
    if run.len() == 0 {
        counts
    } else {
        spec_call(counts_after(counts, run.drop_last()), run.last().0, run.last().1).counts
    }
}

/// Whether the call at position `at` of `run`, which began on the empty
/// ledger, succeeded.
pub open spec fn succeeded(run: Seq<(AccountId, Call)>, at: int) -> bool {
    spec_call(counts_after(Map::empty(), run.take(at)), run[at].0, run[at].1).result is Ok
}

/// The call at position `at` of `run` is a start of `who` that succeeded.
pub open spec fn started(run: Seq<(AccountId, Call)>, who: AccountId, at: int) -> bool {
    run[at].0 == who && run[at].1 is StartCount && succeeded(run, at)
}

/// The call at position `at` of `run` is a reset of `who` that succeeded.
pub open spec fn was_reset(run: Seq<(AccountId, Call)>, who: AccountId, at: int) -> bool {
    run[at].0 == who && run[at].1 is ResetCount && succeeded(run, at)
}

/// In `run`, `who` started a counter at position `at` and did not reset it
/// since.
pub open spec fn started_and_kept(run: Seq<(AccountId, Call)>, who: AccountId, at: int) -> bool {
    &&& 0 <= at < run.len()
    &&& started(run, who, at)
    &&& forall|later: int| at < later < run.len() ==> !was_reset(run, who, later)
}

/// Calls of two different accounts can be made in either order: the counts
/// end up the same, and each call has the same result.
pub proof fn calls_of_distinct_accounts_commute(
    counts: Map<AccountId, u32>,
    who: AccountId,
    call: Call,
    other: AccountId,
    other_call: Call,
)
    requires
        who != other,
    ensures
        ({
            let first = spec_call(counts, who, call);
            let then_other = spec_call(first.counts, other, other_call);
            let other_first = spec_call(counts, other, other_call);
            let then_who = spec_call(other_first.counts, who, call);
            &&& then_other.counts == then_who.counts
            &&& first.result == then_who.result
            &&& other_first.result == then_other.result
        }),
{
}

/// On a ledger that grew from the empty one every stored value is zero, so
/// that a next increment, by whatever account, announces a count that fits in
/// 32 bits.
pub proof fn grown_ledger_stores_zero(run: Seq<(AccountId, Call)>, who: AccountId)
    ensures
        all_zero(counts_after(Map::empty(), run)),
        Pallet::can_increment(counts_after(Map::empty(), run), who),
    decreases run.len(),
{
    if run.len() > 0 {
        grown_ledger_stores_zero(run.drop_last(), run.last().0);
        zero_counts_stay_zero(counts_after(Map::empty(), run.drop_last()), run.last().0);
    }
}

/// What happened at a position of a run does not depend on the calls that
/// came after it.
proof fn last_call_changes_no_earlier_one(run: Seq<(AccountId, Call)>, who: AccountId, at: int)
    requires
        0 <= at < run.len() - 1,
    ensures
        started(run, who, at) == started(run.drop_last(), who, at),
        was_reset(run, who, at) == was_reset(run.drop_last(), who, at),
{
    assert(run.take(at) == run.drop_last().take(at));
}

/// On a ledger that grew from the empty one, an account has a counter exactly
/// if one of its starts succeeded and none of its resets has succeeded since.
pub proof fn present_iff_started_and_kept(run: Seq<(AccountId, Call)>, who: AccountId)
    ensures
        counts_after(Map::empty(), run).contains_key(who) <==> exists|at: int|
            started_and_kept(run, who, at),
    decreases run.len(),
{
    if run.len() > 0 {
        let earlier = run.drop_last();
        let last = run.len() - 1;
        let before = counts_after(Map::empty(), earlier);
        present_iff_started_and_kept(earlier, who);
        if counts_after(Map::empty(), run).contains_key(who) {
            if before.contains_key(who) {
                let at = choose|at: int| started_and_kept(earlier, who, at);
                last_call_changes_no_earlier_one(run, who, at);
                assert forall|later: int| at < later < run.len() implies !was_reset(
                    run,
                    who,
                    later,
                ) by {
                    if later < last {
                        last_call_changes_no_earlier_one(run, who, later);
                    }
                }
                assert(started_and_kept(run, who, at));
            } else {
                assert(started_and_kept(run, who, last));
            }
        } else {
            assert forall|at: int| !started_and_kept(run, who, at) by {
                if started_and_kept(run, who, at) && at < last {
                    if before.contains_key(who) {
                        assert(was_reset(run, who, last));
                    } else {
                        last_call_changes_no_earlier_one(run, who, at);
                        assert forall|later: int| at < later < earlier.len() implies !was_reset(
                            earlier,
                            who,
                            later,
                        ) by {
                            last_call_changes_no_earlier_one(run, who, later);
                        }
                        assert(started_and_kept(earlier, who, at));
                    }
                }
            }
        }
    }
}

} // verus!
