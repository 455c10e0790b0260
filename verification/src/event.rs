//! The vocabulary shared by the counter state machine and the ledger: who
//! acts, what is announced on success and why a call is turned down.

use vstd::prelude::*;

verus! {

/// The key under which the ledger files a counter. The host resolves a signed
/// call to this token before the ledger ever sees it.
pub type AccountId = u64;

/// What a successful call announces. The account type is left open so that a
/// host can run the state machine on its own account identifiers.
#[derive(Clone, Debug, PartialEq, Eq)]
pub enum Event<A> {
    /// A counter was incremented: the account and the count that is reported.
    CountIncremented(A, u32),
    /// A counter was read: the account and its count. No call announces this.
    GetCount(A, u32),
    /// A counter was removed.
    CountDeleted(A),
    /// A counter was created: the account and the initial count.
    CountStarted(A, u32),
}

/// Why a call was turned down.
#[derive(Clone, Copy, Debug, PartialEq, Eq)]
pub enum Error {
    /// The account has no counter to increment or reset.
    NoAssociatedCount,
    /// The account already has a counter and cannot start another.
    CountAlreadyExists,
}

} // verus!
