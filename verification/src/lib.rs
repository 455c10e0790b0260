//! A ledger of per-account counters.
//!
//! Every account owns at most one counter. An account starts its counter,
//! increments it any number of times and finally resets it, which removes the
//! counter again. Each successful call yields the [`Event`] to publish; each
//! rejected call yields an [`Error`] and leaves the ledger untouched.

pub mod counter;
pub mod event;
pub mod laws;
pub mod pallet;
pub mod runs;

pub use counter::CounterState;
pub use event::AccountId;
pub use event::Error;
pub use event::Event;
pub use pallet::Pallet;
