//! A fungible-token ledger: a pure state machine over a fixed total supply,
//! per-account balances and per-pair spending allowances.
//!
//! The hosting environment (which authenticates callers, dispatches calls and
//! consumes emitted notifications) is an external collaborator: the caller's
//! identity is threaded through every mutating operation as an explicit
//! parameter, and emitted notifications are recorded in an event log that the
//! host's log or indexer may read.

use vstd::prelude::*;

pub mod events;
pub mod laws;
pub mod ledger;
pub mod store;

pub use events::{Approve, Event, Transfer};
pub use ledger::{Erc20, Error};

verus! {

/// An account identifier: an opaque, comparable token for a party that can
/// own balance or grant allowances. Equality is exact; no normalization.
pub type AccountId = u128;

/// A quantity of the asset, the same width as the total supply. All
/// arithmetic on it is proved free of overflow and underflow.
pub type Balance = u128;

} // verus!
