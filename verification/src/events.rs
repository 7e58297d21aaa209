//! Notifications the ledger emits. The host's log/indexer consumes them; the
//! ledger only appends them to its event log, one per successful mutation.

use vstd::prelude::*;

verus! {

use crate::{AccountId, Balance};

/// Notification of a movement of value. `from` is `None` only for the single
/// mint-equivalent transfer emitted at construction.
#[derive(Clone, Copy, Debug, PartialEq, Eq)]
pub struct Transfer {
    pub from: Option<AccountId>,
    pub to: Option<AccountId>,
    pub value: Balance,
}

/// Notification that `from` granted `to` the right to move `value` out of
/// `from`'s balance.
#[derive(Clone, Copy, Debug, PartialEq, Eq)]
pub struct Approve {
    pub from: AccountId,
    pub to: AccountId,
    pub value: Balance,
}

/// One entry of the ledger's event log.
#[derive(Clone, Copy, Debug, PartialEq, Eq)]
pub enum Event {
    Transfer(Transfer),
    Approve(Approve),
}

} // verus!
