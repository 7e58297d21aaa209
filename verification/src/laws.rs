//! Laws that relate several operations, proved once and for all over the
//! transition predicates that the operations' contracts establish.

use vstd::prelude::*;

verus! {

use crate::events::{Event, Transfer};
use crate::ledger::{approve_applied, transfer_applied, Erc20};
use crate::{AccountId, Balance};

/// A transfer of an account's entire balance empties it, credits the
/// recipient in full, and emits the matching `Transfer` notification. (Stated
/// for distinct accounts: a self-transfer of the whole balance leaves it
/// unchanged instead.)
pub proof fn lemma_transfer_all_empties_sender(
    pre: Erc20,
    post: Erc20,
    a: AccountId,
    b: AccountId,
    v: Balance,
)
    requires
        a != b,
        pre.spec_balance_of(a) == v,
        transfer_applied(pre, post, a, b, v),
    ensures
        post.spec_balance_of(a) == 0,
        post.spec_balance_of(b) as int == pre.spec_balance_of(b) + v,
        post.events_seq() == pre.events_seq().push(
            Event::Transfer(Transfer { from: Some(a), to: Some(b), value: v }),
        ),
{
}

/// A second approval for the same owner/spender pair overwrites the first:
/// the allowance afterwards is exactly the second value, not the sum.
pub proof fn lemma_approve_overwrites(
    s0: Erc20,
    s1: Erc20,
    s2: Erc20,
    owner: AccountId,
    spender: AccountId,
    v1: Balance,
    v2: Balance,
)
    requires
        approve_applied(s0, s1, owner, spender, v1),
        approve_applied(s1, s2, owner, spender, v2),
    ensures
        s2.spec_allowance(owner, spender) == v2,
{
}

} // verus!
