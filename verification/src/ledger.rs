//! The ledger itself: the state, its invariant, and the five operations. The
//! host dispatcher authenticates the caller and passes the identity in as the
//! `caller` argument of every mutating operation.

use vstd::prelude::*;

verus! {

use crate::events::{Approve, Event, Transfer};
use crate::store;
use crate::{AccountId, Balance};

/// Why a mutating operation was refused. Every failure is terminal for that
/// call and leaves the ledger exactly as it was.
#[derive(Clone, Copy, Debug, PartialEq, Eq)]
pub enum Error {
    /// A transfer's source balance cannot cover the requested value.
    InsufficientBalance,
    /// A delegated transfer's allowance cannot cover the requested value.
    InsufficientAllowance,
}

/// A fungible-token ledger: a fixed total supply, who owns how much of it,
/// which spenders may move how much out of whose balance, and the log of
/// notifications emitted so far.
pub struct Erc20 {
    total_supply: Balance,
    balances: Vec<(AccountId, Balance)>,
    allowances: Vec<(AccountId, AccountId, Balance)>,
    events: Vec<Event>,
}

impl Erc20 {
    /// The total supply fixed at construction.
    pub closed spec fn spec_total_supply(self) -> Balance {
        self.total_supply
    }

    /// The balance entries, in storage order.
    pub closed spec fn balances_seq(self) -> Seq<(AccountId, Balance)> {
        self.balances@
    }

    /// The allowance entries, in storage order.
    pub closed spec fn allowances_seq(self) -> Seq<(AccountId, AccountId, Balance)> {
        self.allowances@
    }

    /// The notifications emitted so far, oldest first.
    pub closed spec fn events_seq(self) -> Seq<Event> {
        self.events@
    }

    /// The balance of `a`: its entry, or 0 when it has none.
    pub open spec fn spec_balance_of(self, a: AccountId) -> Balance {
        store::balance_lookup(self.balances_seq(), a)
    }

    /// The amount `spender` may still move out of `owner`'s balance: the
    /// entry for the pair, or 0 when there is none.
    pub open spec fn spec_allowance(self, owner: AccountId, spender: AccountId) -> Balance {
        store::allowance_lookup(self.allowances_seq(), owner, spender)
    }

    /// The ledger's invariant: each mapping keys every account (or pair) at
    /// most once, and the recorded balances sum to exactly the total supply —
    /// no operation creates or destroys value.
    pub open spec fn wf(self) -> bool {
        &&& store::balance_keys_unique(self.balances_seq())
        &&& store::allowance_keys_unique(self.allowances_seq())
        &&& store::balance_sum(self.balances_seq()) == self.spec_total_supply() as int
    }

    /// Both ledgers hold exactly the same state, event log included.
    pub open spec fn same_state(self, other: Erc20) -> bool {
        &&& self.spec_total_supply() == other.spec_total_supply()
        &&& self.balances_seq() == other.balances_seq()
        &&& self.allowances_seq() == other.allowances_seq()
        &&& self.events_seq() == other.events_seq()
    }

    /// Returns the invariant value fixed at construction. No side effects,
    /// never fails.
    pub fn total_supply(&self) -> (r: Balance)
        ensures
            r == self.spec_total_supply(),
    {
        self.total_supply
    }

    /// Returns `who`'s balance, 0 when `who` holds nothing. No side effects,
    /// never fails.
    pub fn balance_of(&self, who: AccountId) -> (r: Balance)
        ensures
            r == self.spec_balance_of(who),
    {
        store::balance_get(&self.balances, who)
    }

    /// Returns how much `spender` may still move out of `owner`'s balance, 0
    /// when nothing was granted. No side effects, never fails.
    pub fn allowance(&self, owner: AccountId, spender: AccountId) -> (r: Balance)
        ensures
            r == self.spec_allowance(owner, spender),
    {
        store::allowance_get(&self.allowances, owner, spender)
    }

    /// The notifications emitted so far, oldest first.
    pub fn events(&self) -> (r: &Vec<Event>)
        ensures
            r@ == self.events_seq(),
    {
        &self.events
    }

    /// Called once, at deployment, with the creating caller's identity. The
    /// whole initial supply is credited to `caller`, no allowance is granted,
    /// and exactly one mint-equivalent `Transfer` notification is emitted.
    /// Never fails.
    pub fn new(total_supply: Balance, caller: AccountId) -> (r: Erc20)
        ensures
            r.wf(),
            r.spec_total_supply() == total_supply,
            forall|a: AccountId|
                r.spec_balance_of(a) == if a == caller {
                    total_supply
                } else {
                    0
                },
            forall|o: AccountId, s: AccountId| r.spec_allowance(o, s) == 0,
            r.events_seq() == seq![
                Event::Transfer(Transfer { from: None, to: Some(caller), value: total_supply }),
            ],
    {
        let mut balances: Vec<(AccountId, Balance)> = Vec::new();
        store::balance_put(&mut balances, caller, total_supply);
        let mut events: Vec<Event> = Vec::new();
        events.push(Event::Transfer(Transfer {
            from: None,
            to: Some(caller),
            value: total_supply,
        }));
        let r = Erc20 { total_supply, balances, allowances: Vec::new(), events };
        proof {
            assert(r.events_seq() =~= seq![
                Event::Transfer(Transfer { from: None, to: Some(caller), value: total_supply }),
            ]);
        }
        r
    }

    /// The shared transfer procedure: moves `value` from `from`'s balance to
    /// `to`'s balance and emits a `Transfer` notification. Succeeds exactly
    /// when `from`'s balance covers `value`; on failure the ledger is left
    /// untouched. A transfer to oneself is permitted: it changes no balance
    /// but still emits its notification. The credit to `to` is proved never
    /// to overflow, because the supply invariant bounds every balance.
    pub fn transfer_helper(&mut self, from: &AccountId, to: &AccountId, value: Balance) -> (r:
        Result<(), Error>)
        requires
            old(self).wf(),
        ensures
            final(self).wf(),
            r is Ok <==> value <= old(self).spec_balance_of(*from),
            r is Ok ==> transfer_applied(*old(self), *final(self), *from, *to, value),
            r is Err ==> r == Err::<(), Error>(Error::InsufficientBalance) && final(self).same_state(*old(self)),
    {
        let balance_from = store::balance_get(&self.balances, *from);
        if value > balance_from {
            return Err(Error::InsufficientBalance);
        }
        store::balance_put(&mut self.balances, *from, balance_from - value);
        let balance_to = store::balance_get(&self.balances, *to);
        proof {
            store::lemma_balance_lookup_le_sum(self.balances@, *to);
        }
        store::balance_put(&mut self.balances, *to, balance_to + value);
        self.events.push(Event::Transfer(Transfer { from: Some(*from), to: Some(*to), value }));
        proof {
            assert(forall|a: AccountId| #[trigger] self.spec_balance_of(a) as int == old(self).spec_balance_of(a) - (
            if a == *from {
                value as int
            } else {
                0
            }) + (
            if a == *to {
                value as int
            } else {
                0
            }));
        }
        Ok(())
    }

    /// Moves `value` from `caller`'s balance straight to `to`'s. Fails with
    /// `InsufficientBalance` when `caller`'s balance is below `value`, and
    /// with no other precondition; a failed call leaves the ledger untouched.
    pub fn transfer(&mut self, caller: AccountId, to: AccountId, value: Balance) -> (r:
        Result<(), Error>)
        requires
            old(self).wf(),
        ensures
            final(self).wf(),
            r is Ok <==> value <= old(self).spec_balance_of(caller),
            r is Ok ==> transfer_applied(*old(self), *final(self), caller, to, value),
            r is Err ==> r == Err::<(), Error>(Error::InsufficientBalance) && final(self).same_state(*old(self)),
    {
        self.transfer_helper(&caller, &to, value)
    }

    /// Grants `to` the right to move up to `value` out of `caller`'s balance,
    /// overwriting any prior allowance for the pair (setting 0 revokes), and
    /// emits an `Approval` notification. Never fails.
    pub fn approve(&mut self, caller: AccountId, to: AccountId, value: Balance) -> (r:
        Result<(), Error>)
        requires
            old(self).wf(),
        ensures
            final(self).wf(),
            r is Ok,
            approve_applied(*old(self), *final(self), caller, to, value),
    {
        store::allowance_put(&mut self.allowances, caller, to, value);
        self.events.push(Event::Approve(Approve { from: caller, to, value }));
        Ok(())
    }

    /// Moves `value` from `from`'s balance to `to`'s on behalf of `caller`,
    /// consuming `caller`'s allowance over `from` by exactly `value`. The
    /// allowance is checked first: if it cannot cover `value` the call fails
    /// with `InsufficientAllowance`; otherwise, if `from`'s balance cannot
    /// cover `value`, it fails with `InsufficientBalance` and the allowance
    /// is left unconsumed. Either failure leaves the ledger untouched: both
    /// preconditions are confirmed before either mutation is applied.
    pub fn transfer_from(
        &mut self,
        caller: AccountId,
        from: AccountId,
        to: AccountId,
        value: Balance,
    ) -> (r: Result<(), Error>)
        requires
            old(self).wf(),
        ensures
            final(self).wf(),
            r is Ok <==> value <= old(self).spec_allowance(from, caller) && value <= old(self).spec_balance_of(from),
            r is Ok ==> transfer_from_applied(*old(self), *final(self), caller, from, to, value),
            old(self).spec_allowance(from, caller) < value ==> r == Err::<(), Error>(
                Error::InsufficientAllowance,
            ) && final(self).same_state(*old(self)),
            value <= old(self).spec_allowance(from, caller) && old(self).spec_balance_of(from)
                < value ==> r == Err::<(), Error>(Error::InsufficientBalance) && final(self).same_state(*old(self)),
    {
        let allowance = store::allowance_get(&self.allowances, from, caller);
        if allowance < value {
            return Err(Error::InsufficientAllowance);
        }
        let balance_from = store::balance_get(&self.balances, from);
        if balance_from < value {
            return Err(Error::InsufficientBalance);
        }
        store::allowance_put(&mut self.allowances, from, caller, allowance - value);
        self.transfer_helper(&from, &to, value)
    }
}

/// How one ledger state follows from another by a successful transfer of
/// `value` from `from` to `to`: every balance moves by exactly the amount the
/// transfer owes it (so a self-transfer changes nothing), allowances and the
/// total supply are untouched, and one `Transfer` notification is appended.
pub open spec fn transfer_applied(
    pre: Erc20,
    post: Erc20,
    from: AccountId,
    to: AccountId,
    value: Balance,
) -> bool {
    &&& balances_shifted(pre, post, from, to, value)
    &&& forall|o: AccountId, s: AccountId|
        #[trigger] post.spec_allowance(o, s) == pre.spec_allowance(o, s)
    &&& post.spec_total_supply() == pre.spec_total_supply()
    &&& post.events_seq() == pre.events_seq().push(
        Event::Transfer(Transfer { from: Some(from), to: Some(to), value }),
    )
}

/// Every account's balance after a transfer of `value` from `from` to `to`:
/// debited by `value` as the source, credited by `value` as the destination,
/// otherwise unchanged.
pub open spec fn balances_shifted(
    pre: Erc20,
    post: Erc20,
    from: AccountId,
    to: AccountId,
    value: Balance,
) -> bool {
    forall|a: AccountId|
        #[trigger] post.spec_balance_of(a) as int == pre.spec_balance_of(a) - (
        if a == from {
            value as int
        } else {
            0
        }) + (
        if a == to {
            value as int
        } else {
            0
        })
}

/// How one ledger state follows from another by a successful approval:
/// exactly the one allowance entry is overwritten with `value`, balances and
/// the total supply are untouched, and one `Approval` notification is
/// appended.
pub open spec fn approve_applied(
    pre: Erc20,
    post: Erc20,
    owner: AccountId,
    spender: AccountId,
    value: Balance,
) -> bool {
    &&& post.spec_allowance(owner, spender) == value
    &&& forall|o: AccountId, s: AccountId|
        !(o == owner && s == spender) ==> #[trigger] post.spec_allowance(o, s)
            == pre.spec_allowance(o, s)
    &&& forall|a: AccountId| #[trigger] post.spec_balance_of(a) == pre.spec_balance_of(a)
    &&& post.spec_total_supply() == pre.spec_total_supply()
    &&& post.events_seq() == pre.events_seq().push(
        Event::Approve(Approve { from: owner, to: spender, value }),
    )
}

/// How one ledger state follows from another by a successful delegated
/// transfer: balances move as in a direct transfer from `from` to `to`, the
/// (from, caller) allowance is consumed by exactly `value`, every other
/// allowance and the total supply are untouched, and one `Transfer`
/// notification is appended.
pub open spec fn transfer_from_applied(
    pre: Erc20,
    post: Erc20,
    caller: AccountId,
    from: AccountId,
    to: AccountId,
    value: Balance,
) -> bool {
    &&& balances_shifted(pre, post, from, to, value)
    &&& post.spec_allowance(from, caller) as int == pre.spec_allowance(from, caller) - value
    &&& forall|o: AccountId, s: AccountId|
        !(o == from && s == caller) ==> #[trigger] post.spec_allowance(o, s)
            == pre.spec_allowance(o, s)
    &&& post.spec_total_supply() == pre.spec_total_supply()
    &&& post.events_seq() == pre.events_seq().push(
        Event::Transfer(Transfer { from: Some(from), to: Some(to), value }),
    )
}

} // verus!

