//! The two mappings the ledger keeps, as association lists with unique keys:
//! balances keyed by account, allowances keyed by (owner, spender) pair. An
//! absent key reads as 0, so no entry ever has to be pre-populated.

use vstd::prelude::*;

verus! {

use crate::{AccountId, Balance};

// ---------------------------------------------------------------------------
// Balances: Account -> Balance, absent key = 0.
// ---------------------------------------------------------------------------

/// No account appears in two entries.
pub open spec fn balance_keys_unique(s: Seq<(AccountId, Balance)>) -> bool {
    forall|i: int, j: int| 0 <= i < j < s.len() ==> s[i].0 != s[j].0
}

/// The balance an entry list gives to `a`: the first entry for `a`, or 0 when
/// there is none.
pub open spec fn balance_lookup(s: Seq<(AccountId, Balance)>, a: AccountId) -> Balance
    decreases s.len(),
{
    if s.len() == 0 {
        0
    } else if s[0].0 == a {
        s[0].1
    } else {
        balance_lookup(s.skip(1), a)
    }
}

/// The sum of all balances held in the list.
pub open spec fn balance_sum(s: Seq<(AccountId, Balance)>) -> int
    decreases s.len(),
{
    if s.len() == 0 {
        0
    } else {
        s[0].1 + balance_sum(s.skip(1))
    }
}

pub proof fn lemma_balance_sum_nonneg(s: Seq<(AccountId, Balance)>)
    ensures
        balance_sum(s) >= 0,
    decreases s.len(),
{
    if s.len() > 0 {
        lemma_balance_sum_nonneg(s.skip(1));
    }
}

/// No single balance exceeds the sum of all of them.
pub proof fn lemma_balance_lookup_le_sum(s: Seq<(AccountId, Balance)>, a: AccountId)
    ensures
        balance_lookup(s, a) <= balance_sum(s),
    decreases s.len(),
{
    if s.len() > 0 {
        lemma_balance_sum_nonneg(s.skip(1));
        lemma_balance_lookup_le_sum(s.skip(1), a);
    }
}

/// A first match determines the lookup.
proof fn lemma_balance_lookup_first_match(s: Seq<(AccountId, Balance)>, a: AccountId, i: int)
    requires
        0 <= i < s.len(),
        s[i].0 == a,
        forall|k: int| 0 <= k < i ==> s[k].0 != a,
    ensures
        balance_lookup(s, a) == s[i].1,
    decreases i,
{
    if i > 0 {
        assert(forall|k: int| 0 <= k < i - 1 ==> s.skip(1)[k].0 != a);
        lemma_balance_lookup_first_match(s.skip(1), a, i - 1);
    }
}

/// An account with no entry reads as 0.
proof fn lemma_balance_lookup_absent(s: Seq<(AccountId, Balance)>, a: AccountId)
    requires
        forall|k: int| 0 <= k < s.len() ==> s[k].0 != a,
    ensures
        balance_lookup(s, a) == 0,
    decreases s.len(),
{
    if s.len() > 0 {
        lemma_balance_lookup_absent(s.skip(1), a);
    }
}

/// Rewriting the entry for `a` leaves every other account's balance alone.
proof fn lemma_balance_lookup_update_other(
    s: Seq<(AccountId, Balance)>,
    i: int,
    a: AccountId,
    b: Balance,
    x: AccountId,
)
    requires
        0 <= i < s.len(),
        s[i].0 == a,
        x != a,
    ensures
        balance_lookup(s.update(i, (a, b)), x) == balance_lookup(s, x),
    decreases s.len(),
{
    let t = s.update(i, (a, b));
    if i == 0 {
        assert(t.skip(1) =~= s.skip(1));
    } else {
        assert(t[0] == s[0]);
        if s[0].0 != x {
            assert(t.skip(1) =~= s.skip(1).update(i - 1, (a, b)));
            lemma_balance_lookup_update_other(s.skip(1), i - 1, a, b, x);
        }
    }
}

/// Rewriting one entry's amount moves the sum by exactly the difference.
proof fn lemma_balance_sum_update(s: Seq<(AccountId, Balance)>, i: int, a: AccountId, b: Balance)
    requires
        0 <= i < s.len(),
    ensures
        balance_sum(s.update(i, (a, b))) == balance_sum(s) - s[i].1 + b,
    decreases s.len(),
{
    let t = s.update(i, (a, b));
    if i == 0 {
        assert(t.skip(1) =~= s.skip(1));
    } else {
        assert(t[0] == s[0]);
        assert(t.skip(1) =~= s.skip(1).update(i - 1, (a, b)));
        lemma_balance_sum_update(s.skip(1), i - 1, a, b);
    }
}

/// Appending an entry adds exactly its amount to the sum.
proof fn lemma_balance_sum_push(s: Seq<(AccountId, Balance)>, a: AccountId, b: Balance)
    ensures
        balance_sum(s.push((a, b))) == balance_sum(s) + b,
    decreases s.len(),
{
    let t = s.push((a, b));
    if s.len() == 0 {
        assert(t.skip(1) =~= Seq::<(AccountId, Balance)>::empty());
        assert(balance_sum(Seq::<(AccountId, Balance)>::empty()) == 0);
    } else {
        assert(t[0] == s[0]);
        assert(t.skip(1) =~= s.skip(1).push((a, b)));
        lemma_balance_sum_push(s.skip(1), a, b);
    }
}

/// Appending an entry for `a` leaves every other account's balance alone.
proof fn lemma_balance_lookup_push_other(
    s: Seq<(AccountId, Balance)>,
    a: AccountId,
    b: Balance,
    x: AccountId,
)
    requires
        x != a,
    ensures
        balance_lookup(s.push((a, b)), x) == balance_lookup(s, x),
    decreases s.len(),
{
    let t = s.push((a, b));
    if s.len() == 0 {
        assert(t.skip(1) =~= Seq::<(AccountId, Balance)>::empty());
        assert(balance_lookup(Seq::<(AccountId, Balance)>::empty(), x) == 0);
    } else {
        assert(t[0] == s[0]);
        if s[0].0 != x {
            assert(t.skip(1) =~= s.skip(1).push((a, b)));
            lemma_balance_lookup_push_other(s.skip(1), a, b, x);
        }
    }
}

/// The index of the first entry for `a`, if any.
fn balance_find(v: &Vec<(AccountId, Balance)>, a: AccountId) -> (r: Option<usize>)
    ensures
        r matches Some(i) ==> i < v.len() && v@[i as int].0 == a && forall|k: int|
            0 <= k < i ==> v@[k].0 != a,
        r is None ==> forall|k: int| 0 <= k < v@.len() ==> v@[k].0 != a,
{
    let mut i: usize = 0;
    while i < v.len()
        invariant
            i <= v.len(),
            forall|k: int| 0 <= k < i ==> v@[k].0 != a,
        decreases v.len() - i,
    {
        if v[i].0 == a {
            return Some(i);
        }
        i = i + 1;
    }
    None
}

/// The balance recorded for `a`, or 0 when `a` has no entry.
pub(crate) fn balance_get(v: &Vec<(AccountId, Balance)>, a: AccountId) -> (r: Balance)
    ensures
        r == balance_lookup(v@, a),
{
    match balance_find(v, a) {
        Some(i) => {
            proof {
                lemma_balance_lookup_first_match(v@, a, i as int);
            }
            v[i].1
        },
        None => {
            proof {
                lemma_balance_lookup_absent(v@, a);
            }
            0
        },
    }
}

/// Records `b` as the balance of `a`, overwriting any prior entry.
pub(crate) fn balance_put(v: &mut Vec<(AccountId, Balance)>, a: AccountId, b: Balance)
    requires
        balance_keys_unique(old(v)@),
    ensures
        balance_keys_unique(final(v)@),
        balance_lookup(final(v)@, a) == b,
        forall|x: AccountId|
            x != a ==> balance_lookup(final(v)@, x) == balance_lookup(old(v)@, x),
        balance_sum(final(v)@) == balance_sum(old(v)@) - balance_lookup(old(v)@, a) + b,
{
    let ghost s = v@;
    match balance_find(v, a) {
        Some(i) => {
            v.set(i, (a, b));
            proof {
                let t = s.update(i as int, (a, b));
                assert forall|p: int, q: int| 0 <= p < q < t.len() implies t[p].0 != t[q].0 by {
                    assert(t[p].0 == s[p].0);
                    assert(t[q].0 == s[q].0);
                }
                assert(forall|k: int| 0 <= k < i ==> t[k].0 != a);
                lemma_balance_lookup_first_match(t, a, i as int);
                lemma_balance_lookup_first_match(s, a, i as int);
                assert forall|x: AccountId| x != a implies balance_lookup(t, x)
                    == balance_lookup(s, x) by {
                    lemma_balance_lookup_update_other(s, i as int, a, b, x);
                }
                lemma_balance_sum_update(s, i as int, a, b);
            }
        },
        None => {
            v.push((a, b));
            proof {
                let t = s.push((a, b));
                assert forall|p: int, q: int| 0 <= p < q < t.len() implies t[p].0 != t[q].0 by {
                    assert(t[p].0 == s[p].0);
                    if q < s.len() {
                        assert(t[q].0 == s[q].0);
                    }
                }
                assert(forall|k: int| 0 <= k < s.len() ==> t[k].0 != a);
                lemma_balance_lookup_first_match(t, a, s.len() as int);
                lemma_balance_lookup_absent(s, a);
                assert forall|x: AccountId| x != a implies balance_lookup(t, x)
                    == balance_lookup(s, x) by {
                    lemma_balance_lookup_push_other(s, a, b, x);
                }
                lemma_balance_sum_push(s, a, b);
            }
        },
    }
}

// ---------------------------------------------------------------------------
// Allowances: (Owner, Spender) -> Balance, absent pair = 0.
// ---------------------------------------------------------------------------

/// No (owner, spender) pair appears in two entries.
pub open spec fn allowance_keys_unique(s: Seq<(AccountId, AccountId, Balance)>) -> bool {
    forall|i: int, j: int|
        0 <= i < j < s.len() ==> !(s[i].0 == s[j].0 && s[i].1 == s[j].1)
}

/// The allowance an entry list grants `spender` over `owner`'s balance: the
/// first entry for the pair, or 0 when there is none.
pub open spec fn allowance_lookup(
    s: Seq<(AccountId, AccountId, Balance)>,
    owner: AccountId,
    spender: AccountId,
) -> Balance
    decreases s.len(),
{
    if s.len() == 0 {
        0
    } else if s[0].0 == owner && s[0].1 == spender {
        s[0].2
    } else {
        allowance_lookup(s.skip(1), owner, spender)
    }
}

/// A first match determines the lookup.
proof fn lemma_allowance_lookup_first_match(
    s: Seq<(AccountId, AccountId, Balance)>,
    owner: AccountId,
    spender: AccountId,
    i: int,
)
    requires
        0 <= i < s.len(),
        s[i].0 == owner && s[i].1 == spender,
        forall|k: int| 0 <= k < i ==> !(s[k].0 == owner && s[k].1 == spender),
    ensures
        allowance_lookup(s, owner, spender) == s[i].2,
    decreases i,
{
    if i > 0 {
        assert(forall|k: int|
            0 <= k < i - 1 ==> !(s.skip(1)[k].0 == owner && s.skip(1)[k].1 == spender));
        lemma_allowance_lookup_first_match(s.skip(1), owner, spender, i - 1);
    }
}

/// A pair with no entry reads as 0.
proof fn lemma_allowance_lookup_absent(
    s: Seq<(AccountId, AccountId, Balance)>,
    owner: AccountId,
    spender: AccountId,
)
    requires
        forall|k: int| 0 <= k < s.len() ==> !(s[k].0 == owner && s[k].1 == spender),
    ensures
        allowance_lookup(s, owner, spender) == 0,
    decreases s.len(),
{
    if s.len() > 0 {
        lemma_allowance_lookup_absent(s.skip(1), owner, spender);
    }
}

/// Rewriting the entry for one pair leaves every other pair's allowance alone.
proof fn lemma_allowance_lookup_update_other(
    s: Seq<(AccountId, AccountId, Balance)>,
    i: int,
    owner: AccountId,
    spender: AccountId,
    b: Balance,
    xo: AccountId,
    xs: AccountId,
)
    requires
        0 <= i < s.len(),
        s[i].0 == owner && s[i].1 == spender,
        !(xo == owner && xs == spender),
    ensures
        allowance_lookup(s.update(i, (owner, spender, b)), xo, xs)
            == allowance_lookup(s, xo, xs),
    decreases s.len(),
{
    let t = s.update(i, (owner, spender, b));
    if i == 0 {
        assert(t.skip(1) =~= s.skip(1));
    } else {
        assert(t[0] == s[0]);
        if !(s[0].0 == xo && s[0].1 == xs) {
            assert(t.skip(1) =~= s.skip(1).update(i - 1, (owner, spender, b)));
            lemma_allowance_lookup_update_other(s.skip(1), i - 1, owner, spender, b, xo, xs);
        }
    }
}

/// Appending an entry for one pair leaves every other pair's allowance alone.
proof fn lemma_allowance_lookup_push_other(
    s: Seq<(AccountId, AccountId, Balance)>,
    owner: AccountId,
    spender: AccountId,
    b: Balance,
    xo: AccountId,
    xs: AccountId,
)
    requires
        !(xo == owner && xs == spender),
    ensures
        allowance_lookup(s.push((owner, spender, b)), xo, xs) == allowance_lookup(s, xo, xs),
    decreases s.len(),
{
    let t = s.push((owner, spender, b));
    if s.len() == 0 {
        assert(t.skip(1) =~= Seq::<(AccountId, AccountId, Balance)>::empty());
        assert(allowance_lookup(Seq::<(AccountId, AccountId, Balance)>::empty(), xo, xs) == 0);
    } else {
        assert(t[0] == s[0]);
        if !(s[0].0 == xo && s[0].1 == xs) {
            assert(t.skip(1) =~= s.skip(1).push((owner, spender, b)));
            lemma_allowance_lookup_push_other(s.skip(1), owner, spender, b, xo, xs);
        }
    }
}

/// The index of the first entry for the pair, if any.
fn allowance_find(
    v: &Vec<(AccountId, AccountId, Balance)>,
    owner: AccountId,
    spender: AccountId,
) -> (r: Option<usize>)
    ensures
        r matches Some(i) ==> i < v.len() && v@[i as int].0 == owner && v@[i as int].1 == spender
            && forall|k: int| 0 <= k < i ==> !(v@[k].0 == owner && v@[k].1 == spender),
        r is None ==> forall|k: int|
            0 <= k < v@.len() ==> !(v@[k].0 == owner && v@[k].1 == spender),
{
    let mut i: usize = 0;
    while i < v.len()
        invariant
            i <= v.len(),
            forall|k: int| 0 <= k < i ==> !(v@[k].0 == owner && v@[k].1 == spender),
        decreases v.len() - i,
    {
        if v[i].0 == owner && v[i].1 == spender {
            return Some(i);
        }
        i = i + 1;
    }
    None
}

/// The allowance recorded for (owner, spender), or 0 when the pair has no entry.
pub(crate) fn allowance_get(
    v: &Vec<(AccountId, AccountId, Balance)>,
    owner: AccountId,
    spender: AccountId,
) -> (r: Balance)
    ensures
        r == allowance_lookup(v@, owner, spender),
{
    match allowance_find(v, owner, spender) {
        Some(i) => {
            proof {
                lemma_allowance_lookup_first_match(v@, owner, spender, i as int);
            }
            v[i].2
        },
        None => {
            proof {
                lemma_allowance_lookup_absent(v@, owner, spender);
            }
            0
        },
    }
}

/// Records `b` as the allowance of (owner, spender), overwriting any prior entry.
pub(crate) fn allowance_put(
    v: &mut Vec<(AccountId, AccountId, Balance)>,
    owner: AccountId,
    spender: AccountId,
    b: Balance,
)
    requires
        allowance_keys_unique(old(v)@),
    ensures
        allowance_keys_unique(final(v)@),
        allowance_lookup(final(v)@, owner, spender) == b,
        forall|xo: AccountId, xs: AccountId|
            !(xo == owner && xs == spender) ==> allowance_lookup(final(v)@, xo, xs)
                == allowance_lookup(old(v)@, xo, xs),
{
    let ghost s = v@;
    match allowance_find(v, owner, spender) {
        Some(i) => {
            v.set(i, (owner, spender, b));
            proof {
                let t = s.update(i as int, (owner, spender, b));
                assert forall|p: int, q: int| 0 <= p < q < t.len() implies !(t[p].0 == t[q].0
                    && t[p].1 == t[q].1) by {
                    assert(t[p].0 == s[p].0 && t[p].1 == s[p].1);
                    assert(t[q].0 == s[q].0 && t[q].1 == s[q].1);
                }
                assert(forall|k: int| 0 <= k < i ==> !(t[k].0 == owner && t[k].1 == spender));
                lemma_allowance_lookup_first_match(t, owner, spender, i as int);
                assert forall|xo: AccountId, xs: AccountId| !(xo == owner && xs == spender)
                    implies allowance_lookup(t, xo, xs) == allowance_lookup(s, xo, xs) by {
                    lemma_allowance_lookup_update_other(s, i as int, owner, spender, b, xo, xs);
                }
            }
        },
        None => {
            v.push((owner, spender, b));
            proof {
                let t = s.push((owner, spender, b));
                assert forall|p: int, q: int| 0 <= p < q < t.len() implies !(t[p].0 == t[q].0
                    && t[p].1 == t[q].1) by {
                    assert(t[p].0 == s[p].0 && t[p].1 == s[p].1);
                    if q < s.len() {
                        assert(t[q].0 == s[q].0 && t[q].1 == s[q].1);
                    }
                }
                assert(forall|k: int|
                    0 <= k < s.len() ==> !(t[k].0 == owner && t[k].1 == spender));
                lemma_allowance_lookup_first_match(t, owner, spender, s.len() as int);
                assert forall|xo: AccountId, xs: AccountId| !(xo == owner && xs == spender)
                    implies allowance_lookup(t, xo, xs) == allowance_lookup(s, xo, xs) by {
                    lemma_allowance_lookup_push_other(s, owner, spender, b, xo, xs);
                }
            }
        },
    }
}

} // verus!
