use vstd::prelude::*;

verus! {

use crate::state::AccountId;
use crate::state::UserInfo;

/// No two ledger records share a depositor address, so a record is found by
/// its address alone.
pub open spec fn unique_addresses(s: Seq<UserInfo>) -> bool {
    forall|i: int, j: int|
        0 <= i < s.len() && 0 <= j < s.len() && i != j ==> s[i].address != s[j].address
}

/// Whether some record belongs to this depositor.
pub open spec fn has_entry(s: Seq<UserInfo>, a: AccountId) -> bool {
    exists|i: int| 0 <= i < s.len() && s[i].address == a
}

/// The position of this depositor's record; meaningful only under `has_entry`.
pub open spec fn entry_index(s: Seq<UserInfo>, a: AccountId) -> int {
    choose|i: int| 0 <= i < s.len() && s[i].address == a
}

/// This depositor's record; meaningful only under `has_entry`.
pub open spec fn entry_of(s: Seq<UserInfo>, a: AccountId) -> UserInfo {
    s[entry_index(s, a)]
}

/// The amount a depositor has staked: their record's amount, or zero when no
/// record exists yet. Records are never deleted, so a missing record can only
/// mean the depositor has never deposited.
pub open spec fn staked_of(s: Seq<UserInfo>, a: AccountId) -> u64 {
    if has_entry(s, a) {
        entry_of(s, a).amount
    } else {
        0
    }
}

/// Sum of all recorded staked amounts.
pub open spec fn sum_amounts(s: Seq<UserInfo>) -> int
    decreases s.len(),
{
    if s.len() == 0 {
        0
    } else {
        sum_amounts(s.drop_last()) + s.last().amount
    }
}

/// How one accepted deposit reshapes the ledger: the depositor's stake grows
/// by `amount`, their record is restamped, and every other depositor's record
/// is untouched.
pub open spec fn ledger_deposit_step(
    pre: Seq<UserInfo>,
    post: Seq<UserInfo>,
    user: AccountId,
    amount: u64,
    now: i64,
) -> bool {
    &&& staked_of(post, user) == staked_of(pre, user) + amount
    &&& has_entry(post, user)
    &&& entry_of(post, user) == (UserInfo {
        address: user,
        amount: (staked_of(pre, user) + amount) as u64,
        updated_time: now,
    })
    &&& forall|a: AccountId| a != user ==> staked_of(post, a) == staked_of(pre, a)
    &&& forall|a: AccountId| a != user ==> (has_entry(post, a) <==> has_entry(pre, a))
    &&& forall|a: AccountId| a != user && has_entry(pre, a) ==> entry_of(post, a) == entry_of(pre, a)
}

/// How one accepted withdrawal reshapes the ledger: the depositor's stake
/// shrinks by `amount` (which it covered), their record is restamped and kept
/// even at zero, and every other depositor's record is untouched.
pub open spec fn ledger_withdraw_step(
    pre: Seq<UserInfo>,
    post: Seq<UserInfo>,
    user: AccountId,
    amount: u64,
    now: i64,
) -> bool {
    &&& amount <= staked_of(pre, user)
    &&& staked_of(post, user) == staked_of(pre, user) - amount
    &&& has_entry(post, user)
    &&& entry_of(post, user) == (UserInfo {
        address: user,
        amount: (staked_of(pre, user) - amount) as u64,
        updated_time: now,
    })
    &&& forall|a: AccountId| a != user ==> staked_of(post, a) == staked_of(pre, a)
    &&& forall|a: AccountId| a != user ==> (has_entry(post, a) <==> has_entry(pre, a))
    &&& forall|a: AccountId| a != user && has_entry(pre, a) ==> entry_of(post, a) == entry_of(pre, a)
}

/// The sum of staked amounts is never negative.
pub proof fn lemma_sum_nonneg(s: Seq<UserInfo>)
    ensures
        sum_amounts(s) >= 0,
    decreases s.len(),
{
    if s.len() > 0 {
        lemma_sum_nonneg(s.drop_last());
    }
}

/// Any single record's amount is at most the sum of all of them.
pub proof fn lemma_entry_le_sum(s: Seq<UserInfo>, i: int)
    requires
        0 <= i < s.len(),
    ensures
        s[i].amount <= sum_amounts(s),
    decreases s.len(),
{
    if i == s.len() - 1 {
        lemma_sum_nonneg(s.drop_last());
    } else {
        lemma_entry_le_sum(s.drop_last(), i);
    }
}

/// Replacing the record at one position shifts the sum by the difference.
pub proof fn lemma_sum_update(s: Seq<UserInfo>, i: int, v: UserInfo)
    requires
        0 <= i < s.len(),
    ensures
        sum_amounts(s.update(i, v)) == sum_amounts(s) - s[i].amount + v.amount,
    decreases s.len(),
{
    if i == s.len() - 1 {
        assert(s.update(i, v).drop_last() =~= s.drop_last());
    } else {
        lemma_sum_update(s.drop_last(), i, v);
        assert(s.update(i, v).drop_last() =~= s.drop_last().update(i, v));
    }
}

/// Appending a record adds its amount to the sum.
pub proof fn lemma_sum_push(s: Seq<UserInfo>, v: UserInfo)
    ensures
        sum_amounts(s.push(v)) == sum_amounts(s) + v.amount,
{
    assert(s.push(v).drop_last() =~= s);
}

/// In a ledger without duplicate addresses, the record at a position is the
/// record found for its address.
pub proof fn lemma_entry_at_index(s: Seq<UserInfo>, i: int)
    requires
        unique_addresses(s),
        0 <= i < s.len(),
    ensures
        has_entry(s, s[i].address),
        entry_index(s, s[i].address) == i,
        entry_of(s, s[i].address) == s[i],
{
    assert(has_entry(s, s[i].address));
    let j = entry_index(s, s[i].address);
    assert(0 <= j < s.len() && s[j].address == s[i].address);
    assert(j == i);
}

/// Replacing a depositor's record in place changes only what the ledger says
/// about that depositor.
pub proof fn lemma_ledger_update(s: Seq<UserInfo>, i: int, v: UserInfo)
    requires
        unique_addresses(s),
        0 <= i < s.len(),
        v.address == s[i].address,
    ensures
        unique_addresses(s.update(i, v)),
        has_entry(s.update(i, v), v.address),
        entry_of(s.update(i, v), v.address) == v,
        forall|a: AccountId| a != v.address ==> has_entry(s.update(i, v), a) == has_entry(s, a),
        forall|a: AccountId|
            a != v.address && has_entry(s, a) ==> entry_of(s.update(i, v), a) == entry_of(s, a),
        forall|a: AccountId| a != v.address ==> staked_of(s.update(i, v), a) == staked_of(s, a),
{
    let t = s.update(i, v);
    assert(forall|k: int| 0 <= k < s.len() ==> t[k].address == s[k].address);
    assert(has_entry(t, v.address)) by {
        assert(t[i].address == v.address);
    }
    assert(entry_of(t, v.address) == v) by {
        let j = entry_index(t, v.address);
        assert(0 <= j < t.len() && t[j].address == v.address);
        assert(s[j].address == s[i].address);
        assert(j == i);
    }
    assert forall|a: AccountId| a != v.address implies has_entry(t, a) == has_entry(s, a) by {
        if has_entry(t, a) {
            let j = entry_index(t, a);
            assert(s[j].address == a);
        }
        if has_entry(s, a) {
            let j = entry_index(s, a);
            assert(t[j].address == a);
        }
    }
    assert forall|a: AccountId| a != v.address && has_entry(s, a) implies entry_of(t, a) == entry_of(
        s,
        a,
    ) by {
        let j = entry_index(s, a);
        assert(0 <= j < s.len() && s[j].address == a);
        assert(t[j].address == a);
        let k = entry_index(t, a);
        assert(0 <= k < t.len() && t[k].address == a);
        assert(s[k].address == a);
        assert(k == j);
        assert(j != i);
        assert(t[j] == s[j]);
    }
}

/// Appending a record for a depositor the ledger does not know changes only
/// what the ledger says about that depositor.
pub proof fn lemma_ledger_push(s: Seq<UserInfo>, v: UserInfo)
    requires
        unique_addresses(s),
        !has_entry(s, v.address),
    ensures
        unique_addresses(s.push(v)),
        has_entry(s.push(v), v.address),
        entry_of(s.push(v), v.address) == v,
        forall|a: AccountId| a != v.address ==> has_entry(s.push(v), a) == has_entry(s, a),
        forall|a: AccountId|
            a != v.address && has_entry(s, a) ==> entry_of(s.push(v), a) == entry_of(s, a),
        forall|a: AccountId| a != v.address ==> staked_of(s.push(v), a) == staked_of(s, a),
{
    let t = s.push(v);
    assert(forall|k: int| 0 <= k < s.len() ==> t[k] == s[k]);
    assert forall|k: int| 0 <= k < s.len() implies s[k].address != v.address by {
        if s[k].address == v.address {
            assert(has_entry(s, v.address));
        }
    }
    assert(has_entry(t, v.address)) by {
        assert(t[s.len() as int].address == v.address);
    }
    assert(entry_of(t, v.address) == v) by {
        let j = entry_index(t, v.address);
        assert(0 <= j < t.len() && t[j].address == v.address);
        assert(j == s.len());
    }
    assert forall|a: AccountId| a != v.address implies has_entry(t, a) == has_entry(s, a) by {
        if has_entry(t, a) {
            let j = entry_index(t, a);
            assert(0 <= j < t.len() && t[j].address == a);
            assert(j < s.len());
            assert(s[j].address == a);
        }
        if has_entry(s, a) {
            let j = entry_index(s, a);
            assert(t[j].address == a);
        }
    }
    assert forall|a: AccountId| a != v.address && has_entry(s, a) implies entry_of(t, a) == entry_of(
        s,
        a,
    ) by {
        let j = entry_index(s, a);
        assert(0 <= j < s.len() && s[j].address == a);
        assert(t[j].address == a);
        let k = entry_index(t, a);
        assert(0 <= k < t.len() && t[k].address == a);
        assert(k < s.len());
        assert(s[k].address == a);
        assert(k == j);
    }
}

} // verus!
