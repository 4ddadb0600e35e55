//! Mathematical model of the account store and the currency ledger.
//!
//! Both stores are association sequences: the first entry whose key matches
//! is the one in force.  The spec functions here define lookup and update on
//! those sequences, and the lemmas give the frame conditions that the
//! executable operations and the laws rely on.

use vstd::prelude::*;
use crate::{AccountId, Balance, CurrencyId};

verus! {

/// The opaque per-account payload owned by the ledger.  The tracker never
/// interprets it beyond comparing with its default value `0`.
pub type AccountData = u64;

/// The compact record kept per account identity: the anti-replay sequence
/// number, the count of external holds, and the ledger's payload.
#[derive(Clone, Copy, PartialEq, Eq, Structural, Debug)]
pub struct AccountInfo {
    /// Monotonic anti-replay counter; opaque to this crate.
    pub nonce: u64,
    /// Number of external holds (e.g. active locks) preventing deletion.
    pub refcount: u32,
    /// The ledger's per-account payload.
    pub data: AccountData,
}

/// One per-account, per-currency row of the modeled currency ledger.
#[derive(Clone, Copy, PartialEq, Eq, Structural, Debug)]
pub struct BalanceEntry {
    /// Currency this row belongs to.
    pub currency: CurrencyId,
    /// Account this row belongs to.
    pub owner: AccountId,
    /// Freely usable amount.
    pub free: Balance,
    /// Amount reserved (held) from the free balance.
    pub reserved: Balance,
}

/// Lifecycle notifications fired outward, in order of occurrence.
#[derive(Clone, Copy, PartialEq, Eq, Structural, Debug)]
pub enum Notification {
    /// The account came into existence and its deposit was reserved.
    Created(AccountId),
    /// The account was torn down.
    Killed(AccountId),
}

/// The whole observable state: account records, balances, notifications.
pub struct StateV {
    /// Association sequence of account records; `None` marks a slot whose
    /// record was erased.
    pub accounts: Seq<(AccountId, Option<AccountInfo>)>,
    /// Association sequence of balance rows.
    pub balances: Seq<BalanceEntry>,
    /// Notifications fired so far, oldest first.
    pub events: Seq<Notification>,
}

// ---------------------------------------------------------------------------
// Balance rows
// ---------------------------------------------------------------------------

/// Index of the first row for `(c, a)`, or `s.len()` if there is none.
pub open spec fn bal_idx(s: Seq<BalanceEntry>, c: CurrencyId, a: AccountId) -> int
    decreases s.len(),
{
    if s.len() == 0 {
        0
    } else if s[0].currency == c && s[0].owner == a {
        0
    } else {
        1 + bal_idx(s.skip(1), c, a)
    }
}

/// The row in force for `(c, a)`, if any.
pub open spec fn bal_lookup(s: Seq<BalanceEntry>, c: CurrencyId, a: AccountId) -> Option<
    BalanceEntry,
> {
    if bal_idx(s, c, a) < s.len() {
        Some(s[bal_idx(s, c, a)])
    } else {
        None
    }
}

/// Free balance of `a` in currency `c`; an account with no row holds nothing.
pub open spec fn free_of(s: Seq<BalanceEntry>, c: CurrencyId, a: AccountId) -> Balance {
    match bal_lookup(s, c, a) {
        Some(e) => e.free,
        None => 0,
    }
}

/// Reserved balance of `a` in currency `c`.
pub open spec fn reserved_of(s: Seq<BalanceEntry>, c: CurrencyId, a: AccountId) -> Balance {
    match bal_lookup(s, c, a) {
        Some(e) => e.reserved,
        None => 0,
    }
}

/// The sequence with the row for `(c, a)` replaced (or appended).
pub open spec fn bal_set(
    s: Seq<BalanceEntry>,
    c: CurrencyId,
    a: AccountId,
    free: Balance,
    reserved: Balance,
) -> Seq<BalanceEntry> {
    let e = BalanceEntry { currency: c, owner: a, free, reserved };
    if bal_idx(s, c, a) < s.len() {
        s.update(bal_idx(s, c, a), e)
    } else {
        s.push(e)
    }
}

/// Every row can carry its free and reserved amounts added together without
/// wrapping; the modeled ledger keeps each currency's issuance within range.
pub open spec fn wf_balances(s: Seq<BalanceEntry>) -> bool {
    forall|j: int|
        0 <= j < s.len() ==> (#[trigger] s[j]).free + s[j].reserved <= Balance::MAX
}

/// Characterisation of `bal_idx`: it is the first matching position.
pub proof fn lemma_bal_idx(s: Seq<BalanceEntry>, c: CurrencyId, a: AccountId)
    ensures
        0 <= bal_idx(s, c, a) <= s.len(),
        bal_idx(s, c, a) < s.len() ==> s[bal_idx(s, c, a)].currency == c && s[bal_idx(
            s,
            c,
            a,
        )].owner == a,
        forall|j: int|
            0 <= j < bal_idx(s, c, a) ==> !((#[trigger] s[j]).currency == c && s[j].owner == a),
        bal_idx(s, c, a) == s.len() ==> forall|j: int|
            0 <= j < s.len() ==> !((#[trigger] s[j]).currency == c && s[j].owner == a),
    decreases s.len(),
{
    if s.len() == 0 {
    } else if s[0].currency == c && s[0].owner == a {
    } else {
        lemma_bal_idx(s.skip(1), c, a);
        assert forall|j: int|
            1 <= j < s.len() implies s.skip(1)[j - 1] == s[j] by {
        }
    }
}

/// If position `i` matches and nothing before it does, `bal_idx` is `i`.
pub proof fn lemma_bal_idx_is(s: Seq<BalanceEntry>, c: CurrencyId, a: AccountId, i: int)
    requires
        0 <= i < s.len(),
        s[i].currency == c && s[i].owner == a,
        forall|j: int| 0 <= j < i ==> !((#[trigger] s[j]).currency == c && s[j].owner == a),
    ensures
        bal_idx(s, c, a) == i,
{
    lemma_bal_idx(s, c, a);
    let b = bal_idx(s, c, a);
    if b < i {
        assert(!(s[b].currency == c && s[b].owner == a));
    } else if b > i {
        assert(!(s[i].currency == c && s[i].owner == a));
    }
}

/// If no position matches, `bal_idx` is the length.
pub proof fn lemma_bal_idx_none(s: Seq<BalanceEntry>, c: CurrencyId, a: AccountId)
    requires
        forall|j: int| 0 <= j < s.len() ==> !((#[trigger] s[j]).currency == c && s[j].owner == a),
    ensures
        bal_idx(s, c, a) == s.len(),
{
    lemma_bal_idx(s, c, a);
    if bal_idx(s, c, a) < s.len() {
        assert(!(s[bal_idx(s, c, a)].currency == c && s[bal_idx(s, c, a)].owner == a));
    }
}

/// Effect and frame of a balance write: the written row is in force, every
/// other key is untouched.
pub proof fn lemma_bal_set(
    s: Seq<BalanceEntry>,
    c: CurrencyId,
    a: AccountId,
    free: Balance,
    reserved: Balance,
)
    ensures
        bal_lookup(bal_set(s, c, a, free, reserved), c, a) == Some(
            BalanceEntry { currency: c, owner: a, free, reserved },
        ),
        forall|c2: CurrencyId, a2: AccountId|
            !(c2 == c && a2 == a) ==> #[trigger] bal_lookup(bal_set(s, c, a, free, reserved), c2, a2)
                == bal_lookup(s, c2, a2),
{
    let e = BalanceEntry { currency: c, owner: a, free, reserved };
    let s2 = bal_set(s, c, a, free, reserved);
    lemma_bal_idx(s, c, a);
    let i = bal_idx(s, c, a);
    if i < s.len() {
        lemma_bal_idx_is(s2, c, a, i);
    } else {
        lemma_bal_idx_is(s2, c, a, s.len() as int);
    }
    assert forall|c2: CurrencyId, a2: AccountId|
        !(c2 == c && a2 == a) implies #[trigger] bal_lookup(s2, c2, a2) == bal_lookup(
        s,
        c2,
        a2,
    ) by {
        lemma_bal_idx(s, c2, a2);
        let k = bal_idx(s, c2, a2);
        if k < s.len() {
            lemma_bal_idx_is(s2, c2, a2, k);
        } else {
            assert forall|j: int|
                0 <= j < s2.len() implies !((#[trigger] s2[j]).currency == c2 && s2[j].owner
                == a2) by {
                if j < s.len() && j != i {
                    assert(s2[j] == s[j]);
                }
            }
            lemma_bal_idx_none(s2, c2, a2);
        }
    }
}

/// A balance write whose row is within range keeps the store well formed.
pub proof fn lemma_bal_set_wf(
    s: Seq<BalanceEntry>,
    c: CurrencyId,
    a: AccountId,
    free: Balance,
    reserved: Balance,
)
    requires
        wf_balances(s),
        free + reserved <= Balance::MAX,
    ensures
        wf_balances(bal_set(s, c, a, free, reserved)),
{
    let s2 = bal_set(s, c, a, free, reserved);
    lemma_bal_idx(s, c, a);
    assert forall|j: int|
        0 <= j < s2.len() implies (#[trigger] s2[j]).free + s2[j].reserved <= Balance::MAX by {
        if j < s.len() && j != bal_idx(s, c, a) {
            assert(s2[j] == s[j]);
        }
    }
}

// ---------------------------------------------------------------------------
// Account records
// ---------------------------------------------------------------------------

/// Index of the first slot for `k`, or `s.len()` if there is none.
pub open spec fn rec_idx(s: Seq<(AccountId, Option<AccountInfo>)>, k: AccountId) -> int
    decreases s.len(),
{
    if s.len() == 0 {
        0
    } else if s[0].0 == k {
        0
    } else {
        1 + rec_idx(s.skip(1), k)
    }
}

/// The record in force for `k`: `None` both for a missing slot and for an
/// erased one.
pub open spec fn acc_of(s: Seq<(AccountId, Option<AccountInfo>)>, k: AccountId) -> Option<
    AccountInfo,
> {
    if rec_idx(s, k) < s.len() {
        s[rec_idx(s, k)].1
    } else {
        None
    }
}

/// An identity is explicit iff a record for it is in force.
pub open spec fn explicit_of(s: Seq<(AccountId, Option<AccountInfo>)>, k: AccountId) -> bool {
    acc_of(s, k) is Some
}

/// Reference count in force for `k`; absent records count as zero.
pub open spec fn refcount_of(s: Seq<(AccountId, Option<AccountInfo>)>, k: AccountId) -> u32 {
    match acc_of(s, k) {
        Some(info) => info.refcount,
        None => 0,
    }
}

/// Sequence number in force for `k`; absent records count as zero.
pub open spec fn nonce_of(s: Seq<(AccountId, Option<AccountInfo>)>, k: AccountId) -> u64 {
    match acc_of(s, k) {
        Some(info) => info.nonce,
        None => 0,
    }
}

/// Payload in force for `k`; absent records hold the default payload.
pub open spec fn data_of(s: Seq<(AccountId, Option<AccountInfo>)>, k: AccountId) -> AccountData {
    match acc_of(s, k) {
        Some(info) => info.data,
        None => 0,
    }
}

/// The sequence with the slot for `k` replaced (or appended).
pub open spec fn rec_set(
    s: Seq<(AccountId, Option<AccountInfo>)>,
    k: AccountId,
    v: Option<AccountInfo>,
) -> Seq<(AccountId, Option<AccountInfo>)> {
    if rec_idx(s, k) < s.len() {
        s.update(rec_idx(s, k), (k, v))
    } else {
        s.push((k, v))
    }
}

/// Characterisation of `rec_idx`: it is the first matching position.
pub proof fn lemma_rec_idx(s: Seq<(AccountId, Option<AccountInfo>)>, k: AccountId)
    ensures
        0 <= rec_idx(s, k) <= s.len(),
        rec_idx(s, k) < s.len() ==> s[rec_idx(s, k)].0 == k,
        forall|j: int| 0 <= j < rec_idx(s, k) ==> (#[trigger] s[j]).0 != k,
        rec_idx(s, k) == s.len() ==> forall|j: int| 0 <= j < s.len() ==> (#[trigger] s[j]).0 != k,
    decreases s.len(),
{
    if s.len() == 0 {
    } else if s[0].0 == k {
    } else {
        lemma_rec_idx(s.skip(1), k);
        assert forall|j: int|
            1 <= j < s.len() implies s.skip(1)[j - 1] == s[j] by {
        }
    }
}

/// If position `i` matches and nothing before it does, `rec_idx` is `i`.
pub proof fn lemma_rec_idx_is(s: Seq<(AccountId, Option<AccountInfo>)>, k: AccountId, i: int)
    requires
        0 <= i < s.len(),
        s[i].0 == k,
        forall|j: int| 0 <= j < i ==> (#[trigger] s[j]).0 != k,
    ensures
        rec_idx(s, k) == i,
{
    lemma_rec_idx(s, k);
    let b = rec_idx(s, k);
    if b < i {
        assert(s[b].0 != k);
    } else if b > i {
        assert(s[i].0 != k);
    }
}

/// If no position matches, `rec_idx` is the length.
pub proof fn lemma_rec_idx_none(s: Seq<(AccountId, Option<AccountInfo>)>, k: AccountId)
    requires
        forall|j: int| 0 <= j < s.len() ==> (#[trigger] s[j]).0 != k,
    ensures
        rec_idx(s, k) == s.len(),
{
    lemma_rec_idx(s, k);
    if rec_idx(s, k) < s.len() {
        assert(s[rec_idx(s, k)].0 != k);
    }
}

/// Effect and frame of a record write.
pub proof fn lemma_rec_set(
    s: Seq<(AccountId, Option<AccountInfo>)>,
    k: AccountId,
    v: Option<AccountInfo>,
)
    ensures
        acc_of(rec_set(s, k, v), k) == v,
        forall|k2: AccountId|
            k2 != k ==> #[trigger] acc_of(rec_set(s, k, v), k2) == acc_of(s, k2),
{
    let s2 = rec_set(s, k, v);
    lemma_rec_idx(s, k);
    let i = rec_idx(s, k);
    if i < s.len() {
        lemma_rec_idx_is(s2, k, i);
    } else {
        lemma_rec_idx_is(s2, k, s.len() as int);
    }
    assert forall|k2: AccountId| k2 != k implies #[trigger] acc_of(s2, k2) == acc_of(s, k2) by {
        lemma_rec_idx(s, k2);
        let j = rec_idx(s, k2);
        if j < s.len() {
            lemma_rec_idx_is(s2, k2, j);
        } else {
            assert forall|m: int| 0 <= m < s2.len() implies (#[trigger] s2[m]).0 != k2 by {
                if m < s.len() && m != i {
                    assert(s2[m] == s[m]);
                }
            }
            lemma_rec_idx_none(s2, k2);
        }
    }
}

} // verus!
