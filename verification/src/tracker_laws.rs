//! Laws of the existence tracker: a no-op mutation changes nothing, the
//! record prefix survives every mutation, and the "created" notification
//! fires exactly once per absent-to-present transition.

use vstd::prelude::*;
use crate::AccountId;
use crate::model::{
    AccountData, AccountInfo, Notification, StateV, data_of, explicit_of, free_of,
    lemma_rec_idx, lemma_rec_set, nonce_of, refcount_of,
};
use crate::state::Config;
use crate::tracker::{data_view, spec_insert, spec_mutate, spec_try_ok};

verus! {

/// How many times the "created" notification for `k` appears in the log.
pub open spec fn created_count(evs: Seq<Notification>, k: AccountId) -> nat
    decreases evs.len(),
{
    if evs.len() == 0 {
        0
    } else {
        created_count(evs.drop_last(), k) + (if evs.last() == Notification::Created(k) {
            1nat
        } else {
            0nat
        })
    }
}

/// Appending one notification raises the count by one exactly when it is the
/// "created" notification for `k`.
pub proof fn lemma_created_count_push(evs: Seq<Notification>, k: AccountId, n: Notification)
    ensures
        created_count(evs.push(n), k) == created_count(evs, k) + (
        if n == Notification::Created(k) {
            1nat
        } else {
            0nat
        }),
{
    assert(evs.push(n).drop_last() =~= evs);
    assert(evs.push(n).last() == n);
}

/// A fallible mutation that hands back an existing record's payload view
/// unchanged writes the record back exactly as it stood: no notification
/// fires, no balance moves, and the store is left as it was.
pub proof fn lemma_noop_mutation_changes_nothing(cfg: Config, v: StateV, k: AccountId)
    requires
        explicit_of(v.accounts, k),
    ensures
        spec_try_ok(cfg, v, k, data_view(v.accounts, k)).accounts =~= v.accounts,
        spec_try_ok(cfg, v, k, data_view(v.accounts, k)).balances == v.balances,
        spec_try_ok(cfg, v, k, data_view(v.accounts, k)).events == v.events,
{
    lemma_rec_idx(v.accounts, k);
    let i = crate::model::rec_idx(v.accounts, k);
    let info = AccountInfo {
        nonce: nonce_of(v.accounts, k),
        refcount: refcount_of(v.accounts, k),
        data: data_of(v.accounts, k),
    };
    assert(v.accounts[i] == (k, Some(info)));
    assert(v.accounts.update(i, (k, Some(info))) =~= v.accounts);
}

/// Whatever payload a mutation writes to an existing record, the sequence
/// number and the reference count survive, and no notification fires.
pub proof fn lemma_prefix_survives(cfg: Config, v: StateV, k: AccountId, nd: Option<AccountData>)
    requires
        explicit_of(v.accounts, k),
    ensures
        nonce_of(spec_try_ok(cfg, v, k, nd).accounts, k) == nonce_of(v.accounts, k),
        refcount_of(spec_try_ok(cfg, v, k, nd).accounts, k) == refcount_of(v.accounts, k),
        spec_try_ok(cfg, v, k, nd).events == v.events,
        spec_try_ok(cfg, v, k, nd).balances == v.balances,
{
    let info = AccountInfo {
        nonce: nonce_of(v.accounts, k),
        refcount: refcount_of(v.accounts, k),
        data: match nd {
            Some(d) => d,
            None => 0,
        },
    };
    lemma_rec_set(v.accounts, k, Some(info));
}

/// One store call on a fixed identity: an unconditional insert of a payload,
/// or a mutation writing a payload.
pub enum StoreCall {
    /// `insert` with the given payload.
    Insert(AccountData),
    /// `mutate` whose closure leaves the given payload.
    MutateTo(AccountData),
}

/// The state after one store call on `k`.
pub open spec fn apply_call(cfg: Config, v: StateV, k: AccountId, c: StoreCall) -> StateV {
    match c {
        StoreCall::Insert(d) => spec_insert(cfg, v, k, d),
        StoreCall::MutateTo(d) => spec_mutate(cfg, v, k, d),
    }
}

/// The state after a sequence of store calls on `k`, oldest first.
pub open spec fn apply_calls(cfg: Config, v: StateV, k: AccountId, cs: Seq<StoreCall>) -> StateV
    decreases cs.len(),
{
    if cs.len() == 0 {
        v
    } else {
        apply_calls(cfg, apply_call(cfg, v, k, cs[0]), k, cs.skip(1))
    }
}

/// While a record for `k` is in force, store calls on `k` fire no
/// notification at all and keep the record in force.
pub proof fn lemma_no_notification_while_present(
    cfg: Config,
    v: StateV,
    k: AccountId,
    cs: Seq<StoreCall>,
)
    requires
        explicit_of(v.accounts, k),
    ensures
        apply_calls(cfg, v, k, cs).events == v.events,
        explicit_of(apply_calls(cfg, v, k, cs).accounts, k),
    decreases cs.len(),
{
    if cs.len() == 0 {
    } else {
        let v1 = apply_call(cfg, v, k, cs[0]);
        match cs[0] {
            StoreCall::Insert(d) => {
                let info = AccountInfo {
                    nonce: nonce_of(v.accounts, k),
                    refcount: refcount_of(v.accounts, k),
                    data: d,
                };
                lemma_rec_set(v.accounts, k, Some(info));
            },
            StoreCall::MutateTo(d) => {
                let info = AccountInfo {
                    nonce: nonce_of(v.accounts, k),
                    refcount: refcount_of(v.accounts, k),
                    data: d,
                };
                lemma_rec_set(v.accounts, k, Some(info));
            },
        }
        lemma_no_notification_while_present(cfg, v1, k, cs.skip(1));
    }
}

/// When the deposit cannot be covered, a first insert recycles the dust,
/// erases the record and fires nothing: the presence transition is undone,
/// and the next write may try again.
pub proof fn lemma_failed_open_reverts_presence(
    cfg: Config,
    v: StateV,
    k: AccountId,
    d: AccountData,
)
    requires
        !explicit_of(v.accounts, k),
        free_of(v.balances, cfg.native_currency_id, k) < cfg.new_account_deposit,
        k != cfg.treasury_account,
    ensures
        spec_insert(cfg, v, k, d).events == v.events,
        !explicit_of(spec_insert(cfg, v, k, d).accounts, k),
{
    let info = AccountInfo {
        nonce: nonce_of(v.accounts, k),
        refcount: refcount_of(v.accounts, k),
        data: d,
    };
    lemma_rec_set(v.accounts, k, Some(info));
    lemma_rec_set(crate::model::rec_set(v.accounts, k, Some(info)), k, None);
}

/// Exactly-once notification: a sequence of insert/mutate calls that begins
/// with `k` absent and its deposit coverable fires the "created"
/// notification exactly once, however many calls follow while the record is
/// present.
pub proof fn lemma_created_exactly_once(cfg: Config, v: StateV, k: AccountId, cs: Seq<StoreCall>)
    requires
        !explicit_of(v.accounts, k),
        free_of(v.balances, cfg.native_currency_id, k) >= cfg.new_account_deposit,
        cs.len() >= 1,
    ensures
        created_count(apply_calls(cfg, v, k, cs).events, k) == created_count(v.events, k) + 1,
{
    let v1 = apply_call(cfg, v, k, cs[0]);
    match cs[0] {
        StoreCall::Insert(d) => {
            let info = AccountInfo {
                nonce: nonce_of(v.accounts, k),
                refcount: refcount_of(v.accounts, k),
                data: d,
            };
            lemma_rec_set(v.accounts, k, Some(info));
            lemma_created_count_push(v.events, k, Notification::Created(k));
        },
        StoreCall::MutateTo(d) => {
            let info = AccountInfo {
                nonce: nonce_of(v.accounts, k),
                refcount: refcount_of(v.accounts, k),
                data: d,
            };
            lemma_rec_set(v.accounts, k, Some(info));
            lemma_created_count_push(v.events, k, Notification::Created(k));
        },
    }
    assert(explicit_of(v1.accounts, k));
    assert(created_count(v1.events, k) == created_count(v.events, k) + 1);
    lemma_no_notification_while_present(cfg, v1, k, cs.skip(1));
}

} // verus!
