//! The store-of-record: configuration, the mutable state, and the primitive
//! ledger operations that every component builds on.

use vstd::prelude::*;
use crate::{AccountId, Balance, CurrencyId, Weight};
use crate::model::{
    AccountData, AccountInfo, BalanceEntry, Notification, StateV, acc_of, bal_idx, bal_lookup,
    bal_set, explicit_of, free_of, lemma_bal_idx_is, lemma_bal_idx_none, lemma_bal_set,
    lemma_bal_set_wf, lemma_rec_idx_is, lemma_rec_idx_none, lemma_rec_set, rec_idx, rec_set,
    refcount_of, reserved_of, wf_balances,
};

verus! {

/// Errors of the account manager.
#[derive(Clone, Copy, PartialEq, Eq, Structural, Debug)]
pub enum Error {
    /// Balance is not sufficient.
    NotEnoughBalance,
    /// Account reference count is not zero.
    NonZeroRefCount,
    /// Account still has an active reservation: a non-fee-currency reserve,
    /// or a fee-currency reserve beyond the creation deposit.
    StillHasActiveReserved,
}

/// Weight information for the dispatchable surface; the host's benchmarking
/// provides an implementation.
pub trait WeightInfo {
    /// Weight of `close_account` over `c` configured non-native currencies.
    fn close_account(c: u32) -> Weight;
}

/// Read-only, process-wide configuration, threaded into every operation.
pub struct Config {
    /// All non-native currency identities, in their declared order.
    pub all_non_native_currency_ids: Vec<CurrencyId>,
    /// The fee currency: the one withdrawn for fees and the deposit.
    pub native_currency_id: CurrencyId,
    /// The designated intermediate (stable) currency used as a routing hop.
    pub stable_currency_id: CurrencyId,
    /// Amount of the fee currency reserved when an account is opened.
    pub new_account_deposit: Balance,
    /// The distinguished treasury identity, derived from the module
    /// identifier; fallback recipient for dust.
    pub treasury_account: AccountId,
    /// Maximum slippage, in parts per million, handed to the exchange by the
    /// host whenever a swap is attempted.
    pub max_slippage_swap_ppm: u32,
    /// Largest weight a block may carry.
    pub maximum_block_weight: Weight,
    /// Largest encoded length a block may carry.
    pub maximum_block_length: u32,
}

impl Config {
    /// The fee currency is not listed among the non-native currencies.
    pub open spec fn wf(&self) -> bool {
        &&& !self.all_non_native_currency_ids@.contains(self.native_currency_id)
        &&& forall|i: int, j: int|
            0 <= i < j < self.all_non_native_currency_ids@.len()
                ==> self.all_non_native_currency_ids@[i]
                != self.all_non_native_currency_ids@[j]
    }
}

/// The account store and the modeled currency ledger, with the notification
/// log.  Every lifecycle and fee operation is a method of this type.
pub struct Module {
    records: Vec<(AccountId, Option<AccountInfo>)>,
    balances: Vec<BalanceEntry>,
    events: Vec<Notification>,
}

impl View for Module {
    type V = StateV;

    closed spec fn view(&self) -> StateV {
        StateV { accounts: self.records@, balances: self.balances@, events: self.events@ }
    }
}

impl Module {
    /// Every balance row can take its free and reserved parts added together.
    pub open spec fn wf(&self) -> bool {
        wf_balances(self@.balances)
    }

    /// An empty store: no records, no balances, no notifications.
    pub fn new() -> (r: Module)
        ensures
            r@.accounts =~= Seq::<(AccountId, Option<AccountInfo>)>::empty(),
            r@.balances =~= Seq::<BalanceEntry>::empty(),
            r@.events =~= Seq::<Notification>::empty(),
            r.wf(),
    {
        Module { records: Vec::new(), balances: Vec::new(), events: Vec::new() }
    }

    /// Get the treasury account identity.
    pub fn treasury_account_id(cfg: &Config) -> (r: AccountId)
        ensures
            r == cfg.treasury_account,
    {
        cfg.treasury_account
    }

    // -- balance rows -------------------------------------------------------

    fn bal_find(&self, c: CurrencyId, a: AccountId) -> (i: usize)
        ensures
            i as int == bal_idx(self@.balances, c, a),
    {
        let n = self.balances.len();
        let mut i: usize = 0;
        while i < n
            invariant
                n == self.balances.len(),
                0 <= i <= n,
                forall|j: int|
                    0 <= j < i ==> !((#[trigger] self.balances@[j]).currency == c
                        && self.balances@[j].owner == a),
            decreases n - i,
        {
            if self.balances[i].currency == c && self.balances[i].owner == a {
                proof {
                    lemma_bal_idx_is(self.balances@, c, a, i as int);
                }
                return i;
            }
            i = i + 1;
        }
        proof {
            lemma_bal_idx_none(self.balances@, c, a);
        }
        i
    }

    /// Free balance of `who` in currency `c`.
    pub fn free_balance(&self, c: CurrencyId, who: AccountId) -> (r: Balance)
        ensures
            r == free_of(self@.balances, c, who),
    {
        let i = self.bal_find(c, who);
        if i < self.balances.len() {
            self.balances[i].free
        } else {
            0
        }
    }

    /// Reserved balance of `who` in currency `c`.
    pub fn reserved_balance(&self, c: CurrencyId, who: AccountId) -> (r: Balance)
        ensures
            r == reserved_of(self@.balances, c, who),
    {
        let i = self.bal_find(c, who);
        if i < self.balances.len() {
            self.balances[i].reserved
        } else {
            0
        }
    }

    /// Write the balance row of `who` in currency `c`.  This is the modeled
    /// ledger's endowment primitive: the host (genesis, minting) sets rows
    /// with it, and every internal movement goes through it.
    pub fn set_balance(&mut self, c: CurrencyId, who: AccountId, free: Balance, reserved: Balance)
        requires
            old(self).wf(),
            free + reserved <= Balance::MAX,
        ensures
            final(self).wf(),
            final(self)@.balances == bal_set(old(self)@.balances, c, who, free, reserved),
            final(self)@.accounts == old(self)@.accounts,
            final(self)@.events == old(self)@.events,
            free_of(final(self)@.balances, c, who) == free,
            reserved_of(final(self)@.balances, c, who) == reserved,
            forall|c2: CurrencyId, a2: AccountId|
                !(c2 == c && a2 == who) ==> #[trigger] bal_lookup(final(self)@.balances, c2, a2)
                    == bal_lookup(old(self)@.balances, c2, a2),
    {
        proof {
            lemma_bal_set(self.balances@, c, who, free, reserved);
            lemma_bal_set_wf(self.balances@, c, who, free, reserved);
        }
        let i = self.bal_find(c, who);
        let e = BalanceEntry { currency: c, owner: who, free, reserved };
        if i < self.balances.len() {
            self.balances[i] = e;
        } else {
            self.balances.push(e);
        }
    }

    // -- account records ----------------------------------------------------

    fn rec_find(&self, k: AccountId) -> (i: usize)
        ensures
            i as int == rec_idx(self@.accounts, k),
    {
        let n = self.records.len();
        let mut i: usize = 0;
        while i < n
            invariant
                n == self.records.len(),
                0 <= i <= n,
                forall|j: int| 0 <= j < i ==> (#[trigger] self.records@[j]).0 != k,
            decreases n - i,
        {
            if self.records[i].0 == k {
                proof {
                    lemma_rec_idx_is(self.records@, k, i as int);
                }
                return i;
            }
            i = i + 1;
        }
        proof {
            lemma_rec_idx_none(self.records@, k);
        }
        i
    }

    /// The record in force for `k`, if any.
    pub fn account_record(&self, k: AccountId) -> (r: Option<AccountInfo>)
        ensures
            r == acc_of(self@.accounts, k),
    {
        let i = self.rec_find(k);
        if i < self.records.len() {
            self.records[i].1
        } else {
            None
        }
    }

    /// Whether an explicit record for `k` is in force.
    pub fn is_explicit(&self, k: AccountId) -> (r: bool)
        ensures
            r == explicit_of(self@.accounts, k),
    {
        self.account_record(k).is_some()
    }

    /// The payload in force for `k`, defaulted when absent.
    pub fn get(&self, k: AccountId) -> (r: AccountData)
        ensures
            r == crate::model::data_of(self@.accounts, k),
    {
        match self.account_record(k) {
            Some(info) => info.data,
            None => 0,
        }
    }

    /// Write the record slot of `k` (`None` erases the record).
    pub(crate) fn rec_put(&mut self, k: AccountId, v: Option<AccountInfo>)
        ensures
            final(self)@.accounts == rec_set(old(self)@.accounts, k, v),
            final(self)@.balances == old(self)@.balances,
            final(self)@.events == old(self)@.events,
            acc_of(final(self)@.accounts, k) == v,
            forall|k2: AccountId|
                k2 != k ==> #[trigger] acc_of(final(self)@.accounts, k2) == acc_of(
                    old(self)@.accounts,
                    k2,
                ),
    {
        proof {
            lemma_rec_set(self.records@, k, v);
        }
        let i = self.rec_find(k);
        if i < self.records.len() {
            self.records[i] = (k, v);
        } else {
            self.records.push((k, v));
        }
    }

    /// Append a notification to the log.
    pub(crate) fn push_event(&mut self, n: Notification)
        ensures
            final(self)@.events == old(self)@.events.push(n),
            final(self)@.accounts == old(self)@.accounts,
            final(self)@.balances == old(self)@.balances,
    {
        self.events.push(n);
    }

    /// The notifications fired so far, oldest first.
    pub fn events(&self) -> (r: &Vec<Notification>)
        ensures
            r@ == self@.events,
    {
        &self.events
    }

    /// Set the reference count of an explicit record: the way the host
    /// registers an external hold (an active lock) on the account.
    pub fn set_refcount(&mut self, k: AccountId, rc: u32)
        requires
            explicit_of(old(self)@.accounts, k),
        ensures
            final(self)@.accounts == rec_set(
                old(self)@.accounts,
                k,
                Some(
                    AccountInfo {
                        nonce: crate::model::nonce_of(old(self)@.accounts, k),
                        refcount: rc,
                        data: crate::model::data_of(old(self)@.accounts, k),
                    },
                ),
            ),
            final(self)@.balances == old(self)@.balances,
            final(self)@.events == old(self)@.events,
            refcount_of(final(self)@.accounts, k) == rc,
            forall|k2: AccountId|
                k2 != k ==> #[trigger] acc_of(final(self)@.accounts, k2) == acc_of(
                    old(self)@.accounts,
                    k2,
                ),
    {
        let info = match self.account_record(k) {
            Some(info) => AccountInfo { nonce: info.nonce, refcount: rc, data: info.data },
            None => AccountInfo { nonce: 0, refcount: rc, data: 0 },
        };
        self.rec_put(k, Some(info));
    }
}

} // verus!
