//! The account existence tracker: the store-of-record operations that detect
//! presence transitions and fire lifecycle notifications exactly once per
//! transition, and the open-account side effect that reserves the creation
//! deposit.

use vstd::prelude::*;
use crate::{AccountId, Balance};
use crate::model::{
    AccountData, AccountInfo, Notification, StateV, acc_of, bal_set, data_of, explicit_of,
    free_of, nonce_of, rec_set, refcount_of, reserved_of,
};
use crate::state::{Config, Module};

verus! {

/// The optional-payload view of an account handed to mutation closures:
/// `None` when no record is in force.
pub open spec fn data_view(
    s: Seq<(AccountId, Option<AccountInfo>)>,
    k: AccountId,
) -> Option<AccountData> {
    match acc_of(s, k) {
        Some(info) => Some(info.data),
        None => None,
    }
}

/// State after the open-account side effect on `k`: reserve the deposit and
/// notify on success; otherwise move the dust free balance to the treasury
/// and erase the record (never for the treasury itself).
pub open spec fn spec_open_account(cfg: Config, v: StateV, k: AccountId) -> StateV {
    let native = cfg.native_currency_id;
    let dep = cfg.new_account_deposit;
    let f = free_of(v.balances, native, k);
    let r = reserved_of(v.balances, native, k);
    if f >= dep {
        StateV {
            balances: bal_set(v.balances, native, k, (f - dep) as Balance, (r + dep) as Balance),
            accounts: v.accounts,
            events: v.events.push(Notification::Created(k)),
        }
    } else if k != cfg.treasury_account {
        let t = cfg.treasury_account;
        let tf = free_of(v.balances, native, t);
        let tr = reserved_of(v.balances, native, t);
        StateV {
            balances: bal_set(bal_set(v.balances, native, k, 0, r), native, t, (tf + f) as Balance, tr),
            accounts: rec_set(v.accounts, k, None),
            events: v.events,
        }
    } else {
        v
    }
}

/// The open-account side effect never overflows the treasury's row.
pub open spec fn open_account_fits(cfg: Config, v: StateV, k: AccountId) -> bool {
    let native = cfg.native_currency_id;
    let t = cfg.treasury_account;
    ||| free_of(v.balances, native, k) >= cfg.new_account_deposit
    ||| k == t
    ||| free_of(v.balances, native, t) + reserved_of(v.balances, native, t) + free_of(
        v.balances,
        native,
        k,
    ) <= Balance::MAX
}

/// State after a successful fallible mutation wrote payload `nd` to `k`:
/// the record is always written back (the prefix survives even a logical
/// deletion), and the open-account side effect runs iff no record was in
/// force before.
pub open spec fn spec_try_ok(
    cfg: Config,
    v: StateV,
    k: AccountId,
    nd: Option<AccountData>,
) -> StateV {
    let existed = explicit_of(v.accounts, k);
    let info = AccountInfo {
        nonce: nonce_of(v.accounts, k),
        refcount: refcount_of(v.accounts, k),
        data: match nd {
            Some(d) => d,
            None => 0,
        },
    };
    let v1 = StateV { accounts: rec_set(v.accounts, k, Some(info)), ..v };
    if existed {
        v1
    } else {
        spec_open_account(cfg, v1, k)
    }
}

/// State after `insert` wrote payload `data` to `k`.
pub open spec fn spec_insert(cfg: Config, v: StateV, k: AccountId, data: AccountData) -> StateV {
    spec_try_ok(cfg, v, k, Some(data))
}

/// State after `mutate` wrote payload `nd` to `k`: the record is written and
/// only the "created" notification fires on a first write, not the full
/// open-account deposit logic.
pub open spec fn spec_mutate(cfg: Config, v: StateV, k: AccountId, nd: AccountData) -> StateV {
    let existed = explicit_of(v.accounts, k);
    let info = AccountInfo {
        nonce: nonce_of(v.accounts, k),
        refcount: refcount_of(v.accounts, k),
        data: nd,
    };
    let v1 = StateV { accounts: rec_set(v.accounts, k, Some(info)), ..v };
    if existed {
        v1
    } else {
        StateV { events: v1.events.push(Notification::Created(k)), ..v1 }
    }
}

impl Module {
    /// Open account `k` by reserving the creation deposit of the fee
    /// currency.  If the free balance cannot cover it, the whole free
    /// balance is recycled to the treasury and the record is erased, as if
    /// opening had never happened; the treasury itself is never recycled.
    pub(crate) fn open_account(&mut self, cfg: &Config, k: AccountId)
        requires
            old(self).wf(),
            open_account_fits(*cfg, old(self)@, k),
        ensures
            final(self).wf(),
            final(self)@ == spec_open_account(*cfg, old(self)@, k),
    {
        let native = cfg.native_currency_id;
        let dep = cfg.new_account_deposit;
        let f = self.free_balance(native, k);
        let r = self.reserved_balance(native, k);
        proof {
            crate::model::lemma_bal_idx(self@.balances, native, k);
            assert(f + r <= Balance::MAX);
        }
        if f >= dep {
            self.set_balance(native, k, f - dep, r + dep);
            self.push_event(Notification::Created(k));
        } else {
            let t = Module::treasury_account_id(cfg);
            if k != t {
                let tf = self.free_balance(native, t);
                let tr = self.reserved_balance(native, t);
                self.set_balance(native, k, 0, r);
                self.set_balance(native, t, tf + f, tr);
                self.rec_put(k, None);
            }
        }
    }
}

/// Split an option into two constituent options, as defined by a `splitter`
/// function.
pub fn split_inner<T, R, S, F: FnOnce(T) -> (R, S)>(option: Option<T>, splitter: F) -> (r: (
    Option<R>,
    Option<S>,
))
    requires
        option matches Some(t) ==> call_requires(splitter, (t,)),
    ensures
        option is None ==> r == (None::<R>, None::<S>),
        option matches Some(t) ==> exists|p: (R, S)|
            #[trigger] call_ensures(splitter, (t,), p) && r == (Some(p.0), Some(p.1)),
{
    match option {
        Some(inner) => {
            let (a, b) = splitter(inner);
            (Some(a), Some(b))
        },
        None => (None, None),
    }
}

impl Module {
    /// Write `data` unconditionally; if no record was in force before the
    /// write, run the open-account side effect once, after the write.
    pub fn insert(&mut self, cfg: &Config, k: AccountId, data: AccountData)
        requires
            old(self).wf(),
            explicit_of(old(self)@.accounts, k) || open_account_fits(*cfg, old(self)@, k),
        ensures
            final(self).wf(),
            final(self)@ == spec_insert(*cfg, old(self)@, k, data),
    {
        let existed = self.is_explicit(k);
        let info = match self.account_record(k) {
            Some(old_info) => AccountInfo {
                nonce: old_info.nonce,
                refcount: old_info.refcount,
                data,
            },
            None => AccountInfo { nonce: 0, refcount: 0, data },
        };
        self.rec_put(k, Some(info));
        if !existed {
            self.open_account(cfg, k);
        }
    }

    /// Trigger the kill-account hook for `k`; the record itself is retained
    /// for replay safety.
    pub fn remove(&mut self, k: AccountId)
        ensures
            final(self)@.events == old(self)@.events.push(Notification::Killed(k)),
            final(self)@.accounts == old(self)@.accounts,
            final(self)@.balances == old(self)@.balances,
    {
        self.push_event(Notification::Killed(k));
    }

    /// Hook point for downstream cleanup when an account was destroyed;
    /// deliberately does nothing here.
    pub fn on_killed_account(&self, _who: AccountId) {
    }

    /// Apply `f` to the payload in force (defaulted when absent); if no
    /// record was in force before, fire the "created" notification after the
    /// write — not the full open-account deposit logic.
    pub fn mutate<R, F: FnOnce(AccountData) -> (AccountData, R)>(
        &mut self,
        cfg: &Config,
        k: AccountId,
        f: F,
    ) -> (r: R)
        requires
            old(self).wf(),
            call_requires(f, (data_of(old(self)@.accounts, k),)),
        ensures
            final(self).wf(),
            exists|nd: AccountData|
                #[trigger] call_ensures(f, (data_of(old(self)@.accounts, k),), (nd, r))
                    && final(self)@ == spec_mutate(*cfg, old(self)@, k, nd),
    {
        let existed = self.is_explicit(k);
        let cur = self.get(k);
        let (nd, result) = f(cur);
        let info = match self.account_record(k) {
            Some(old_info) => AccountInfo {
                nonce: old_info.nonce,
                refcount: old_info.refcount,
                data: nd,
            },
            None => AccountInfo { nonce: 0, refcount: 0, data: nd },
        };
        self.rec_put(k, Some(info));
        if !existed {
            self.push_event(Notification::Created(k));
        }
        result
    }

    /// The most delicate operation: split the record into its immutable
    /// prefix and the mutable payload, apply `f` to an optional-payload view
    /// (leaving the view empty requests deletion), and recombine — the
    /// prefix is never discarded, and the record is always written back.  If
    /// `f` fails, nothing is written and nothing fires; if explicitness
    /// transitioned from absent to present, the open-account side effect
    /// runs once, after the write.
    pub fn try_mutate_exists<R, E, F: FnOnce(Option<AccountData>) -> Result<
        (Option<AccountData>, R),
        E,
    >>(&mut self, cfg: &Config, k: AccountId, f: F) -> (r: Result<R, E>)
        requires
            old(self).wf(),
            explicit_of(old(self)@.accounts, k) || open_account_fits(*cfg, old(self)@, k),
            call_requires(f, (data_view(old(self)@.accounts, k),)),
        ensures
            final(self).wf(),
            r matches Ok(rv) ==> exists|nd: Option<AccountData>|
                #[trigger] call_ensures(
                    f,
                    (data_view(old(self)@.accounts, k),),
                    Ok((nd, rv)),
                ) && final(self)@ == spec_try_ok(*cfg, old(self)@, k, nd),
            r matches Err(e) ==> final(self)@ == old(self)@ && call_ensures(
                f,
                (data_view(old(self)@.accounts, k),),
                Err(e),
            ),
    {
        let existed = self.is_explicit(k);
        let rec = self.account_record(k);
        let splitter = |info: AccountInfo| -> (out: ((u64, u32), AccountData))
            ensures
                out == ((info.nonce, info.refcount), info.data),
            { ((info.nonce, info.refcount), info.data) };
        let (maybe_prefix, maybe_data) = split_inner(rec, splitter);
        match f(maybe_data) {
            Ok((nd, result)) => {
                let (nonce, refcount) = match maybe_prefix {
                    Some(p) => p,
                    None => (0u64, 0u32),
                };
                let data = match nd {
                    Some(d) => d,
                    None => 0,
                };
                self.rec_put(k, Some(AccountInfo { nonce, refcount, data }));
                if !existed {
                    self.open_account(cfg, k);
                }
                let out: Result<R, E> = Ok(result);
                proof {
                    assert(call_ensures(
                        f,
                        (data_view(old(self)@.accounts, k),),
                        Ok::<(Option<AccountData>, R), E>((nd, out->Ok_0)),
                    ));
                    assert(out matches Ok(rv) ==> exists|nd2: Option<AccountData>|
                        #[trigger] call_ensures(
                            f,
                            (data_view(old(self)@.accounts, k),),
                            Ok::<(Option<AccountData>, R), E>((nd2, rv)),
                        ) && self@ == spec_try_ok(*cfg, old(self)@, k, nd2));
                }
                out
            },
            Err(e) => Err(e),
        }
    }

    /// `try_mutate_exists` specialised to an infallible mutation.
    pub fn mutate_exists<R, F: FnOnce(Option<AccountData>) -> (Option<AccountData>, R)>(
        &mut self,
        cfg: &Config,
        k: AccountId,
        f: F,
    ) -> (r: R)
        requires
            old(self).wf(),
            explicit_of(old(self)@.accounts, k) || open_account_fits(*cfg, old(self)@, k),
            call_requires(f, (data_view(old(self)@.accounts, k),)),
        ensures
            final(self).wf(),
            exists|nd: Option<AccountData>|
                #[trigger] call_ensures(f, (data_view(old(self)@.accounts, k),), (nd, r))
                    && final(self)@ == spec_try_ok(*cfg, old(self)@, k, nd),
    {
        let existed = self.is_explicit(k);
        let rec = self.account_record(k);
        let splitter = |info: AccountInfo| -> (out: ((u64, u32), AccountData))
            ensures
                out == ((info.nonce, info.refcount), info.data),
            { ((info.nonce, info.refcount), info.data) };
        let (maybe_prefix, maybe_data) = split_inner(rec, splitter);
        let (nd, result) = f(maybe_data);
        let (nonce, refcount) = match maybe_prefix {
            Some(p) => p,
            None => (0u64, 0u32),
        };
        let data = match nd {
            Some(d) => d,
            None => 0,
        };
        self.rec_put(k, Some(AccountInfo { nonce, refcount, data }));
        if !existed {
            self.open_account(cfg, k);
        }
        result
    }
}

} // verus!
