//! The account closer: a user-triggered teardown that recycles balances to a
//! recipient, subject to safety checks, all or nothing.

use vstd::prelude::*;
use crate::{AccountId, Balance, CurrencyId};
use crate::model::{Notification, StateV, bal_lookup, free_of, refcount_of, reserved_of};
use crate::state::{Config, Error, Module};

verus! {

/// The recipient actually used: the treasury when none is named.
pub open spec fn resolved_recipient(cfg: Config, recipient: Option<AccountId>) -> AccountId {
    match recipient {
        Some(r) => r,
        None => cfg.treasury_account,
    }
}

/// When closing is allowed: no external hold, no fee-currency reservation
/// beyond the creation deposit, and no reservation at all in any other
/// currency.
pub open spec fn close_allowed(cfg: Config, v: StateV, who: AccountId) -> bool {
    &&& refcount_of(v.accounts, who) == 0
    &&& reserved_of(v.balances, cfg.native_currency_id, who) <= cfg.new_account_deposit
    &&& forall|j: int|
        0 <= j < cfg.all_non_native_currency_ids@.len() ==> reserved_of(
            v.balances,
            #[trigger] cfg.all_non_native_currency_ids@[j],
            who,
        ) == 0
}

/// The recipient's rows can take everything the closing account holds; a
/// machine limit of the modeled ledger, trivially true when the recipient is
/// the closer itself.
pub open spec fn close_fits(
    cfg: Config,
    v: StateV,
    who: AccountId,
    recipient: Option<AccountId>,
) -> bool {
    let rcp = resolved_recipient(cfg, recipient);
    let native = cfg.native_currency_id;
    rcp == who || {
        &&& free_of(v.balances, native, rcp) + reserved_of(v.balances, native, rcp) + free_of(
            v.balances,
            native,
            who,
        ) + reserved_of(v.balances, native, who) <= Balance::MAX
        &&& forall|j: int|
            0 <= j < cfg.all_non_native_currency_ids@.len() ==> free_of(
                v.balances,
                #[trigger] cfg.all_non_native_currency_ids@[j],
                rcp,
            ) + reserved_of(v.balances, cfg.all_non_native_currency_ids@[j], rcp) + free_of(
                v.balances,
                cfg.all_non_native_currency_ids@[j],
                who,
            ) <= Balance::MAX
    }
}

impl Module {
    /// Kill the calling account: unreserve its fee-currency reservation,
    /// move its entire free fee-currency balance to the recipient (the
    /// treasury by default), require every other currency's reservation to
    /// be zero while moving its free balance to the recipient, and fire the
    /// kill-account hook.  Any refused check leaves the state exactly as it
    /// was.
    #[verifier::loop_isolation(false)]
    pub fn close_account(&mut self, cfg: &Config, who: AccountId, recipient: Option<AccountId>)
        -> (r: Result<(), Error>)
        requires
            old(self).wf(),
            cfg.wf(),
            close_fits(*cfg, old(self)@, who, recipient),
        ensures
            final(self).wf(),
            r is Ok <==> close_allowed(*cfg, old(self)@, who),
            refcount_of(old(self)@.accounts, who) != 0 ==> r == Err::<(), Error>(
                Error::NonZeroRefCount,
            ),
            refcount_of(old(self)@.accounts, who) == 0 && !close_allowed(*cfg, old(self)@, who)
                ==> r == Err::<(), Error>(Error::StillHasActiveReserved),
            r is Err ==> final(self)@ == old(self)@,
            r is Ok ==> close_effects(*cfg, old(self)@, final(self)@, who, resolved_recipient(*cfg, recipient)),
    {
        let ghost cs = cfg.all_non_native_currency_ids@;
        let native = cfg.native_currency_id;
        let dep = cfg.new_account_deposit;

        // Precondition checks: nothing is mutated until all of them pass.
        let rc = match self.account_record(who) {
            Some(info) => info.refcount,
            None => 0,
        };
        if rc != 0 {
            return Err(Error::NonZeroRefCount);
        }
        let total_reserved_native = self.reserved_balance(native, who);
        if total_reserved_native > dep {
            return Err(Error::StillHasActiveReserved);
        }
        let n = cfg.all_non_native_currency_ids.len();
        let mut i: usize = 0;
        while i < n
            invariant
                n == cs.len(),
                0 <= i <= n,
                cs == cfg.all_non_native_currency_ids@,
                self@ == old(self)@,
                self.wf(),
                forall|j: int|
                    0 <= j < i ==> reserved_of(self@.balances, #[trigger] cs[j], who) == 0,
            decreases n - i,
        {
            if self.reserved_balance(cfg.all_non_native_currency_ids[i], who) != 0 {
                return Err(Error::StillHasActiveReserved);
            }
            i = i + 1;
        }

        // All checks passed: apply the effects.
        let rcp = match recipient {
            Some(r) => r,
            None => Module::treasury_account_id(cfg),
        };

        // Unreserve the whole fee-currency reservation.
        let f0 = self.free_balance(native, who);
        proof {
            crate::model::lemma_bal_idx(self@.balances, native, who);
            assert(f0 + total_reserved_native <= Balance::MAX);
        }
        self.set_balance(native, who, f0 + total_reserved_native, 0);

        // Move the whole free fee-currency balance to the recipient.
        if rcp != who {
            let merged = self.free_balance(native, who);
            let rf = self.free_balance(native, rcp);
            let rr = self.reserved_balance(native, rcp);
            self.set_balance(native, who, 0, 0);
            self.set_balance(native, rcp, rf + merged, rr);
        }
        let ghost mid = self@;

        // Move every other currency's free balance to the recipient; their
        // reservations were checked to be zero.
        let mut i: usize = 0;
        while i < n
            invariant
                n == cs.len(),
                0 <= i <= n,
                cs == cfg.all_non_native_currency_ids@,
                cfg.wf(),
                self.wf(),
                self@.accounts == mid.accounts,
                self@.events == mid.events,
                rcp == resolved_recipient(*cfg, recipient),
                rcp != who ==> forall|j: int|
                    0 <= j < cs.len() ==> free_of(mid.balances, #[trigger] cs[j], rcp)
                        + reserved_of(mid.balances, cs[j], rcp) + free_of(
                        mid.balances,
                        cs[j],
                        who,
                    ) <= Balance::MAX,
                forall|j: int|
                    0 <= j < cs.len() ==> reserved_of(mid.balances, #[trigger] cs[j], who) == 0,
                forall|j: int|
                    0 <= j < i ==> reserved_of(self@.balances, #[trigger] cs[j], who) == 0,
                rcp != who ==> forall|j: int|
                    0 <= j < i ==> free_of(self@.balances, #[trigger] cs[j], who) == 0
                        && free_of(self@.balances, cs[j], rcp) == free_of(mid.balances, cs[j], rcp)
                        + free_of(mid.balances, cs[j], who) && reserved_of(
                        self@.balances,
                        cs[j],
                        rcp,
                    ) == reserved_of(mid.balances, cs[j], rcp),
                rcp == who ==> self@ == mid,
                forall|c2: CurrencyId, a2: AccountId|
                    !cs.take(i as int).contains(c2) || (a2 != who && a2 != rcp)
                        ==> #[trigger] bal_lookup(self@.balances, c2, a2) == bal_lookup(
                        mid.balances,
                        c2,
                        a2,
                    ),
            decreases n - i,
        {
            let c = cfg.all_non_native_currency_ids[i];
            let ghost pre_iter = self@;
            proof {
                assert(!cs.take(i as int).contains(c)) by {
                    if cs.take(i as int).contains(c) {
                        let m = choose|m: int| 0 <= m < i && cs.take(i as int)[m] == c;
                        assert(cs[m] == cs[i as int]);
                    }
                }
                assert(bal_lookup(pre_iter.balances, c, who) == bal_lookup(mid.balances, c, who));
                assert(bal_lookup(pre_iter.balances, c, rcp) == bal_lookup(mid.balances, c, rcp));
            }
            if rcp != who {
                let wfree = self.free_balance(c, who);
                let rf = self.free_balance(c, rcp);
                let rr = self.reserved_balance(c, rcp);
                self.set_balance(c, who, 0, 0);
                self.set_balance(c, rcp, rf + wfree, rr);
            }
            proof {
                assert(cs.take(i as int + 1) =~= cs.take(i as int).push(cs[i as int]));
                assert forall|c2: CurrencyId, a2: AccountId|
                    !(c2 == c && (a2 == who || a2 == rcp)) implies #[trigger] bal_lookup(
                    self@.balances,
                    c2,
                    a2,
                ) == bal_lookup(pre_iter.balances, c2, a2) by {
                }
                assert forall|c2: CurrencyId, a2: AccountId|
                    !cs.take(i as int + 1).contains(c2) || (a2 != who && a2 != rcp)
                        implies #[trigger] bal_lookup(self@.balances, c2, a2) == bal_lookup(
                    mid.balances,
                    c2,
                    a2,
                ) by {
                    if !cs.take(i as int + 1).contains(c2) || (a2 != who && a2 != rcp) {
                        assert(cs.take(i as int + 1).contains(c)) by {
                            assert(cs.take(i as int + 1)[i as int] == c);
                        }
                        if !(c2 == c && (a2 == who || a2 == rcp)) {
                            assert(bal_lookup(self@.balances, c2, a2) == bal_lookup(
                                pre_iter.balances,
                                c2,
                                a2,
                            ));
                            assert(!cs.take(i as int).contains(c2) || (a2 != who && a2 != rcp))
                                by {
                                if cs.take(i as int).contains(c2) {
                                    let m = choose|m: int|
                                        0 <= m < i && cs.take(i as int)[m] == c2;
                                    assert(cs.take(i as int + 1)[m] == c2);
                                }
                            }
                        }
                    }
                }
            }
            i = i + 1;
        }
        proof {
            assert(cs.take(n as int) =~= cs);
        }
        self.push_event(Notification::Killed(who));
        proof {
            let pre = old(self)@;
            let fin = self@;
            assert forall|c2: CurrencyId, a2: AccountId|
                !(c2 == native && (a2 == who || a2 == rcp)) implies #[trigger] bal_lookup(
                mid.balances,
                c2,
                a2,
            ) == bal_lookup(pre.balances, c2, a2) by {
            }
            assert forall|c2: CurrencyId, a2: AccountId|
                !cs.contains(c2) || (a2 != who && a2 != rcp) implies #[trigger] bal_lookup(
                fin.balances,
                c2,
                a2,
            ) == bal_lookup(mid.balances, c2, a2) by {
            }
            assert(!cs.contains(native));
            assert(reserved_of(fin.balances, native, who) == 0);
            assert forall|j: int| 0 <= j < cs.len() implies {
                &&& reserved_of(fin.balances, #[trigger] cs[j], who) == 0
                &&& (rcp != who ==> free_of(fin.balances, cs[j], who) == 0 && free_of(
                    fin.balances,
                    cs[j],
                    rcp,
                ) == free_of(pre.balances, cs[j], rcp) + free_of(pre.balances, cs[j], who)
                    && reserved_of(fin.balances, cs[j], rcp) == reserved_of(
                    pre.balances,
                    cs[j],
                    rcp,
                ))
                &&& (rcp == who ==> free_of(fin.balances, cs[j], who) == free_of(
                    pre.balances,
                    cs[j],
                    who,
                ))
            } by {
                assert(cs.contains(cs[j]));
                assert(cs[j] != native);
                assert(bal_lookup(mid.balances, cs[j], who) == bal_lookup(pre.balances, cs[j], who));
                assert(bal_lookup(mid.balances, cs[j], rcp) == bal_lookup(pre.balances, cs[j], rcp));
            }
            assert forall|c2: CurrencyId, a2: AccountId|
                (a2 != who && a2 != rcp) || (c2 != native && !cs.contains(c2))
                    implies #[trigger] bal_lookup(fin.balances, c2, a2) == bal_lookup(
                pre.balances,
                c2,
                a2,
            ) by {
            }
            assert(close_effects(*cfg, pre, fin, who, rcp));
        }
        Ok(())
    }
}

/// What a successful close does to the state, relative to the state before:
/// the closer's fee currency is fully drained to the recipient (free and
/// unreserved reservation together), every other configured currency's free
/// balance is fully moved with its reservation already zero, nothing else is
/// touched, and the kill-account hook fires once.
pub open spec fn close_effects(
    cfg: Config,
    pre: StateV,
    post: StateV,
    who: AccountId,
    rcp: AccountId,
) -> bool {
    let native = cfg.native_currency_id;
    let cs = cfg.all_non_native_currency_ids@;
    &&& post.accounts == pre.accounts
    &&& post.events == pre.events.push(Notification::Killed(who))
    &&& reserved_of(post.balances, native, who) == 0
    &&& (rcp != who ==> {
        &&& free_of(post.balances, native, who) == 0
        &&& free_of(post.balances, native, rcp) == free_of(pre.balances, native, rcp) + free_of(
            pre.balances,
            native,
            who,
        ) + reserved_of(pre.balances, native, who)
        &&& reserved_of(post.balances, native, rcp) == reserved_of(pre.balances, native, rcp)
    })
    &&& (rcp == who ==> free_of(post.balances, native, who) == free_of(pre.balances, native, who)
        + reserved_of(pre.balances, native, who))
    &&& forall|j: int|
        0 <= j < cs.len() ==> {
            &&& reserved_of(post.balances, #[trigger] cs[j], who) == 0
            &&& (rcp != who ==> free_of(post.balances, cs[j], who) == 0 && free_of(
                post.balances,
                cs[j],
                rcp,
            ) == free_of(pre.balances, cs[j], rcp) + free_of(pre.balances, cs[j], who)
                && reserved_of(post.balances, cs[j], rcp) == reserved_of(pre.balances, cs[j], rcp))
            &&& (rcp == who ==> free_of(post.balances, cs[j], who) == free_of(
                pre.balances,
                cs[j],
                who,
            ))
        }
    &&& forall|c2: CurrencyId, a2: AccountId|
        (a2 != who && a2 != rcp) || (c2 != native && !cs.contains(c2))
            ==> #[trigger] bal_lookup(post.balances, c2, a2) == bal_lookup(pre.balances, c2, a2)
}

} // verus!
