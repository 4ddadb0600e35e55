//! The fee charger: a validation / pre-dispatch / post-dispatch state
//! machine that collects the transaction fee in the fee currency, falls back
//! to the exchange when the payer holds other currencies, computes the
//! scheduling priority, and reconciles the charge after execution.
//!
//! The ledger's standard fee formula and its post-execution counterpart are
//! outside this crate; callers hand in the computed `fee` and `actual_fee`
//! as plain values, and every value is handled.

use vstd::prelude::*;
use crate::{AccountId, Balance, TransactionPriority, Weight};
use crate::model::{StateV, bal_lookup, explicit_of, free_of, reserved_of};
use crate::state::{Config, Module};
use crate::hook::{SwapQuote, quote_ok};

verus! {

/// A transaction-validity failure: the fee could not be withdrawn even
/// after every swap fallback.
#[derive(Clone, Copy, PartialEq, Eq, Structural, Debug)]
pub enum TransactionValidityError {
    /// The payer cannot cover the fee; the transaction is rejected.
    Payment,
}

/// An amount withdrawn from the payer and not yet redistributed.
#[derive(Clone, Copy, PartialEq, Eq, Structural, Debug)]
pub struct Imbalance {
    /// The withdrawn amount.
    pub amount: Balance,
}

/// The validity verdict of a transaction: its scheduling priority.
#[derive(Clone, Copy, PartialEq, Eq, Structural, Debug)]
pub struct ValidTransaction {
    /// Scheduling priority: higher schedules earlier.
    pub priority: TransactionPriority,
}

/// The part of a dispatch's metadata this crate reads.
#[derive(Clone, Copy, PartialEq, Eq, Structural, Debug)]
pub struct DispatchInfo {
    /// The dispatch's weight.
    pub weight: Weight,
}

/// The collected charge split for redistribution.
#[derive(Clone, Copy, PartialEq, Eq, Structural, Debug)]
pub struct FeeSplit {
    /// The tip portion, capped by what was actually collected.
    pub tip: Balance,
    /// The remaining pure-fee portion.
    pub fee: Balance,
}

/// The transient per-transaction record carried from pre-dispatch to
/// post-dispatch: tip, payer, the collected imbalance, and the charged fee.
pub type Pre = (Balance, AccountId, Option<Imbalance>, Balance);

// ---------------------------------------------------------------------------
// First successful swap quote
// ---------------------------------------------------------------------------

/// Index of the first successful quote, or `qs.len()` if none succeeded.
pub open spec fn qidx(qs: Seq<SwapQuote>) -> int
    decreases qs.len(),
{
    if qs.len() == 0 {
        0
    } else if qs[0].success {
        0
    } else {
        1 + qidx(qs.skip(1))
    }
}

/// Characterisation of `qidx`: it is the first successful position.
pub proof fn lemma_qidx(qs: Seq<SwapQuote>)
    ensures
        0 <= qidx(qs) <= qs.len(),
        qidx(qs) < qs.len() ==> qs[qidx(qs)].success,
        forall|j: int| 0 <= j < qidx(qs) ==> !(#[trigger] qs[j]).success,
        qidx(qs) == qs.len() ==> forall|j: int| 0 <= j < qs.len() ==> !(#[trigger] qs[j]).success,
    decreases qs.len(),
{
    if qs.len() == 0 {
    } else if qs[0].success {
    } else {
        lemma_qidx(qs.skip(1));
        assert forall|j: int|
            1 <= j < qs.len() implies qs.skip(1)[j - 1] == qs[j] by {
        }
    }
}

/// Find the first successful quote.
fn first_success(quotes: &Vec<SwapQuote>) -> (r: Option<usize>)
    ensures
        match r {
            Some(i) => i as int == qidx(quotes@) && (i as int) < quotes@.len(),
            None => qidx(quotes@) == quotes@.len(),
        },
{
    proof {
        lemma_qidx(quotes@);
    }
    let n = quotes.len();
    let mut i: usize = 0;
    while i < n
        invariant
            n == quotes@.len(),
            0 <= i <= n,
            forall|j: int| 0 <= j < i ==> !(#[trigger] quotes@[j]).success,
        decreases n - i,
    {
        if quotes[i].success {
            proof {
                lemma_qidx(quotes@);
                if qidx(quotes@) < i as int {
                    assert(!quotes@[qidx(quotes@)].success);
                }
            }
            return Some(i);
        }
        i = i + 1;
    }
    None
}

// ---------------------------------------------------------------------------
// Contract vocabulary
// ---------------------------------------------------------------------------

/// When the fee can be withdrawn at all: either the payer's free fee
/// currency covers it, or some quote in the fallback order succeeds.
pub open spec fn can_withdraw_fee(
    cfg: Config,
    v: StateV,
    who: AccountId,
    fee: Balance,
    qs: Seq<SwapQuote>,
) -> bool {
    free_of(v.balances, cfg.native_currency_id, who) >= fee || qidx(qs) < qs.len()
}

/// What a successful withdrawal does to the state: either the fee leaves
/// the payer's fee-currency row directly, or the first successful swap
/// consumed its supply while the delivered fee was withdrawn at once,
/// leaving the fee-currency row as it was.  Nothing else moves.
pub open spec fn withdraw_effects(
    cfg: Config,
    pre: StateV,
    post: StateV,
    who: AccountId,
    fee: Balance,
    qs: Seq<SwapQuote>,
) -> bool {
    let native = cfg.native_currency_id;
    let cs = cfg.all_non_native_currency_ids@;
    &&& post.accounts == pre.accounts
    &&& post.events == pre.events
    &&& if free_of(pre.balances, native, who) >= fee {
        &&& free_of(post.balances, native, who) == free_of(pre.balances, native, who) - fee
        &&& reserved_of(post.balances, native, who) == reserved_of(pre.balances, native, who)
        &&& forall|c2: crate::CurrencyId, a2: AccountId|
            !(c2 == native && a2 == who) ==> #[trigger] bal_lookup(post.balances, c2, a2)
                == bal_lookup(pre.balances, c2, a2)
    } else {
        let j = qidx(qs);
        &&& j < qs.len()
        &&& free_of(post.balances, cs[j], who) == free_of(pre.balances, cs[j], who)
            - qs[j].supply_consumed
        &&& reserved_of(post.balances, cs[j], who) == reserved_of(pre.balances, cs[j], who)
        &&& free_of(post.balances, native, who) == free_of(pre.balances, native, who)
        &&& reserved_of(post.balances, native, who) == reserved_of(pre.balances, native, who)
        &&& forall|c2: crate::CurrencyId, a2: AccountId|
            !((c2 == native || c2 == cs[j]) && a2 == who) ==> #[trigger] bal_lookup(
                post.balances,
                c2,
                a2,
            ) == bal_lookup(pre.balances, c2, a2)
    }
}

/// Every quote respects what the exchange guarantees, in the fallback
/// order's alignment: quote `j` speaks of the `j`-th non-native currency.
pub open spec fn quotes_ok(
    cfg: Config,
    v: StateV,
    who: AccountId,
    fee: Balance,
    qs: Seq<SwapQuote>,
) -> bool {
    &&& qs.len() == cfg.all_non_native_currency_ids@.len()
    &&& forall|j: int|
        0 <= j < qs.len() ==> quote_ok(
            cfg,
            v,
            cfg.all_non_native_currency_ids@[j],
            who,
            fee,
            #[trigger] qs[j],
        )
}

// ---------------------------------------------------------------------------
// Saturating arithmetic of the priority formula
// ---------------------------------------------------------------------------

/// Clamp a non-negative mathematical integer into a priority.
pub open spec fn clamp_priority(x: int) -> TransactionPriority {
    if x > TransactionPriority::MAX as int {
        TransactionPriority::MAX
    } else {
        x as TransactionPriority
    }
}

/// The priority formula: the fee, scaled by how small a share of the block's
/// scarcest resource (weight or length) the transaction consumes, saturating
/// at every step.
pub open spec fn spec_priority(
    cfg: Config,
    len: usize,
    weight: Weight,
    final_fee: Balance,
) -> TransactionPriority {
    let w: Weight = if weight == 0 {
        1u64
    } else {
        weight
    };
    let l: u64 = if len == 0 {
        1u64
    } else {
        len as u64
    };
    let weight_saturation: u64 = cfg.maximum_block_weight / w;
    let len_saturation: u64 = (cfg.maximum_block_length as u64) / l;
    let coefficient: u64 = if weight_saturation <= len_saturation {
        weight_saturation
    } else {
        len_saturation
    };
    clamp_priority((final_fee as int) * (coefficient as int))
}

// ---------------------------------------------------------------------------
// The charging extension
// ---------------------------------------------------------------------------

/// Require the transactor to pay for themselves, maybe with a tip for
/// additional priority in the queue.  On the wire this extension is the
/// single compact-encoded tip amount.
#[derive(Clone, Copy, PartialEq, Eq, Structural, Debug)]
pub struct ChargeTransactionPayment(Balance);

impl ChargeTransactionPayment {
    /// The tip carried by this extension.
    pub closed spec fn tip_spec(&self) -> Balance {
        self.0
    }

    /// Utility constructor, used in client and factory code.
    pub fn from(fee: Balance) -> (r: Self)
        ensures
            r.tip_spec() == fee,
    {
        ChargeTransactionPayment(fee)
    }

    /// The tip carried by this extension.
    pub fn tip(&self) -> (r: Balance)
        ensures
            r == self.tip_spec(),
    {
        self.0
    }

    /// The extension adds nothing to the signed payload.
    pub fn additional_signed(&self) -> (r: Result<(), TransactionValidityError>)
        ensures
            r == Ok::<(), TransactionValidityError>(()),
    {
        Ok(())
    }

    /// Withdraw `fee` (computed by the ledger's fee formula from the
    /// encoded length, the dispatch info and the tip) from `who`.  When the
    /// free fee-currency balance cannot cover it, the configured non-native
    /// currencies are tried in order against the exchange's verdicts
    /// `quotes`, each targeting the whole fee; the first success funds the
    /// payer.  The withdrawal itself is then attempted and its failure is a
    /// payment-invalidity rejection that leaves every balance untouched.
    pub fn withdraw_fee(
        &self,
        m: &mut Module,
        cfg: &Config,
        who: AccountId,
        fee: Balance,
        quotes: &Vec<SwapQuote>,
    ) -> (r: Result<(Balance, Option<Imbalance>), TransactionValidityError>)
        requires
            old(m).wf(),
            cfg.wf(),
            quotes_ok(*cfg, old(m)@, who, fee, quotes@),
        ensures
            final(m).wf(),
            r is Ok <==> can_withdraw_fee(*cfg, old(m)@, who, fee, quotes@),
            r is Err ==> r == Err::<(Balance, Option<Imbalance>), TransactionValidityError>(
                TransactionValidityError::Payment,
            ) && final(m)@ == old(m)@,
            r matches Ok(p) ==> p.0 == fee && p.1 == Some((Imbalance { amount: fee }))
                && withdraw_effects(*cfg, old(m)@, final(m)@, who, fee, quotes@),
    {
        let ghost cs = cfg.all_non_native_currency_ids@;
        let native = cfg.native_currency_id;
        let free_n = m.free_balance(native, who);
        let native_is_enough = free_n >= fee;
        if !native_is_enough {
            match first_success(quotes) {
                Some(j) => {
                    let c = cfg.all_non_native_currency_ids[j];
                    let q = quotes[j];
                    proof {
                        lemma_qidx(quotes@);
                        assert(cs.contains(cs[j as int]));
                        assert(q.success);
                        assert(quote_ok(*cfg, old(m)@, cs[j as int], who, fee, q));
                    }
                    let f = m.free_balance(c, who);
                    let rr = m.reserved_balance(c, who);
                    proof {
                        crate::model::lemma_bal_idx(m@.balances, c, who);
                    }
                    m.set_balance(c, who, f - q.supply_consumed, rr);
                    let f2 = m.free_balance(native, who);
                    let r2 = m.reserved_balance(native, who);
                    m.set_balance(native, who, f2 + fee, r2);
                },
                None => {},
            }
        }
        let f = m.free_balance(native, who);
        if f >= fee {
            let r2 = m.reserved_balance(native, who);
            proof {
                crate::model::lemma_bal_idx(m@.balances, native, who);
                assert(f + r2 <= Balance::MAX);
            }
            m.set_balance(native, who, f - fee, r2);
            Ok((fee, Some(Imbalance { amount: fee })))
        } else {
            Err(TransactionValidityError::Payment)
        }
    }

    /// The scheduling priority for a transaction of the given length and
    /// weight that paid `final_fee`: the more of the block's scarcest
    /// resource it consumes for the same fee, the lower it schedules.
    pub fn get_priority(
        cfg: &Config,
        len: usize,
        info: &DispatchInfo,
        final_fee: Balance,
    ) -> (r: TransactionPriority)
        ensures
            r == spec_priority(*cfg, len, info.weight, final_fee),
    {
        let w: u64 = if info.weight == 0 {
            1
        } else {
            info.weight
        };
        let l: u64 = if len == 0 {
            1
        } else {
            len as u64
        };
        let weight_saturation: u64 = cfg.maximum_block_weight / w;
        let len_saturation: u64 = (cfg.maximum_block_length as u64) / l;
        let coefficient: u64 = if weight_saturation <= len_saturation {
            weight_saturation
        } else {
            len_saturation
        };
        match final_fee.checked_mul(coefficient as u128) {
            Some(p) => {
                if p > u64::MAX as u128 {
                    u64::MAX
                } else {
                    p as u64
                }
            },
            None => u64::MAX,
        }
    }

    /// Validate: charge the fee (the collected imbalance is not retained)
    /// and report the transaction's priority.
    pub fn validate(
        &self,
        m: &mut Module,
        cfg: &Config,
        who: AccountId,
        fee: Balance,
        quotes: &Vec<SwapQuote>,
        info: &DispatchInfo,
        len: usize,
    ) -> (r: Result<ValidTransaction, TransactionValidityError>)
        requires
            old(m).wf(),
            cfg.wf(),
            quotes_ok(*cfg, old(m)@, who, fee, quotes@),
        ensures
            final(m).wf(),
            r is Ok <==> can_withdraw_fee(*cfg, old(m)@, who, fee, quotes@),
            r is Err ==> r == Err::<ValidTransaction, TransactionValidityError>(
                TransactionValidityError::Payment,
            ) && final(m)@ == old(m)@,
            r matches Ok(v) ==> v.priority == spec_priority(*cfg, len, info.weight, fee)
                && withdraw_effects(*cfg, old(m)@, final(m)@, who, fee, quotes@),
    {
        match self.withdraw_fee(m, cfg, who, fee, quotes) {
            Ok((paid_fee, _imbalance)) => Ok(
                ValidTransaction { priority: Self::get_priority(cfg, len, info, paid_fee) },
            ),
            Err(e) => Err(e),
        }
    }

    /// Pre-dispatch: charge the fee and carry `(tip, payer, imbalance,
    /// fee)` forward into dispatch.
    pub fn pre_dispatch(
        self,
        m: &mut Module,
        cfg: &Config,
        who: AccountId,
        fee: Balance,
        quotes: &Vec<SwapQuote>,
    ) -> (r: Result<Pre, TransactionValidityError>)
        requires
            old(m).wf(),
            cfg.wf(),
            quotes_ok(*cfg, old(m)@, who, fee, quotes@),
        ensures
            final(m).wf(),
            r is Ok <==> can_withdraw_fee(*cfg, old(m)@, who, fee, quotes@),
            r is Err ==> r == Err::<Pre, TransactionValidityError>(
                TransactionValidityError::Payment,
            ) && final(m)@ == old(m)@,
            r matches Ok(p) ==> p == (
                self.tip_spec(),
                who,
                Some((Imbalance { amount: fee })),
                fee,
            ) && withdraw_effects(*cfg, old(m)@, final(m)@, who, fee, quotes@),
    {
        match self.withdraw_fee(m, cfg, who, fee, quotes) {
            Ok((paid_fee, imbalance)) => Ok((self.0, who, imbalance, paid_fee)),
            Err(e) => Err(e),
        }
    }

    /// Post-dispatch: recompute what was actually owed (`actual_fee`, from
    /// the ledger's fee formula over the post-execution weight), refund the
    /// difference if the payer's account can still take it — a failed
    /// refund deposit is an accepted loss — and split the net charge into
    /// its tip and pure-fee portions for the distribution hook.
    pub fn post_dispatch(
        pre: Pre,
        m: &mut Module,
        cfg: &Config,
        actual_fee: Balance,
    ) -> (r: Result<Option<FeeSplit>, TransactionValidityError>)
        requires
            old(m).wf(),
        ensures
            final(m).wf(),
            pre.2 is None ==> r == Ok::<Option<FeeSplit>, TransactionValidityError>(None)
                && final(m)@ == old(m)@,
            pre.2 matches Some(payed) ==> post_dispatch_effects(
                *cfg,
                old(m)@,
                final(m)@,
                pre.0,
                pre.1,
                payed,
                pre.3,
                actual_fee,
                r,
            ),
    {
        let (tip, who, imbalance, fee) = pre;
        match imbalance {
            Some(payed) => {
                let refund = if fee >= actual_fee {
                    fee - actual_fee
                } else {
                    0
                };
                let native = cfg.native_currency_id;
                let expl = m.is_explicit(who);
                let f = m.free_balance(native, who);
                let rr = m.reserved_balance(native, who);
                let fits = match f.checked_add(refund) {
                    Some(x) => x.checked_add(rr).is_some(),
                    None => false,
                };
                if expl && fits {
                    m.set_balance(native, who, f + refund, rr);
                    if refund <= payed.amount {
                        let actual_payment = payed.amount - refund;
                        let t = if tip <= actual_payment {
                            tip
                        } else {
                            actual_payment
                        };
                        Ok(Some(FeeSplit { tip: t, fee: actual_payment - t }))
                    } else {
                        Err(TransactionValidityError::Payment)
                    }
                } else {
                    let t = if tip <= payed.amount {
                        tip
                    } else {
                        payed.amount
                    };
                    Ok(Some(FeeSplit { tip: t, fee: payed.amount - t }))
                }
            },
            None => Ok(None),
        }
    }
}

/// `a - b`, floored at zero.
pub open spec fn sat_sub(a: Balance, b: Balance) -> Balance {
    if a >= b {
        (a - b) as Balance
    } else {
        0
    }
}

/// Splitting a collected amount: the tip portion is capped by what was
/// collected; the rest is the pure fee.
pub open spec fn spec_fee_split(amount: Balance, tip: Balance) -> FeeSplit {
    let t = if tip <= amount {
        tip
    } else {
        amount
    };
    FeeSplit { tip: t, fee: (amount - t) as Balance }
}

/// What reconciliation does when an imbalance was collected: the refund
/// (the charge minus what was actually owed, floored at zero) is deposited
/// back when the payer's account still exists and its row can take it,
/// otherwise the charge stands; the net charge is split for distribution.
pub open spec fn post_dispatch_effects(
    cfg: Config,
    pre_state: StateV,
    post_state: StateV,
    tip: Balance,
    who: AccountId,
    payed: Imbalance,
    fee: Balance,
    actual_fee: Balance,
    r: Result<Option<FeeSplit>, TransactionValidityError>,
) -> bool {
    let native = cfg.native_currency_id;
    let refund = sat_sub(fee, actual_fee);
    let refundable = explicit_of(pre_state.accounts, who) && free_of(pre_state.balances, native, who)
        + refund + reserved_of(pre_state.balances, native, who) <= Balance::MAX;
    &&& post_state.accounts == pre_state.accounts
    &&& post_state.events == pre_state.events
    &&& (!refundable ==> post_state == pre_state && r == Ok::<
        Option<FeeSplit>,
        TransactionValidityError,
    >(Some(spec_fee_split(payed.amount, tip))))
    &&& (refundable ==> {
        &&& free_of(post_state.balances, native, who) == free_of(pre_state.balances, native, who)
            + refund
        &&& reserved_of(post_state.balances, native, who) == reserved_of(
            pre_state.balances,
            native,
            who,
        )
        &&& forall|c2: crate::CurrencyId, a2: AccountId|
            !(c2 == native && a2 == who) ==> #[trigger] bal_lookup(post_state.balances, c2, a2)
                == bal_lookup(pre_state.balances, c2, a2)
        &&& (refund <= payed.amount ==> r == Ok::<Option<FeeSplit>, TransactionValidityError>(
            Some(spec_fee_split(sat_sub(payed.amount, refund), tip)),
        ))
        &&& (refund > payed.amount ==> r == Err::<Option<FeeSplit>, TransactionValidityError>(
            TransactionValidityError::Payment,
        ))
    })
}

} // verus!
