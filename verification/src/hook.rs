//! The auto-open-on-receive hook: when a not-yet-explicit account receives a
//! non-fee currency, the exchange is asked to deliver exactly the creation
//! deposit of the fee currency, consuming up to the whole received balance.
//! A failed swap is swallowed; the receive is never blocked.

use vstd::prelude::*;
use crate::{AccountId, Balance, CurrencyId};
use crate::model::{StateV, bal_lookup, explicit_of, free_of, reserved_of};
use crate::state::{Config, Module};

verus! {

/// The exchange's verdict on one attempted swap with an exact target: either
/// it failed, or it delivered the target while consuming `supply_consumed`
/// of the supplied currency.  The exchange's pricing is outside this crate;
/// every verdict within these bounds is handled.
#[derive(Clone, Copy, PartialEq, Eq, Structural, Debug)]
pub struct SwapQuote {
    /// Whether the exchange could deliver the target within the slippage
    /// bound.
    pub success: bool,
    /// How much of the supplied currency it consumed on success.
    pub supply_consumed: Balance,
}

/// What every successful verdict guarantees: no more than the supply limit
/// (the account's free balance of the supplied currency) is consumed, and
/// the credited fee-currency row stays in range.
pub open spec fn quote_ok(
    cfg: Config,
    v: StateV,
    currency_id: CurrencyId,
    who: AccountId,
    target: Balance,
    q: SwapQuote,
) -> bool {
    q.success ==> {
        &&& q.supply_consumed <= free_of(v.balances, currency_id, who)
        &&& free_of(v.balances, cfg.native_currency_id, who) + reserved_of(
            v.balances,
            cfg.native_currency_id,
            who,
        ) + target <= Balance::MAX
    }
}

/// The ordered list of currencies the exchange is asked to route through:
/// direct when the received currency is the intermediate one, otherwise via
/// the intermediate currency.
pub open spec fn spec_trading_path(cfg: Config, currency_id: CurrencyId) -> Seq<CurrencyId> {
    if currency_id == cfg.stable_currency_id {
        seq![cfg.stable_currency_id, cfg.native_currency_id]
    } else {
        seq![currency_id, cfg.stable_currency_id, cfg.native_currency_id]
    }
}

/// Build the trading path from the received currency to the fee currency.
pub fn trading_path(cfg: &Config, currency_id: CurrencyId) -> (r: Vec<CurrencyId>)
    ensures
        r@ == spec_trading_path(*cfg, currency_id),
{
    let mut r: Vec<CurrencyId> = Vec::new();
    if currency_id == cfg.stable_currency_id {
        r.push(cfg.stable_currency_id);
        r.push(cfg.native_currency_id);
        proof {
            assert(r@ =~= spec_trading_path(*cfg, currency_id));
        }
    } else {
        r.push(currency_id);
        r.push(cfg.stable_currency_id);
        r.push(cfg.native_currency_id);
        proof {
            assert(r@ =~= spec_trading_path(*cfg, currency_id));
        }
    }
    r
}

impl Module {
    /// Hook run by the ledger when `who` receives `currency_id`.  When the
    /// account is not yet explicit and the currency is not the fee currency,
    /// the exchange's verdict `quote` (target: the creation deposit; supply
    /// limit: the whole free balance of the received currency) is applied.
    /// In every other case, and on a failed swap, nothing changes: dust is
    /// never recycled here, and a retry is implicit on the next receive.
    pub fn on_received(
        &mut self,
        cfg: &Config,
        who: AccountId,
        currency_id: CurrencyId,
        quote: SwapQuote,
    )
        requires
            old(self).wf(),
            quote_ok(*cfg, old(self)@, currency_id, who, cfg.new_account_deposit, quote),
        ensures
            final(self).wf(),
            final(self)@.accounts == old(self)@.accounts,
            final(self)@.events == old(self)@.events,
            explicit_of(old(self)@.accounts, who) || currency_id == cfg.native_currency_id
                || !quote.success ==> final(self)@ == old(self)@,
            !explicit_of(old(self)@.accounts, who) && currency_id != cfg.native_currency_id
                && quote.success ==> {
                &&& free_of(final(self)@.balances, currency_id, who) == free_of(
                    old(self)@.balances,
                    currency_id,
                    who,
                ) - quote.supply_consumed
                &&& reserved_of(final(self)@.balances, currency_id, who) == reserved_of(
                    old(self)@.balances,
                    currency_id,
                    who,
                )
                &&& free_of(final(self)@.balances, cfg.native_currency_id, who) == free_of(
                    old(self)@.balances,
                    cfg.native_currency_id,
                    who,
                ) + cfg.new_account_deposit
                &&& reserved_of(final(self)@.balances, cfg.native_currency_id, who) == reserved_of(
                    old(self)@.balances,
                    cfg.native_currency_id,
                    who,
                )
                &&& forall|c2: CurrencyId, a2: AccountId|
                    !((c2 == currency_id || c2 == cfg.native_currency_id) && a2 == who)
                        ==> #[trigger] bal_lookup(final(self)@.balances, c2, a2) == bal_lookup(
                        old(self)@.balances,
                        c2,
                        a2,
                    )
            },
    {
        if !self.is_explicit(who) && currency_id != cfg.native_currency_id {
            if quote.success {
                let f = self.free_balance(currency_id, who);
                let r = self.reserved_balance(currency_id, who);
                let fnat = self.free_balance(cfg.native_currency_id, who);
                let rnat = self.reserved_balance(cfg.native_currency_id, who);
                proof {
                    crate::model::lemma_bal_idx(self@.balances, currency_id, who);
                }
                self.set_balance(currency_id, who, f - quote.supply_consumed, r);
                self.set_balance(cfg.native_currency_id, who, fnat + cfg.new_account_deposit, rnat);
            }
        }
    }
}

} // verus!
