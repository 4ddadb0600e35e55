use ledger_accounts::fee::{
    ChargeTransactionPayment, DispatchInfo, FeeSplit, Imbalance, TransactionValidityError,
};
use ledger_accounts::hook::SwapQuote;
use ledger_accounts::state::{Config, Module};

fn test_config() -> Config {
    Config {
        all_non_native_currency_ids: vec![1, 2],
        native_currency_id: 0,
        stable_currency_id: 1,
        new_account_deposit: 100,
        treasury_account: 999,
        max_slippage_swap_ppm: 50_000,
        maximum_block_weight: 1000,
        maximum_block_length: 1000,
    }
}

const ALICE: u64 = 5;

fn no_swap() -> Vec<SwapQuote> {
    vec![
        SwapQuote { success: false, supply_consumed: 0 },
        SwapQuote { success: false, supply_consumed: 0 },
    ]
}

#[test]
fn priority_follows_the_documented_formula() {
    let cfg = test_config();
    // weight_saturation = 1000 / 10 = 100, len_saturation = 1000 / 100 = 10,
    // coefficient = 10, priority = 10 * 10 = 100
    let p = ChargeTransactionPayment::get_priority(&cfg, 100, &DispatchInfo { weight: 10 }, 10);
    assert_eq!(p, 100);
}

#[test]
fn priority_treats_zero_weight_and_length_as_one() {
    let cfg = test_config();
    let p = ChargeTransactionPayment::get_priority(&cfg, 0, &DispatchInfo { weight: 0 }, 3);
    // 1000 / 1 = 1000 both ways; coefficient 1000
    assert_eq!(p, 3000);
}

#[test]
fn priority_saturates_instead_of_overflowing() {
    let cfg = test_config();
    let p = ChargeTransactionPayment::get_priority(
        &cfg,
        1,
        &DispatchInfo { weight: 1 },
        u128::MAX,
    );
    assert_eq!(p, u64::MAX);
}

#[test]
fn priority_is_zero_for_a_maximal_weight_and_modest_fee() {
    let cfg = test_config();
    let p = ChargeTransactionPayment::get_priority(
        &cfg,
        1,
        &DispatchInfo { weight: u64::MAX },
        7,
    );
    assert_eq!(p, 0);
}

#[test]
fn priority_is_antitone_in_weight_and_length() {
    let cfg = test_config();
    let fee = 12345u128;
    let mut last = u64::MAX;
    for w in [1u64, 2, 10, 100, 1000, 10_000] {
        let p = ChargeTransactionPayment::get_priority(&cfg, 50, &DispatchInfo { weight: w }, fee);
        assert!(p <= last);
        last = p;
    }
    let mut last = u64::MAX;
    for l in [1usize, 2, 10, 100, 1000, 10_000] {
        let p = ChargeTransactionPayment::get_priority(&cfg, l, &DispatchInfo { weight: 50 }, fee);
        assert!(p <= last);
        last = p;
    }
}

#[test]
fn withdraw_fee_takes_the_fee_currency_directly_when_it_suffices() {
    let cfg = test_config();
    let mut m = Module::new();
    m.set_balance(0, ALICE, 100, 3);
    let charge = ChargeTransactionPayment::from(0);
    let r = charge.withdraw_fee(&mut m, &cfg, ALICE, 10, &no_swap());
    assert_eq!(r, Ok((10, Some(Imbalance { amount: 10 }))));
    assert_eq!(m.free_balance(0, ALICE), 90);
    assert_eq!(m.reserved_balance(0, ALICE), 3);
}

#[test]
fn withdraw_fee_swaps_the_first_successful_currency() {
    let cfg = test_config();
    let mut m = Module::new();
    m.set_balance(0, ALICE, 5, 0);
    m.set_balance(2, ALICE, 40, 0);
    let quotes = vec![
        SwapQuote { success: false, supply_consumed: 0 },
        SwapQuote { success: true, supply_consumed: 30 },
    ];
    let charge = ChargeTransactionPayment::from(0);
    let r = charge.withdraw_fee(&mut m, &cfg, ALICE, 10, &quotes);
    assert_eq!(r, Ok((10, Some(Imbalance { amount: 10 }))));
    // the swap delivered exactly the fee, which was withdrawn at once
    assert_eq!(m.free_balance(0, ALICE), 5);
    assert_eq!(m.free_balance(2, ALICE), 10);
}

#[test]
fn withdraw_fee_rejects_the_payment_when_nothing_covers_it() {
    let cfg = test_config();
    let mut m = Module::new();
    m.set_balance(0, ALICE, 5, 0);
    let charge = ChargeTransactionPayment::from(0);
    let r = charge.withdraw_fee(&mut m, &cfg, ALICE, 10, &no_swap());
    assert_eq!(r, Err(TransactionValidityError::Payment));
    assert_eq!(m.free_balance(0, ALICE), 5);
}

#[test]
fn validate_reports_the_priority_of_the_charged_fee() {
    let cfg = test_config();
    let mut m = Module::new();
    m.set_balance(0, ALICE, 100, 0);
    let charge = ChargeTransactionPayment::from(0);
    let r = charge.validate(&mut m, &cfg, ALICE, 10, &no_swap(), &DispatchInfo { weight: 10 }, 100);
    let v = r.unwrap();
    assert_eq!(v.priority, 100);
    assert_eq!(m.free_balance(0, ALICE), 90);
}

#[test]
fn pre_dispatch_carries_the_charge_record_forward() {
    let cfg = test_config();
    let mut m = Module::new();
    m.set_balance(0, ALICE, 100, 0);
    let charge = ChargeTransactionPayment::from(2);
    let pre = charge.pre_dispatch(&mut m, &cfg, ALICE, 10, &no_swap()).unwrap();
    assert_eq!(pre, (2, ALICE, Some(Imbalance { amount: 10 }), 10));
}

#[test]
fn post_dispatch_refunds_the_unspent_part_and_splits_the_rest() {
    let cfg = test_config();
    let mut m = Module::new();
    m.set_balance(0, ALICE, 1000, 0);
    m.insert(&cfg, ALICE, 1);
    let free_before = m.free_balance(0, ALICE);
    let pre = (2u128, ALICE, Some(Imbalance { amount: 10 }), 10u128);
    let r = ChargeTransactionPayment::post_dispatch(pre, &mut m, &cfg, 4);
    assert_eq!(r, Ok(Some(FeeSplit { tip: 2, fee: 2 })));
    assert_eq!(m.free_balance(0, ALICE), free_before + 6);
}

#[test]
fn post_dispatch_swallows_the_refund_when_the_account_vanished() {
    let cfg = test_config();
    let mut m = Module::new();
    // the payer never became explicit: the refund deposit fails, the whole
    // charge stands and is distributed
    let pre = (2u128, ALICE, Some(Imbalance { amount: 10 }), 10u128);
    let r = ChargeTransactionPayment::post_dispatch(pre, &mut m, &cfg, 4);
    assert_eq!(r, Ok(Some(FeeSplit { tip: 2, fee: 8 })));
    assert_eq!(m.free_balance(0, ALICE), 0);
}

#[test]
fn post_dispatch_without_an_imbalance_does_nothing() {
    let cfg = test_config();
    let mut m = Module::new();
    let pre = (2u128, ALICE, None, 10u128);
    let r = ChargeTransactionPayment::post_dispatch(pre, &mut m, &cfg, 4);
    assert_eq!(r, Ok(None));
}

#[test]
fn post_dispatch_caps_the_tip_by_what_was_collected() {
    let cfg = test_config();
    let mut m = Module::new();
    let pre = (50u128, ALICE, Some(Imbalance { amount: 10 }), 10u128);
    let r = ChargeTransactionPayment::post_dispatch(pre, &mut m, &cfg, 10);
    assert_eq!(r, Ok(Some(FeeSplit { tip: 10, fee: 0 })));
}

#[test]
fn the_tip_and_the_signed_extras_are_exposed() {
    let charge = ChargeTransactionPayment::from(42);
    assert_eq!(charge.tip(), 42);
    assert_eq!(charge.additional_signed(), Ok(()));
}
