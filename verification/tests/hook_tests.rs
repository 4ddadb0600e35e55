use ledger_accounts::hook::{trading_path, SwapQuote};
use ledger_accounts::state::{Config, Module};

fn test_config() -> Config {
    Config {
        all_non_native_currency_ids: vec![1, 2],
        native_currency_id: 0,
        stable_currency_id: 1,
        new_account_deposit: 100,
        treasury_account: 999,
        max_slippage_swap_ppm: 50_000,
        maximum_block_weight: 1000,
        maximum_block_length: 1000,
    }
}

const ALICE: u64 = 5;

#[test]
fn the_path_is_direct_from_the_intermediate_currency() {
    let cfg = test_config();
    assert_eq!(trading_path(&cfg, 1), vec![1, 0]);
}

#[test]
fn the_path_routes_through_the_intermediate_currency_otherwise() {
    let cfg = test_config();
    assert_eq!(trading_path(&cfg, 2), vec![2, 1, 0]);
}

#[test]
fn a_successful_swap_funds_the_deposit_from_the_received_currency() {
    let cfg = test_config();
    let mut m = Module::new();
    m.set_balance(2, ALICE, 1000, 0);
    m.on_received(&cfg, ALICE, 2, SwapQuote { success: true, supply_consumed: 30 });
    assert_eq!(m.free_balance(2, ALICE), 970);
    assert_eq!(m.free_balance(0, ALICE), 100);
}

#[test]
fn a_failed_swap_is_swallowed() {
    let cfg = test_config();
    let mut m = Module::new();
    m.set_balance(2, ALICE, 1000, 0);
    m.on_received(&cfg, ALICE, 2, SwapQuote { success: false, supply_consumed: 0 });
    assert_eq!(m.free_balance(2, ALICE), 1000);
    assert_eq!(m.free_balance(0, ALICE), 0);
    assert!(m.events().is_empty());
}

#[test]
fn an_explicit_account_is_left_alone() {
    let cfg = test_config();
    let mut m = Module::new();
    m.set_balance(0, ALICE, 1000, 0);
    m.insert(&cfg, ALICE, 1);
    m.set_balance(2, ALICE, 500, 0);
    m.on_received(&cfg, ALICE, 2, SwapQuote { success: true, supply_consumed: 30 });
    assert_eq!(m.free_balance(2, ALICE), 500);
    assert_eq!(m.free_balance(0, ALICE), 900);
}

#[test]
fn receiving_the_fee_currency_itself_triggers_nothing() {
    let cfg = test_config();
    let mut m = Module::new();
    m.set_balance(0, ALICE, 50, 0);
    m.on_received(&cfg, ALICE, 0, SwapQuote { success: true, supply_consumed: 10 });
    assert_eq!(m.free_balance(0, ALICE), 50);
}
