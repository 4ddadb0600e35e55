use ledger_accounts::model::Notification;
use ledger_accounts::state::{Config, Error, Module};

fn test_config() -> Config {
    Config {
        all_non_native_currency_ids: vec![1, 2],
        native_currency_id: 0,
        stable_currency_id: 1,
        new_account_deposit: 100,
        treasury_account: 999,
        max_slippage_swap_ppm: 50_000,
        maximum_block_weight: 1000,
        maximum_block_length: 1000,
    }
}

const ALICE: u64 = 5;
const BOB: u64 = 6;

#[test]
fn close_moves_everything_to_the_recipient() {
    let cfg = test_config();
    let mut m = Module::new();
    m.set_balance(0, ALICE, 500, 100);
    m.set_balance(1, ALICE, 20, 0);
    m.set_balance(2, ALICE, 30, 0);
    m.set_balance(0, BOB, 7, 0);
    let r = m.close_account(&cfg, ALICE, Some(BOB));
    assert_eq!(r, Ok(()));
    assert_eq!(m.free_balance(0, ALICE), 0);
    assert_eq!(m.reserved_balance(0, ALICE), 0);
    assert_eq!(m.free_balance(1, ALICE), 0);
    assert_eq!(m.free_balance(2, ALICE), 0);
    assert_eq!(m.free_balance(0, BOB), 607);
    assert_eq!(m.free_balance(1, BOB), 20);
    assert_eq!(m.free_balance(2, BOB), 30);
    assert_eq!(m.events().as_slice(), &[Notification::Killed(ALICE)]);
}

#[test]
fn close_defaults_to_the_treasury_as_recipient() {
    let cfg = test_config();
    let mut m = Module::new();
    m.set_balance(0, ALICE, 250, 50);
    let r = m.close_account(&cfg, ALICE, None);
    assert_eq!(r, Ok(()));
    assert_eq!(m.free_balance(0, ALICE), 0);
    assert_eq!(m.free_balance(0, cfg.treasury_account), 300);
}

#[test]
fn close_fails_on_nonzero_refcount_and_touches_nothing() {
    let cfg = test_config();
    let mut m = Module::new();
    m.set_balance(0, ALICE, 1000, 0);
    m.insert(&cfg, ALICE, 7);
    m.set_refcount(ALICE, 1);
    let events_before = m.events().clone();
    let r = m.close_account(&cfg, ALICE, Some(BOB));
    assert_eq!(r, Err(Error::NonZeroRefCount));
    assert_eq!(m.free_balance(0, ALICE), 900);
    assert_eq!(m.reserved_balance(0, ALICE), 100);
    assert_eq!(m.free_balance(0, BOB), 0);
    assert_eq!(m.events().as_slice(), events_before.as_slice());
}

#[test]
fn close_fails_when_fee_currency_reservation_exceeds_the_deposit() {
    let cfg = test_config();
    let mut m = Module::new();
    m.set_balance(0, ALICE, 500, 200);
    let r = m.close_account(&cfg, ALICE, Some(BOB));
    assert_eq!(r, Err(Error::StillHasActiveReserved));
    assert_eq!(m.free_balance(0, ALICE), 500);
    assert_eq!(m.reserved_balance(0, ALICE), 200);
    assert_eq!(m.free_balance(0, BOB), 0);
}

#[test]
fn close_fails_when_another_currency_is_still_reserved() {
    let cfg = test_config();
    let mut m = Module::new();
    m.set_balance(0, ALICE, 500, 100);
    m.set_balance(2, ALICE, 30, 5);
    let r = m.close_account(&cfg, ALICE, Some(BOB));
    assert_eq!(r, Err(Error::StillHasActiveReserved));
    // atomic: nothing was unreserved or transferred
    assert_eq!(m.free_balance(0, ALICE), 500);
    assert_eq!(m.reserved_balance(0, ALICE), 100);
    assert_eq!(m.free_balance(2, ALICE), 30);
    assert_eq!(m.reserved_balance(2, ALICE), 5);
    assert_eq!(m.free_balance(0, BOB), 0);
    assert!(m.events().is_empty());
}

#[test]
fn close_with_reservation_at_the_deposit_bound_is_allowed() {
    let cfg = test_config();
    let mut m = Module::new();
    m.set_balance(0, ALICE, 0, 100);
    let r = m.close_account(&cfg, ALICE, Some(BOB));
    assert_eq!(r, Ok(()));
    assert_eq!(m.free_balance(0, BOB), 100);
}

#[test]
fn close_of_an_empty_account_succeeds() {
    let cfg = test_config();
    let mut m = Module::new();
    let r = m.close_account(&cfg, ALICE, Some(BOB));
    assert_eq!(r, Ok(()));
    assert_eq!(m.free_balance(0, BOB), 0);
    assert_eq!(m.events().as_slice(), &[Notification::Killed(ALICE)]);
}
