use ledger_accounts::model::Notification;
use ledger_accounts::state::{Config, Module};
use ledger_accounts::tracker::split_inner;

fn test_config() -> Config {
    Config {
        all_non_native_currency_ids: vec![1, 2],
        native_currency_id: 0,
        stable_currency_id: 1,
        new_account_deposit: 100,
        treasury_account: 999,
        max_slippage_swap_ppm: 50_000,
        maximum_block_weight: 1000,
        maximum_block_length: 1000,
    }
}

const ALICE: u64 = 5;

#[test]
fn open_account_reserves_deposit_and_notifies_once() {
    let cfg = test_config();
    let mut m = Module::new();
    m.set_balance(0, ALICE, 1000, 0);
    m.insert(&cfg, ALICE, 7);
    assert_eq!(m.free_balance(0, ALICE), 900);
    assert_eq!(m.reserved_balance(0, ALICE), 100);
    assert!(m.is_explicit(ALICE));
    assert_eq!(m.get(ALICE), 7);
    assert_eq!(m.events().as_slice(), &[Notification::Created(ALICE)]);
}

#[test]
fn open_account_failure_recycles_dust_and_erases_record() {
    let cfg = test_config();
    let mut m = Module::new();
    m.set_balance(0, ALICE, 50, 0);
    m.insert(&cfg, ALICE, 7);
    assert_eq!(m.free_balance(0, ALICE), 0);
    assert_eq!(m.free_balance(0, cfg.treasury_account), 50);
    assert!(!m.is_explicit(ALICE));
    assert!(m.events().is_empty());
}

#[test]
fn open_account_failure_for_treasury_leaves_it_open_without_reserve() {
    let cfg = test_config();
    let mut m = Module::new();
    m.set_balance(0, cfg.treasury_account, 50, 0);
    m.insert(&cfg, cfg.treasury_account, 3);
    assert_eq!(m.free_balance(0, cfg.treasury_account), 50);
    assert_eq!(m.reserved_balance(0, cfg.treasury_account), 0);
    assert!(m.is_explicit(cfg.treasury_account));
    assert!(m.events().is_empty());
}

#[test]
fn created_fires_exactly_once_over_a_sequence_of_calls() {
    let cfg = test_config();
    let mut m = Module::new();
    m.set_balance(0, ALICE, 1000, 0);
    m.insert(&cfg, ALICE, 1);
    m.insert(&cfg, ALICE, 2);
    let _: u64 = m.mutate(&cfg, ALICE, |d| (d + 1, d));
    m.insert(&cfg, ALICE, 4);
    let created: Vec<_> = m
        .events()
        .iter()
        .filter(|e| **e == Notification::Created(ALICE))
        .collect();
    assert_eq!(created.len(), 1);
    assert_eq!(m.get(ALICE), 4);
}

#[test]
fn mutate_on_absent_account_notifies_created_without_deposit() {
    let cfg = test_config();
    let mut m = Module::new();
    let old: u64 = m.mutate(&cfg, ALICE, |d| (d + 9, d));
    assert_eq!(old, 0);
    assert_eq!(m.get(ALICE), 9);
    assert!(m.is_explicit(ALICE));
    // the full open-account deposit logic does not run here
    assert_eq!(m.reserved_balance(0, ALICE), 0);
    assert_eq!(m.events().as_slice(), &[Notification::Created(ALICE)]);
}

#[test]
fn try_mutate_exists_noop_keeps_prefix_and_fires_nothing() {
    let cfg = test_config();
    let mut m = Module::new();
    m.set_balance(0, ALICE, 1000, 0);
    m.insert(&cfg, ALICE, 7);
    m.set_refcount(ALICE, 3);
    let before = m.account_record(ALICE).unwrap();
    let events_before = m.events().len();
    let r: Result<(), ()> = m.try_mutate_exists(&cfg, ALICE, |d| Ok((d, ())));
    assert!(r.is_ok());
    let after = m.account_record(ALICE).unwrap();
    assert_eq!(before, after);
    assert_eq!(m.events().len(), events_before);
}

#[test]
fn try_mutate_exists_failure_writes_nothing() {
    let cfg = test_config();
    let mut m = Module::new();
    m.set_balance(0, ALICE, 1000, 0);
    let r: Result<(), u8> = m.try_mutate_exists(&cfg, ALICE, |_| Err(5u8));
    assert_eq!(r, Err(5u8));
    assert!(!m.is_explicit(ALICE));
    assert!(m.events().is_empty());
    assert_eq!(m.free_balance(0, ALICE), 1000);
}

#[test]
fn try_mutate_exists_deletion_request_keeps_the_record_slot() {
    let cfg = test_config();
    let mut m = Module::new();
    m.set_balance(0, ALICE, 1000, 0);
    m.insert(&cfg, ALICE, 7);
    m.set_refcount(ALICE, 2);
    let r: Result<(), ()> = m.try_mutate_exists(&cfg, ALICE, |_| Ok((None, ())));
    assert!(r.is_ok());
    // the record is always written back: prefix survives, payload defaults
    let rec = m.account_record(ALICE).unwrap();
    assert_eq!(rec.refcount, 2);
    assert_eq!(rec.data, 0);
}

#[test]
fn mutate_exists_opens_account_on_first_write() {
    let cfg = test_config();
    let mut m = Module::new();
    m.set_balance(0, ALICE, 1000, 0);
    let r: u64 = m.mutate_exists(&cfg, ALICE, |d| (Some(11), d.unwrap_or(0)));
    assert_eq!(r, 0);
    assert_eq!(m.get(ALICE), 11);
    assert_eq!(m.reserved_balance(0, ALICE), 100);
    assert_eq!(m.events().as_slice(), &[Notification::Created(ALICE)]);
}

#[test]
fn remove_triggers_kill_hook_and_keeps_the_record() {
    let cfg = test_config();
    let mut m = Module::new();
    m.set_balance(0, ALICE, 1000, 0);
    m.insert(&cfg, ALICE, 7);
    m.remove(ALICE);
    assert!(m.is_explicit(ALICE));
    assert_eq!(
        m.events().as_slice(),
        &[Notification::Created(ALICE), Notification::Killed(ALICE)]
    );
}

#[test]
fn split_inner_splits_by_the_given_function() {
    assert_eq!(split_inner(Some(5u64), |x| (x * 2, x + 1)), (Some(10), Some(6)));
    let r: (Option<u64>, Option<u64>) = split_inner(None, |x: u64| (x, x));
    assert_eq!(r, (None, None));
}

#[test]
fn treasury_account_id_is_the_configured_one() {
    let cfg = test_config();
    assert_eq!(Module::treasury_account_id(&cfg), 999);
}
