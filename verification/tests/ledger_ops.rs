//! End-to-end checks of the four ledger operations and their failures.

use erc20::errors::Error;
use erc20::events::Event;
use erc20::ledger::Ledger;

const ALICE: u64 = 1;
const BOB: u64 = 2;
const CAROL: u64 = 3;
const DAVE: u64 = 4;

fn issued_ledger() -> Ledger {
    let mut ledger = Ledger::new();
    ledger
        .issue(ALICE, b"Tok".to_vec(), b"TOK".to_vec(), 1000)
        .unwrap();
    ledger
}

#[test]
fn issue_grants_supply_to_caller() {
    let ledger = issued_ledger();
    assert_eq!(ledger.balance_of(ALICE), 1000);
    let token = ledger.token_details();
    assert_eq!(token.total_supply, 1000);
    assert_eq!(token.name, b"Tok".to_vec());
    assert_eq!(token.ticker, b"TOK".to_vec());
    assert!(ledger.events().is_empty());
}

#[test]
fn token_details_before_issue_is_empty() {
    let ledger = Ledger::new();
    let token = ledger.token_details();
    assert!(token.name.is_empty());
    assert!(token.ticker.is_empty());
    assert_eq!(token.total_supply, 0);
}

#[test]
fn issue_rejects_long_name() {
    let mut ledger = Ledger::new();
    let result = ledger.issue(ALICE, vec![b'x'; 65], b"TOK".to_vec(), 1000);
    assert_eq!(result, Err(Error::NameTooLong));
    assert_eq!(ledger.balance_of(ALICE), 0);
    assert_eq!(ledger.token_details().total_supply, 0);
}

#[test]
fn issue_accepts_name_at_bound() {
    let mut ledger = Ledger::new();
    let result = ledger.issue(ALICE, vec![b'x'; 64], vec![b'y'; 32], 7);
    assert_eq!(result, Ok(()));
    assert_eq!(ledger.balance_of(ALICE), 7);
}

#[test]
fn issue_rejects_long_ticker() {
    let mut ledger = Ledger::new();
    let result = ledger.issue(ALICE, b"Tok".to_vec(), vec![b'y'; 33], 1000);
    assert_eq!(result, Err(Error::TickerTooLong));
    assert_eq!(ledger.balance_of(ALICE), 0);
}

#[test]
fn issue_rejects_reissuance() {
    let mut ledger = issued_ledger();
    let result = ledger.issue(BOB, b"Two".to_vec(), b"TWO".to_vec(), 5);
    assert_eq!(result, Err(Error::AlreadyIssued));
    assert_eq!(ledger.balance_of(ALICE), 1000);
    assert_eq!(ledger.balance_of(BOB), 0);
    assert_eq!(ledger.token_details().total_supply, 1000);
    assert_eq!(ledger.token_details().name, b"Tok".to_vec());
}

#[test]
fn transfer_moves_balance_and_emits_event() {
    let mut ledger = issued_ledger();
    ledger.transfer(ALICE, BOB, 300).unwrap();
    assert_eq!(ledger.balance_of(ALICE), 700);
    assert_eq!(ledger.balance_of(BOB), 300);
    assert_eq!(
        ledger.events(),
        &vec![Event::Transfer { from: ALICE, to: BOB, value: 300 }]
    );
}

#[test]
fn transfer_rejects_insufficient_balance() {
    let mut ledger = issued_ledger();
    let result = ledger.transfer(ALICE, BOB, 1001);
    assert_eq!(result, Err(Error::InsufficientBalance));
    assert_eq!(ledger.balance_of(ALICE), 1000);
    assert_eq!(ledger.balance_of(BOB), 0);
    assert!(ledger.events().is_empty());
}

#[test]
fn transfer_from_unseen_account_fails_cleanly() {
    let mut ledger = issued_ledger();
    let result = ledger.transfer(BOB, CAROL, 1);
    assert_eq!(result, Err(Error::InsufficientBalance));
    assert_eq!(ledger.balance_of(CAROL), 0);
}

#[test]
fn transfer_of_zero_succeeds() {
    let mut ledger = issued_ledger();
    ledger.transfer(BOB, CAROL, 0).unwrap();
    assert_eq!(ledger.balance_of(BOB), 0);
    assert_eq!(ledger.balance_of(CAROL), 0);
    assert_eq!(
        ledger.events(),
        &vec![Event::Transfer { from: BOB, to: CAROL, value: 0 }]
    );
}

#[test]
fn transfer_to_self_keeps_balance() {
    let mut ledger = issued_ledger();
    ledger.transfer(ALICE, ALICE, 400).unwrap();
    assert_eq!(ledger.balance_of(ALICE), 1000);
    assert_eq!(
        ledger.events(),
        &vec![Event::Transfer { from: ALICE, to: ALICE, value: 400 }]
    );
}

#[test]
fn approve_sets_allowance_and_emits_delta() {
    let mut ledger = issued_ledger();
    ledger.approve(ALICE, CAROL, 200).unwrap();
    assert_eq!(ledger.allowance(ALICE, CAROL), 200);
    assert_eq!(
        ledger.events(),
        &vec![Event::Approval { owner: ALICE, spender: CAROL, value: 200 }]
    );
}

#[test]
fn approve_is_additive() {
    let mut ledger = issued_ledger();
    ledger.approve(ALICE, CAROL, 10).unwrap();
    ledger.approve(ALICE, CAROL, 5).unwrap();
    assert_eq!(ledger.allowance(ALICE, CAROL), 15);
}

#[test]
fn approve_needs_no_balance() {
    let mut ledger = Ledger::new();
    ledger.approve(BOB, CAROL, 50).unwrap();
    assert_eq!(ledger.allowance(BOB, CAROL), 50);
}

#[test]
fn approve_rejects_overflow() {
    let mut ledger = issued_ledger();
    ledger.approve(ALICE, CAROL, u64::MAX).unwrap();
    let result = ledger.approve(ALICE, CAROL, 1);
    assert_eq!(result, Err(Error::Overflow));
    assert_eq!(ledger.allowance(ALICE, CAROL), u64::MAX);
}

#[test]
fn transfer_from_consumes_allowance_and_moves_balance() {
    let mut ledger = issued_ledger();
    ledger.transfer(ALICE, BOB, 300).unwrap();
    ledger.approve(ALICE, CAROL, 200).unwrap();
    ledger.transfer_from(CAROL, ALICE, DAVE, 150).unwrap();
    assert_eq!(ledger.allowance(ALICE, CAROL), 50);
    assert_eq!(ledger.balance_of(ALICE), 550);
    assert_eq!(ledger.balance_of(DAVE), 150);
    assert_eq!(
        ledger.events(),
        &vec![
            Event::Transfer { from: ALICE, to: BOB, value: 300 },
            Event::Approval { owner: ALICE, spender: CAROL, value: 200 },
            Event::Approval { owner: ALICE, spender: CAROL, value: 150 },
            Event::Transfer { from: ALICE, to: DAVE, value: 150 },
        ]
    );
}

#[test]
fn transfer_from_rejects_insufficient_allowance() {
    let mut ledger = issued_ledger();
    ledger.transfer(ALICE, BOB, 300).unwrap();
    ledger.approve(ALICE, CAROL, 200).unwrap();
    ledger.transfer_from(CAROL, ALICE, DAVE, 150).unwrap();
    let events_before = ledger.events().clone();
    let result = ledger.transfer_from(CAROL, ALICE, DAVE, 100);
    assert_eq!(result, Err(Error::InsufficientAllowance));
    assert_eq!(ledger.allowance(ALICE, CAROL), 50);
    assert_eq!(ledger.balance_of(ALICE), 550);
    assert_eq!(ledger.balance_of(BOB), 300);
    assert_eq!(ledger.balance_of(DAVE), 150);
    assert_eq!(ledger.events(), &events_before);
}

#[test]
fn transfer_from_balance_failure_leaves_allowance_intact() {
    let mut ledger = issued_ledger();
    ledger.approve(ALICE, CAROL, 5000).unwrap();
    let events_before = ledger.events().clone();
    let result = ledger.transfer_from(CAROL, ALICE, DAVE, 2000);
    assert_eq!(result, Err(Error::InsufficientBalance));
    assert_eq!(ledger.allowance(ALICE, CAROL), 5000);
    assert_eq!(ledger.balance_of(ALICE), 1000);
    assert_eq!(ledger.balance_of(DAVE), 0);
    assert_eq!(ledger.events(), &events_before);
}

#[test]
fn unseen_reads_are_zero() {
    let ledger = Ledger::new();
    assert_eq!(ledger.balance_of(ALICE), 0);
    assert_eq!(ledger.balance_of(u64::MAX), 0);
    assert_eq!(ledger.allowance(ALICE, BOB), 0);
    let issued = issued_ledger();
    assert_eq!(issued.balance_of(DAVE), 0);
    assert_eq!(issued.allowance(ALICE, DAVE), 0);
}

#[test]
fn balances_always_sum_to_total_supply() {
    let mut ledger = issued_ledger();
    ledger.transfer(ALICE, BOB, 300).unwrap();
    ledger.approve(ALICE, CAROL, 200).unwrap();
    ledger.transfer_from(CAROL, ALICE, DAVE, 150).unwrap();
    let accounts = [ALICE, BOB, CAROL, DAVE];
    let sum: u64 = accounts.iter().map(|a| ledger.balance_of(*a)).sum();
    assert_eq!(sum, ledger.token_details().total_supply);
}
