use flashlend::addr::{Address, CallStackFrame, Hash32};
use flashlend::addr::{resolve_current, resolve_immediate_caller};
use flashlend::ledger::TokenLedger;
use flashlend::Error;

fn hash(n: u64) -> Hash32 {
    Hash32 { w0: n, w1: 0, w2: 0, w3: 0 }
}

fn contract(n: u64) -> Address {
    Address::Contract(hash(n))
}

fn account(n: u64) -> Address {
    Address::Account(hash(n))
}

#[test]
fn transfer_moves_the_amount_once() {
    let token = contract(1);
    let mut ledger = TokenLedger::new();
    ledger.set_balance(token, account(2), 100);
    assert!(ledger.transfer(token, account(2), account(3), 40));
    assert_eq!(ledger.balance_of(token, account(2)), 60);
    assert_eq!(ledger.balance_of(token, account(3)), 40);
    // a balance is per token: the other token is untouched
    assert_eq!(ledger.balance_of(contract(9), account(2)), 0);
}

#[test]
fn transfer_beyond_the_balance_fails_without_effect() {
    let token = contract(1);
    let mut ledger = TokenLedger::new();
    ledger.set_balance(token, account(2), 100);
    assert!(!ledger.transfer(token, account(2), account(3), 101));
    assert_eq!(ledger.balance_of(token, account(2)), 100);
    assert_eq!(ledger.balance_of(token, account(3)), 0);
}

#[test]
fn transfer_that_would_overflow_the_recipient_fails() {
    let token = contract(1);
    let mut ledger = TokenLedger::new();
    ledger.set_balance(token, account(2), 100);
    ledger.set_balance(token, account(3), u128::MAX - 10);
    assert!(!ledger.transfer(token, account(2), account(3), 11));
    assert_eq!(ledger.balance_of(token, account(2)), 100);
    assert_eq!(ledger.balance_of(token, account(3)), u128::MAX - 10);
}

#[test]
fn transfer_to_self_changes_nothing() {
    let token = contract(1);
    let mut ledger = TokenLedger::new();
    ledger.set_balance(token, account(2), 100);
    assert!(ledger.transfer(token, account(2), account(2), 100));
    assert_eq!(ledger.balance_of(token, account(2)), 100);
    assert!(!ledger.transfer(token, account(2), account(2), 101));
}

#[test]
fn pull_transfer_consumes_the_allowance() {
    let token = contract(1);
    let mut ledger = TokenLedger::new();
    ledger.set_balance(token, account(2), 100);
    ledger.approve(token, account(2), contract(5), 70);
    assert_eq!(ledger.allowance(token, account(2), contract(5)), 70);
    assert!(ledger.transfer_from(token, contract(5), account(2), contract(5), 30));
    assert_eq!(ledger.balance_of(token, account(2)), 70);
    assert_eq!(ledger.balance_of(token, contract(5)), 30);
    assert_eq!(ledger.allowance(token, account(2), contract(5)), 40);
    // a second pull beyond the remaining allowance fails without effect
    assert!(!ledger.transfer_from(token, contract(5), account(2), contract(5), 41));
    assert_eq!(ledger.balance_of(token, account(2)), 70);
    assert_eq!(ledger.allowance(token, account(2), contract(5)), 40);
}

#[test]
fn latest_approval_wins() {
    let token = contract(1);
    let mut ledger = TokenLedger::new();
    ledger.approve(token, account(2), contract(5), 70);
    ledger.approve(token, account(2), contract(5), 10);
    assert_eq!(ledger.allowance(token, account(2), contract(5)), 10);
    assert_eq!(ledger.allowance(token, account(2), contract(6)), 0);
}

#[test]
fn resolver_takes_the_last_two_frames() {
    let chain = vec![
        CallStackFrame::Session { account_hash: hash(4) },
        CallStackFrame::StoredContract { contract_package_hash: hash(2) },
    ];
    assert_eq!(resolve_current(&chain), Ok(contract(2)));
    assert_eq!(resolve_immediate_caller(&chain), Ok(account(4)));

    let one = vec![CallStackFrame::Session { account_hash: hash(4) }];
    assert_eq!(resolve_current(&one), Ok(account(4)));
    assert_eq!(resolve_immediate_caller(&one), Err(Error::CallChainTooShort));

    let empty: Vec<CallStackFrame> = Vec::new();
    assert_eq!(resolve_current(&empty), Err(Error::CallChainTooShort));
}

#[test]
fn stored_session_acts_as_its_account() {
    let chain = vec![
        CallStackFrame::StoredSession { account_hash: hash(7), contract_package_hash: hash(8) },
    ];
    assert_eq!(resolve_current(&chain), Ok(account(7)));
}
