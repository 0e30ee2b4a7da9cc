use flashlend::addr::{Address, CallStackFrame, Hash32};
use flashlend::borrower::{flash_borrow, on_flash_loan};
use flashlend::handshake::compute_callback_proof;
use flashlend::ledger::TokenLedger;
use flashlend::lender::{flash_loan, max_flash_loan};
use flashlend::registry::TokenRegistry;
use flashlend::Error;

fn hash(n: u64) -> Hash32 {
    Hash32 { w0: n, w1: 0, w2: 0, w3: 0 }
}

fn contract(n: u64) -> Address {
    Address::Contract(hash(n))
}

fn account(n: u64) -> Address {
    Address::Account(hash(n))
}

fn contract_frame(n: u64) -> CallStackFrame {
    CallStackFrame::StoredContract { contract_package_hash: hash(n) }
}

fn session_frame(n: u64) -> CallStackFrame {
    CallStackFrame::Session { account_hash: hash(n) }
}

// One scene for the lender-side tests: token 1, lender contract 2, borrower
// contract 3, an initiating account 4, the lender funded with 1_000_000 and
// the borrower holding 5_000 plus an allowance of 200_000 for the lender.
fn scene() -> (TokenRegistry, TokenLedger, Vec<CallStackFrame>) {
    let token = contract(1);
    let lender = contract(2);
    let borrower = contract(3);
    let mut registry = TokenRegistry::new();
    registry.add_supported(token);
    registry.set_fee_rate(token, 100);
    let mut ledger = TokenLedger::new();
    ledger.set_balance(token, lender, 1_000_000);
    ledger.set_balance(token, borrower, 5_000);
    ledger.approve(token, borrower, lender, 200_000);
    let chain = vec![session_frame(4), contract_frame(3), contract_frame(2)];
    (registry, ledger, chain)
}

#[test]
fn happy_path_loan_moves_exactly_the_fee() {
    let (registry, mut ledger, chain) = scene();
    let token = contract(1);
    let lender = contract(2);
    let borrower = contract(3);
    let data: Vec<u8> = Vec::new();
    let result = flash_loan(&registry, &mut ledger, &chain, borrower, token, 100_000, &data);
    assert_eq!(result, Ok(true));
    // fee at rate 100 on 100_000 is 1_000; repayment is 101_000
    assert_eq!(ledger.balance_of(token, lender), 1_001_000);
    assert_eq!(ledger.balance_of(token, borrower), 4_000);
    assert_eq!(ledger.allowance(token, borrower, lender), 99_000);
}

#[test]
fn unsupported_token_is_rejected_with_no_transfer() {
    let (registry, mut ledger, chain) = scene();
    let other = contract(8);
    let token = contract(1);
    let data: Vec<u8> = Vec::new();
    let result = flash_loan(&registry, &mut ledger, &chain, contract(3), other, 100_000, &data);
    assert_eq!(result, Err(Error::UnsupportedCurrency));
    assert_eq!(ledger.balance_of(token, contract(2)), 1_000_000);
    assert_eq!(ledger.balance_of(token, contract(3)), 5_000);
    assert_eq!(ledger.balance_of(other, contract(2)), 0);
}

#[test]
fn account_token_is_rejected() {
    let (mut registry, mut ledger, chain) = scene();
    let odd = account(9);
    registry.add_supported(odd);
    let data: Vec<u8> = Vec::new();
    let result = flash_loan(&registry, &mut ledger, &chain, contract(3), odd, 10, &data);
    assert_eq!(result, Err(Error::InvalidAddressKind));
}

#[test]
fn short_chain_is_rejected() {
    let (registry, mut ledger, _) = scene();
    let chain = vec![contract_frame(2)];
    let data: Vec<u8> = Vec::new();
    let result = flash_loan(&registry, &mut ledger, &chain, contract(3), contract(1), 10, &data);
    assert_eq!(result, Err(Error::CallChainTooShort));
}

#[test]
fn loan_beyond_lender_balance_fails_the_transfer() {
    let (registry, mut ledger, chain) = scene();
    let token = contract(1);
    let data: Vec<u8> = Vec::new();
    let result = flash_loan(&registry, &mut ledger, &chain, contract(3), token, 2_000_000, &data);
    assert_eq!(result, Err(Error::TransferFailed));
    assert_eq!(ledger.balance_of(token, contract(2)), 1_000_000);
    assert_eq!(ledger.balance_of(token, contract(3)), 5_000);
}

#[test]
fn receiver_other_than_the_caller_fails_the_callback() {
    let (registry, _, chain) = scene();
    let token = contract(1);
    let lender = contract(2);
    // contract 5 did not call the lender, so its verifier refuses the loan
    let stranger = contract(5);
    let mut ledger = TokenLedger::new();
    ledger.set_balance(token, lender, 1_000_000);
    ledger.approve(token, stranger, lender, 200_000);
    let data: Vec<u8> = Vec::new();
    let result = flash_loan(&registry, &mut ledger, &chain, stranger, token, 100_000, &data);
    assert_eq!(result, Err(Error::CallbackFailed));
    // the disbursed principal is not left in effect
    assert_eq!(ledger.balance_of(token, lender), 1_000_000);
    assert_eq!(ledger.balance_of(token, stranger), 0);
}

#[test]
fn insufficient_allowance_fails_the_repayment() {
    let (registry, mut ledger, chain) = scene();
    let token = contract(1);
    let lender = contract(2);
    let borrower = contract(3);
    // the standing allowance of 200_000 is below the 303_000 repayment
    let data: Vec<u8> = Vec::new();
    let result = flash_loan(&registry, &mut ledger, &chain, borrower, token, 300_000, &data);
    assert_eq!(result, Err(Error::RepayFailed));
    assert_eq!(ledger.balance_of(token, lender), 1_000_000);
    assert_eq!(ledger.balance_of(token, borrower), 5_000);
    assert_eq!(ledger.allowance(token, borrower, lender), 200_000);
}

#[test]
fn insufficient_balance_fails_the_repayment() {
    let (registry, mut ledger, chain) = scene();
    let token = contract(1);
    let borrower = contract(3);
    // the borrower holds 5_000: it can cover the 101_000 repayment out of
    // principal plus balance, but not a fee above its balance
    let mut registry2 = registry;
    registry2.set_fee_rate(token, 600);
    // fee at rate 600 on 100_000 is 6_000, above the borrower's 5_000
    let data: Vec<u8> = Vec::new();
    let result = flash_loan(&registry2, &mut ledger, &chain, borrower, token, 100_000, &data);
    assert_eq!(result, Err(Error::RepayFailed));
    assert_eq!(ledger.balance_of(token, borrower), 5_000);
}

#[test]
fn verifier_rejects_a_forged_initiator() {
    let chain = vec![session_frame(4), contract_frame(2), contract_frame(3)];
    let data: Vec<u8> = Vec::new();
    // the last frame is contract 3, but the arguments claim contract 5
    let result = on_flash_loan(&chain, contract(5), contract(2), contract(1), 10, 0, &data);
    assert_eq!(result, Err(Error::UntrustedLoanInitiator));
}

#[test]
fn verifier_rejects_a_forged_lender() {
    let chain = vec![session_frame(4), contract_frame(2), contract_frame(3)];
    let data: Vec<u8> = Vec::new();
    // the immediate caller is contract 2, but the arguments claim contract 6
    let result = on_flash_loan(&chain, contract(3), contract(6), contract(1), 10, 0, &data);
    assert_eq!(result, Err(Error::UntrustedLender));
}

#[test]
fn verifier_returns_the_proof_when_both_checks_pass() {
    let chain = vec![session_frame(4), contract_frame(2), contract_frame(3)];
    let data: Vec<u8> = Vec::new();
    let result = on_flash_loan(&chain, contract(3), contract(2), contract(1), 10, 0, &data);
    assert_eq!(result, Ok(compute_callback_proof()));
}

#[test]
fn verifier_needs_two_frames() {
    let data: Vec<u8> = Vec::new();
    let empty: Vec<CallStackFrame> = Vec::new();
    let result = on_flash_loan(&empty, contract(3), contract(2), contract(1), 10, 0, &data);
    assert_eq!(result, Err(Error::CallChainTooShort));
    let one = vec![contract_frame(3)];
    let result = on_flash_loan(&one, contract(3), contract(2), contract(1), 10, 0, &data);
    assert_eq!(result, Err(Error::CallChainTooShort));
}

#[test]
fn stored_session_resolves_to_the_account() {
    let chain = vec![
        session_frame(4),
        CallStackFrame::StoredSession { account_hash: hash(7), contract_package_hash: hash(8) },
        contract_frame(3),
    ];
    let data: Vec<u8> = Vec::new();
    // the immediate caller is the account behind the stored session, not the
    // stored code's package
    let result = on_flash_loan(&chain, contract(3), contract(8), contract(1), 10, 0, &data);
    assert_eq!(result, Err(Error::UntrustedLender));
    let result = on_flash_loan(&chain, contract(3), account(7), contract(1), 10, 0, &data);
    assert_eq!(result, Ok(compute_callback_proof()));
}

#[test]
fn borrow_round_trip_costs_exactly_the_fee() {
    let token = contract(1);
    let lender = contract(2);
    let borrower = contract(3);
    let mut registry = TokenRegistry::new();
    registry.add_supported(token);
    registry.set_fee_rate(token, 100);
    let mut ledger = TokenLedger::new();
    ledger.set_balance(token, lender, 1_000_000);
    ledger.set_balance(token, borrower, 5_000);
    // the chain as the borrower sees it: an account invoked it directly
    let chain = vec![session_frame(4), contract_frame(3)];
    let result = flash_borrow(&registry, &mut ledger, &chain, lender, token, 100_000);
    assert_eq!(result, Ok(()));
    assert_eq!(ledger.balance_of(token, lender), 1_001_000);
    assert_eq!(ledger.balance_of(token, borrower), 4_000);
    // the allowance granted for the repayment was consumed in full
    assert_eq!(ledger.allowance(token, borrower, lender), 0);
}

#[test]
fn borrow_of_unsupported_token_changes_nothing() {
    let token = contract(1);
    let lender = contract(2);
    let borrower = contract(3);
    let registry = TokenRegistry::new();
    let mut ledger = TokenLedger::new();
    ledger.set_balance(token, lender, 1_000_000);
    let chain = vec![session_frame(4), contract_frame(3)];
    let result = flash_borrow(&registry, &mut ledger, &chain, lender, token, 100_000);
    assert_eq!(result, Err(Error::UnsupportedCurrency));
    assert_eq!(ledger.balance_of(token, lender), 1_000_000);
    assert_eq!(ledger.balance_of(token, borrower), 0);
    assert_eq!(ledger.allowance(token, borrower, lender), 0);
}

#[test]
fn borrow_from_an_account_lender_is_rejected() {
    let token = contract(1);
    let mut registry = TokenRegistry::new();
    registry.add_supported(token);
    let mut ledger = TokenLedger::new();
    let chain = vec![session_frame(4), contract_frame(3)];
    let result = flash_borrow(&registry, &mut ledger, &chain, account(2), token, 10);
    assert_eq!(result, Err(Error::InvalidAddressKind));
}

#[test]
fn borrow_needs_a_frame_to_resolve_itself() {
    let token = contract(1);
    let registry = TokenRegistry::new();
    let mut ledger = TokenLedger::new();
    let empty: Vec<CallStackFrame> = Vec::new();
    let result = flash_borrow(&registry, &mut ledger, &empty, contract(2), token, 10);
    assert_eq!(result, Err(Error::CallChainTooShort));
}

#[test]
fn deployment_entry_is_callable() {
    flashlend::call();
}

#[test]
fn max_loan_is_the_lender_balance() {
    let (_, ledger, chain) = scene();
    let token = contract(1);
    assert_eq!(max_flash_loan(&ledger, &chain, token), Ok(1_000_000));
    assert_eq!(max_flash_loan(&ledger, &chain, contract(9)), Ok(0));
    assert_eq!(
        max_flash_loan(&ledger, &chain, account(9)),
        Err(Error::InvalidAddressKind)
    );
    let empty: Vec<CallStackFrame> = Vec::new();
    assert_eq!(max_flash_loan(&ledger, &empty, token), Err(Error::CallChainTooShort));
}
