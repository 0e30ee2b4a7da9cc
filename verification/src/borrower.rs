//! The borrower's side of the protocol: the callback verifier that runs when
//! a lender invokes the borrower's loan callback, and the helper with which
//! the borrower initiates a loan against a chosen lender.

use vstd::prelude::*;

use crate::addr::{
    call_stack_element_to_address, frame_address, Address, CallStackFrame,
};
use crate::fee::{flash_fee, spec_fee};
use crate::handshake::{compute_callback_proof, spec_callback_accepted, spec_callback_proof};
use crate::ledger::{spec_transfer_ok, TokenLedger};
use crate::lender::{spec_balance_after_loan, spec_lender_addr, spec_msg_sender};
use crate::registry::TokenRegistry;
use crate::Error;

verus! {

/// What the callback verifier decides, frame checks in the order they run:
/// the borrower itself must be the last frame of the chain and equal the
/// claimed initiator, and the immediate caller must equal the claimed lender.
pub open spec fn spec_on_flash_loan(
    chain: Seq<CallStackFrame>,
    initiator: Address,
    lender: Address,
) -> Result<Seq<u8>, Error> {
    if chain.len() < 1 {
        Err(Error::CallChainTooShort)
    } else if frame_address(chain.last()) != initiator {
        Err(Error::UntrustedLoanInitiator)
    } else if chain.len() < 2 {
        Err(Error::CallChainTooShort)
    } else if frame_address(chain[chain.len() - 2]) != lender {
        Err(Error::UntrustedLender)
    } else {
        Ok(spec_callback_proof())
    }
}

/// The borrower's loan callback. The arguments are whatever the caller chose
/// to pass and are trusted only after they are checked against the caller
/// chain: the loan must have been initiated by this borrower itself, and the
/// entity actually calling must be the lender the arguments name. On success
/// it returns the fixed callback proof; the token, amounts and data blob play
/// no part in the decision.
pub fn on_flash_loan(
    chain: &Vec<CallStackFrame>,
    initiator: Address,
    lender: Address,
    token: Address,
    amount: u128,
    fee: u128,
    data: &Vec<u8>,
) -> (r: Result<Vec<u8>, Error>)
    ensures
        r matches Ok(v) ==> spec_on_flash_loan(chain@, initiator, lender) == Ok::<
            Seq<u8>,
            Error,
        >(v@),
        r matches Err(e) ==> spec_on_flash_loan(chain@, initiator, lender) == Err::<
            Seq<u8>,
            Error,
        >(e),
        (r is Ok) == (spec_on_flash_loan(chain@, initiator, lender) is Ok),
{
    if chain.len() < 1 {
        return Err(Error::CallChainTooShort);
    }
    let this_address = call_stack_element_to_address(chain[chain.len() - 1]);
    if this_address != initiator {
        return Err(Error::UntrustedLoanInitiator);
    }
    if chain.len() < 2 {
        return Err(Error::CallChainTooShort);
    }
    let previous_address = call_stack_element_to_address(chain[chain.len() - 2]);
    if previous_address != lender {
        return Err(Error::UntrustedLender);
    }
    Ok(compute_callback_proof())
}

/// The two sides of the handshake agree: whatever a borrower's verifier
/// returns on success is exactly the reply the lender accepts.
pub proof fn lemma_handshake_agreement(
    chain: Seq<CallStackFrame>,
    initiator: Address,
    lender: Address,
)
    requires
        spec_on_flash_loan(chain, initiator, lender) is Ok,
    ensures
        spec_on_flash_loan(chain, initiator, lender) == Ok::<Seq<u8>, Error>(
            spec_callback_proof(),
        ),
        spec_callback_accepted(Ok(spec_callback_proof())),
{
}

/// Whether the borrower can fund the repayment once the principal has
/// arrived: its post-disburse balance must cover principal plus fee, and
/// collecting the fee must not overflow the lender's balance.
pub open spec fn spec_borrow_repay_ok(
    l: TokenLedger,
    lender: Address,
    borrower: Address,
    token: Address,
    amount: u128,
    fee: int,
) -> bool {
    &&& (if borrower == lender {
        l.spec_balance_of(token, borrower) as int
    } else {
        l.spec_balance_of(token, borrower) + amount
    }) >= amount + fee
    &&& (borrower == lender || l.spec_balance_of(token, lender) + fee <= u128::MAX)
}

/// What a borrower-initiated loan decides, checks in the order they run. The
/// allowance plays no part: the borrower grants the lender its current
/// allowance plus the repayment before the loan, so the pull-transfer is
/// always covered on that side.
pub open spec fn spec_flash_borrow(
    reg: TokenRegistry,
    l: TokenLedger,
    chain: Seq<CallStackFrame>,
    lender: Address,
    token: Address,
    amount: u128,
) -> Result<(), Error> {
    let fee = spec_fee(reg.spec_fee_rate(token), amount);
    if !(token is Contract) {
        Err(Error::InvalidAddressKind)
    } else if chain.len() < 1 {
        Err(Error::CallChainTooShort)
    } else if !(lender is Contract) {
        Err(Error::InvalidAddressKind)
    } else {
        let borrower = frame_address(chain.last());
        if !reg.spec_supported(token) {
            Err(Error::UnsupportedCurrency)
        } else if !spec_transfer_ok(l, token, lender, borrower, amount) {
            Err(Error::TransferFailed)
        } else if !(borrower is Contract) {
            Err(Error::RepayFailed)
        } else if !spec_borrow_repay_ok(l, lender, borrower, token, amount, fee) {
            Err(Error::RepayFailed)
        } else {
            Ok(())
        }
    }
}

/// Initiates a flash loan of `amount` units of `token` from `lender` to this
/// borrower itself: grants the lender an allowance covering the repayment on
/// top of whatever allowance already stood, then drives the lender's loan
/// entry point. On success the borrower has paid exactly the fee and its
/// allowance for the lender stands where it started; on failure the ledger is
/// left as it was.
pub fn flash_borrow(
    registry: &TokenRegistry,
    ledger: &mut TokenLedger,
    chain: &Vec<CallStackFrame>,
    lender: Address,
    token: Address,
    amount: u128,
) -> (r: Result<(), Error>)
    requires
        amount * registry.spec_fee_rate(token) <= u128::MAX,
        amount + spec_fee(registry.spec_fee_rate(token), amount) <= u128::MAX,
        chain@.len() >= 1 ==> old(ledger).spec_allowance(
            token,
            frame_address(chain@.last()),
            lender,
        ) + amount + spec_fee(registry.spec_fee_rate(token), amount) <= u128::MAX,
    ensures
        r == spec_flash_borrow(*registry, *old(ledger), chain@, lender, token, amount),
        r is Err ==> final(ledger).balances@ == old(ledger).balances@,
        r is Err ==> final(ledger).allowances@ == old(ledger).allowances@,
        r is Err ==> forall|t2: Address, h2: Address|
            final(ledger).spec_balance_of(t2, h2) == old(ledger).spec_balance_of(t2, h2),
        r is Err ==> forall|t2: Address, o2: Address, s2: Address|
            final(ledger).spec_allowance(t2, o2, s2) == old(ledger).spec_allowance(t2, o2, s2),
        r is Ok ==> forall|t2: Address, h2: Address|
            final(ledger).spec_balance_of(t2, h2) == spec_balance_after_loan(
                *old(ledger),
                lender,
                frame_address(chain@.last()),
                token,
                spec_fee(registry.spec_fee_rate(token), amount),
                t2,
                h2,
            ),
        r is Ok ==> forall|t2: Address, o2: Address, s2: Address|
            final(ledger).spec_allowance(t2, o2, s2) == old(ledger).spec_allowance(t2, o2, s2),
{
    match token {
        Address::Contract(_) => {},
        _ => {
            return Err(Error::InvalidAddressKind);
        },
    }
    if chain.len() < 1 {
        return Err(Error::CallChainTooShort);
    }
    let this_address = call_stack_element_to_address(chain[chain.len() - 1]);
    let allowance = ledger.allowance(token, this_address, lender);
    let lender_hash = match lender {
        Address::Contract(h) => h,
        _ => {
            return Err(Error::InvalidAddressKind);
        },
    };
    let fee = flash_fee(registry, token, amount);
    let repayment = amount + fee;
    let snapshot = ledger.snapshot();
    ledger.approve(token, this_address, lender, allowance + repayment);
    let ghost l1 = *ledger;
    // The lender observes the chain extended by its own frame.
    let mut loan_chain = crate::copy_vec(chain);
    loan_chain.push(CallStackFrame::StoredContract { contract_package_hash: lender_hash });
    proof {
        assert(loan_chain@.last() == CallStackFrame::StoredContract {
            contract_package_hash: lender_hash,
        });
        assert(loan_chain@[loan_chain@.len() - 2] == chain@[chain@.len() - 1]);
        assert(spec_lender_addr(loan_chain@) == lender);
        assert(spec_msg_sender(loan_chain@) == this_address);
        assert(l1.spec_allowance(token, this_address, lender) == allowance + repayment);
    }
    let loan_data: Vec<u8> = Vec::new();
    let result = crate::lender::flash_loan(
        registry,
        ledger,
        &loan_chain,
        this_address,
        token,
        amount,
        &loan_data,
    );
    match result {
        Ok(success) => {
            if !success {
                *ledger = snapshot;
                return Err(Error::InitialFailed);
            }
            proof {
                let l0 = *old(ledger);
                let specfee = spec_fee(registry.spec_fee_rate(token), amount);
                assert forall|t2: Address, h2: Address|
                    ledger.spec_balance_of(t2, h2) == spec_balance_after_loan(
                        l0,
                        lender,
                        this_address,
                        token,
                        specfee,
                        t2,
                        h2,
                    ) by {
                    assert(ledger.spec_balance_of(t2, h2) == spec_balance_after_loan(
                        l1,
                        lender,
                        this_address,
                        token,
                        specfee,
                        t2,
                        h2,
                    ));
                    assert(l1.spec_balance_of(t2, h2) == l0.spec_balance_of(t2, h2));
                    assert(l1.spec_balance_of(token, this_address) == l0.spec_balance_of(
                        token,
                        this_address,
                    ));
                    assert(l1.spec_balance_of(token, lender) == l0.spec_balance_of(token, lender));
                }
                assert forall|t2: Address, o2: Address, s2: Address|
                    ledger.spec_allowance(t2, o2, s2) == l0.spec_allowance(t2, o2, s2) by {
                    assert(l1.spec_allowance(t2, o2, s2) == if t2 == token && o2 == this_address
                        && s2 == lender {
                        (allowance + repayment) as u128
                    } else {
                        l0.spec_allowance(t2, o2, s2)
                    });
                }
            }
            Ok(())
        },
        Err(e) => {
            *ledger = snapshot;
            Err(e)
        },
    }
}

} // verus!
