//! The lender's side of the protocol: the loan orchestrator that validates
//! the token, quotes the fee, disburses the principal, invokes the borrower's
//! callback, verifies the returned proof and collects the repayment — or
//! fails and leaves the ledger exactly as it found it.

use vstd::prelude::*;

use crate::addr::{
    call_stack_element_to_address, frame_address, Address, CallStackFrame,
};
use crate::fee::{flash_fee, spec_fee};
use crate::handshake::callback_accepted;
use crate::ledger::{spec_balance_after_transfer, spec_transfer_ok, TokenLedger};
use crate::registry::TokenRegistry;
use crate::Error;

verus! {

/// The currently executing entity of a chain: the lender, inside its own
/// loan entry point.
pub open spec fn spec_lender_addr(chain: Seq<CallStackFrame>) -> Address {
    frame_address(chain.last())
}

/// The entity that invoked the lender: the borrower driving the loan.
pub open spec fn spec_msg_sender(chain: Seq<CallStackFrame>) -> Address {
    frame_address(chain[chain.len() - 2])
}

/// Whether the repayment pull can go through once the principal has been
/// disbursed: the receiver's allowance for the lender and its post-disburse
/// balance must cover principal plus fee, and collecting the fee must not
/// overflow the lender's balance.
pub open spec fn spec_repay_ok(
    l: TokenLedger,
    lender: Address,
    receiver: Address,
    token: Address,
    amount: u128,
    fee: int,
) -> bool {
    &&& l.spec_allowance(token, receiver, lender) >= amount + fee
    &&& (if receiver == lender {
        l.spec_balance_of(token, receiver) as int
    } else {
        l.spec_balance_of(token, receiver) + amount
    }) >= amount + fee
    &&& (receiver == lender || l.spec_balance_of(token, lender) + fee <= u128::MAX)
}

/// What a flash loan decides, checks in the order they run. The callback
/// succeeds exactly when the receiver is the entity that called the lender:
/// the receiver's verifier accepts no loan it did not initiate itself, and
/// the lender, being the immediate caller during the callback, always passes
/// the receiver's lender check.
pub open spec fn spec_flash_loan(
    reg: TokenRegistry,
    l: TokenLedger,
    chain: Seq<CallStackFrame>,
    receiver: Address,
    token: Address,
    amount: u128,
) -> Result<bool, Error> {
    let fee = spec_fee(reg.spec_fee_rate(token), amount);
    if !reg.spec_supported(token) {
        Err(Error::UnsupportedCurrency)
    } else if !(token is Contract) {
        Err(Error::InvalidAddressKind)
    } else if chain.len() < 2 {
        Err(Error::CallChainTooShort)
    } else if !spec_transfer_ok(l, token, spec_lender_addr(chain), receiver, amount) {
        Err(Error::TransferFailed)
    } else if !(receiver is Contract) {
        Err(Error::RepayFailed)
    } else if receiver != spec_msg_sender(chain) {
        Err(Error::CallbackFailed)
    } else if !spec_repay_ok(l, spec_lender_addr(chain), receiver, token, amount, fee) {
        Err(Error::RepayFailed)
    } else {
        Ok(true)
    }
}

/// Each holder's balance after a completed loan: the receiver has paid the
/// fee, the lender has earned it, everything else is untouched.
pub open spec fn spec_balance_after_loan(
    l: TokenLedger,
    lender: Address,
    receiver: Address,
    token: Address,
    fee: int,
    t2: Address,
    h2: Address,
) -> int {
    if receiver == lender {
        l.spec_balance_of(t2, h2) as int
    } else if t2 == token && h2 == receiver {
        l.spec_balance_of(token, receiver) - fee
    } else if t2 == token && h2 == lender {
        l.spec_balance_of(token, lender) + fee
    } else {
        l.spec_balance_of(t2, h2) as int
    }
}

/// Issues a flash loan of `amount` units of `token` to `receiver`, whose
/// callback entry point is invoked with the data blob between disbursement
/// and repayment. Returns `Ok(true)` exactly when the whole sequence ran to
/// completion; on any failure the ledger is left as it was, every effect of
/// the aborted loan undone.
pub fn flash_loan(
    registry: &TokenRegistry,
    ledger: &mut TokenLedger,
    chain: &Vec<CallStackFrame>,
    receiver: Address,
    token: Address,
    amount: u128,
    data: &Vec<u8>,
) -> (r: Result<bool, Error>)
    requires
        amount * registry.spec_fee_rate(token) <= u128::MAX,
        amount + spec_fee(registry.spec_fee_rate(token), amount) <= u128::MAX,
    ensures
        r == spec_flash_loan(*registry, *old(ledger), chain@, receiver, token, amount),
        r is Err ==> final(ledger).balances@ == old(ledger).balances@,
        r is Err ==> final(ledger).allowances@ == old(ledger).allowances@,
        r is Err ==> forall|t2: Address, h2: Address|
            final(ledger).spec_balance_of(t2, h2) == old(ledger).spec_balance_of(t2, h2),
        r is Err ==> forall|t2: Address, o2: Address, s2: Address|
            final(ledger).spec_allowance(t2, o2, s2) == old(ledger).spec_allowance(t2, o2, s2),
        r is Ok ==> forall|t2: Address, h2: Address|
            final(ledger).spec_balance_of(t2, h2) == spec_balance_after_loan(
                *old(ledger),
                spec_lender_addr(chain@),
                receiver,
                token,
                spec_fee(registry.spec_fee_rate(token), amount),
                t2,
                h2,
            ),
        r is Ok ==> forall|t2: Address, o2: Address, s2: Address|
            final(ledger).spec_allowance(t2, o2, s2) == if t2 == token && o2 == receiver && s2
                == spec_lender_addr(chain@) {
                old(ledger).spec_allowance(token, receiver, spec_lender_addr(chain@)) - (amount
                    + spec_fee(registry.spec_fee_rate(token), amount))
            } else {
                old(ledger).spec_allowance(t2, o2, s2) as int
            },
{
    if !registry.is_supported(token) {
        return Err(Error::UnsupportedCurrency);
    }
    let flashfee = flash_fee(registry, token, amount);
    match token {
        Address::Contract(_) => {},
        _ => {
            return Err(Error::InvalidAddressKind);
        },
    }
    if chain.len() < 2 {
        return Err(Error::CallChainTooShort);
    }
    let lender_addr = call_stack_element_to_address(chain[chain.len() - 1]);
    let msg_sender = call_stack_element_to_address(chain[chain.len() - 2]);
    let snapshot = ledger.snapshot();
    let sent = ledger.transfer(token, lender_addr, receiver, amount);
    if !sent {
        return Err(Error::TransferFailed);
    }
    let ghost l1 = *ledger;
    let receiver_hash = match receiver {
        Address::Contract(h) => h,
        _ => {
            *ledger = snapshot;
            return Err(Error::RepayFailed);
        },
    };
    // The receiver observes the chain extended by its own frame.
    let mut callback_chain = crate::copy_vec(chain);
    callback_chain.push(CallStackFrame::StoredContract { contract_package_hash: receiver_hash });
    proof {
        assert(callback_chain@.last() == CallStackFrame::StoredContract {
            contract_package_hash: receiver_hash,
        });
        assert(callback_chain@[callback_chain@.len() - 2] == chain@[chain@.len() - 1]);
    }
    let reply = crate::borrower::on_flash_loan(
        &callback_chain,
        msg_sender,
        lender_addr,
        token,
        amount,
        flashfee,
        data,
    );
    let accepted = callback_accepted(&reply);
    if !accepted {
        *ledger = snapshot;
        return Err(Error::CallbackFailed);
    }
    let repay = amount + flashfee;
    let repaid = ledger.transfer_from(token, lender_addr, receiver, lender_addr, repay);
    if !repaid {
        *ledger = snapshot;
        return Err(Error::RepayFailed);
    }
    proof {
        let l0 = *old(ledger);
        let fee = spec_fee(registry.spec_fee_rate(token), amount);
        assert forall|t2: Address, h2: Address|
            ledger.spec_balance_of(t2, h2) == spec_balance_after_loan(
                l0,
                lender_addr,
                receiver,
                token,
                fee,
                t2,
                h2,
            ) by {
            assert(l1.spec_balance_of(t2, h2) == spec_balance_after_transfer(
                l0,
                token,
                lender_addr,
                receiver,
                amount,
                t2,
                h2,
            ));
            assert(ledger.spec_balance_of(t2, h2) == spec_balance_after_transfer(
                l1,
                token,
                receiver,
                lender_addr,
                repay,
                t2,
                h2,
            ));
            assert(l1.spec_balance_of(token, receiver) == spec_balance_after_transfer(
                l0,
                token,
                lender_addr,
                receiver,
                amount,
                token,
                receiver,
            ));
            assert(l1.spec_balance_of(token, lender_addr) == spec_balance_after_transfer(
                l0,
                token,
                lender_addr,
                receiver,
                amount,
                token,
                lender_addr,
            ));
        }
    }
    Ok(true)
}

/// What the lender can lend of a token: its own current balance.
pub open spec fn spec_max_flash_loan(
    l: TokenLedger,
    chain: Seq<CallStackFrame>,
    token: Address,
) -> Result<u128, Error> {
    if !(token is Contract) {
        Err(Error::InvalidAddressKind)
    } else if chain.len() < 1 {
        Err(Error::CallChainTooShort)
    } else {
        Ok(l.spec_balance_of(token, spec_lender_addr(chain)))
    }
}

/// The largest loan the lender can currently issue in a token: everything it
/// holds of it.
pub fn max_flash_loan(ledger: &TokenLedger, chain: &Vec<CallStackFrame>, token: Address) -> (r:
    Result<u128, Error>)
    ensures
        r == spec_max_flash_loan(*ledger, chain@, token),
{
    match token {
        Address::Contract(_) => {},
        _ => {
            return Err(Error::InvalidAddressKind);
        },
    }
    if chain.len() < 1 {
        return Err(Error::CallChainTooShort);
    }
    let lender_addr = call_stack_element_to_address(chain[chain.len() - 1]);
    Ok(ledger.balance_of(token, lender_addr))
}

} // verus!
