//! A flash-loan protocol: a lender disburses an uncollateralized loan of a
//! fungible token, delegates control to the borrower's callback, verifies the
//! callback's returned proof value, and collects the principal plus a fee, all
//! within one atomic operation.
//!
//! The host's ambient state is modelled explicitly so that every rule of the
//! protocol is a pure, verified function: the caller chain is an ordered
//! sequence of frames threaded as a parameter, the token ledger and the token
//! registry are explicit in-memory values, and failures are explicit errors.

use vstd::prelude::*;

pub mod addr;
pub mod borrower;
pub mod fee;
pub mod handshake;
pub mod ledger;
pub mod lender;
pub mod registry;
pub mod tokens;

verus! {

/// Everything that can go wrong during a flash loan. Every error is terminal
/// for the operation that raised it: nothing is retried, and the ledger is
/// left exactly as it was before the operation started.
#[derive(Clone, Copy, PartialEq, Eq, Structural, Debug)]
pub enum Error {
    /// The caller chain held fewer frames than identity resolution needed.
    CallChainTooShort,
    /// The requested token is not in the lender's supported set.
    UnsupportedCurrency,
    /// Disbursing the principal to the receiver did not succeed.
    TransferFailed,
    /// Granting the lender an allowance for the repayment did not succeed.
    ApproveFailed,
    /// Pulling the principal plus the fee back from the receiver did not
    /// succeed, or the receiver was not a contract that could repay.
    RepayFailed,
    /// The borrower's callback was invoked for an initiator other than the
    /// borrower itself.
    UntrustedLoanInitiator,
    /// The borrower's callback was invoked by a caller other than the lender
    /// named in its arguments.
    UntrustedLender,
    /// The borrower's callback failed or returned a value other than the
    /// expected proof.
    CallbackFailed,
    /// The lender's loan entry point did not report success to the borrower.
    InitialFailed,
    /// An address had the wrong kind where a contract was expected.
    InvalidAddressKind,
}

/// Deployment entry point of the example borrower contract. The borrower
/// keeps no state of its own, so nothing has to be initialized.
pub fn call() {
}

/// Copies a vector of plain values element by element.
pub fn copy_vec<T: Copy>(v: &Vec<T>) -> (r: Vec<T>)
    ensures
        r@ == v@,
{
    let mut r: Vec<T> = Vec::new();
    let mut i: usize = 0;
    while i < v.len()
        invariant
            i <= v.len(),
            r@ == v@.take(i as int),
        decreases v.len() - i,
    {
        r.push(v[i]);
        i += 1;
        proof {
            assert(r@ =~= v@.take(i as int));
        }
    }
    proof {
        assert(v@.take(v@.len() as int) =~= v@);
    }
    r
}

} // verus!
