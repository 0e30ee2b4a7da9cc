//! Caller-identity resolution: the single source of truth for "who is really
//! calling me".
//!
//! The host supplies, at every call boundary, the ordered chain of executing
//! entities, outermost initiator first. The resolver turns the frames at the
//! end of that chain into comparable [`Address`] values: the last frame is the
//! currently executing entity, the second-to-last its immediate caller.

use vstd::prelude::*;

use crate::Error;

verus! {

/// A 256-bit identity hash, held as four 64-bit words.
#[derive(Clone, Copy, PartialEq, Eq, Structural, Debug)]
pub struct Hash32 {
    pub w0: u64,
    pub w1: u64,
    pub w2: u64,
    pub w3: u64,
}

/// The identity of a caller or recipient. Equality is structural, and an
/// address never changes once constructed.
#[derive(Clone, Copy, PartialEq, Eq, Structural, Debug)]
pub enum Address {
    /// An account, named by its account hash.
    Account(Hash32),
    /// A deployed contract, named by its package hash.
    Contract(Hash32),
}

/// One entry of the ordered caller chain.
#[derive(Clone, Copy, PartialEq, Eq, Structural, Debug)]
pub enum CallStackFrame {
    /// Session code invoked directly by an account.
    Session { account_hash: Hash32 },
    /// Stored session code: code kept on chain but executing in an account's
    /// authorization context.
    StoredSession { account_hash: Hash32, contract_package_hash: Hash32 },
    /// A stored, deployed contract.
    StoredContract { contract_package_hash: Hash32 },
}

/// The address a caller-chain frame resolves to. Session code, stored or not,
/// acts with the invoking account's authority, so it resolves to the account;
/// a stored contract resolves to its package.
pub open spec fn frame_address(frame: CallStackFrame) -> Address {
    match frame {
        CallStackFrame::Session { account_hash } => Address::Account(account_hash),
        CallStackFrame::StoredSession { account_hash, .. } => Address::Account(account_hash),
        CallStackFrame::StoredContract { contract_package_hash } => Address::Contract(
            contract_package_hash,
        ),
    }
}

/// Resolves one caller-chain frame to the address it acts as.
pub fn call_stack_element_to_address(frame: CallStackFrame) -> (a: Address)
    ensures
        a == frame_address(frame),
{
    match frame {
        CallStackFrame::Session { account_hash } => Address::Account(account_hash),
        CallStackFrame::StoredSession { account_hash, .. } => Address::Account(account_hash),
        CallStackFrame::StoredContract { contract_package_hash } => Address::Contract(
            contract_package_hash,
        ),
    }
}

/// The currently executing entity: the last frame of the chain.
pub open spec fn spec_current(chain: Seq<CallStackFrame>) -> Result<Address, Error> {
    if chain.len() < 1 {
        Err(Error::CallChainTooShort)
    } else {
        Ok(frame_address(chain.last()))
    }
}

/// The entity that invoked the currently executing one: the second-to-last
/// frame of the chain.
pub open spec fn spec_immediate_caller(chain: Seq<CallStackFrame>) -> Result<Address, Error> {
    if chain.len() < 2 {
        Err(Error::CallChainTooShort)
    } else {
        Ok(frame_address(chain[chain.len() - 2]))
    }
}

/// Resolves the address of the currently executing entity.
pub fn resolve_current(chain: &Vec<CallStackFrame>) -> (r: Result<Address, Error>)
    ensures
        r == spec_current(chain@),
{
    if chain.len() < 1 {
        Err(Error::CallChainTooShort)
    } else {
        Ok(call_stack_element_to_address(chain[chain.len() - 1]))
    }
}

/// Resolves the address of the immediate caller of the currently executing
/// entity.
pub fn resolve_immediate_caller(chain: &Vec<CallStackFrame>) -> (r: Result<Address, Error>)
    ensures
        r == spec_immediate_caller(chain@),
{
    if chain.len() < 2 {
        Err(Error::CallChainTooShort)
    } else {
        Ok(call_stack_element_to_address(chain[chain.len() - 2]))
    }
}

} // verus!
