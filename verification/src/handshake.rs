//! The callback proof: the fixed 32-byte acknowledgement value that a
//! borrower returns from its loan callback and that the lender compares the
//! callback's reply against.
//!
//! It is the BLAKE2b digest, 32 bytes long, of one protocol-defined ASCII
//! string naming the callback entry point. Both sides compute it from that
//! exact string; computing it from anything else makes the handshake fail
//! every time.

use vstd::prelude::*;

use crate::Error;

verus! {

/// The 32-byte BLAKE2b digest of a string. The digest is a function of the
/// input alone.
pub uninterp spec fn blake2b32_of(input: Seq<char>) -> Seq<u8>;

/// Relies on blake2b_simd::Params::hash with hash_length 32: the digest
/// depends only on the input bytes and the configured length, and as_bytes
/// returns exactly the 32 configured bytes.
#[verifier::external_body]
fn blake2b_hash32(input: &str) -> (r: Vec<u8>)
    ensures
        r@ == blake2b32_of(input@),
        r@.len() == 32,
{
    blake2b_simd::Params::new().hash_length(32).hash(input.as_bytes()).as_bytes().to_vec()
}

/// The fixed acknowledgement value both sides of the handshake agree on.
pub open spec fn spec_callback_proof() -> Seq<u8> {
    blake2b32_of("ERC3156FlashBorrower.onFlashLoan"@)
}

/// Computes the callback proof. Every call, on either side of the handshake,
/// returns the same 32 bytes.
pub fn compute_callback_proof() -> (r: Vec<u8>)
    ensures
        r@ == spec_callback_proof(),
        r@.len() == 32,
{
    blake2b_hash32("ERC3156FlashBorrower.onFlashLoan")
}

/// Whether the lender accepts a callback's reply: only a reply that is
/// exactly the callback proof, never a failure.
pub open spec fn spec_callback_accepted(reply: Result<Seq<u8>, Error>) -> bool {
    reply matches Ok(v) && v == spec_callback_proof()
}

/// A forged acknowledgement never passes: the lender accepts no reply, of any
/// length, other than the callback proof itself, and no failed callback.
pub proof fn lemma_forged_reply_rejected(reply: Result<Seq<u8>, Error>)
    requires
        !(reply matches Ok(v) && v == spec_callback_proof()),
    ensures
        !spec_callback_accepted(reply),
{
}

/// Byte-for-byte equality of two byte strings.
pub fn bytes_eq(a: &Vec<u8>, b: &Vec<u8>) -> (r: bool)
    ensures
        r == (a@ == b@),
{
    if a.len() != b.len() {
        return false;
    }
    let mut i: usize = 0;
    while i < a.len()
        invariant
            i <= a.len(),
            a@.len() == b@.len(),
            forall|j: int| 0 <= j < i ==> a@[j] == b@[j],
        decreases a.len() - i,
    {
        if a[i] != b[i] {
            return false;
        }
        i += 1;
    }
    proof {
        assert(a@ =~= b@);
    }
    true
}

/// Decides the lender-side verification of a callback's reply.
pub fn callback_accepted(reply: &Result<Vec<u8>, Error>) -> (r: bool)
    ensures
        r == (reply matches Ok(v) && v@ == spec_callback_proof()),
{
    match reply {
        Ok(v) => {
            let expected = compute_callback_proof();
            bytes_eq(v, &expected)
        },
        Err(_) => false,
    }
}

} // verus!
