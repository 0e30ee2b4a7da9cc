//! The deterministic, length-bounded encoding of an [`Address`] that keys the
//! lender's persistent fee dictionary.
//!
//! An address serializes to a 33-byte preimage (a variant tag followed by the
//! 32 hash bytes, little-endian word by word), and the dictionary item key is
//! the base64 encoding of that preimage: always 44 characters, well within the
//! host's bound on dictionary keys.

use vstd::prelude::*;

use crate::addr::{Address, Hash32};

verus! {

/// The base64 encoding (standard alphabet, padded) of a byte string. The
/// encoding is a function of the input bytes alone.
pub uninterp spec fn base64_of(bytes: Seq<u8>) -> Seq<char>;

/// Relies on base64::encode: it encodes with the standard alphabet and
/// padding, so the output depends on the input bytes alone and is four
/// characters for every started group of three input bytes.
#[verifier::external_body]
fn base64_encode(bytes: &Vec<u8>) -> (r: String)
    ensures
        r@ == base64_of(bytes@),
        r@.len() == 4 * ((bytes@.len() + 2) / 3),
{
    base64::encode(bytes.as_slice())
}

/// The little-endian bytes of one 64-bit word.
pub open spec fn le_bytes(w: u64) -> Seq<u8> {
    seq![
        (w % 256) as u8,
        ((w / 256) % 256) as u8,
        ((w / 65536) % 256) as u8,
        ((w / 16777216) % 256) as u8,
        ((w / 4294967296) % 256) as u8,
        ((w / 1099511627776) % 256) as u8,
        ((w / 281474976710656) % 256) as u8,
        ((w / 72057594037927936) % 256) as u8,
    ]
}

/// The 32 bytes of an identity hash, word by word.
pub open spec fn hash_bytes(h: Hash32) -> Seq<u8> {
    le_bytes(h.w0) + le_bytes(h.w1) + le_bytes(h.w2) + le_bytes(h.w3)
}

/// The serialized form of an address: a variant tag followed by the hash
/// bytes. Accounts and contracts with equal hashes serialize differently.
pub open spec fn address_preimage(a: Address) -> Seq<u8> {
    match a {
        Address::Account(h) => seq![0u8] + hash_bytes(h),
        Address::Contract(h) => seq![1u8] + hash_bytes(h),
    }
}

/// Appends the little-endian bytes of one word.
fn push_le_bytes(out: &mut Vec<u8>, w: u64)
    ensures
        final(out)@ == old(out)@ + le_bytes(w),
{
    out.push((w % 256) as u8);
    out.push(((w / 256) % 256) as u8);
    out.push(((w / 65536) % 256) as u8);
    out.push(((w / 16777216) % 256) as u8);
    out.push(((w / 4294967296) % 256) as u8);
    out.push(((w / 1099511627776) % 256) as u8);
    out.push(((w / 281474976710656) % 256) as u8);
    out.push(((w / 72057594037927936) % 256) as u8);
    proof {
        assert(out@ =~= old(out)@ + le_bytes(w));
    }
}

/// Serializes an address to its 33-byte preimage.
pub fn address_to_bytes(a: Address) -> (r: Vec<u8>)
    ensures
        r@ == address_preimage(a),
        r@.len() == 33,
{
    let mut out: Vec<u8> = Vec::new();
    match a {
        Address::Account(h) => {
            out.push(0u8);
            push_le_bytes(&mut out, h.w0);
            push_le_bytes(&mut out, h.w1);
            push_le_bytes(&mut out, h.w2);
            push_le_bytes(&mut out, h.w3);
            proof {
                assert(out@ =~= address_preimage(a));
            }
        },
        Address::Contract(h) => {
            out.push(1u8);
            push_le_bytes(&mut out, h.w0);
            push_le_bytes(&mut out, h.w1);
            push_le_bytes(&mut out, h.w2);
            push_le_bytes(&mut out, h.w3);
            proof {
                assert(out@ =~= address_preimage(a));
            }
        },
    }
    out
}

/// The dictionary item key under which a token's fee rate is persisted: the
/// base64 encoding of the address preimage, always 44 characters long.
pub fn make_dictionary_item_key(owner: Address) -> (r: String)
    ensures
        r@ == base64_of(address_preimage(owner)),
        r@.len() == 44,
{
    let preimage = address_to_bytes(owner);
    base64_encode(&preimage)
}

} // verus!
