use flashlend::addr::{Address, Hash32};
use flashlend::handshake::{bytes_eq, callback_accepted, compute_callback_proof};
use flashlend::tokens::{address_to_bytes, make_dictionary_item_key};
use flashlend::Error;

fn hash(n: u64) -> Hash32 {
    Hash32 { w0: n, w1: 0, w2: 0, w3: 0 }
}

#[test]
fn callback_proof_is_stable_across_computations() {
    let first = compute_callback_proof();
    let second = compute_callback_proof();
    assert_eq!(first.len(), 32);
    assert_eq!(first, second);
}

#[test]
fn callback_proof_is_not_the_input_string() {
    let proof = compute_callback_proof();
    let input: Vec<u8> = b"ERC3156FlashBorrower.onFlashLoan".to_vec();
    assert_eq!(input.len(), 32);
    assert_ne!(proof, input);
}

#[test]
fn lender_accepts_exactly_the_proof() {
    let proof = compute_callback_proof();
    assert!(callback_accepted(&Ok(proof.clone())));

    let mut forged = proof.clone();
    forged[0] = forged[0].wrapping_add(1);
    assert!(!callback_accepted(&Ok(forged)));

    assert!(!callback_accepted(&Ok(Vec::new())));
    assert!(!callback_accepted(&Err(Error::CallbackFailed)));
}

#[test]
fn byte_equality_is_exact() {
    assert!(bytes_eq(&vec![1u8, 2, 3], &vec![1u8, 2, 3]));
    assert!(!bytes_eq(&vec![1u8, 2, 3], &vec![1u8, 2]));
    assert!(!bytes_eq(&vec![1u8, 2, 3], &vec![1u8, 2, 4]));
    assert!(bytes_eq(&Vec::new(), &Vec::new()));
}

#[test]
fn address_preimage_is_tag_plus_hash_words() {
    let account = address_to_bytes(Address::Account(hash(0x0102030405060708)));
    assert_eq!(account.len(), 33);
    assert_eq!(account[0], 0);
    // little-endian bytes of the first word
    assert_eq!(&account[1..9], &[8, 7, 6, 5, 4, 3, 2, 1]);
    assert!(account[9..33].iter().all(|b| *b == 0));

    let contract = address_to_bytes(Address::Contract(hash(0x0102030405060708)));
    assert_eq!(contract[0], 1);
    assert_eq!(&contract[1..], &account[1..]);
}

#[test]
fn dictionary_key_is_44_base64_characters() {
    let zero_account = Address::Account(Hash32 { w0: 0, w1: 0, w2: 0, w3: 0 });
    let key = make_dictionary_item_key(zero_account);
    assert_eq!(key.len(), 44);
    // 33 zero bytes encode to base64 'A's only
    assert_eq!(key, "A".repeat(44));

    let contract_key = make_dictionary_item_key(Address::Contract(Hash32 {
        w0: 0,
        w1: 0,
        w2: 0,
        w3: 0,
    }));
    assert_eq!(contract_key.len(), 44);
    assert_ne!(contract_key, key);
}
