use soroban_sdk::Env;
use veritixpay::signed::{signed_whitelist_digest, signed_whitelist_message};

#[test]
fn signed_message_frames_parts_and_encodes_the_nonce() {
    let e = Env::default();
    let msg = signed_whitelist_message(&e, &vec![1, 2, 3], &vec![9, 8], &vec![vec![4, 5], vec![6]], 7);
    assert_eq!(
        msg,
        vec![1, 2, 3, 9, 8, 4, 5, 6, 0, 0, 0, 5, 0, 0, 0, 0, 0, 0, 0, 7]
    );
}

#[test]
fn signed_digest_is_the_sha256_of_the_message() {
    let e = Env::default();
    let digest = signed_whitelist_digest(&e, &vec![1, 2, 3], &vec![9, 8], &vec![vec![4, 5], vec![6]], 7);
    assert_eq!(
        digest,
        [
            21, 231, 224, 246, 237, 60, 129, 48, 81, 193, 159, 180, 7, 147, 250, 153, 133, 143, 36,
            236, 36, 220, 153, 148, 173, 187, 175, 42, 71, 152, 159, 128
        ]
    );
}

#[test]
fn framing_keeps_every_part_in_order() {
    let msg = veritixpay::signed::frame_whitelist_message(&vec![1], &vec![], &vec![vec![], vec![2, 3]], &vec![4]);
    assert_eq!(msg, vec![1, 2, 3, 4]);
}

#[test]
fn signer_key_matches_only_the_accounts_own_key() {
    let e = Env::default();
    let addr = soroban_sdk::Address::from_string(&soroban_sdk::String::from_str(
        &e,
        "GAAAAAAAAAAAAAAAAAAAAAAAAAAAAAAAAAAAAAAAAAAAAAAAAAAAAWHF",
    ));
    let encoded = soroban_sdk::xdr::ToXdr::to_xdr(addr, &e);
    let mut bytes = vec![0u8; encoded.len() as usize];
    encoded.copy_into_slice(&mut bytes);
    assert!(veritixpay::signed::signer_key_matches(&bytes, &[0u8; 32]));
    assert!(!veritixpay::signed::signer_key_matches(&bytes, &[1u8; 32]));
    assert!(!veritixpay::signed::signer_key_matches(&vec![0u8; 44], &[0u8; 32]));
}
