use ed25519_dalek::{Signer, SigningKey};
use weave_contract::artifact::{build_ed25519_artifact, verify_ed25519_ix};
use weave_contract::errors::WeaveError;
use weave_contract::keys::{key_eq, Pubkey};
use weave_contract::message::settlement_message;

fn key(tag: u8) -> Pubkey {
    Pubkey::new([tag; 32])
}

fn referee_signing_key() -> SigningKey {
    SigningKey::from_bytes(&[2u8; 32])
}

fn referee() -> Pubkey {
    Pubkey::new(referee_signing_key().verifying_key().to_bytes())
}

fn referee_sign(msg: &[u8]) -> [u8; 64] {
    referee_signing_key().sign(msg).to_bytes()
}

#[test]
fn key_eq_compares_bytes() {
    assert!(key_eq(&key(4), &key(4)));
    assert!(!key_eq(&key(4), &key(5)));
    let mut almost = [4u8; 32];
    almost[31] = 5;
    assert!(!key_eq(&key(4), &Pubkey::new(almost)));
}

#[test]
fn settlement_message_exact_bytes() {
    let player = key(7);
    let msg = settlement_message(&player, 1, 2, 0x0102030405060708);
    assert_eq!(msg.len(), 56);
    assert_eq!(&msg[0..32], &[7u8; 32]);
    assert_eq!(&msg[32..40], &[1, 0, 0, 0, 0, 0, 0, 0]);
    assert_eq!(&msg[40..48], &[2, 0, 0, 0, 0, 0, 0, 0]);
    assert_eq!(&msg[48..56], &[8, 7, 6, 5, 4, 3, 2, 1]);
}

#[test]
fn built_artifact_verifies() {
    let msg = settlement_message(&key(7), 60, 5, 99);
    let art = build_ed25519_artifact(&referee(), &referee_sign(&msg), &msg);
    assert_eq!(art.len(), 112 + 56);
    // Header fields: count, then offsets at their fixed positions.
    assert_eq!(art[0], 1);
    assert_eq!(u16::from_le_bytes([art[2], art[3]]), 48);
    assert_eq!(u16::from_le_bytes([art[6], art[7]]), 16);
    assert_eq!(u16::from_le_bytes([art[8], art[9]]), 0xffff);
    assert_eq!(u16::from_le_bytes([art[10], art[11]]), 112);
    assert_eq!(u16::from_le_bytes([art[12], art[13]]), 56);
    assert_eq!(u16::from_le_bytes([art[14], art[15]]), 0xffff);
    assert_eq!(verify_ed25519_ix(&art, &referee(), &msg), Ok(()));
}

#[test]
fn forged_signature_rejected() {
    // Structurally perfect: right key, right message — but the signature
    // bytes are filler, not the referee's signature.
    let msg = settlement_message(&key(7), 60, 5, 99);
    let art = build_ed25519_artifact(&referee(), &[0u8; 64], &msg);
    assert_eq!(
        verify_ed25519_ix(&art, &referee(), &msg),
        Err(WeaveError::InvalidEd25519Instruction)
    );
}

#[test]
fn tampered_signature_rejected() {
    let msg = settlement_message(&key(7), 60, 5, 99);
    let mut art = build_ed25519_artifact(&referee(), &referee_sign(&msg), &msg);
    // Flip one bit of the embedded signature.
    art[48] ^= 1;
    assert_eq!(
        verify_ed25519_ix(&art, &referee(), &msg),
        Err(WeaveError::InvalidEd25519Instruction)
    );
}

#[test]
fn signature_over_other_message_rejected() {
    // A genuine referee signature, but over different settlement terms.
    let msg = settlement_message(&key(7), 60, 5, 99);
    let other = settlement_message(&key(7), 61, 5, 99);
    let art = build_ed25519_artifact(&referee(), &referee_sign(&other), &msg);
    assert_eq!(
        verify_ed25519_ix(&art, &referee(), &msg),
        Err(WeaveError::InvalidEd25519Instruction)
    );
}

#[test]
fn artifact_with_wrong_key_rejected() {
    let msg = settlement_message(&key(7), 60, 5, 99);
    let art = build_ed25519_artifact(&key(8), &referee_sign(&msg), &msg);
    assert_eq!(
        verify_ed25519_ix(&art, &referee(), &msg),
        Err(WeaveError::InvalidEd25519Instruction)
    );
}

#[test]
fn artifact_with_tampered_message_rejected() {
    let msg = settlement_message(&key(7), 60, 5, 99);
    let mut art = build_ed25519_artifact(&referee(), &referee_sign(&msg), &msg);
    // Flip one byte of the embedded message (authorized amount).
    art[112 + 32] ^= 1;
    assert_eq!(
        verify_ed25519_ix(&art, &referee(), &msg),
        Err(WeaveError::InvalidEd25519Instruction)
    );
}

#[test]
fn artifact_with_wrong_message_length_rejected() {
    let msg = settlement_message(&key(7), 60, 5, 99);
    let mut art = build_ed25519_artifact(&referee(), &referee_sign(&msg), &msg);
    // Claim a 55-byte message.
    art[12] = 55;
    art[13] = 0;
    assert_eq!(
        verify_ed25519_ix(&art, &referee(), &msg),
        Err(WeaveError::InvalidEd25519Instruction)
    );
}

#[test]
fn artifact_not_self_contained_rejected() {
    let msg = settlement_message(&key(7), 60, 5, 99);

    // Public key referenced from elsewhere.
    let mut art = build_ed25519_artifact(&referee(), &referee_sign(&msg), &msg);
    art[8] = 0;
    art[9] = 0;
    assert_eq!(
        verify_ed25519_ix(&art, &referee(), &msg),
        Err(WeaveError::InvalidEd25519Instruction)
    );

    // Message referenced from elsewhere.
    let mut art = build_ed25519_artifact(&referee(), &referee_sign(&msg), &msg);
    art[14] = 0;
    art[15] = 0;
    assert_eq!(
        verify_ed25519_ix(&art, &referee(), &msg),
        Err(WeaveError::InvalidEd25519Instruction)
    );
}

#[test]
fn artifact_with_two_signatures_rejected() {
    let msg = settlement_message(&key(7), 60, 5, 99);
    let mut art = build_ed25519_artifact(&referee(), &referee_sign(&msg), &msg);
    art[0] = 2;
    assert_eq!(
        verify_ed25519_ix(&art, &referee(), &msg),
        Err(WeaveError::InvalidEd25519Instruction)
    );
}

#[test]
fn truncated_artifact_rejected() {
    let msg = settlement_message(&key(7), 60, 5, 99);
    let art = vec![1u8; 16];
    assert_eq!(
        verify_ed25519_ix(&art, &referee(), &msg),
        Err(WeaveError::InvalidEd25519Instruction)
    );
    // Offsets pointing past the end of the structure.
    let mut art = build_ed25519_artifact(&referee(), &referee_sign(&msg), &msg);
    art.truncate(112 + 20);
    assert_eq!(
        verify_ed25519_ix(&art, &referee(), &msg),
        Err(WeaveError::InvalidEd25519Instruction)
    );
}
