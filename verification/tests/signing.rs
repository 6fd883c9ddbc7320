use ciphersuite::group::GroupEncoding;
use ciphersuite::{Ciphersuite, Ristretto};

use tributary::crypto::SecretBytes;
use tributary::signer::Signer;
use tributary::validators::Validators;

fn scalar_bytes(v: u8) -> [u8; 32] {
    let mut bytes = [0u8; 32];
    bytes[0] = v;
    bytes
}

fn committee(genesis: [u8; 32], keys: &[u8]) -> (Vec<Signer>, Validators) {
    let signers: Vec<Signer> = keys
        .iter()
        .map(|k| Signer::new(genesis, SecretBytes::new(scalar_bytes(*k))).unwrap())
        .collect();
    let members: Vec<([u8; 32], u64)> =
        signers.iter().map(|s| (s.validator_id().unwrap(), 1)).collect();
    let validators = Validators::new(genesis, members).unwrap();
    (signers, validators)
}

#[test]
fn sign_verify_roundtrip() {
    let genesis = [7u8; 32];
    let (signers, validators) = committee(genesis, &[1, 2, 3, 4]);
    let msg = b"tributary consensus message";
    for signer in &signers {
        let id = signer.validator_id().unwrap();
        let sig = signer.sign(msg).unwrap();
        assert!(validators.verify(id, msg, &sig));
    }
}

#[test]
fn validator_id_is_scalar_times_generator() {
    let genesis = [7u8; 32];
    let signer = Signer::new(genesis, SecretBytes::new(scalar_bytes(1))).unwrap();
    let basepoint = <Ristretto as Ciphersuite>::generator().to_bytes();
    assert_eq!(signer.validator_id().unwrap(), basepoint);
}

#[test]
fn signature_is_deterministic() {
    let genesis = [9u8; 32];
    let signer = Signer::new(genesis, SecretBytes::new(scalar_bytes(3))).unwrap();
    let msg = b"same message";
    assert_eq!(signer.sign(msg).unwrap(), signer.sign(msg).unwrap());
}

#[test]
fn cross_chain_signature_rejected() {
    let genesis_a = [1u8; 32];
    let genesis_b = [2u8; 32];
    let (signers_a, _) = committee(genesis_a, &[1, 2, 3, 4]);
    // The same members, scoped to another chain identity.
    let members: Vec<([u8; 32], u64)> =
        signers_a.iter().map(|s| (s.validator_id().unwrap(), 1)).collect();
    let validators_b = Validators::new(genesis_b, members).unwrap();
    let msg = b"replayed message";
    let id = signers_a[0].validator_id().unwrap();
    let sig = signers_a[0].sign(msg).unwrap();
    assert!(!validators_b.verify(id, msg, &sig));
}

#[test]
fn non_member_rejected() {
    let genesis = [7u8; 32];
    let (_, validators) = committee(genesis, &[1, 2, 3]);
    let outsider = Signer::new(genesis, SecretBytes::new(scalar_bytes(9))).unwrap();
    let msg = b"hello";
    let sig = outsider.sign(msg).unwrap();
    assert!(!validators.verify(outsider.validator_id().unwrap(), msg, &sig));
}

#[test]
fn tampered_signature_rejected() {
    let genesis = [7u8; 32];
    let (signers, validators) = committee(genesis, &[1, 2]);
    let msg = b"payload";
    let id = signers[0].validator_id().unwrap();
    let mut sig = signers[0].sign(msg).unwrap();
    sig[40] ^= 1;
    assert!(!validators.verify(id, msg, &sig));
}

#[test]
fn wrong_message_rejected() {
    let genesis = [7u8; 32];
    let (signers, validators) = committee(genesis, &[1, 2]);
    let id = signers[0].validator_id().unwrap();
    let sig = signers[0].sign(b"first").unwrap();
    assert!(!validators.verify(id, b"second", &sig));
}

#[test]
fn noncanonical_key_refused() {
    // 2^256 - 1 is far above the group order, so not a canonical encoding.
    let genesis = [7u8; 32];
    assert!(Signer::new(genesis, SecretBytes::new([0xFF; 32])).is_none());
}
