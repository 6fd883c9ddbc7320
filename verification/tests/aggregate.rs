use tributary::crypto::SecretBytes;
use tributary::signer::Signer;
use tributary::validators::Validators;

fn scalar_bytes(v: u8) -> [u8; 32] {
    let mut bytes = [0u8; 32];
    bytes[0] = v;
    bytes
}

fn committee(genesis: [u8; 32], keys: &[u8]) -> (Vec<Signer>, Validators) {
    let signers: Vec<Signer> = keys
        .iter()
        .map(|k| Signer::new(genesis, SecretBytes::new(scalar_bytes(*k))).unwrap())
        .collect();
    let members: Vec<([u8; 32], u64)> =
        signers.iter().map(|s| (s.validator_id().unwrap(), 1)).collect();
    let validators = Validators::new(genesis, members).unwrap();
    (signers, validators)
}

fn sign_all(signers: &[Signer], msg: &[u8]) -> (Vec<[u8; 32]>, Vec<[u8; 64]>) {
    let ids = signers.iter().map(|s| s.validator_id().unwrap()).collect();
    let sigs = signers.iter().map(|s| s.sign(msg).unwrap()).collect();
    (ids, sigs)
}

#[test]
fn aggregate_is_concatenation() {
    let genesis = [3u8; 32];
    let (signers, _) = committee(genesis, &[1, 2, 3]);
    let (_, sigs) = sign_all(&signers, b"agg");
    assert_eq!(Validators::aggregate(&sigs), sigs);
}

#[test]
fn aggregate_of_all_valid_accepted() {
    let genesis = [3u8; 32];
    let (signers, validators) = committee(genesis, &[1, 2, 3, 4]);
    let msg = b"finalize height 5";
    let (ids, sigs) = sign_all(&signers, msg);
    assert!(validators.verify_aggregate(&ids, msg, &Validators::aggregate(&sigs)));
}

#[test]
fn aggregate_with_one_invalid_rejected() {
    let genesis = [3u8; 32];
    let (signers, validators) = committee(genesis, &[1, 2, 3]);
    let msg = b"finalize";
    let (ids, mut sigs) = sign_all(&signers, msg);
    sigs[1][50] ^= 1;
    assert!(!validators.verify_aggregate(&ids, msg, &sigs));
}

#[test]
fn aggregate_with_missing_signature_rejected() {
    let genesis = [3u8; 32];
    let (signers, validators) = committee(genesis, &[1, 2, 3]);
    let msg = b"finalize";
    let (ids, mut sigs) = sign_all(&signers, msg);
    sigs.pop();
    assert!(!validators.verify_aggregate(&ids, msg, &sigs));
}

#[test]
fn aggregate_with_non_member_rejected() {
    let genesis = [3u8; 32];
    let (signers, validators) = committee(genesis, &[1, 2]);
    let outsider = Signer::new(genesis, SecretBytes::new(scalar_bytes(8))).unwrap();
    let msg = b"finalize";
    let (mut ids, mut sigs) = sign_all(&signers, msg);
    ids.push(outsider.validator_id().unwrap());
    sigs.push(outsider.sign(msg).unwrap());
    assert!(!validators.verify_aggregate(&ids, msg, &sigs));
}

#[test]
fn empty_aggregate_accepted() {
    let genesis = [3u8; 32];
    let (_, validators) = committee(genesis, &[1, 2]);
    assert!(validators.verify_aggregate(&vec![], b"anything", &vec![]));
}
