//! Trusted bindings to the outside cryptography crates, and the spec-level
//! names for what they compute.

use vstd::prelude::*;

use ciphersuite::{Ciphersuite, Ristretto};
use ciphersuite::group::ff::PrimeField;
use ciphersuite::group::GroupEncoding;
use flexible_transcript::{RecommendedTranscript, Transcript};
use schnorr_signatures::SchnorrSignature;
use zeroize::{Zeroize, Zeroizing};

verus! {

/// Whether 32 bytes are the canonical encoding of a Ristretto scalar.
pub uninterp spec fn scalar_canonical(bytes: Seq<u8>) -> bool;

/// The encoding of generator times the scalar whose canonical encoding is `scalar`.
pub uninterp spec fn pubkey_of(scalar: Seq<u8>) -> Seq<u8>;

/// The bytes held by a zeroize-on-drop buffer.
pub uninterp spec fn secret_bytes(s: SecretBytes) -> Seq<u8>;

/// 32 bytes of secret material, held in memory that is wiped when the value is
/// dropped. Verus sees the type as opaque; `secret_bytes` names its contents.
#[verifier::external_body]
pub struct SecretBytes {
    buf: Zeroizing<[u8; 32]>,
}

impl SecretBytes {
    /// Relies on zeroize's `Zeroizing`: the wrapped bytes are unchanged until
    /// the drop-time wipe.
    #[verifier::external_body]
    pub fn new(bytes: [u8; 32]) -> (r: SecretBytes)
        ensures
            secret_bytes(r) == bytes@,
    {
        SecretBytes { buf: Zeroizing::new(bytes) }
    }
}

/// Relies on zeroize's `Zeroizing`: dereferencing exposes the wrapped bytes
/// unchanged.
#[verifier::external_body]
pub(crate) fn secret_ref(s: &SecretBytes) -> (r: &[u8; 32])
    ensures
        r@ == secret_bytes(*s),
{
    &s.buf
}

/// Relies on dalek-ff-group's `Scalar` (ciphersuite's Ristretto scalar field):
/// `from_repr` accepts exactly the canonical encodings, and multiplying the
/// generator by the decoded scalar and encoding the point is a function of the
/// scalar encoding alone.
#[verifier::external_body]
pub(crate) fn derive_pubkey(key: &[u8; 32]) -> (r: Option<[u8; 32]>)
    ensures
        r is Some <==> scalar_canonical(key@),
        r matches Some(p) ==> p@ == pubkey_of(key@),
{
    match Option::<<Ristretto as Ciphersuite>::F>::from(
        <Ristretto as Ciphersuite>::F::from_repr(*key),
    ) {
        Some(k) => {
            let k = Zeroizing::new(k);
            Some((<Ristretto as Ciphersuite>::generator() * &*k).to_bytes())
        }
        None => None,
    }
}

/// The canonical encoding of the nonce scalar derived from the chain identity,
/// the secret key's canonical encoding, and the message.
pub uninterp spec fn nonce_of(genesis: Seq<u8>, key: Seq<u8>, msg: Seq<u8>) -> Seq<u8>;

/// The canonical encoding of the challenge scalar derived from the chain
/// identity, a public key, a nonce commitment, and the message.
pub uninterp spec fn challenge_of(
    genesis: Seq<u8>,
    key: Seq<u8>,
    nonce_commitment: Seq<u8>,
    msg: Seq<u8>,
) -> Seq<u8>;

/// The 64-byte serialization of the Schnorr signature made from a secret key,
/// a nonce and a challenge, each given by its canonical scalar encoding.
pub uninterp spec fn schnorr_sig_of(key: Seq<u8>, nonce: Seq<u8>, challenge: Seq<u8>) -> Seq<u8>;

/// Whether a 64-byte signature passes the strict Schnorr check for the public
/// key encoded by `key` and the challenge encoded by `challenge`; false
/// whenever the key or the signature fails its canonical decoding.
pub uninterp spec fn schnorr_verifies(key: Seq<u8>, sig: Seq<u8>, challenge: Seq<u8>) -> bool;

/// The all-zero scalar encoding: the canonical encoding of the zero scalar.
pub open spec fn zero32() -> Seq<u8> {
    Seq::new(32, |i: int| 0u8)
}

/// A signature is accepted for `key` on `msg` under the chain identity
/// `genesis` when the Schnorr check passes for the challenge recomputed from
/// the signature's own nonce commitment, its first 32 bytes.
pub open spec fn verifies_under(genesis: Seq<u8>, key: Seq<u8>, msg: Seq<u8>, sig: Seq<u8>) -> bool {
    schnorr_verifies(key, sig, challenge_of(genesis, key, sig.subrange(0, 32), msg))
}

/// The signature a signer with secret key `key` produces on `msg` for the
/// chain identity `genesis`: deterministic nonce, then the challenge over the
/// signer's own public key and the nonce commitment.
pub open spec fn spec_signature(genesis: Seq<u8>, key: Seq<u8>, msg: Seq<u8>) -> Seq<u8> {
    let nonce = nonce_of(genesis, key, msg);
    schnorr_sig_of(
        key,
        nonce,
        challenge_of(genesis, pubkey_of(key), pubkey_of(nonce), msg),
    )
}

/// Relies on flexible-transcript's `RecommendedTranscript` and dalek-ff-group's
/// `Scalar::{from_bytes_mod_order_wide, to_repr}`: the derived nonce depends on
/// the three inputs alone, and `to_repr` returns a canonical encoding.
/// Intermediate buffers are wiped via zeroize.
#[verifier::external_body]
pub(crate) fn derive_nonce(genesis: &[u8; 32], key: &[u8; 32], msg: &[u8]) -> (n: SecretBytes)
    ensures
        secret_bytes(n) == nonce_of(genesis@, key@, msg@),
        scalar_canonical(secret_bytes(n)),
{
    let mut t = Zeroizing::new(RecommendedTranscript::new(b"Tributary Chain Tendermint Nonce"));
    t.append_message(b"genesis", genesis);
    t.append_message(b"key", key);
    t.append_message(b"message", msg);
    let mut wide: [u8; 64] = t.challenge(b"nonce").into();
    let scalar = Zeroizing::new(<Ristretto as Ciphersuite>::F::from_bytes_mod_order_wide(&wide));
    wide.zeroize();
    SecretBytes { buf: Zeroizing::new(scalar.to_repr()) }
}

/// Relies on flexible-transcript's `RecommendedTranscript` and dalek-ff-group's
/// `Scalar::{from_bytes_mod_order_wide, to_repr}`: the challenge scalar depends
/// on the four inputs alone, and `to_repr` returns a canonical encoding.
#[verifier::external_body]
pub(crate) fn challenge(genesis: &[u8; 32], key: &[u8; 32], nonce: &[u8], msg: &[u8]) -> (c: [u8; 32])
    ensures
        c@ == challenge_of(genesis@, key@, nonce@, msg@),
        scalar_canonical(c@),
{
    let mut t = RecommendedTranscript::new(b"Tributary Chain Tendermint Message");
    t.append_message(b"genesis", genesis);
    t.append_message(b"key", key);
    t.append_message(b"nonce", nonce);
    t.append_message(b"message", msg);
    <Ristretto as Ciphersuite>::F::from_bytes_mod_order_wide(&t.challenge(b"schnorr").into()).to_repr()
}

/// Relies on schnorr-signatures' `SchnorrSignature::{sign, serialize}`: the
/// signature is (R, s) with R the nonce commitment and s = challenge * key +
/// nonce, serialized as R's encoding followed by s's; by the verification
/// equation in the same crate's source, such a signature passes
/// `SchnorrSignature::verify` for the public key key * generator and the same
/// challenge.
#[verifier::external_body]
pub(crate) fn schnorr_sign(key: &[u8; 32], nonce: &[u8; 32], challenge_s: &[u8; 32]) -> (sig: [u8; 64])
    requires
        scalar_canonical(key@),
        scalar_canonical(nonce@),
        scalar_canonical(challenge_s@),
    ensures
        sig@ == schnorr_sig_of(key@, nonce@, challenge_s@),
        sig@.subrange(0, 32) == pubkey_of(nonce@),
        schnorr_verifies(pubkey_of(key@), sig@, challenge_s@),
{
    let k = Option::<<Ristretto as Ciphersuite>::F>::from(
        <Ristretto as Ciphersuite>::F::from_repr(*key),
    ).map(Zeroizing::new).unwrap();
    let n = Option::<<Ristretto as Ciphersuite>::F>::from(
        <Ristretto as Ciphersuite>::F::from_repr(*nonce),
    ).map(Zeroizing::new).unwrap();
    let c = Option::<<Ristretto as Ciphersuite>::F>::from(
        <Ristretto as Ciphersuite>::F::from_repr(*challenge_s),
    ).unwrap();
    let sig = SchnorrSignature::<Ristretto>::sign(&k, n, c).serialize();
    let mut out = [0u8; 64];
    out.copy_from_slice(&sig);
    out
}

/// Relies on ciphersuite's `read_G` and schnorr-signatures'
/// `SchnorrSignature::{read, verify}`: false when the key or the signature
/// fails its strict canonical decoding, else the outcome of the Schnorr
/// verification equation; a function of the three inputs alone.
#[verifier::external_body]
pub(crate) fn schnorr_check(key: &[u8; 32], sig: &[u8; 64], challenge_s: &[u8; 32]) -> (r: bool)
    requires
        scalar_canonical(challenge_s@),
    ensures
        r == schnorr_verifies(key@, sig@, challenge_s@),
{
    let mut key_slice: &[u8] = key.as_slice();
    let point = match Ristretto::read_G::<&[u8]>(&mut key_slice) {
        Ok(point) => point,
        Err(_) => return false,
    };
    let mut sig_slice: &[u8] = sig.as_slice();
    let parsed = match SchnorrSignature::<Ristretto>::read::<&[u8]>(&mut sig_slice) {
        Ok(parsed) => parsed,
        Err(_) => return false,
    };
    let c = Option::<<Ristretto as Ciphersuite>::F>::from(
        <Ristretto as Ciphersuite>::F::from_repr(*challenge_s),
    ).unwrap();
    parsed.verify(point, c)
}

} // verus!
