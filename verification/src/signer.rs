//! The per-validator signing identity for one tributary chain.

use vstd::prelude::*;

use crate::crypto::{
    challenge, derive_nonce, derive_pubkey, nonce_of, pubkey_of, scalar_canonical, schnorr_sign,
    secret_bytes, secret_ref, spec_signature, verifies_under, zero32, SecretBytes,
};

verus! {

/// Why a signing attempt was refused. A zero nonce out of the transcript
/// would leak the secret key if used, and can only mean a catastrophic
/// transcript fault; the caller must treat it as fatal.
#[derive(Clone, Copy, PartialEq, Eq, Debug)]
pub enum SignFault {
    ZeroNonce,
}

/// One validator's signing identity for one chain: the chain identity, the
/// secret scalar (wiped on drop), and the derived public identity.
pub struct Signer {
    genesis: [u8; 32],
    key: SecretBytes,
    id: [u8; 32],
}

impl Signer {
    #[verifier::type_invariant]
    spec fn wf(self) -> bool {
        &&& scalar_canonical(secret_bytes(self.key))
        &&& self.id@ == pubkey_of(secret_bytes(self.key))
    }

    /// The chain identity this signer is scoped to.
    pub closed spec fn spec_genesis(self) -> Seq<u8> {
        self.genesis@
    }

    /// The canonical encoding of the held secret scalar.
    pub closed spec fn spec_key(self) -> Seq<u8> {
        secret_bytes(self.key)
    }

    /// The public identity: the encoding of secret scalar times generator.
    pub closed spec fn spec_id(self) -> Seq<u8> {
        self.id@
    }

    /// Builds the signer for one chain from the secret scalar's canonical
    /// encoding; refuses bytes that are not a canonical scalar encoding.
    pub fn new(genesis: [u8; 32], key: SecretBytes) -> (r: Option<Signer>)
        ensures
            r is Some <==> scalar_canonical(secret_bytes(key)),
            r matches Some(s) ==> s.spec_genesis() == genesis@ && s.spec_key() == secret_bytes(key)
                && s.spec_id() == pubkey_of(secret_bytes(key)),
    {
        let pubkey = derive_pubkey(secret_ref(&key));
        match pubkey {
            Some(id) => Some(Signer { genesis, key, id }),
            None => None,
        }
    }

    /// The validator's current public identity. None would mean the signer
    /// holds no key for the current set; once constructed it always holds one.
    pub fn validator_id(&self) -> (r: Option<[u8; 32]>)
        ensures
            r matches Some(id) && id@ == pubkey_of(self.spec_key()),
            r matches Some(id) && id@ == self.spec_id(),
    {
        proof {
            use_type_invariant(self);
        }
        Some(self.id)
    }

    /// Signs a message: a deterministic nonce from the chain identity, the
    /// secret key and the message; the challenge over the signer's public key
    /// and the nonce commitment; then the 64-byte Schnorr signature. The one
    /// failure is a zero nonce out of the transcript, which is never signed
    /// with. Any validator set for the same chain that has this signer as a
    /// member accepts the produced signature.
    pub fn sign(&self, msg: &[u8]) -> (r: Result<[u8; 64], SignFault>)
        ensures
            r is Ok <==> nonce_of(self.spec_genesis(), self.spec_key(), msg@) != zero32(),
            r matches Ok(sig) ==> sig@ == spec_signature(
                self.spec_genesis(),
                self.spec_key(),
                msg@,
            ),
            r matches Ok(sig) ==> verifies_under(self.spec_genesis(), self.spec_id(), msg@, sig@),
    {
        proof {
            use_type_invariant(self);
        }
        let nonce = derive_nonce(&self.genesis, secret_ref(&self.key), msg);
        let nonce_bytes = secret_ref(&nonce);
        if is_zero32(nonce_bytes) {
            return Err(SignFault::ZeroNonce);
        }
        let commitment = derive_pubkey(nonce_bytes).unwrap();
        let challenge_s = challenge(&self.genesis, &self.id, commitment.as_slice(), msg);
        let sig = schnorr_sign(secret_ref(&self.key), nonce_bytes, &challenge_s);
        proof {
            assert(sig@.subrange(0, 32) == commitment@);
        }
        Ok(sig)
    }
}

/// Whether all 32 bytes are zero, the canonical encoding of the zero scalar.
fn is_zero32(bytes: &[u8; 32]) -> (r: bool)
    ensures
        r == (bytes@ == zero32()),
{
    let mut i: usize = 0;
    while i < 32
        invariant
            0 <= i <= 32,
            forall|j: int| 0 <= j < i ==> bytes@[j] == 0u8,
        decreases 32 - i,
    {
        if bytes[i] != 0 {
            proof {
                assert(bytes@[i as int] != zero32()[i as int]);
            }
            return false;
        }
        i += 1;
    }
    proof {
        assert(bytes@ =~= zero32());
    }
    true
}

} // verus!
