//! The adapter the consensus engine drives: identity, signing and weight
//! handles, the slash hook, and the block validation and commitment policy.

use vstd::prelude::*;

use crate::signer::Signer;
use crate::validators::Validators;

verus! {

/// How long the engine should budget for processing one block.
pub const BLOCK_PROCESSING_TIME: u32 = 3;

/// How long the engine should budget for network latency.
pub const LATENCY_TIME: u32 = 1;

/// How long to wait before retrying a commit that failed on a missing
/// provided transaction, on the expectation that it arrives from peers.
pub const COMMIT_RETRY_SECS: u64 = 30;

/// What the ledger reports of a block: either the identity of a provided
/// transaction it does not know yet, or any other fault.
#[derive(Clone, Copy, PartialEq, Eq, Debug)]
pub enum LedgerFault {
    MissingProvided([u8; 32]),
    Invalid,
}

/// What validation reports to the engine: a temporal fault, worth a retry in
/// a later round, or a fatal one, never to be voted for.
#[derive(Clone, Copy, PartialEq, Eq, Debug)]
pub enum BlockError {
    Temporal,
    Fatal,
}

/// What the commit pipeline does next with an agreed-upon block.
#[derive(Clone, Copy, PartialEq, Eq, Debug)]
pub enum CommitStep {
    /// The ledger accepted the block; move to the next height.
    Committed,
    /// A provided transaction is missing: wait this many seconds, then retry
    /// the same block.
    Retry { wait_secs: u64 },
    /// The committee agreed on a block this ledger rejects: a safety
    /// violation, so halt this chain's participation loudly.
    Halt,
}

/// What `validate` reports for a candidate block, from whether the payload
/// decoded and, if it did, what the ledger said of it.
pub open spec fn spec_validate(decoded: Option<Result<(), LedgerFault>>) -> Result<(), BlockError> {
    match decoded {
        None => Err(BlockError::Fatal),
        Some(Ok(())) => Ok(()),
        Some(Err(LedgerFault::MissingProvided(_))) => Err(BlockError::Temporal),
        Some(Err(LedgerFault::Invalid)) => Err(BlockError::Fatal),
    }
}

/// What the commit pipeline does, from whether the payload decoded and, if it
/// did, what the ledger said of adding it.
pub open spec fn spec_add_block_step(decoded: Option<Result<(), LedgerFault>>) -> CommitStep {
    match decoded {
        None => CommitStep::Halt,
        Some(Ok(())) => CommitStep::Committed,
        Some(Err(LedgerFault::MissingProvided(_))) => CommitStep::Retry {
            wait_secs: COMMIT_RETRY_SECS,
        },
        Some(Err(LedgerFault::Invalid)) => CommitStep::Halt,
    }
}

/// One chain's adapter: the signer, the validator set, and the record of
/// slashed validators. The ledger itself stays outside; the adapter's policy
/// functions take its verdicts and decide.
pub struct Network {
    genesis: [u8; 32],
    signer: Signer,
    validators: Validators,
    slashed: Vec<[u8; 32]>,
}

impl Network {
    /// The chain identity this adapter drives.
    pub closed spec fn spec_genesis(self) -> Seq<u8> {
        self.genesis@
    }

    /// The signer handle.
    pub closed spec fn spec_signer(self) -> Signer {
        self.signer
    }

    /// The validator-set handle.
    pub closed spec fn spec_validators(self) -> Validators {
        self.validators
    }

    /// The validators slashed so far, in report order.
    pub closed spec fn spec_slashed(self) -> Seq<[u8; 32]> {
        self.slashed@
    }

    /// Composes the adapter for one chain from a signer and a validator set
    /// scoped to the same chain identity.
    pub fn new(genesis: [u8; 32], signer: Signer, validators: Validators) -> (r: Network)
        requires
            signer.spec_genesis() == genesis@,
            validators.spec_genesis() == genesis@,
        ensures
            r.spec_genesis() == genesis@,
            r.spec_signer() == signer,
            r.spec_validators() == validators,
            r.spec_slashed() == Seq::<[u8; 32]>::empty(),
    {
        Network { genesis, signer, validators, slashed: Vec::new() }
    }

    /// The signer the engine signs with.
    pub fn signer(&self) -> (r: &Signer)
        ensures
            *r == self.spec_signer(),
    {
        &self.signer
    }

    /// The signature scheme the engine verifies with.
    pub fn signature_scheme(&self) -> (r: &Validators)
        ensures
            *r == self.spec_validators(),
    {
        &self.validators
    }

    /// The weights the engine computes quorums and proposers with.
    pub fn weights(&self) -> (r: &Validators)
        ensures
            *r == self.spec_validators(),
    {
        &self.validators
    }

    /// Records a validator the engine caught misbehaving. Applying a penalty
    /// is the ledger's concern; this layer only keeps the report.
    pub fn slash(&mut self, validator: [u8; 32])
        ensures
            final(self).spec_slashed() == old(self).spec_slashed().push(validator),
            final(self).spec_genesis() == old(self).spec_genesis(),
            final(self).spec_signer() == old(self).spec_signer(),
            final(self).spec_validators() == old(self).spec_validators(),
    {
        self.slashed.push(validator);
    }

    /// The validators slashed so far, in report order.
    pub fn slashed(&self) -> (r: &Vec<[u8; 32]>)
        ensures
            r@ == self.spec_slashed(),
    {
        &self.slashed
    }

    /// Classifies a candidate block for the engine. `decoded` is None when
    /// the payload failed to decode — an unconditionally fatal fault — and
    /// otherwise holds the ledger's verdict on the decoded block: a missing
    /// provided transaction is temporal, worth retrying in a later round;
    /// any other fault is fatal.
    pub fn validate(&self, decoded: Option<Result<(), LedgerFault>>) -> (r: Result<(), BlockError>)
        ensures
            r == spec_validate(decoded),
    {
        match decoded {
            None => Err(BlockError::Fatal),
            Some(Ok(())) => Ok(()),
            Some(Err(LedgerFault::MissingProvided(_))) => Err(BlockError::Temporal),
            Some(Err(LedgerFault::Invalid)) => Err(BlockError::Fatal),
        }
    }

    /// Decides one step of committing an agreed-upon block. A payload that no
    /// longer decodes (None) or a ledger fault other than a missing provided
    /// transaction means the committee accepted a block this ledger rejects:
    /// halt rather than diverge. A missing provided transaction is waited out
    /// and the same block retried; never skipped.
    pub fn add_block_step(&self, decoded: Option<Result<(), LedgerFault>>) -> (r: CommitStep)
        ensures
            r == spec_add_block_step(decoded),
    {
        match decoded {
            None => CommitStep::Halt,
            Some(Ok(())) => CommitStep::Committed,
            Some(Err(LedgerFault::MissingProvided(_))) => CommitStep::Retry {
                wait_secs: COMMIT_RETRY_SECS,
            },
            Some(Err(LedgerFault::Invalid)) => CommitStep::Halt,
        }
    }
}

} // verus!
