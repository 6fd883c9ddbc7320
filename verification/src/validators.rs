//! The weighted validator set: membership, signature verification and the
//! weight-proportional round-robin proposer schedule.

use vstd::prelude::*;

use crate::crypto::{challenge, schnorr_check, verifies_under};

verus! {

/// The sum of all weights of a committee.
pub open spec fn weight_sum(members: Seq<([u8; 32], u64)>) -> int
    decreases members.len(),
{
    if members.len() == 0 {
        0
    } else {
        weight_sum(members.drop_last()) + members.last().1
    }
}

/// How often `id` occurs among the schedule entries.
pub open spec fn occurrences(entries: Seq<[u8; 32]>, id: Seq<u8>) -> int
    decreases entries.len(),
{
    if entries.len() == 0 {
        0
    } else {
        occurrences(entries.drop_last(), id) + if entries.last()@ == id {
            1int
        } else {
            0int
        }
    }
}

/// `id` repeated `n` times.
pub open spec fn repeat_id(id: [u8; 32], n: nat) -> Seq<[u8; 32]> {
    Seq::new(n, |k: int| id)
}

/// The round-robin proposer schedule: each member in committee order,
/// repeated as often as its weight.
pub open spec fn schedule(members: Seq<([u8; 32], u64)>) -> Seq<[u8; 32]>
    decreases members.len(),
{
    if members.len() == 0 {
        Seq::empty()
    } else {
        schedule(members.drop_last()) + repeat_id(
            members.last().0,
            members.last().1 as nat,
        )
    }
}

/// Whether some committee entry carries the identity `id`.
pub open spec fn is_member(members: Seq<([u8; 32], u64)>, id: Seq<u8>) -> bool {
    exists|i: int| 0 <= i < members.len() && members[i].0@ == id
}

/// The weight recorded for `id`: of the last entry carrying it, so for a
/// committee with pairwise-distinct identities, of its one entry.
pub open spec fn weight_of(members: Seq<([u8; 32], u64)>, id: Seq<u8>) -> int
    decreases members.len(),
{
    if members.len() == 0 {
        0
    } else if members.last().0@ == id {
        members.last().1 as int
    } else {
        weight_of(members.drop_last(), id)
    }
}

/// What a committee must satisfy to build a validator set: non-empty,
/// pairwise-distinct identities, no zero weight, and a total weight that fits
/// the weight type.
pub open spec fn committee_ok(members: Seq<([u8; 32], u64)>) -> bool {
    &&& members.len() >= 1
    &&& forall|i: int, j: int|
        0 <= i < j < members.len() ==> members[i].0@ != members[j].0@
    &&& forall|i: int| 0 <= i < members.len() ==> members[i].1 >= 1
    &&& weight_sum(members) <= u64::MAX
}

/// The schedule slot picked for a block and round: the block number advanced,
/// on any non-zero round, by the round number plus half the schedule length,
/// all modulo the schedule length.
pub open spec fn proposer_index(len: int, block: int, round: int) -> int {
    (block + if round == 0 {
        0int
    } else {
        round + len / 2
    }) % len
}

proof fn lemma_occurrences_append(a: Seq<[u8; 32]>, b: Seq<[u8; 32]>, id: Seq<u8>)
    ensures
        occurrences(a + b, id) == occurrences(a, id) + occurrences(b, id),
    decreases b.len(),
{
    if b.len() == 0 {
        assert(a + b =~= a);
    } else {
        assert((a + b).drop_last() =~= a + b.drop_last());
        assert((a + b).last() == b.last());
        lemma_occurrences_append(a, b.drop_last(), id);
    }
}

proof fn lemma_occurrences_repeat(id: [u8; 32], n: nat, probe: Seq<u8>)
    ensures
        occurrences(repeat_id(id, n), probe) == if id@ == probe {
            n as int
        } else {
            0int
        },
    decreases n,
{
    if n > 0 {
        assert(repeat_id(id, n).drop_last() =~= repeat_id(id, (n - 1) as nat));
        lemma_occurrences_repeat(id, (n - 1) as nat, probe);
    }
}

proof fn lemma_schedule_len(members: Seq<([u8; 32], u64)>)
    ensures
        schedule(members).len() == weight_sum(members),
    decreases members.len(),
{
    if members.len() > 0 {
        lemma_schedule_len(members.drop_last());
    }
}

proof fn lemma_weight_sum_at_least_len(members: Seq<([u8; 32], u64)>)
    requires
        forall|i: int| 0 <= i < members.len() ==> members[i].1 >= 1,
    ensures
        weight_sum(members) >= members.len(),
    decreases members.len(),
{
    if members.len() > 0 {
        lemma_weight_sum_at_least_len(members.drop_last());
    }
}

proof fn lemma_weight_sum_prefix(members: Seq<([u8; 32], u64)>, k: int)
    requires
        0 <= k <= members.len(),
    ensures
        weight_sum(members.take(k)) <= weight_sum(members),
    decreases members.len() - k,
{
    if k < members.len() {
        assert(members.take(k + 1).drop_last() =~= members.take(k));
        assert(members.take(k + 1).last() == members[k]);
        lemma_weight_sum_prefix(members, k + 1);
    } else {
        assert(members.take(k) =~= members);
    }
}

/// Law: in a committee with pairwise-distinct identities, the weight looked
/// up for a member is exactly its committee entry's weight, so the weight sum
/// over the entries is the sum of `weight` over all members.
pub proof fn lemma_weight_unique(members: Seq<([u8; 32], u64)>, k: int)
    requires
        forall|i: int, j: int|
            0 <= i < j < members.len() ==> members[i].0@ != members[j].0@,
        0 <= k < members.len(),
    ensures
        weight_of(members, members[k].0@) == members[k].1 as int,
    decreases members.len(),
{
    if k == members.len() - 1 {
        assert(members.last().0@ == members[k].0@);
    } else {
        assert(members.last().0@ != members[k].0@);
        assert(members.drop_last()[k] == members[k]);
        lemma_weight_unique(members.drop_last(), k);
    }
}

/// Law: in the proposer schedule of a committee with pairwise-distinct
/// identities, each member occurs exactly its weight many times, and an
/// identity outside the committee does not occur at all.
pub proof fn lemma_schedule_count(members: Seq<([u8; 32], u64)>, id: Seq<u8>)
    requires
        forall|i: int, j: int|
            0 <= i < j < members.len() ==> members[i].0@ != members[j].0@,
    ensures
        occurrences(schedule(members), id) == if is_member(members, id) {
            weight_of(members, id)
        } else {
            0int
        },
    decreases members.len(),
{
    if members.len() == 0 {
        assert(!is_member(members, id));
    } else {
        let rest = members.drop_last();
        let last = members.last();
        lemma_occurrences_append(schedule(rest), repeat_id(last.0, last.1 as nat), id);
        lemma_occurrences_repeat(last.0, last.1 as nat, id);
        lemma_schedule_count(rest, id);
        if last.0@ == id {
            assert(!is_member(rest, id)) by {
                if is_member(rest, id) {
                    let k = choose|k: int| 0 <= k < rest.len() && rest[k].0@ == id;
                    assert(members[k].0@ == members[members.len() - 1].0@);
                }
            }
            assert(is_member(members, id)) by {
                assert(members[members.len() - 1].0@ == id);
            }
        } else {
            if is_member(members, id) {
                let k = choose|k: int| 0 <= k < members.len() && members[k].0@ == id;
                assert(rest[k] == members[k]);
                assert(is_member(rest, id));
            }
            if is_member(rest, id) {
                let k = choose|k: int| 0 <= k < rest.len() && rest[k].0@ == id;
                assert(members[k].0@ == id);
                assert(is_member(members, id));
            }
        }
    }
}

/// Law: at round zero, proposer selection depends only on the block number
/// modulo the schedule length.
pub proof fn lemma_proposer_round_zero(v: Validators, b1: u64, b2: u64)
    requires
        b1 as int % (v.spec_robin().len() as int) == b2 as int % (v.spec_robin().len() as int),
    ensures
        v.spec_proposer(b1, 0) == v.spec_proposer(b2, 0),
{
    let len = v.spec_robin().len() as int;
    assert(proposer_index(len, b1 as int, 0) == b1 as int % len);
    assert(proposer_index(len, b2 as int, 0) == b2 as int % len);
}

/// Law: sign-then-verify succeeds. A signature bearing `verifies_under` for a
/// chain identity and a signer identity — which `Signer::sign` ensures of
/// every signature it returns — is accepted by `verify` on any validator set
/// for the same chain that has that identity as a member.
pub proof fn lemma_sign_then_verify(v: Validators, id: [u8; 32], msg: Seq<u8>, sig: Seq<u8>)
    requires
        v.spec_is_member(id),
        verifies_under(v.spec_genesis(), id@, msg, sig),
    ensures
        v.spec_verify(id, msg, sig),
{
}

/// The weighted validator set of one tributary chain, with its precomputed
/// proposer schedule.
pub struct Validators {
    genesis: [u8; 32],
    total: u64,
    members: Vec<([u8; 32], u64)>,
    robin: Vec<[u8; 32]>,
}

impl Validators {
    #[verifier::type_invariant]
    spec fn wf(self) -> bool {
        &&& committee_ok(self.members@)
        &&& self.total as int == weight_sum(self.members@)
        &&& self.robin@ == schedule(self.members@)
    }

    /// The chain identity this validator set is scoped to.
    pub closed spec fn spec_genesis(self) -> Seq<u8> {
        self.genesis@
    }

    /// The committee: identity and weight of each member, in order.
    pub closed spec fn spec_members(self) -> Seq<([u8; 32], u64)> {
        self.members@
    }

    /// The proposer schedule.
    pub closed spec fn spec_robin(self) -> Seq<[u8; 32]> {
        self.robin@
    }

    /// Whether `id` is a current member.
    pub open spec fn spec_is_member(self, id: [u8; 32]) -> bool {
        is_member(self.spec_members(), id@)
    }

    /// What `verify` decides: membership, then the Schnorr check under the
    /// challenge recomputed for this chain from the signature's own nonce
    /// commitment.
    pub open spec fn spec_verify(self, id: [u8; 32], msg: Seq<u8>, sig: Seq<u8>) -> bool {
        self.spec_is_member(id) && verifies_under(self.spec_genesis(), id@, msg, sig)
    }

    /// What `verify_aggregate` decides: as many signatures as signers, and
    /// every pair at matching positions verifies individually.
    pub open spec fn spec_verify_aggregate(
        self,
        signers: Seq<[u8; 32]>,
        msg: Seq<u8>,
        sigs: Seq<[u8; 64]>,
    ) -> bool {
        &&& signers.len() == sigs.len()
        &&& forall|i: int|
            0 <= i < signers.len() ==> self.spec_verify(signers[i], msg, sigs[i]@)
    }

    /// The schedule entry picked for a block and round.
    pub open spec fn spec_proposer(self, block: u64, round: u32) -> [u8; 32] {
        self.spec_robin()[proposer_index(
            self.spec_robin().len() as int,
            block as int,
            round as int,
        )]
    }

    /// Builds the validator set for one chain from the committee, refusing an
    /// empty committee, a repeated identity, a zero weight, and a total
    /// weight that does not fit the weight type. The schedule holds each
    /// member in committee order, repeated as often as its weight.
    pub fn new(genesis: [u8; 32], members: Vec<([u8; 32], u64)>) -> (r: Option<Validators>)
        ensures
            r is Some <==> committee_ok(members@),
            r matches Some(v) ==> v.spec_genesis() == genesis@
                && v.spec_members() == members@
                && v.spec_robin() == schedule(members@),
    {
        if members.len() == 0 {
            return None;
        }
        let n = members.len();
        let mut i: usize = 0;
        while i < n
            invariant
                n == members@.len(),
                0 <= i <= n,
                forall|a: int, b: int|
                    0 <= a < b < n && a < i ==> members@[a].0@ != members@[b].0@,
            decreases n - i,
        {
            let mut j: usize = i + 1;
            while j < n
                invariant
                    n == members@.len(),
                    0 <= i < n,
                    i < j <= n,
                    forall|b: int| i < b < j ==> members@[i as int].0@ != members@[b].0@,
                decreases n - j,
            {
                if bytes32_eq(&members[i].0, &members[j].0) {
                    return None;
                }
                j += 1;
            }
            i += 1;
        }
        let mut total: u64 = 0;
        let mut i: usize = 0;
        while i < n
            invariant
                n == members@.len(),
                0 <= i <= n,
                total as int == weight_sum(members@.take(i as int)),
                forall|k: int| 0 <= k < i ==> members@[k].1 >= 1,
            decreases n - i,
        {
            let w = members[i].1;
            proof {
                assert(members@.take(i + 1).drop_last() =~= members@.take(i as int));
                assert(members@.take(i + 1).last() == members@[i as int]);
            }
            if w == 0 {
                return None;
            }
            if total > u64::MAX - w {
                proof {
                    lemma_weight_sum_prefix(members@, i + 1);
                }
                return None;
            }
            total += w;
            i += 1;
        }
        proof {
            assert(members@.take(n as int) =~= members@);
        }
        let mut robin: Vec<[u8; 32]> = Vec::new();
        let mut i: usize = 0;
        while i < n
            invariant
                n == members@.len(),
                0 <= i <= n,
                robin@ == schedule(members@.take(i as int)),
            decreases n - i,
        {
            let id = members[i].0;
            let w = members[i].1;
            let mut k: u64 = 0;
            while k < w
                invariant
                    n == members@.len(),
                    0 <= i < n,
                    id == members@[i as int].0,
                    w == members@[i as int].1,
                    0 <= k <= w,
                    robin@ == schedule(members@.take(i as int)) + repeat_id(id, k as nat),
                decreases w - k,
            {
                robin.push(id);
                proof {
                    assert(schedule(members@.take(i as int)) + repeat_id(id, (k + 1) as nat)
                        =~= (schedule(members@.take(i as int)) + repeat_id(id, k as nat)).push(
                        id,
                    ));
                }
                k += 1;
            }
            proof {
                assert(members@.take(i + 1).drop_last() =~= members@.take(i as int));
                assert(members@.take(i + 1).last() == members@[i as int]);
            }
            i += 1;
        }
        proof {
            assert(members@.take(n as int) =~= members@);
        }
        Some(Validators { genesis, total, members, robin })
    }

    /// Whether `id` is a current member.
    fn contains(&self, id: &[u8; 32]) -> (r: bool)
        ensures
            r == is_member(self.spec_members(), id@),
    {
        let n = self.members.len();
        let mut i: usize = 0;
        while i < n
            invariant
                n == self.members@.len(),
                0 <= i <= n,
                forall|k: int| 0 <= k < i ==> self.members@[k].0@ != id@,
            decreases n - i,
        {
            if bytes32_eq(&self.members[i].0, id) {
                return true;
            }
            i += 1;
        }
        proof {
            if is_member(self.spec_members(), id@) {
                let k = choose|k: int|
                    0 <= k < self.members@.len() && self.members@[k].0@ == id@;
                assert(self.members@[k].0@ != id@);
            }
        }
        false
    }

    /// Whether the 64-byte signature is a member's valid signature on `msg`
    /// for this chain. Never panics: a non-member, an unparsable signature and
    /// a failed equation all yield false.
    pub fn verify(&self, validator: [u8; 32], msg: &[u8], sig: &[u8; 64]) -> (r: bool)
        ensures
            r == self.spec_verify(validator, msg@, sig@),
    {
        proof {
            use_type_invariant(self);
        }
        if !self.contains(&validator) {
            return false;
        }
        let commitment = nonce_commitment(sig);
        let challenge_s = challenge(&self.genesis, &validator, commitment.as_slice(), msg);
        schnorr_check(&validator, sig, &challenge_s)
    }

    /// Joins individual signatures into the aggregate form: their plain
    /// concatenation, an intentional simplification pending a compact scheme.
    pub fn aggregate(sigs: &Vec<[u8; 64]>) -> (r: Vec<[u8; 64]>)
        ensures
            r@ == sigs@,
    {
        let n = sigs.len();
        let mut r: Vec<[u8; 64]> = Vec::new();
        let mut i: usize = 0;
        while i < n
            invariant
                n == sigs@.len(),
                0 <= i <= n,
                r@ == sigs@.take(i as int),
            decreases n - i,
        {
            r.push(sigs[i]);
            proof {
                assert(sigs@.take(i + 1) =~= sigs@.take(i as int).push(sigs@[i as int]));
            }
            i += 1;
        }
        proof {
            assert(sigs@.take(n as int) =~= sigs@);
        }
        r
    }

    /// Whether every signer's signature at the matching position verifies;
    /// false as soon as one pair fails or the counts differ.
    pub fn verify_aggregate(
        &self,
        signers: &Vec<[u8; 32]>,
        msg: &[u8],
        sigs: &Vec<[u8; 64]>,
    ) -> (r: bool)
        ensures
            r == self.spec_verify_aggregate(signers@, msg@, sigs@),
    {
        if signers.len() != sigs.len() {
            return false;
        }
        let n = signers.len();
        let mut i: usize = 0;
        while i < n
            invariant
                n == signers@.len(),
                n == sigs@.len(),
                0 <= i <= n,
                forall|k: int|
                    0 <= k < i ==> self.spec_verify(signers@[k], msg@, sigs@[k]@),
            decreases n - i,
        {
            let sig = sigs[i];
            if !self.verify(signers[i], msg, &sig) {
                proof {
                    if self.spec_verify_aggregate(signers@, msg@, sigs@) {
                        assert(self.spec_verify(signers@[i as int], msg@, sigs@[i as int]@));
                    }
                }
                return false;
            }
            i += 1;
        }
        true
    }

    /// The sum of all member weights, for quorum computation.
    pub fn total_weight(&self) -> (r: u64)
        ensures
            r as int == weight_sum(self.spec_members()),
    {
        proof {
            use_type_invariant(self);
        }
        self.total
    }

    /// The weight of a member. Callers must only query known members; a
    /// non-member is a contract violation, never a valid weight.
    pub fn weight(&self, validator: [u8; 32]) -> (r: u64)
        requires
            self.spec_is_member(validator),
        ensures
            r as int == weight_of(self.spec_members(), validator@),
    {
        proof {
            use_type_invariant(self);
        }
        let n = self.members.len();
        let mut i: usize = 0;
        while i < n
            invariant
                n == self.members@.len(),
                0 <= i <= n,
                self.wf(),
                self.spec_is_member(validator),
                forall|k: int| 0 <= k < i ==> self.members@[k].0@ != validator@,
            decreases n - i,
        {
            if bytes32_eq(&self.members[i].0, &validator) {
                proof {
                    lemma_weight_unique(self.members@, i as int);
                }
                return self.members[i].1;
            }
            i += 1;
        }
        proof {
            let k = choose|k: int|
                0 <= k < self.members@.len() && self.members@[k].0@ == validator@;
            assert(self.members@[k].0@ != validator@);
        }
        unreached()
    }

    /// The proposer for a block and round: round zero walks the schedule by
    /// block number; any later round jumps ahead by the round number plus
    /// half the schedule length, so retries of one height do not stick to
    /// nearly the same slot.
    pub fn proposer(&self, block: u64, round: u32) -> (r: [u8; 32])
        ensures
            r == self.spec_proposer(block, round),
    {
        proof {
            use_type_invariant(self);
            lemma_schedule_len(self.members@);
            lemma_weight_sum_at_least_len(self.members@);
        }
        let len = self.robin.len();
        let offset: u128 = if round == 0 {
            0
        } else {
            (round as u128) + ((len as u128) / 2)
        };
        let idx128 = ((block as u128) + offset) % (len as u128);
        let idx = idx128 as usize;
        proof {
            assert(idx as int == proposer_index(
                self.robin@.len() as int,
                block as int,
                round as int,
            ));
        }
        self.robin[idx]
    }
}

/// Byte-wise equality of two 32-byte identities.
fn bytes32_eq(a: &[u8; 32], b: &[u8; 32]) -> (r: bool)
    ensures
        r == (a@ == b@),
{
    let mut i: usize = 0;
    while i < 32
        invariant
            0 <= i <= 32,
            forall|j: int| 0 <= j < i ==> a@[j] == b@[j],
        decreases 32 - i,
    {
        if a[i] != b[i] {
            proof {
                if a@ == b@ {
                    assert(a@[i as int] == b@[i as int]);
                }
            }
            return false;
        }
        i += 1;
    }
    proof {
        assert(a@ =~= b@);
    }
    true
}

/// The nonce commitment embedded in a 64-byte signature: its first 32 bytes.
fn nonce_commitment(sig: &[u8; 64]) -> (r: Vec<u8>)
    ensures
        r@ == sig@.subrange(0, 32),
{
    let mut r: Vec<u8> = Vec::new();
    let mut i: usize = 0;
    while i < 32
        invariant
            0 <= i <= 32,
            r@.len() == i,
            forall|j: int| 0 <= j < i ==> r@[j] == sig@[j],
        decreases 32 - i,
    {
        r.push(sig[i]);
        i += 1;
    }
    proof {
        assert(r@ =~= sig@.subrange(0, 32));
    }
    r
}

} // verus!
