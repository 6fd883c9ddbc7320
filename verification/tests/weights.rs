use tributary::validators::Validators;

fn id(v: u8) -> [u8; 32] {
    let mut bytes = [0u8; 32];
    bytes[0] = v;
    bytes
}

#[test]
fn total_weight_is_sum_of_weights() {
    let validators =
        Validators::new([0u8; 32], vec![(id(1), 1), (id(2), 2), (id(3), 3)]).unwrap();
    assert_eq!(validators.total_weight(), 6);
    assert_eq!(
        validators.weight(id(1)) + validators.weight(id(2)) + validators.weight(id(3)),
        validators.total_weight()
    );
}

#[test]
fn weight_per_member() {
    let validators =
        Validators::new([0u8; 32], vec![(id(1), 4), (id(2), 1)]).unwrap();
    assert_eq!(validators.weight(id(1)), 4);
    assert_eq!(validators.weight(id(2)), 1);
}

#[test]
fn empty_committee_refused() {
    assert!(Validators::new([0u8; 32], vec![]).is_none());
}

#[test]
fn duplicate_identity_refused() {
    assert!(Validators::new([0u8; 32], vec![(id(1), 1), (id(1), 2)]).is_none());
}

#[test]
fn zero_weight_refused() {
    assert!(Validators::new([0u8; 32], vec![(id(1), 1), (id(2), 0)]).is_none());
}

#[test]
fn overflowing_total_refused() {
    assert!(Validators::new([0u8; 32], vec![(id(1), u64::MAX), (id(2), 1)]).is_none());
}

#[test]
fn schedule_is_weight_proportional() {
    // Weights [2, 1]: the schedule is [a, a, b], walked by block number.
    let a = id(1);
    let b = id(2);
    let validators = Validators::new([0u8; 32], vec![(a, 2), (b, 1)]).unwrap();
    assert_eq!(validators.proposer(0, 0), a);
    assert_eq!(validators.proposer(1, 0), a);
    assert_eq!(validators.proposer(2, 0), b);
    assert_eq!(validators.proposer(3, 0), a);
}

#[test]
fn round_zero_depends_only_on_block_mod_schedule_length() {
    let members: Vec<([u8; 32], u64)> = (1..=4).map(|v| (id(v), 1)).collect();
    let validators = Validators::new([0u8; 32], members).unwrap();
    assert_eq!(validators.proposer(2, 0), validators.proposer(6, 0));
    assert_eq!(validators.proposer(2, 0), validators.proposer(10, 0));
    assert_ne!(validators.proposer(2, 0), validators.proposer(3, 0));
}

#[test]
fn proposer_offsets_for_later_rounds() {
    // Committee of 4, weights [1, 1, 1, 1], schedule length 4.
    let ids: Vec<[u8; 32]> = (1..=4).map(id).collect();
    let members: Vec<([u8; 32], u64)> = ids.iter().map(|i| (*i, 1)).collect();
    let validators = Validators::new([0u8; 32], members).unwrap();
    // Round 0 walks the schedule plainly: 10 mod 4 = 2.
    assert_eq!(validators.proposer(10, 0), ids[2]);
    // A non-zero round jumps by round + length / 2: (10 + 1 + 2) mod 4 = 1.
    assert_eq!(validators.proposer(10, 1), ids[1]);
    assert_ne!(validators.proposer(10, 1), validators.proposer(10, 0));
    // (10 + 2 + 2) mod 4 = 2: round 2 lands on the round-0 slot again.
    assert_eq!(validators.proposer(10, 2), ids[2]);
    // (10 + 3 + 2) mod 4 = 3.
    assert_eq!(validators.proposer(10, 3), ids[3]);
}
