//! Exercises the engine layer: field adapter, parameter validation, the two
//! diffusion variants, and the sponge state machine.

use poseidon2::field::{fe_sample, Fe};
use poseidon2::hash::{msg_tag, DomainFactor};
use poseidon2::params::{Diffusion, Mat, ParamError, PermSpec, SparseRow, Triple};
use poseidon2::perm::{permute, variants_agree};
use poseidon2::sponge::{Hasher, UsageError};

fn fe(x: u64) -> Fe {
    Fe::from_u64(x)
}

fn triple(a: u64, b: u64, c: u64) -> Triple {
    Triple { a: fe(a), b: fe(b), c: fe(c) }
}

/// A dense matrix that has the shape of a sparse update: first row
/// `(m00, v1, v2)`, first column `(m00, w1, w2)`, identity elsewhere.
fn sparse_shaped_mat(m00: u64, v1: u64, v2: u64, w1: u64, w2: u64) -> Mat {
    Mat {
        r0: triple(m00, v1, v2),
        r1: triple(w1, 1, 0),
        r2: triple(w2, 0, 1),
    }
}

fn small_constants(n: usize) -> Vec<Triple> {
    (0..n).map(|i| triple(3 * i as u64 + 1, 3 * i as u64 + 2, 3 * i as u64 + 3)).collect()
}

fn standard_small() -> PermSpec {
    PermSpec::new(
        4,
        3,
        small_constants(7),
        Diffusion::Standard { mds: sparse_shaped_mat(3, 4, 5, 6, 7) },
    )
    .unwrap()
}

fn compact_small(w1: u64) -> PermSpec {
    let rows = vec![
        SparseRow { m00: fe(3), v1: fe(4), v2: fe(5), w1: fe(w1), w2: fe(7) },
        SparseRow { m00: fe(3), v1: fe(4), v2: fe(5), w1: fe(w1), w2: fe(7) },
        SparseRow { m00: fe(3), v1: fe(4), v2: fe(5), w1: fe(w1), w2: fe(7) },
    ];
    PermSpec::new(
        4,
        3,
        small_constants(7),
        Diffusion::Compact {
            mds: sparse_shaped_mat(3, 4, 5, 6, 7),
            start: sparse_shaped_mat(3, 4, 5, 6, 7),
            rows,
        },
    )
    .unwrap()
}

#[test]
fn field_small_constructors() {
    assert_eq!(Fe::zero().limbs(), (0, 0, 0, 0));
    assert_eq!(Fe::one().limbs(), (1, 0, 0, 0));
    assert_eq!(Fe::from_u64(42).limbs(), (42, 0, 0, 0));
    assert_eq!(Fe::from_u128(1 + (7u128 << 64)).limbs(), (1, 7, 0, 0));
    assert_eq!(Fe::from_u64(5), Fe::from_u128(5));
}

#[test]
fn field_from_limbs_checks_canonicity() {
    // The modulus itself is not canonical; the value below it is.
    assert!(Fe::from_limbs(
        0x43e1f593f0000001,
        0x2833e84879b97091,
        0xb85045b68181585d,
        0x30644e72e131a029
    )
    .is_none());
    let top = Fe::from_limbs(
        0x43e1f593f0000000,
        0x2833e84879b97091,
        0xb85045b68181585d,
        0x30644e72e131a029,
    )
    .unwrap();
    assert_eq!(
        top.limbs(),
        (
            0x43e1f593f0000000,
            0x2833e84879b97091,
            0xb85045b68181585d,
            0x30644e72e131a029
        )
    );
    assert!(Fe::from_limbs(u64::MAX, u64::MAX, u64::MAX, u64::MAX).is_none());
}

#[test]
fn field_order_is_by_value() {
    assert!(fe(1).below(&fe(2)));
    assert!(!fe(2).below(&fe(1)));
    assert!(!fe(2).below(&fe(2)));
    assert!(fe(u64::MAX).below(&Fe::from_u128(1u128 << 64)));
    assert!(Fe::zero().below(&Fe::from_u128(u128::MAX)));
}

#[test]
fn field_sampling_reduces_modulo_the_prime() {
    let zero_buf = [0u8; 64];
    assert_eq!(fe_sample(&zero_buf), Fe::zero());

    let mut one_buf = [0u8; 64];
    one_buf[0] = 1;
    assert_eq!(fe_sample(&one_buf), Fe::one());

    // A buffer encoding two to the power 254 exceeds the modulus, so the
    // sample must have been reduced, not passed through.
    let mut big_buf = [0u8; 64];
    big_buf[31] = 0x40;
    let s = fe_sample(&big_buf);
    assert_ne!(s.limbs(), (0, 0, 0, 0x4000000000000000));
    // Sampling is a function of the bytes.
    assert_eq!(s, fe_sample(&big_buf));
}

#[test]
fn parameter_validation_accepts_classic_shape() {
    assert!(standard_small().full_rounds() == 4);
    assert!(standard_small().partial_rounds() == 3);
}

#[test]
fn odd_full_round_count_is_rejected() {
    let r = PermSpec::new(
        7,
        57,
        small_constants(64),
        Diffusion::Standard { mds: sparse_shaped_mat(3, 4, 5, 6, 7) },
    );
    assert_eq!(r.unwrap_err(), ParamError::OddFullRounds);
}

#[test]
fn oversized_round_total_is_rejected() {
    let r = PermSpec::new(
        65536,
        2,
        small_constants(1),
        Diffusion::Standard { mds: sparse_shaped_mat(3, 4, 5, 6, 7) },
    );
    assert_eq!(r.unwrap_err(), ParamError::TooManyRounds);
}

#[test]
fn mismatched_schedule_is_rejected() {
    let r = PermSpec::new(
        2,
        1,
        small_constants(5),
        Diffusion::Standard { mds: sparse_shaped_mat(3, 4, 5, 6, 7) },
    );
    assert_eq!(r.unwrap_err(), ParamError::ConstantCountMismatch);
}

#[test]
fn mismatched_sparse_tables_are_rejected() {
    let rows = vec![
        SparseRow { m00: fe(3), v1: fe(4), v2: fe(5), w1: fe(6), w2: fe(7) },
    ];
    let r = PermSpec::new(
        4,
        3,
        small_constants(7),
        Diffusion::Compact {
            mds: sparse_shaped_mat(3, 4, 5, 6, 7),
            start: sparse_shaped_mat(3, 4, 5, 6, 7),
            rows,
        },
    );
    assert_eq!(r.unwrap_err(), ParamError::SparseCountMismatch);
}

#[test]
fn compact_tables_need_a_full_round() {
    let rows = vec![
        SparseRow { m00: fe(3), v1: fe(4), v2: fe(5), w1: fe(6), w2: fe(7) },
    ];
    let r = PermSpec::new(
        0,
        1,
        small_constants(1),
        Diffusion::Compact {
            mds: sparse_shaped_mat(3, 4, 5, 6, 7),
            start: sparse_shaped_mat(3, 4, 5, 6, 7),
            rows,
        },
    );
    assert_eq!(r.unwrap_err(), ParamError::MissingEntryRound);
}

#[test]
fn variant_equivalence_on_matching_tables() {
    let std_ps = standard_small();
    let cpt_ps = compact_small(6);
    let states = vec![
        triple(0, 0, 0),
        triple(1, 2, 3),
        triple(u64::MAX, 12345, 1),
        triple(99, 0, 7),
    ];
    assert!(variants_agree(&std_ps, &cpt_ps, &states));
    for s in &states {
        let a = permute(&std_ps, s);
        let b = permute(&cpt_ps, s);
        assert_eq!(a.a, b.a);
        assert_eq!(a.b, b.b);
        assert_eq!(a.c, b.c);
    }
}

#[test]
fn variant_divergence_on_mismatched_tables() {
    let std_ps = standard_small();
    let wrong = compact_small(8);
    let states = vec![triple(1, 2, 3)];
    assert!(!variants_agree(&std_ps, &wrong, &states));
}

#[test]
fn sponge_state_machine_rejects_misuse() {
    let ps = standard_small();
    let mut h = Hasher::new(ps);
    assert_eq!(h.absorb(&fe(1), &fe(2)).unwrap_err(), UsageError::NotInitialized);

    let ps = standard_small();
    let mut h = Hasher::new(ps);
    assert_eq!(h.squeeze().unwrap_err(), UsageError::NotInitialized);

    let ps = standard_small();
    let mut h = Hasher::new(ps);
    h.init(&fe(9)).unwrap();
    assert_eq!(h.init(&fe(9)).unwrap_err(), UsageError::AlreadyInitialized);
    h.absorb(&fe(1), &fe(2)).unwrap();
    h.absorb(&fe(3), &fe(4)).unwrap();
    let _digest = h.squeeze().unwrap();
    assert_eq!(h.squeeze().unwrap_err(), UsageError::AlreadySqueezed);
    assert_eq!(h.absorb(&fe(1), &fe(2)).unwrap_err(), UsageError::AlreadySqueezed);
}

#[test]
fn sponge_streaming_matches_permute() {
    // One absorbed chunk equals one permutation of the fed state.
    let ps = standard_small();
    let mut h = Hasher::new(ps);
    h.init(&fe(7)).unwrap();
    h.absorb(&fe(10), &fe(20)).unwrap();
    let d = h.squeeze().unwrap();

    let ps = standard_small();
    let out = permute(&ps, &triple(10, 20, 7));
    assert_eq!(d, out.a);
}

#[test]
fn message_tag_binds_length_and_factor() {
    assert_eq!(msg_tag(3, None, DomainFactor::Standard), Fe::from_u128(3u128 << 64));
    assert_eq!(msg_tag(3, None, DomainFactor::Legacy), Fe::from_u64(3));
    assert_eq!(msg_tag(3, Some(99), DomainFactor::Standard), Fe::from_u64(99));
    assert_eq!(msg_tag(0, None, DomainFactor::Standard), Fe::zero());
    assert_eq!(msg_tag(0, None, DomainFactor::Legacy), Fe::zero());
}
