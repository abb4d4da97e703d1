//! Exercises the hashing modes of the default binding: determinism, domain
//! separation, length sensitivity, legacy divergence, row accounting, and the
//! pinned digest vectors.

use poseidon2::field::{fe_sample, Fe};
use poseidon2::hash::{
    default_spec, hash_msg_with_factor, DomainFactor, Hashable, MessageHashable,
    RowAccounting, HASHABLE_DOMAIN_SPEC, HASHABLE_DOMAIN_SPEC_LEGACY,
};
use poseidon2::perm::permute;
use poseidon2::params::Triple;
use poseidon2::sponge::hash_pair_with_domain;

fn fe(x: u64) -> Fe {
    Fe::from_u64(x)
}

fn sample(seed: u8) -> Fe {
    let mut buf = [0u8; 64];
    buf[0] = seed;
    buf[40] = seed.wrapping_mul(37);
    fe_sample(&buf)
}

#[test]
fn pair_hash_is_deterministic() {
    let a = sample(11);
    let b = sample(12);
    let d = sample(13);
    let h1 = Fe::hash_with_domain([a, b], d);
    let h2 = Fe::hash_with_domain([a, b], d);
    assert_eq!(h1, h2);
    let m1 = Fe::hash_msg(&[a, b, d], None);
    let m2 = Fe::hash_msg(&[a, b, d], None);
    assert_eq!(m1, m2);
}

#[test]
fn plain_hash_uses_zero_domain() {
    let a = fe(5);
    let b = fe(6);
    assert_eq!(Fe::hash([a, b]), Fe::hash_with_domain([a, b], Fe::zero()));
}

#[test]
fn domain_tags_separate_hash_families() {
    let a = fe(101);
    let b = fe(202);
    let tags = [fe(0), fe(1), fe(2), sample(3), sample(4)];
    for (i, d1) in tags.iter().enumerate() {
        for d2 in tags.iter().skip(i + 1) {
            assert_ne!(
                Fe::hash_with_domain([a, b], *d1),
                Fe::hash_with_domain([a, b], *d2)
            );
        }
    }
}

#[test]
fn message_length_is_bound_into_the_digest() {
    let x = sample(21);
    assert_ne!(Fe::hash_msg(&[x], None), Fe::hash_msg(&[x, Fe::zero()], None));
}

#[test]
fn legacy_and_standard_factors_diverge() {
    assert_eq!(HASHABLE_DOMAIN_SPEC, 1u128 << 64);
    assert_eq!(HASHABLE_DOMAIN_SPEC_LEGACY, 1u128);
    let msgs: [&[Fe]; 3] = [&[fe(1)], &[fe(1), fe(2)], &[fe(1), fe(2), fe(3)]];
    for msg in msgs {
        let standard = hash_msg_with_factor(default_spec(), msg, None, DomainFactor::Standard);
        let legacy = hash_msg_with_factor(default_spec(), msg, None, DomainFactor::Legacy);
        assert_ne!(standard, legacy);
    }
    // An explicit capacity overrides the factor, so the modes coincide.
    let msg = [fe(1), fe(2)];
    assert_eq!(
        hash_msg_with_factor(default_spec(), &msg, Some(7), DomainFactor::Standard),
        hash_msg_with_factor(default_spec(), &msg, Some(7), DomainFactor::Legacy)
    );
}

#[test]
fn row_accounting_follows_the_round_counts() {
    // Standard accounting: 1 + 8 + (57 + 1) / 2.
    assert_eq!(Fe::hash_block_size(RowAccounting::Standard), 38);
    // Short accounting: 1 + 8.
    assert_eq!(Fe::hash_block_size(RowAccounting::Short), 9);
}

#[test]
fn trait_hashers_start_uninitialized() {
    let mut h = Fe::hasher();
    assert!(h.init(&fe(1)).is_ok());
    let mut m = Fe::msg_hasher();
    assert!(m.init(&fe(2)).is_ok());
}

#[test]
fn message_hash_equals_streamed_sponge() {
    let msg = [fe(1), fe(2), fe(3)];
    let expected = Fe::hash_msg(&msg, None);
    let mut h = Fe::msg_hasher();
    let tag = Fe::from_u128(3u128 * HASHABLE_DOMAIN_SPEC);
    h.init(&tag).unwrap();
    h.absorb(&fe(1), &fe(2)).unwrap();
    h.absorb(&fe(3), &Fe::zero()).unwrap();
    assert_eq!(h.squeeze().unwrap(), expected);
}

#[test]
fn empty_message_ignores_the_tag() {
    // No chunk is absorbed, so the digest is the zero rate slot.
    let empty: [Fe; 0] = [];
    assert_eq!(Fe::hash_msg(&empty, None), Fe::zero());
    assert_eq!(Fe::hash_msg(&empty, Some(99)), Fe::zero());
}

#[test]
fn repeated_computations_stay_independent() {
    // Many interleaved computations give the same digests as isolated ones.
    let inputs: Vec<(Fe, Fe)> = (0..8u64).map(|i| (fe(i), fe(i + 100))).collect();
    let isolated: Vec<Fe> = inputs.iter().map(|(a, b)| Fe::hash([*a, *b])).collect();
    let repeated: Vec<Fe> = inputs.iter().map(|(a, b)| Fe::hash([*a, *b])).collect();
    assert_eq!(isolated, repeated);
}

#[test]
fn pinned_permutation_vector() {
    let out = permute(&default_spec(), &Triple { a: fe(0), b: fe(0), c: fe(0) });
    assert_eq!(
        out.a.limbs(),
        (1366416881008139077, 13824552511661891293, 886104455188731899, 796160055944545431)
    );
    assert_eq!(
        out.b.limbs(),
        (13873888139119563752, 9627012689374813740, 10801279843486606854, 283896843818092098)
    );
    assert_eq!(
        out.c.limbs(),
        (2133654869159738076, 7385827988104942394, 15194400359487433551, 873758252508960375)
    );
}

#[test]
fn pinned_pair_hash_vectors() {
    let h = Fe::hash([fe(1), fe(2)]);
    assert_eq!(
        h.limbs(),
        (5974541456612305869, 4361419297581509854, 4117168922127983642, 1420992151285366572)
    );
    let hd = Fe::hash_with_domain([fe(1), fe(2)], fe(3));
    assert_eq!(
        hd.limbs(),
        (16444092359536499172, 198349536357225852, 9254084551051270342, 1941491034402996386)
    );
    let hp = hash_pair_with_domain(default_spec(), &fe(1), &fe(2), &fe(3));
    assert_eq!(hd, hp);
}

#[test]
fn pinned_message_hash_vectors() {
    let m = Fe::hash_msg(&[fe(1), fe(2), fe(3)], None);
    assert_eq!(
        m.limbs(),
        (7129362374072457005, 14134620579792613687, 3128682841991382699, 120211500263601208)
    );
    let mc = Fe::hash_msg(&[fe(1)], Some(42));
    assert_eq!(
        mc.limbs(),
        (16159859263696478279, 5618053236975589685, 14943269009572713150, 1589701251997182808)
    );
}
