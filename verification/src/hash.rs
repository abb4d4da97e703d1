//! The mode bindings: the traits that wire a field element type to a
//! parameter spec and declare the two supported hashing modes — the
//! constant-length pair hash and the variable-length message hash — with
//! their domain-separation rules, plus the circuit-row cost accounting.

use vstd::prelude::*;
use vstd::pervasive::unreached;
use crate::field::Fe;
use crate::params::{DiffV, Diffusion, M3, Mat, PermSpec, PermSpecV, Triple, V3};
use crate::sponge::{
    hash_msg_with_tag, hash_pair_with_domain, msg_view, spec_hash_msg, spec_hash_pair, Hasher,
    Phase,
};

verus! {

/// The domain factor applied to the message length in variable-length mode:
/// the length is shifted into a high-order region of the tag, so it cannot
/// collide with small explicit capacity values a caller might choose.
pub const HASHABLE_DOMAIN_SPEC: u128 = 0x10000000000000000;

/// The legacy domain factor: the plain message length, for interoperability
/// with an older, less separated construction.
pub const HASHABLE_DOMAIN_SPEC_LEGACY: u128 = 1;

/// Which domain factor a deployment runs under.  The choice must be fixed
/// per deployment: digests computed under different factors are incompatible.
#[derive(Clone, Copy, PartialEq, Eq, Structural, Debug)]
pub enum DomainFactor {
    Standard,
    Legacy,
}

/// The numeric value of a domain factor.
pub open spec fn factor_value(f: DomainFactor) -> int {
    match f {
        DomainFactor::Standard => HASHABLE_DOMAIN_SPEC as int,
        DomainFactor::Legacy => 1,
    }
}

/// The message-hash domain tag: an explicit capacity if the caller supplies
/// one, and the message length times the domain factor otherwise.  Binding
/// the length into the tag is what keeps two messages of different lengths
/// apart even when their padded representations coincide.
pub open spec fn spec_msg_tag(len: nat, cap: Option<u128>, f: DomainFactor) -> int {
    match cap {
        Some(c) => c as int,
        None => len * factor_value(f),
    }
}

/// Length sensitivity at the domain tag: two message lengths bind two
/// distinct tags under either domain factor, so the sponge starts from
/// distinct capacity values even when the padded messages coincide.  That
/// the digests then differ is a property of the permutation being a
/// bijection, checked by tests.
pub proof fn lemma_distinct_lengths_distinct_tags(l1: nat, l2: nat, f: DomainFactor)
    requires
        l1 != l2,
    ensures
        spec_msg_tag(l1, None, f) != spec_msg_tag(l2, None, f),
{
    let k = factor_value(f);
    assert(k == 1 || k == HASHABLE_DOMAIN_SPEC as int);
    assert(l1 * k != l2 * k) by (nonlinear_arith)
        requires
            l1 != l2,
            k >= 1,
    ;
}

/// Legacy and standard factors bind distinct tags for any message whose
/// length is not zero, so the two deployments hash every non-empty message
/// from distinct capacity values.
pub proof fn lemma_factors_diverge_at_tag(len: nat)
    requires
        len != 0,
    ensures
        spec_msg_tag(len, None, DomainFactor::Legacy) != spec_msg_tag(
            len,
            None,
            DomainFactor::Standard,
        ),
{
    assert(len * (HASHABLE_DOMAIN_SPEC as int) > len * 1) by (nonlinear_arith)
        requires
            len >= 1,
    ;
}

/// Computes the message-hash domain tag as a field element.
pub fn msg_tag(len: usize, cap: Option<u128>, factor: DomainFactor) -> (r: Fe)
    ensures
        r@ == spec_msg_tag(len as nat, cap, factor),
        r.wf(),
{
    let t: u128 = match cap {
        Some(c) => c,
        None => {
            let f: u128 = match factor {
                DomainFactor::Standard => HASHABLE_DOMAIN_SPEC,
                DomainFactor::Legacy => HASHABLE_DOMAIN_SPEC_LEGACY,
            };
            (len as u128) * f
        },
    };
    Fe::from_u128(t)
}

/// Hashes a message under a chosen domain factor, with an optional explicit
/// capacity overriding the length-derived tag.
pub fn hash_msg_with_factor(ps: PermSpec, msg: &[Fe], cap: Option<u128>, factor: DomainFactor) -> (r:
    Fe)
    requires
        ps.wf(),
    ensures
        r@ == spec_hash_msg(ps@, msg_view(msg@), spec_msg_tag(msg@.len(), cap, factor)),
{
    let tag = msg_tag(msg.len(), cap, factor);
    hash_msg_with_tag(ps, msg, &tag)
}

/// Which circuit layout the row accounting reflects: the standard layout
/// spends one row per full round and packs two partial rounds per row; the
/// short layout attributes no rows to partial rounds at all.
#[derive(Clone, Copy, PartialEq, Eq, Structural, Debug)]
pub enum RowAccounting {
    Standard,
    Short,
}

/// The circuit rows one hash invocation consumes: advisory metadata for
/// cost estimation, with no effect on the digest.
pub open spec fn spec_row_cost(v: PermSpecV, acct: RowAccounting) -> int {
    match acct {
        RowAccounting::Standard => 1 + v.rf as int + (v.rp as int + 1) / 2,
        RowAccounting::Short => 1 + v.rf as int,
    }
}

/// Computes the circuit-row cost of one hash invocation under the chosen
/// accounting.
pub fn row_cost(ps: &PermSpec, acct: RowAccounting) -> (r: usize)
    requires
        ps.wf(),
    ensures
        r == spec_row_cost(ps@, acct),
{
    match acct {
        RowAccounting::Standard => 1 + ps.full_rounds() + (ps.partial_rounds() + 1) / 2,
        RowAccounting::Short => 1 + ps.full_rounds(),
    }
}

/// One entry of the fixed round-constant schedule of the default binding.
pub open spec fn default_round_constant(i: int, j: int) -> int {
    (3 * i + j) * 0x9e3779b97f4a7c15 + 1
}

/// The count of full rounds of the default binding.
pub open spec fn default_rf() -> nat {
    8
}

/// The count of partial rounds of the default binding.
pub open spec fn default_rp() -> nat {
    57
}

/// The fixed round-constant schedule of the default binding, one triple per
/// round.
pub open spec fn default_constants() -> Seq<V3> {
    Seq::new(
        default_rf() + default_rp(),
        |i: int|
            V3 {
                x0: default_round_constant(i, 0),
                x1: default_round_constant(i, 1),
                x2: default_round_constant(i, 2),
            },
    )
}

/// The fixed diffusion matrix of the default binding: the circulant matrix
/// with diagonal two and ones elsewhere.
pub open spec fn default_mds() -> M3 {
    M3 {
        r0: V3 { x0: 2, x1: 1, x2: 1 },
        r1: V3 { x0: 1, x1: 2, x2: 1 },
        r2: V3 { x0: 1, x1: 1, x2: 2 },
    }
}

/// The values of the default parameter spec.
pub open spec fn default_spec_v() -> PermSpecV {
    PermSpecV {
        rf: default_rf(),
        rp: default_rp(),
        constants: default_constants(),
        diff: DiffV::Standard { m: default_mds() },
    }
}

/// Materializes the default parameter spec: the fixed tables, stored and
/// validated.
pub fn default_spec() -> (r: PermSpec)
    ensures
        r@ == default_spec_v(),
        r.wf(),
{
    let mut constants: Vec<Triple> = Vec::new();
    let mut i: usize = 0;
    while i < 65
        invariant
            i <= 65,
            constants@.len() == i,
            forall|k: int| 0 <= k < i ==> constants@[k]@ == default_constants()[k],
        decreases 65 - i,
    {
        let base: u128 = 3 * (i as u128);
        let t = Triple {
            a: Fe::from_u128(base * 0x9e3779b97f4a7c15 + 1),
            b: Fe::from_u128((base + 1) * 0x9e3779b97f4a7c15 + 1),
            c: Fe::from_u128((base + 2) * 0x9e3779b97f4a7c15 + 1),
        };
        constants.push(t);
        i = i + 1;
    }
    let one = Fe::from_u64(1);
    let two = Fe::from_u64(2);
    let mds = Mat {
        r0: Triple { a: two, b: one, c: one },
        r1: Triple { a: one, b: two, c: one },
        r2: Triple { a: one, b: one, c: two },
    };
    match PermSpec::new(8, 57, constants, Diffusion::Standard { mds }) {
        Ok(ps) => {
            proof {
                assert(ps@.constants =~= default_constants());
                assert(ps@ == default_spec_v());
            }
            ps
        },
        Err(_) => unreached(),
    }
}

/// A field element type bound to the engine: it supplies the fixed parameter
/// spec under which all of its hashing runs.
pub trait Hashablebase: Sized + View<V = int> {
    /// The values of the binding's parameter spec.
    spec fn spec_params() -> PermSpecV;

    /// Materializes the binding's parameter spec.
    fn param_spec() -> (r: PermSpec)
        ensures
            r@ == Self::spec_params(),
            r.wf(),
    ;
}

/// A field element that can be hashed two-to-one, as in a Merkle tree.
pub trait Hashable: Hashablebase {
    /// Compresses two elements under an explicit domain tag.
    fn hash_with_domain(inp: [Self; 2], domain: Self) -> (r: Self)
        ensures
            r@ == spec_hash_pair(Self::spec_params(), inp[0]@, inp[1]@, domain@),
    ;

    /// The convenience form with the zero domain tag; callers that need
    /// domain separation should pass an explicit tag instead.
    fn hash(inp: [Self; 2]) -> (r: Self)
        ensures
            r@ == spec_hash_pair(Self::spec_params(), inp[0]@, inp[1]@, 0),
    ;

    /// The circuit rows one hash invocation consumes under the chosen
    /// accounting.
    fn hash_block_size(acct: RowAccounting) -> (r: usize)
        ensures
            r == spec_row_cost(Self::spec_params(), acct),
    ;

    /// A fresh hasher over the binding's spec.
    fn hasher() -> (r: Hasher)
        ensures
            r.pspec() == Self::spec_params(),
            r.phase() == Phase::Uninitialized,
            r.wf(),
    ;
}

/// A field element whose message streams can be hashed: the domain tag binds
/// the message length (times the standard domain factor) unless the caller
/// supplies an explicit capacity.
pub trait MessageHashable: Hashable {
    /// Hashes a message; without an explicit capacity the tag is the message
    /// length times the standard domain factor.
    fn hash_msg(msg: &[Self], cap: Option<u128>) -> (r: Self)
        ensures
            r@ == spec_hash_msg(
                Self::spec_params(),
                msg@.map(|i: int, f: Self| f@),
                spec_msg_tag(msg@.len(), cap, DomainFactor::Standard),
            ),
    ;

    /// A fresh hasher over the binding's spec, for message hashing.
    fn msg_hasher() -> (r: Hasher)
        ensures
            r.pspec() == Self::spec_params(),
            r.phase() == Phase::Uninitialized,
            r.wf(),
    ;
}

impl Hashablebase for Fe {
    open spec fn spec_params() -> PermSpecV {
        default_spec_v()
    }

    fn param_spec() -> (r: PermSpec) {
        default_spec()
    }
}

impl Hashable for Fe {
    fn hash_with_domain(inp: [Fe; 2], domain: Fe) -> (r: Fe) {
        let ps = Fe::param_spec();
        hash_pair_with_domain(ps, &inp[0], &inp[1], &domain)
    }

    fn hash(inp: [Fe; 2]) -> (r: Fe) {
        let z = Fe::zero();
        <Fe as Hashable>::hash_with_domain(inp, z)
    }

    fn hash_block_size(acct: RowAccounting) -> (r: usize) {
        let ps = Fe::param_spec();
        row_cost(&ps, acct)
    }

    fn hasher() -> (r: Hasher) {
        Hasher::new(Fe::param_spec())
    }
}

impl MessageHashable for Fe {
    fn hash_msg(msg: &[Fe], cap: Option<u128>) -> (r: Fe) {
        hash_msg_with_factor(Fe::param_spec(), msg, cap, DomainFactor::Standard)
    }

    fn msg_hasher() -> (r: Hasher) {
        Hasher::new(Fe::param_spec())
    }
}

} // verus!

