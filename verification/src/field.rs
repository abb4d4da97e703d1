//! The field adapter: canonical representatives of the bn256 scalar field,
//! the modular arithmetic the permutation consumes, a total order, and
//! uniform sampling from 64 bytes of entropy.

use vstd::prelude::*;
use vstd::arithmetic::div_mod::{
    lemma_fundamental_div_mod, lemma_mod_bound, lemma_mod_multiples_vanish, lemma_small_mod,
};
use ff::FromUniformBytes;
use ff::PrimeField;
use halo2curves::bn256::Fr;

verus! {

/// Two to the sixty-fourth power, the weight of one limb.
pub open spec fn m64() -> int {
    0x10000000000000000
}

/// The prime modulus of the bn256 scalar field, composed limb by limb:
/// `0x30644e72e131a029b85045b68181585d2833e84879b9709143e1f593f0000001`.
pub open spec fn p() -> int {
    0x43e1f593f0000001 + 0x2833e84879b97091 * m64() + 0xb85045b68181585d * m64() * m64()
        + 0x30644e72e131a029 * m64() * m64() * m64()
}

/// Addition modulo `p`.
pub open spec fn fadd(a: int, b: int) -> int {
    (a + b) % p()
}

/// Multiplication modulo `p`.
pub open spec fn fmul(a: int, b: int) -> int {
    (a * b) % p()
}

/// Fifth power modulo `p`, composed of squarings and one multiplication
/// exactly as the executable non-linear layer computes it.
pub open spec fn fpow5(a: int) -> int {
    fmul(fmul(fmul(a, a), fmul(a, a)), a)
}

/// The integer value of a 64-byte little-endian buffer.
pub open spec fn le_bytes_val(s: Seq<u8>) -> int
    decreases s.len(),
{
    if s.len() == 0 {
        0
    } else {
        s[0] + 256 * le_bytes_val(s.skip(1))
    }
}

/// A field element, stored as the four 64-bit little-endian limbs of its
/// canonical representative.  Every constructor of this type yields a
/// canonical value (strictly below the modulus), so two elements are equal
/// as field values exactly when they are equal as structures.
#[derive(Clone, Copy, PartialEq, Eq, Structural, Debug)]
pub struct Fe {
    l0: u64,
    l1: u64,
    l2: u64,
    l3: u64,
}

impl View for Fe {
    type V = int;

    /// The integer value of the stored limbs.
    closed spec fn view(&self) -> int {
        self.l0 + self.l1 * m64() + self.l2 * m64() * m64() + self.l3 * m64() * m64() * m64()
    }
}

impl Fe {
    /// A canonical element: its value lies below the modulus.
    pub open spec fn wf(&self) -> bool {
        0 <= self@ < p()
    }

    /// The additive identity.
    pub fn zero() -> (r: Fe)
        ensures
            r@ == 0,
            r.wf(),
    {
        Fe { l0: 0, l1: 0, l2: 0, l3: 0 }
    }

    /// The multiplicative identity.
    pub fn one() -> (r: Fe)
        ensures
            r@ == 1,
            r.wf(),
    {
        Fe { l0: 1, l1: 0, l2: 0, l3: 0 }
    }

    /// The element of a small integer.
    pub fn from_u64(x: u64) -> (r: Fe)
        ensures
            r@ == x,
            r.wf(),
    {
        Fe { l0: x, l1: 0, l2: 0, l3: 0 }
    }

    /// The element of a 128-bit integer; the modulus is larger than any
    /// such value, so the value is kept exactly.
    pub fn from_u128(x: u128) -> (r: Fe)
        ensures
            r@ == x,
            r.wf(),
    {
        proof {
            lemma_fundamental_div_mod(x as int, 0x10000000000000000);
            lemma_mod_bound(x as int, 0x10000000000000000);
        }
        let lo: u64 = (x % 0x10000000000000000) as u64;
        let hi: u64 = (x / 0x10000000000000000) as u64;
        Fe { l0: lo, l1: hi, l2: 0, l3: 0 }
    }

    /// The four little-endian limbs of the canonical representative.
    pub fn limbs(&self) -> (r: (u64, u64, u64, u64))
        ensures
            self@ == r.0 + r.1 * m64() + r.2 * m64() * m64() + r.3 * m64() * m64() * m64(),
    {
        (self.l0, self.l1, self.l2, self.l3)
    }

    /// The element with the given little-endian limbs, accepted exactly when
    /// they form a canonical representative (a value below the modulus).
    pub fn from_limbs(l0: u64, l1: u64, l2: u64, l3: u64) -> (r: Option<Fe>)
        ensures
            ({
                let v = l0 + l1 * m64() + l2 * m64() * m64() + l3 * m64() * m64() * m64();
                match r {
                    Some(f) => f@ == v && f.wf(),
                    None => v >= p(),
                }
            }),
    {
        let c = Fe { l0, l1, l2, l3 };
        let modulus = Fe {
            l0: 0x43e1f593f0000001,
            l1: 0x2833e84879b97091,
            l2: 0xb85045b68181585d,
            l3: 0x30644e72e131a029,
        };
        proof {
            assert(modulus@ == p());
        }
        if c.below(&modulus) {
            Some(c)
        } else {
            None
        }
    }

    /// The total order on canonical representatives.
    pub fn below(&self, other: &Fe) -> (r: bool)
        ensures
            r <==> self@ < other@,
    {
        if self.l3 != other.l3 {
            self.l3 < other.l3
        } else if self.l2 != other.l2 {
            self.l2 < other.l2
        } else if self.l1 != other.l1 {
            self.l1 < other.l1
        } else {
            self.l0 < other.l0
        }
    }
}

/// Equal values have equal limbs: the limb encoding of an integer is unique,
/// so structural equality coincides with equality of values.
pub proof fn lemma_view_injective(a: Fe, b: Fe)
    requires
        a@ == b@,
    ensures
        a == b,
{
    let m: int = 0x10000000000000000;
    let ta = a.l1 + a.l2 * m + a.l3 * m * m;
    let tb = b.l1 + b.l2 * m + b.l3 * m * m;
    assert(a@ == a.l0 + m * ta);
    assert(b@ == b.l0 + m * tb);
    lemma_mod_multiples_vanish(ta, a.l0 as int, m);
    lemma_mod_multiples_vanish(tb, b.l0 as int, m);
    lemma_small_mod(a.l0 as nat, m as nat);
    lemma_small_mod(b.l0 as nat, m as nat);
    assert(a.l0 == b.l0);
    assert(ta == tb);
    let ua = a.l2 + a.l3 * m;
    let ub = b.l2 + b.l3 * m;
    lemma_mod_multiples_vanish(ua, a.l1 as int, m);
    lemma_mod_multiples_vanish(ub, b.l1 as int, m);
    lemma_small_mod(a.l1 as nat, m as nat);
    lemma_small_mod(b.l1 as nat, m as nat);
    assert(a.l1 == b.l1);
    assert(ua == ub);
    lemma_mod_multiples_vanish(a.l3 as int, a.l2 as int, m);
    lemma_mod_multiples_vanish(b.l3 as int, b.l2 as int, m);
    lemma_small_mod(a.l2 as nat, m as nat);
    lemma_small_mod(b.l2 as nat, m as nat);
    assert(a.l2 == b.l2);
    assert(a.l3 == b.l3);
}

/// Relies on halo2curves `bn256::Fr`: `from_raw` reads four little-endian
/// limbs and reduces them modulo the prime, `+` is addition in the field,
/// and `to_repr` is the canonical little-endian byte encoding.
#[verifier::external_body]
pub fn fe_add(a: &Fe, b: &Fe) -> (r: Fe)
    ensures
        r@ == fadd(a@, b@),
        r.wf(),
{
    let x = Fr::from_raw([a.l0, a.l1, a.l2, a.l3]);
    let y = Fr::from_raw([b.l0, b.l1, b.l2, b.l3]);
    let bytes = (x + y).to_repr();
    Fe {
        l0: u64::from_le_bytes(bytes.as_ref()[0..8].try_into().unwrap()),
        l1: u64::from_le_bytes(bytes.as_ref()[8..16].try_into().unwrap()),
        l2: u64::from_le_bytes(bytes.as_ref()[16..24].try_into().unwrap()),
        l3: u64::from_le_bytes(bytes.as_ref()[24..32].try_into().unwrap()),
    }
}

/// Relies on halo2curves `bn256::Fr`: `from_raw` reads four little-endian
/// limbs and reduces them modulo the prime, `*` is multiplication in the
/// field, and `to_repr` is the canonical little-endian byte encoding.
#[verifier::external_body]
pub fn fe_mul(a: &Fe, b: &Fe) -> (r: Fe)
    ensures
        r@ == fmul(a@, b@),
        r.wf(),
{
    let x = Fr::from_raw([a.l0, a.l1, a.l2, a.l3]);
    let y = Fr::from_raw([b.l0, b.l1, b.l2, b.l3]);
    let bytes = (x * y).to_repr();
    Fe {
        l0: u64::from_le_bytes(bytes.as_ref()[0..8].try_into().unwrap()),
        l1: u64::from_le_bytes(bytes.as_ref()[8..16].try_into().unwrap()),
        l2: u64::from_le_bytes(bytes.as_ref()[16..24].try_into().unwrap()),
        l3: u64::from_le_bytes(bytes.as_ref()[24..32].try_into().unwrap()),
    }
}

/// Relies on halo2curves `bn256::Fr::from_uniform_bytes`, which reduces the
/// 512-bit little-endian integer held in the buffer modulo the prime.
#[verifier::external_body]
fn fe_from_uniform_raw(bytes: &[u8; 64]) -> (r: Fe)
    ensures
        r@ == le_bytes_val(bytes@) % p(),
        r.wf(),
{
    let repr = Fr::from_uniform_bytes(bytes).to_repr();
    Fe {
        l0: u64::from_le_bytes(repr.as_ref()[0..8].try_into().unwrap()),
        l1: u64::from_le_bytes(repr.as_ref()[8..16].try_into().unwrap()),
        l2: u64::from_le_bytes(repr.as_ref()[16..24].try_into().unwrap()),
        l3: u64::from_le_bytes(repr.as_ref()[24..32].try_into().unwrap()),
    }
}

/// Uniform sampling from 64 bytes of entropy: the buffer is read as a
/// little-endian integer and reduced modulo the prime.  Used to materialize
/// parameter tables in derivation tooling, never in the hashing path itself.
pub fn fe_sample(bytes: &[u8; 64]) -> (r: Fe)
    ensures
        r@ == le_bytes_val(bytes@) % p(),
        r.wf(),
{
    fe_from_uniform_raw(bytes)
}

/// The fifth power, the non-linear layer of one round: two squarings and a
/// final multiplication.
pub fn fe_pow5(a: &Fe) -> (r: Fe)
    ensures
        r@ == fpow5(a@),
        r.wf(),
{
    let sq = fe_mul(a, a);
    let quad = fe_mul(&sq, &sq);
    fe_mul(&quad, a)
}

} // verus!
