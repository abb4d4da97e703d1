//! The permutation core: each round adds the round's constants, applies the
//! fifth-power non-linear layer to every state element (full round) or to the
//! first element alone (partial round), and then applies the diffusion layer
//! of the chosen variant.  The order — constants, non-linear layer, diffusion
//! — is fixed; any reordering would change the function entirely.

use vstd::prelude::*;
use crate::field::{fadd, fmul, fpow5, fe_add, fe_mul, fe_pow5, lemma_view_injective, Fe};
use crate::params::{DiffV, Diffusion, M3, Mat, PermSpec, PermSpecV, SparseRow, SparseV, Triple, V3};

verus! {

/// Element-wise addition of a constant triple into the state.
pub open spec fn v3_add(s: V3, c: V3) -> V3 {
    V3 { x0: fadd(s.x0, c.x0), x1: fadd(s.x1, c.x1), x2: fadd(s.x2, c.x2) }
}

/// The non-linear layer of a full round: every element to the fifth power.
pub open spec fn sbox_full(s: V3) -> V3 {
    V3 { x0: fpow5(s.x0), x1: fpow5(s.x1), x2: fpow5(s.x2) }
}

/// The non-linear layer of a partial round: only the first element to the
/// fifth power.
pub open spec fn sbox_partial(s: V3) -> V3 {
    V3 { x0: fpow5(s.x0), x1: s.x1, x2: s.x2 }
}

/// The state as a row vector multiplied by a dense matrix.
pub open spec fn mat_apply(m: M3, s: V3) -> V3 {
    V3 {
        x0: fadd(fadd(fmul(s.x0, m.r0.x0), fmul(s.x1, m.r1.x0)), fmul(s.x2, m.r2.x0)),
        x1: fadd(fadd(fmul(s.x0, m.r0.x1), fmul(s.x1, m.r1.x1)), fmul(s.x2, m.r2.x1)),
        x2: fadd(fadd(fmul(s.x0, m.r0.x2), fmul(s.x1, m.r1.x2)), fmul(s.x2, m.r2.x2)),
    }
}

/// The state as a row vector multiplied by a sparse update: the matrix with
/// first row `(m00, v1, v2)`, first column `(m00, w1, w2)`, and the identity
/// elsewhere.
pub open spec fn sparse_apply(sp: SparseV, s: V3) -> V3 {
    V3 {
        x0: fadd(fadd(fmul(s.x0, sp.m00), fmul(s.x1, sp.w1)), fmul(s.x2, sp.w2)),
        x1: fadd(fmul(s.x0, sp.v1), s.x1),
        x2: fadd(fmul(s.x0, sp.v2), s.x2),
    }
}

/// Whether round `i` lies in the first or last `rf / 2` rounds and so applies
/// the non-linear layer to the whole state.
pub open spec fn is_full_round(rf: nat, rp: nat, i: nat) -> bool {
    i < rf / 2 || rf / 2 + rp <= i
}

/// The diffusion step of round `i`.  The standard variant applies the dense
/// matrix in every round; the compact variant applies the dense start matrix
/// in the full round that enters the partial block and one sparse update per
/// partial round.
pub open spec fn diff_apply(d: DiffV, rf: nat, rp: nat, i: nat, s: V3) -> V3 {
    match d {
        DiffV::Standard { m } => mat_apply(m, s),
        DiffV::Compact { m, start, rows } => if i + 1 == rf / 2 {
            mat_apply(start, s)
        } else if is_full_round(rf, rp, i) {
            mat_apply(m, s)
        } else {
            sparse_apply(rows[i - rf / 2], s)
        },
    }
}

/// One whole round: constants, non-linear layer, diffusion, in that order.
pub open spec fn round_apply(v: PermSpecV, i: nat, s: V3) -> V3 {
    let after_c = v3_add(s, v.constants[i as int]);
    let after_s = if is_full_round(v.rf, v.rp, i) {
        sbox_full(after_c)
    } else {
        sbox_partial(after_c)
    };
    diff_apply(v.diff, v.rf, v.rp, i, after_s)
}

/// The state after applying rounds `i` up to the round total to `s`.
pub open spec fn rounds_from(v: PermSpecV, s: V3, i: nat) -> V3
    decreases v.rf + v.rp - i,
{
    if v.rf + v.rp <= i {
        s
    } else {
        rounds_from(v, round_apply(v, i, s), i + 1)
    }
}

/// The full permutation: every round applied in order.
pub open spec fn permute_spec(v: PermSpecV, s: V3) -> V3 {
    rounds_from(v, s, 0)
}

/// Element-wise exec addition of a triple.
fn triple_add(s: &Triple, c: &Triple) -> (r: Triple)
    ensures
        r@ == v3_add(s@, c@),
{
    Triple { a: fe_add(&s.a, &c.a), b: fe_add(&s.b, &c.b), c: fe_add(&s.c, &c.c) }
}

/// Exec multiplication of the state row vector by a dense matrix.
fn mat_mul(m: &Mat, s: &Triple) -> (r: Triple)
    ensures
        r@ == mat_apply(m@, s@),
{
    Triple {
        a: fe_add(&fe_add(&fe_mul(&s.a, &m.r0.a), &fe_mul(&s.b, &m.r1.a)), &fe_mul(&s.c, &m.r2.a)),
        b: fe_add(&fe_add(&fe_mul(&s.a, &m.r0.b), &fe_mul(&s.b, &m.r1.b)), &fe_mul(&s.c, &m.r2.b)),
        c: fe_add(&fe_add(&fe_mul(&s.a, &m.r0.c), &fe_mul(&s.b, &m.r1.c)), &fe_mul(&s.c, &m.r2.c)),
    }
}

/// Exec multiplication of the state row vector by a sparse update.
fn sparse_mul(sp: &SparseRow, s: &Triple) -> (r: Triple)
    ensures
        r@ == sparse_apply(sp@, s@),
{
    Triple {
        a: fe_add(&fe_add(&fe_mul(&s.a, &sp.m00), &fe_mul(&s.b, &sp.w1)), &fe_mul(&s.c, &sp.w2)),
        b: fe_add(&fe_mul(&s.a, &sp.v1), &s.b),
        c: fe_add(&fe_mul(&s.a, &sp.v2), &s.c),
    }
}

/// Applies the permutation that `ps` describes to a state.  Pure and total:
/// the result is exactly the round-by-round specification applied to the
/// input values.
pub fn permute(ps: &PermSpec, st: &Triple) -> (r: Triple)
    requires
        ps.wf(),
    ensures
        r@ == permute_spec(ps@, st@),
{
    let total: usize = ps.full_rounds() + ps.partial_rounds();
    let half: usize = ps.full_rounds() / 2;
    let rp: usize = ps.partial_rounds();
    let mut cur: Triple = *st;
    let mut i: usize = 0;
    while i < total
        invariant
            ps.wf(),
            total == ps@.rf + ps@.rp,
            half == ps@.rf / 2,
            rp == ps@.rp,
            i <= total,
            permute_spec(ps@, st@) == rounds_from(ps@, cur@, i as nat),
        decreases total - i,
    {
        let ghost prev = cur@;
        let c = ps.constant_at(i);
        cur = triple_add(&cur, c);
        let full: bool = i < half || half + rp <= i;
        cur = if full {
            Triple { a: fe_pow5(&cur.a), b: fe_pow5(&cur.b), c: fe_pow5(&cur.c) }
        } else {
            Triple { a: fe_pow5(&cur.a), b: cur.b, c: cur.c }
        };
        cur = match ps.diffusion() {
            Diffusion::Standard { mds } => mat_mul(mds, &cur),
            Diffusion::Compact { mds, start, rows } => if i + 1 == half {
                mat_mul(start, &cur)
            } else if full {
                mat_mul(mds, &cur)
            } else {
                sparse_mul(&rows[i - half], &cur)
            },
        };
        proof {
            assert(cur@ == round_apply(ps@, i as nat, prev));
        }
        i = i + 1;
    }
    cur
}

/// Two specs that share round counts and constant schedule, and whose
/// diffusion tables apply the same map at every round, run the same rounds.
pub proof fn lemma_rounds_equivalent(v1: PermSpecV, v2: PermSpecV, s: V3, i: nat)
    requires
        v1.rf == v2.rf,
        v1.rp == v2.rp,
        v1.constants == v2.constants,
        forall|j: nat, t: V3|
            diff_apply(v1.diff, v1.rf, v1.rp, j, t) == diff_apply(v2.diff, v2.rf, v2.rp, j, t),
    ensures
        rounds_from(v1, s, i) == rounds_from(v2, s, i),
    decreases v1.rf + v1.rp - i,
{
    if v1.rf + v1.rp <= i {
    } else {
        assert(round_apply(v1, i, s) == round_apply(v2, i, s));
        lemma_rounds_equivalent(v1, v2, round_apply(v1, i, s), i + 1);
    }
}

/// Variant equivalence, reduced to the diffusion tables: whenever the
/// factored diffusion of the compact tables applies, round for round, the
/// same map as the dense diffusion of the standard tables, the two variants
/// produce identical permutation output on every input state.
pub proof fn lemma_permute_equivalent(v1: PermSpecV, v2: PermSpecV, s: V3)
    requires
        v1.rf == v2.rf,
        v1.rp == v2.rp,
        v1.constants == v2.constants,
        forall|j: nat, t: V3|
            diff_apply(v1.diff, v1.rf, v1.rp, j, t) == diff_apply(v2.diff, v2.rf, v2.rp, j, t),
    ensures
        permute_spec(v1, s) == permute_spec(v2, s),
{
    lemma_rounds_equivalent(v1, v2, s, 0);
}

/// Whether the standard and the compact tables map every one of the given
/// states to the same permutation output: the mandatory cross-check that the
/// compact tables were factored correctly.
pub fn variants_agree(std_ps: &PermSpec, cpt_ps: &PermSpec, states: &Vec<Triple>) -> (r: bool)
    requires
        std_ps.wf(),
        cpt_ps.wf(),
    ensures
        r <==> forall|k: int|
            0 <= k < states@.len() ==> permute_spec(std_ps@, states@[k]@) == permute_spec(
                cpt_ps@,
                states@[k]@,
            ),
{
    let mut k: usize = 0;
    while k < states.len()
        invariant
            std_ps.wf(),
            cpt_ps.wf(),
            k <= states@.len(),
            forall|j: int|
                0 <= j < k ==> permute_spec(std_ps@, states@[j]@) == permute_spec(
                    cpt_ps@,
                    states@[j]@,
                ),
        decreases states@.len() - k,
    {
        let s = &states[k];
        let out_std = permute(std_ps, s);
        let out_cpt = permute(cpt_ps, s);
        let same: bool = out_std.a == out_cpt.a && out_std.b == out_cpt.b && out_std.c
            == out_cpt.c;
        proof {
            if out_std@ == out_cpt@ {
                lemma_view_injective(out_std.a, out_cpt.a);
                lemma_view_injective(out_std.b, out_cpt.b);
                lemma_view_injective(out_std.c, out_cpt.c);
            }
        }
        if !same {
            return false;
        }
        k = k + 1;
    }
    true
}

} // verus!
