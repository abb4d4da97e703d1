//! The parameter spec: the fixed numeric description of one permutation
//! instance — round counts, the round-constant schedule, and the diffusion
//! tables of the standard or the compact variant — together with the
//! validation that every instance must pass before any hashing occurs.

use vstd::prelude::*;
use crate::field::Fe;

verus! {

/// The most rounds a spec may declare, so that round indices and the
/// circuit-row cost always fit in a machine word.
pub const MAX_ROUNDS: usize = 65536;

/// An ordered triple of field elements: a permutation state, or one round's
/// constants, or one row of a diffusion matrix.
#[derive(Clone, Copy, Debug)]
pub struct Triple {
    pub a: Fe,
    pub b: Fe,
    pub c: Fe,
}

/// The values of a triple.
pub ghost struct V3 {
    pub x0: int,
    pub x1: int,
    pub x2: int,
}

impl View for Triple {
    type V = V3;

    open spec fn view(&self) -> V3 {
        V3 { x0: self.a@, x1: self.b@, x2: self.c@ }
    }
}

/// A dense three-by-three diffusion matrix, stored row by row.
#[derive(Clone, Copy, Debug)]
pub struct Mat {
    pub r0: Triple,
    pub r1: Triple,
    pub r2: Triple,
}

/// The values of a dense matrix, row by row.
pub ghost struct M3 {
    pub r0: V3,
    pub r1: V3,
    pub r2: V3,
}

impl View for Mat {
    type V = M3;

    open spec fn view(&self) -> M3 {
        M3 { r0: self.r0@, r1: self.r1@, r2: self.r2@ }
    }
}

/// The factored diffusion update of one partial round: a matrix whose first
/// row is `(m00, v1, v2)`, whose first column is `(m00, w1, w2)`, and which
/// is the identity elsewhere, so applying it costs five multiplications
/// instead of nine.
#[derive(Clone, Copy, Debug)]
pub struct SparseRow {
    pub m00: Fe,
    pub v1: Fe,
    pub v2: Fe,
    pub w1: Fe,
    pub w2: Fe,
}

/// The values of a sparse update.
pub ghost struct SparseV {
    pub m00: int,
    pub v1: int,
    pub v2: int,
    pub w1: int,
    pub w2: int,
}

impl View for SparseRow {
    type V = SparseV;

    open spec fn view(&self) -> SparseV {
        SparseV { m00: self.m00@, v1: self.v1@, v2: self.v2@, w1: self.w1@, w2: self.w2@ }
    }
}

/// The diffusion tables of a spec.
///
/// The standard variant applies one dense matrix in every round.  The
/// compact variant pre-factors the partial-round block: the last full round
/// before the block applies the dense `start` matrix, and each partial round
/// applies one sparse update; the tables are supplied as fixed data,
/// pre-factored so that the two variants compute the same permutation.
#[derive(Debug)]
pub enum Diffusion {
    Standard { mds: Mat },
    Compact { mds: Mat, start: Mat, rows: Vec<SparseRow> },
}

/// The values of the diffusion tables.
pub ghost enum DiffV {
    Standard { m: M3 },
    Compact { m: M3, start: M3, rows: Seq<SparseV> },
}

impl View for Diffusion {
    type V = DiffV;

    open spec fn view(&self) -> DiffV {
        match self {
            Diffusion::Standard { mds } => DiffV::Standard { m: mds@ },
            Diffusion::Compact { mds, start, rows } => DiffV::Compact {
                m: mds@,
                start: start@,
                rows: rows@.map(|i: int, r: SparseRow| r@),
            },
        }
    }
}

/// The values of a parameter spec: the counts of full and partial rounds,
/// the round-constant schedule, and the diffusion tables.
pub ghost struct PermSpecV {
    pub rf: nat,
    pub rp: nat,
    pub constants: Seq<V3>,
    pub diff: DiffV,
}

impl PermSpecV {
    /// A valid spec: the full-round count is even (the full rounds are split
    /// evenly before and after the partial block), the constant schedule
    /// covers every round, the round total is small enough for row
    /// accounting, and compact tables carry one sparse update per partial
    /// round plus at least one full round to host the start matrix.
    pub open spec fn wf(self) -> bool {
        &&& self.rf % 2 == 0
        &&& self.constants.len() == self.rf + self.rp
        &&& self.rf + self.rp <= MAX_ROUNDS
        &&& match self.diff {
            DiffV::Standard { .. } => true,
            DiffV::Compact { rows, .. } => rows.len() == self.rp && self.rf >= 2,
        }
    }
}

/// Why a parameter spec was rejected at construction.
#[derive(Clone, Copy, PartialEq, Eq, Structural, Debug)]
pub enum ParamError {
    /// The full-round count is odd and cannot be split evenly around the
    /// partial block.
    OddFullRounds,
    /// The round total exceeds `MAX_ROUNDS`.
    TooManyRounds,
    /// The round-constant schedule does not hold one triple per round.
    ConstantCountMismatch,
    /// The compact tables do not hold one sparse update per partial round.
    SparseCountMismatch,
    /// The compact tables need a full round to host the start matrix.
    MissingEntryRound,
}

/// An immutable description of one permutation instance.  Constructed only
/// through `PermSpec::new`, which validates it, so a value of this type is
/// always well formed.
#[derive(Debug)]
pub struct PermSpec {
    pub(crate) rf: usize,
    pub(crate) rp: usize,
    pub(crate) constants: Vec<Triple>,
    pub(crate) diffusion: Diffusion,
}

impl View for PermSpec {
    type V = PermSpecV;

    closed spec fn view(&self) -> PermSpecV {
        PermSpecV {
            rf: self.rf as nat,
            rp: self.rp as nat,
            constants: self.constants@.map(|i: int, t: Triple| t@),
            diff: self.diffusion@,
        }
    }
}

/// The outcome of validating the assembled values: the first rule broken,
/// in the order the constructor checks them, or success.
pub open spec fn validate(v: PermSpecV) -> Result<(), ParamError> {
    if v.rf % 2 != 0 {
        Err(ParamError::OddFullRounds)
    } else if v.rf + v.rp > MAX_ROUNDS {
        Err(ParamError::TooManyRounds)
    } else if v.constants.len() != v.rf + v.rp {
        Err(ParamError::ConstantCountMismatch)
    } else {
        match v.diff {
            DiffV::Standard { .. } => Ok(()),
            DiffV::Compact { rows, .. } => {
                if rows.len() != v.rp {
                    Err(ParamError::SparseCountMismatch)
                } else if v.rf < 2 {
                    Err(ParamError::MissingEntryRound)
                } else {
                    Ok(())
                }
            },
        }
    }
}

impl PermSpec {
    /// A well-formed spec, as `PermSpecV::wf` states it.
    pub open spec fn wf(&self) -> bool {
        self@.wf()
    }

    /// The assembled values of loose parts, before any `PermSpec` exists.
    pub open spec fn assemble(rf: usize, rp: usize, constants: Seq<Triple>, diffusion: Diffusion) -> PermSpecV {
        PermSpecV {
            rf: rf as nat,
            rp: rp as nat,
            constants: constants.map(|i: int, t: Triple| t@),
            diff: diffusion@,
        }
    }

    /// Validates and stores one permutation instance.  A spec whose
    /// full-round count is odd, whose schedule does not cover its rounds, or
    /// whose compact tables do not match its partial rounds is rejected here,
    /// before any hashing can occur; exactly the well-formed specs are
    /// accepted.
    pub fn new(rf: usize, rp: usize, constants: Vec<Triple>, diffusion: Diffusion) -> (r: Result<
        PermSpec,
        ParamError,
    >)
        ensures
            match r {
                Ok(ps) => ps@ == Self::assemble(rf, rp, constants@, diffusion)
                    && validate(ps@) == Ok::<(), ParamError>(()) && ps.wf(),
                Err(e) => validate(Self::assemble(rf, rp, constants@, diffusion)) == Err::<
                    (),
                    ParamError,
                >(e),
            },
            r is Ok <==> Self::assemble(rf, rp, constants@, diffusion).wf(),
    {
        let ghost v = Self::assemble(rf, rp, constants@, diffusion);
        if rf % 2 != 0 {
            return Err(ParamError::OddFullRounds);
        }
        if rp > MAX_ROUNDS || rf > MAX_ROUNDS - rp {
            return Err(ParamError::TooManyRounds);
        }
        if constants.len() != rf + rp {
            return Err(ParamError::ConstantCountMismatch);
        }
        match &diffusion {
            Diffusion::Standard { .. } => {},
            Diffusion::Compact { rows, .. } => {
                if rows.len() != rp {
                    return Err(ParamError::SparseCountMismatch);
                }
                if rf < 2 {
                    return Err(ParamError::MissingEntryRound);
                }
            },
        }
        let ps = PermSpec { rf, rp, constants, diffusion };
        proof {
            assert(ps@ == v);
        }
        Ok(ps)
    }

    /// The count of full rounds.
    pub fn full_rounds(&self) -> (r: usize)
        ensures
            r == self@.rf,
    {
        self.rf
    }

    /// The count of partial rounds.
    pub fn partial_rounds(&self) -> (r: usize)
        ensures
            r == self@.rp,
    {
        self.rp
    }

    /// The round-constant triple of one round.
    pub fn constant_at(&self, i: usize) -> (r: &Triple)
        requires
            i < self@.constants.len(),
        ensures
            r@ == self@.constants[i as int],
    {
        &self.constants[i]
    }

    /// The diffusion tables.
    pub fn diffusion(&self) -> (r: &Diffusion)
        ensures
            r@ == self@.diff,
    {
        &self.diffusion
    }
}

/// An odd full-round count is always rejected: no parameter spec with an
/// uneven split of full rounds can come into existence.
pub proof fn lemma_odd_full_rounds_rejected(v: PermSpecV)
    requires
        v.rf % 2 != 0,
    ensures
        validate(v) == Err::<(), ParamError>(ParamError::OddFullRounds),
        !v.wf(),
{
}

} // verus!
