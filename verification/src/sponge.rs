//! The domain-separated sponge: a hasher that moves through the states
//! uninitialized, absorbing, squeezed, and the two hashing modes built on it
//! — the fixed-arity pair hash for Merkle compression and the
//! variable-length message hash with its length-bound domain tag.

use vstd::prelude::*;
use vstd::pervasive::unreached;
use crate::field::{fadd, fe_add, Fe};
use crate::params::{PermSpec, PermSpecV, Triple, V3};
use crate::perm::{permute, permute_spec};

verus! {

/// Where a hasher stands: a fresh one is uninitialized, seeding the domain
/// tag makes it absorbing, and squeezing the digest ends the computation.
#[derive(Clone, Copy, PartialEq, Eq, Structural, Debug)]
pub enum Phase {
    Uninitialized,
    Absorbing,
    Squeezed,
}

/// A caller contract violation on the sponge state machine, surfaced
/// immediately and deterministically, never as a silently wrong digest.
#[derive(Clone, Copy, PartialEq, Eq, Structural, Debug)]
pub enum UsageError {
    /// The domain tag was already bound; a new hasher must be created for a
    /// new computation.
    AlreadyInitialized,
    /// No domain tag has been bound yet, so there is nothing to absorb into
    /// or squeeze from.
    NotInitialized,
    /// The digest was already squeezed; this computation is over.
    AlreadySqueezed,
}

/// A chunk added element-wise into the two rate slots; the capacity slot is
/// never touched by absorption.
pub open spec fn absorb_rate(s: V3, c0: int, c1: int) -> V3 {
    V3 { x0: fadd(s.x0, c0), x1: fadd(s.x1, c1), x2: s.x2 }
}

/// The initial state: rate slots zero, capacity slot holding the domain tag.
/// The tag is bound before any absorption and is what separates the hashing
/// modes from one another.
pub open spec fn init_state(tag: int) -> V3 {
    V3 { x0: 0, x1: 0, x2: tag }
}

/// Domain separation at the initial state: distinct tags seed distinct
/// sponge states before anything is absorbed.  That the digests then differ
/// is a cryptographic property of the permutation, checked statistically by
/// tests.
pub proof fn lemma_distinct_tags_distinct_states(t1: int, t2: int)
    requires
        t1 != t2,
    ensures
        init_state(t1) != init_state(t2),
{
}

/// One hash computation: a permutation state, the spec driving it, and the
/// phase of the state machine.  Created per hash call and discarded after
/// the digest; no state survives between computations.
pub struct Hasher {
    ps: PermSpec,
    st: Triple,
    phase: Phase,
}

impl Hasher {
    /// The values of the parameter spec driving this hasher.
    pub closed spec fn pspec(&self) -> PermSpecV {
        self.ps@
    }

    /// The current permutation state.
    pub closed spec fn state(&self) -> V3 {
        self.st@
    }

    /// The phase of the state machine.
    pub closed spec fn phase(&self) -> Phase {
        self.phase
    }

    /// A usable hasher runs over a well-formed spec.
    pub open spec fn wf(&self) -> bool {
        self.pspec().wf()
    }

    /// A fresh, uninitialized hasher over the given spec.
    pub fn new(ps: PermSpec) -> (r: Hasher)
        requires
            ps.wf(),
        ensures
            r.pspec() == ps@,
            r.phase() == Phase::Uninitialized,
            r.wf(),
    {
        let z = Fe::zero();
        Hasher { ps, st: Triple { a: z, b: z, c: z }, phase: Phase::Uninitialized }
    }

    /// Binds the domain tag: the capacity slot takes the tag, the rate slots
    /// are zeroed, and the hasher starts absorbing.  Fails if and only if the
    /// hasher was already initialized.
    pub fn init(&mut self, tag: &Fe) -> (r: Result<(), UsageError>)
        ensures
            final(self).pspec() == old(self).pspec(),
            r is Ok <==> old(self).phase() == Phase::Uninitialized,
            match r {
                Ok(()) => final(self).phase() == Phase::Absorbing && final(self).state()
                    == init_state(tag@),
                Err(e) => *final(self) == *old(self) && e == UsageError::AlreadyInitialized,
            },
    {
        match self.phase {
            Phase::Uninitialized => {
                let z = Fe::zero();
                self.st = Triple { a: z, b: z, c: *tag };
                self.phase = Phase::Absorbing;
                Ok(())
            },
            _ => Err(UsageError::AlreadyInitialized),
        }
    }

    /// Absorbs one chunk: adds it element-wise into the rate slots, then
    /// applies the full permutation.  May be called repeatedly while
    /// absorbing; fails if and only if the hasher is not absorbing.
    pub fn absorb(&mut self, c0: &Fe, c1: &Fe) -> (r: Result<(), UsageError>)
        requires
            old(self).wf(),
        ensures
            final(self).pspec() == old(self).pspec(),
            r is Ok <==> old(self).phase() == Phase::Absorbing,
            match r {
                Ok(()) => final(self).phase() == Phase::Absorbing && final(self).state()
                    == permute_spec(
                    old(self).pspec(),
                    absorb_rate(old(self).state(), c0@, c1@),
                ),
                Err(e) => *final(self) == *old(self) && e == (
                if old(self).phase() == Phase::Uninitialized {
                    UsageError::NotInitialized
                } else {
                    UsageError::AlreadySqueezed
                }),
            },
    {
        match self.phase {
            Phase::Absorbing => {
                let fed = Triple {
                    a: fe_add(&self.st.a, c0),
                    b: fe_add(&self.st.b, c1),
                    c: self.st.c,
                };
                self.st = permute(&self.ps, &fed);
                Ok(())
            },
            Phase::Uninitialized => Err(UsageError::NotInitialized),
            Phase::Squeezed => Err(UsageError::AlreadySqueezed),
        }
    }

    /// Squeezes the digest: the first rate slot of the current state.  Ends
    /// the computation; fails if and only if the hasher is not absorbing.
    pub fn squeeze(&mut self) -> (r: Result<Fe, UsageError>)
        ensures
            final(self).pspec() == old(self).pspec(),
            final(self).state() == old(self).state(),
            r is Ok <==> old(self).phase() == Phase::Absorbing,
            match r {
                Ok(d) => final(self).phase() == Phase::Squeezed && d@ == old(self).state().x0,
                Err(e) => *final(self) == *old(self) && e == (
                if old(self).phase() == Phase::Uninitialized {
                    UsageError::NotInitialized
                } else {
                    UsageError::AlreadySqueezed
                }),
            },
    {
        match self.phase {
            Phase::Absorbing => {
                self.phase = Phase::Squeezed;
                Ok(self.st.a)
            },
            Phase::Uninitialized => Err(UsageError::NotInitialized),
            Phase::Squeezed => Err(UsageError::AlreadySqueezed),
        }
    }
}

/// The pair-hash digest: one chunk of the two inputs absorbed into the
/// tag-seeded state, then the first rate slot squeezed.
pub open spec fn spec_hash_pair(v: PermSpecV, a: int, b: int, tag: int) -> int {
    permute_spec(v, absorb_rate(init_state(tag), a, b)).x0
}

/// Compresses two elements into one under an explicit domain tag.  The tag
/// separates independent hash families: leaf hashes and node hashes of one
/// tree, or distinct trees, never contaminate one another.
pub fn hash_pair_with_domain(ps: PermSpec, a: &Fe, b: &Fe, tag: &Fe) -> (r: Fe)
    requires
        ps.wf(),
    ensures
        r@ == spec_hash_pair(ps@, a@, b@, tag@),
{
    let mut h = Hasher::new(ps);
    // A fresh hasher accepts exactly this init-absorb-squeeze sequence, so
    // the results are `Ok` by contract.
    let _ = h.init(tag);
    let _ = h.absorb(a, b);
    match h.squeeze() {
        Ok(d) => d,
        Err(_) => unreached(),
    }
}

/// The same digest on every call: the pair hash is a function of its inputs
/// and of nothing else, so any two results for one `(a, b, tag)` are equal.
pub proof fn lemma_hash_pair_deterministic(v: PermSpecV, a: int, b: int, tag: int, r1: int, r2: int)
    requires
        r1 == spec_hash_pair(v, a, b, tag),
        r2 == spec_hash_pair(v, a, b, tag),
    ensures
        r1 == r2,
{
}

/// The message absorbed two elements at a time; an odd tail is padded with
/// the additive identity in the unused rate slot.  An empty message absorbs
/// nothing.
pub open spec fn absorb_msg(v: PermSpecV, msg: Seq<int>, s: V3) -> V3
    decreases msg.len(),
{
    if msg.len() == 0 {
        s
    } else if msg.len() == 1 {
        permute_spec(v, absorb_rate(s, msg[0], 0))
    } else {
        absorb_msg(v, msg.skip(2), permute_spec(v, absorb_rate(s, msg[0], msg[1])))
    }
}

/// The message-hash digest under a given domain tag.
pub open spec fn spec_hash_msg(v: PermSpecV, msg: Seq<int>, tag: int) -> int {
    absorb_msg(v, msg, init_state(tag)).x0
}

/// The values of a message.
pub open spec fn msg_view(msg: Seq<Fe>) -> Seq<int> {
    msg.map(|i: int, f: Fe| f@)
}

/// Hashes a message of any length under the given domain tag.
pub fn hash_msg_with_tag(ps: PermSpec, msg: &[Fe], tag: &Fe) -> (r: Fe)
    requires
        ps.wf(),
    ensures
        r@ == spec_hash_msg(ps@, msg_view(msg@), tag@),
{
    let ghost m = msg_view(msg@);
    let mut h = Hasher::new(ps);
    // A fresh hasher accepts this init and every absorb while it is
    // absorbing, so the results are `Ok` by contract.
    let _ = h.init(tag);
    proof {
        assert(m.skip(0) =~= m);
    }
    let mut i: usize = 0;
    while msg.len() - i >= 2
        invariant
            h.wf(),
            h.pspec() == ps@,
            h.phase() == Phase::Absorbing,
            i <= msg@.len(),
            m == msg_view(msg@),
            absorb_msg(h.pspec(), m, init_state(tag@)) == absorb_msg(
                h.pspec(),
                m.skip(i as int),
                h.state(),
            ),
        decreases msg@.len() - i,
    {
        proof {
            assert(m.skip(i as int).skip(2) =~= m.skip(i as int + 2));
            assert(m.skip(i as int)[0] == m[i as int]);
            assert(m.skip(i as int)[1] == m[i as int + 1]);
            assert(m[i as int] == msg@[i as int]@);
            assert(m[i as int + 1] == msg@[i as int + 1]@);
        }
        let _ = h.absorb(&msg[i], &msg[i + 1]);
        i = i + 2;
    }
    if i < msg.len() {
        proof {
            assert(m.skip(i as int).len() == 1);
            assert(m.skip(i as int)[0] == m[i as int]);
            assert(m[i as int] == msg@[i as int]@);
        }
        let z = Fe::zero();
        let _ = h.absorb(&msg[i], &z);
    } else {
        proof {
            assert(m.skip(i as int).len() == 0);
        }
    }
    match h.squeeze() {
        Ok(d) => d,
        Err(_) => unreached(),
    }
}

} // verus!
