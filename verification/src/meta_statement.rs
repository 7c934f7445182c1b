//! Cross-statement constraints, and the shared blindings that enforce them.
//!
//! A witness reference addresses one witness component of one statement; an
//! equality constraint declares that the referents of two or more such
//! references are the identical secret value. Before any sub-protocol
//! initializes, a pre-pass turns the constraints into a blinding assignment:
//! references constrained together receive the same blinding, references
//! outside every constraint receive none and their sub-protocols draw fresh
//! ones. Under the same challenge, two Schnorr responses over one blinding
//! are equal exactly when the witnesses are, which is how equality is proven
//! in zero knowledge.

use vstd::prelude::*;
use crate::backend::{ProofRng, Scalar, fr_eq, fr_rand, fr_response};

verus! {

/// A coordinate into the witness space of a proof specification: statement
/// index, then witness-component index within that statement.
pub type WitnessRef = (usize, usize);

/// Two or more witness references whose referents must be the identical
/// secret value.
pub struct EqualWitnesses(pub Vec<WitnessRef>);

/// One cross-statement constraint.
pub enum MetaStatement {
    WitnessEquality(EqualWitnesses),
}

/// The constraints of one proof specification.
pub struct MetaStatements(pub Vec<MetaStatement>);

impl MetaStatements {
    pub fn new() -> (r: MetaStatements)
        ensures
            r.0@.len() == 0,
    {
        MetaStatements(Vec::new())
    }

    pub fn add_witness_equality(&mut self, c: EqualWitnesses)
        ensures
            final(self).0@ == old(self).0@.push(MetaStatement::WitnessEquality(c)),
    {
        self.0.push(MetaStatement::WitnessEquality(c));
    }

    /// The references of the constraint at position `c`.
    pub open spec fn refs_of(self, c: int) -> Seq<WitnessRef> {
        match self.0@[c] {
            MetaStatement::WitnessEquality(e) => e.0@,
        }
    }

    /// Whether `r` occurs in any constraint.
    pub open spec fn references(self, r: WitnessRef) -> bool {
        exists|c: int, k: int|
            0 <= c < self.0@.len() && 0 <= k < self.refs_of(c).len() && #[trigger] self.refs_of(c)[k]
                == r
    }
}

/// Whether some entry of the assignment is keyed by `r`.
pub open spec fn has_ref(m: Seq<(WitnessRef, Scalar)>, r: WitnessRef) -> bool {
    exists|k: int| 0 <= k < m.len() && #[trigger] m[k].0 == r
}

/// The keys of the assignment are pairwise distinct.
pub open spec fn distinct_refs(m: Seq<(WitnessRef, Scalar)>) -> bool {
    forall|k1: int, k2: int| 0 <= k1 < k2 < m.len() ==> #[trigger] m[k1].0 != #[trigger] m[k2].0
}

/// The blinding assigned to `r`, where one is.
pub open spec fn blinding_of(m: Seq<(WitnessRef, Scalar)>, r: WitnessRef) -> Scalar {
    m[choose|k: int| 0 <= k < m.len() && #[trigger] m[k].0 == r].1
}

/// Every two references of every constraint are assigned, and assigned the
/// same blinding.
pub open spec fn assignment_links(meta: MetaStatements, m: Seq<(WitnessRef, Scalar)>) -> bool {
    forall|c: int, k1: int, k2: int|
        0 <= c < meta.0@.len() && 0 <= k1 < meta.refs_of(c).len() && 0 <= k2 < meta.refs_of(
            c,
        ).len() ==> has_ref(m, #[trigger] meta.refs_of(c)[k1]) && blinding_of(
            m,
            meta.refs_of(c)[k1],
        ) == blinding_of(m, #[trigger] meta.refs_of(c)[k2])
}

/// Looks a reference up in the assignment.
pub fn find_ref(m: &Vec<(WitnessRef, Scalar)>, r: (usize, usize)) -> (res: Option<Scalar>)
    requires
        distinct_refs(m@),
    ensures
        res is Some <==> has_ref(m@, r),
        res matches Some(b) ==> b == blinding_of(m@, r),
{
    let mut k: usize = 0;
    while k < m.len()
        invariant
            0 <= k <= m@.len(),
            distinct_refs(m@),
            forall|j: int| 0 <= j < k ==> #[trigger] m@[j].0 != r,
        decreases m@.len() - k,
    {
        if m[k].0.0 == r.0 && m[k].0.1 == r.1 {
            let b = m[k].1.clone();
            assert(has_ref(m@, r));
            assert(b == blinding_of(m@, r));
            return Some(b);
        }
        k = k + 1;
    }
    assert(!has_ref(m@, r));
    None
}

/// Replaces every blinding equal to `from` with `to`, keeping all keys.
fn relabel(m: &mut Vec<(WitnessRef, Scalar)>, from: &Scalar, to: &Scalar)
    ensures
        final(m)@.len() == old(m)@.len(),
        forall|k: int|
            0 <= k < old(m)@.len() ==> #[trigger] final(m)@[k].0 == old(m)@[k].0 && final(m)@[k].1
                == (if old(m)@[k].1 == *from {
                *to
            } else {
                old(m)@[k].1
            }),
{
    let n = m.len();
    let mut out: Vec<(WitnessRef, Scalar)> = Vec::new();
    let mut k: usize = 0;
    while k < n
        invariant
            0 <= k <= n,
            n == m@.len(),
            m@ == old(m)@,
            out@.len() == k,
            forall|j: int|
                0 <= j < k ==> #[trigger] out@[j].0 == m@[j].0 && out@[j].1 == (if m@[j].1
                    == *from {
                    *to
                } else {
                    m@[j].1
                }),
        decreases n - k,
    {
        let key = m[k].0;
        if fr_eq(&m[k].1, from) {
            out.push((key, to.clone()));
        } else {
            out.push((key, m[k].1.clone()));
        }
        k = k + 1;
    }
    *m = out;
}

/// Relabeling keeps the keys, their presence and their distinctness, and
/// maps every assigned blinding through the same function, so blindings that
/// were equal stay equal.
proof fn lemma_relabel_lookup(
    pre: Seq<(WitnessRef, Scalar)>,
    post: Seq<(WitnessRef, Scalar)>,
    from: Scalar,
    to: Scalar,
    r: WitnessRef,
)
    requires
        distinct_refs(pre),
        post.len() == pre.len(),
        forall|k: int|
            0 <= k < pre.len() ==> #[trigger] post[k].0 == pre[k].0 && post[k].1 == (if pre[k].1
                == from {
                to
            } else {
                pre[k].1
            }),
        has_ref(pre, r),
    ensures
        distinct_refs(post),
        has_ref(post, r),
        blinding_of(post, r) == (if blinding_of(pre, r) == from {
            to
        } else {
            blinding_of(pre, r)
        }),
{
    let k_pre = choose|k: int| 0 <= k < pre.len() && #[trigger] pre[k].0 == r;
    assert(post[k_pre].0 == r);
    assert(has_ref(post, r));
    let k_post = choose|k: int| 0 <= k < post.len() && #[trigger] post[k].0 == r;
    assert(pre[k_post].0 == r);
    assert(k_post == k_pre);
}

/// Appending a fresh key leaves every present key's blinding unchanged.
proof fn lemma_push_lookup(
    m: Seq<(WitnessRef, Scalar)>,
    nr: WitnessRef,
    nb: Scalar,
    r: WitnessRef,
)
    requires
        distinct_refs(m),
        !has_ref(m, nr),
        has_ref(m, r),
    ensures
        distinct_refs(m.push((nr, nb))),
        has_ref(m.push((nr, nb)), r),
        blinding_of(m.push((nr, nb)), r) == blinding_of(m, r),
{
    let p = m.push((nr, nb));
    assert forall|k1: int, k2: int| 0 <= k1 < k2 < p.len() implies #[trigger] p[k1].0
        != #[trigger] p[k2].0 by {
        if k2 == m.len() {
            assert(p[k1].0 == m[k1].0);
            assert(!has_ref(m, nr));
            assert(m[k1].0 != nr);
        }
    }
    let k_pre = choose|k: int| 0 <= k < m.len() && #[trigger] m[k].0 == r;
    assert(p[k_pre].0 == r);
    assert(has_ref(p, r));
    let k_post = choose|k: int| 0 <= k < p.len() && #[trigger] p[k].0 == r;
    assert(r != nr);
    assert(k_post < m.len());
    assert(m[k_post].0 == r);
    assert(k_post == k_pre);
}

/// The pre-pass of the prover: turns the equality constraints into a
/// blinding assignment under which every two references of one constraint
/// share one blinding, and exactly the references that occur in some
/// constraint are assigned. The assignment is resolved and frozen before any
/// sub-protocol initializes.
pub fn shared_blindings(meta: &MetaStatements, rng: &mut ProofRng) -> (r: Vec<
    (WitnessRef, Scalar),
>)
    ensures
        distinct_refs(r@),
        assignment_links(*meta, r@),
        forall|w: WitnessRef| #[trigger] has_ref(r@, w) <==> meta.references(w),
{
    let mut map: Vec<(WitnessRef, Scalar)> = Vec::new();
    let mut c: usize = 0;
    while c < meta.0.len()
        invariant
            0 <= c <= meta.0@.len(),
            distinct_refs(map@),
            forall|c2: int, k1: int, k2: int|
                0 <= c2 < c && 0 <= k1 < meta.refs_of(c2).len() && 0 <= k2 < meta.refs_of(
                    c2,
                ).len() ==> has_ref(map@, #[trigger] meta.refs_of(c2)[k1]) && blinding_of(
                    map@,
                    meta.refs_of(c2)[k1],
                ) == blinding_of(map@, #[trigger] meta.refs_of(c2)[k2]),
            forall|w: WitnessRef| #[trigger]
                has_ref(map@, w) <==> (exists|c2: int, k: int|
                    0 <= c2 < c && 0 <= k < meta.refs_of(c2).len() && #[trigger] meta.refs_of(
                        c2,
                    )[k] == w),
        decreases meta.0@.len() - c,
    {
        let refs: &Vec<(usize, usize)> = match &meta.0[c] {
            MetaStatement::WitnessEquality(e) => &e.0,
        };
        assert(refs@ == meta.refs_of(c as int));
        // Pick the blinding this constraint's class will share: the one of
        // its first already-assigned reference, else a fresh draw.
        let mut chosen: Option<Scalar> = None;
        let mut k: usize = 0;
        while k < refs.len() && chosen.is_none()
            invariant
                0 <= k <= refs@.len(),
                distinct_refs(map@),
            decreases refs@.len() - k,
        {
            match find_ref(&map, refs[k]) {
                Some(b) => {
                    chosen = Some(b);
                },
                None => {},
            }
            k = k + 1;
        }
        let shared: Scalar = match chosen {
            Some(b) => b,
            None => fr_rand(rng),
        };
        // Assign it to every reference of the constraint, relabeling any
        // class previously assigned a different blinding.
        let mut k2: usize = 0;
        while k2 < refs.len()
            invariant
                0 <= k2 <= refs@.len(),
                distinct_refs(map@),
                forall|j: int|
                    0 <= j < k2 ==> has_ref(map@, #[trigger] refs@[j]) && blinding_of(
                        map@,
                        refs@[j],
                    ) == shared,
                forall|c2: int, j1: int, j2: int|
                    0 <= c2 < c && 0 <= j1 < meta.refs_of(c2).len() && 0 <= j2 < meta.refs_of(
                        c2,
                    ).len() ==> has_ref(map@, #[trigger] meta.refs_of(c2)[j1]) && blinding_of(
                        map@,
                        meta.refs_of(c2)[j1],
                    ) == blinding_of(map@, #[trigger] meta.refs_of(c2)[j2]),
                forall|w: WitnessRef| #[trigger]
                    has_ref(map@, w) <==> ((exists|c2: int, j: int|
                        0 <= c2 < c && 0 <= j < meta.refs_of(c2).len() && #[trigger] meta.refs_of(
                            c2,
                        )[j] == w) || (exists|j: int| 0 <= j < k2 && #[trigger] refs@[j] == w)),
        decreases refs@.len() - k2,
        {
            let ghost pre_body = map@;
            let w = refs[k2];
            match find_ref(&map, w) {
                Some(bk) => {
                    if !crate::backend::fr_eq(&bk, &shared) {
                        let ghost pre = map@;
                        relabel(&mut map, &bk, &shared);
                        proof {
                            assert forall|r2: WitnessRef| has_ref(pre, r2) implies has_ref(
                                map@,
                                r2,
                            ) && blinding_of(map@, r2) == (if blinding_of(pre, r2) == bk {
                                shared
                            } else {
                                blinding_of(pre, r2)
                            }) by {
                                lemma_relabel_lookup(pre, map@, bk, shared, r2);
                            }
                            assert forall|r2: WitnessRef| has_ref(map@, r2) implies has_ref(
                                pre,
                                r2,
                            ) by {
                                let j = choose|j: int|
                                    0 <= j < map@.len() && #[trigger] map@[j].0 == r2;
                                assert(pre[j].0 == r2);
                            }
                            assert(distinct_refs(map@)) by {
                                lemma_relabel_lookup(pre, map@, bk, shared, w);
                            }
                        }
                    }
                },
                None => {
                    let ghost pre = map@;
                    let b = shared.clone();
                    map.push((w, b));
                    proof {
                        assert forall|r2: WitnessRef| has_ref(pre, r2) implies has_ref(map@, r2)
                            && blinding_of(map@, r2) == blinding_of(pre, r2) by {
                            lemma_push_lookup(pre, w, b, r2);
                        }
                        assert(distinct_refs(map@)) by {
                            if pre.len() > 0 {
                                let r0 = pre[0].0;
                                assert(has_ref(pre, r0));
                                lemma_push_lookup(pre, w, b, r0);
                            } else {
                                assert(map@.len() == 1);
                            }
                        }
                        assert forall|r2: WitnessRef| has_ref(map@, r2) implies (has_ref(
                            pre,
                            r2,
                        ) || r2 == w) by {
                            let j = choose|j: int|
                                0 <= j < map@.len() && #[trigger] map@[j].0 == r2;
                            if j < pre.len() {
                                assert(pre[j].0 == r2);
                            }
                        }
                        assert(map@[map@.len() - 1].0 == w);
                        assert(has_ref(map@, w));
                        assert(blinding_of(map@, w) == b) by {
                            let j = choose|j: int|
                                0 <= j < map@.len() && #[trigger] map@[j].0 == w;
                            if j < pre.len() {
                                assert(pre[j].0 == w);
                                assert(has_ref(pre, w));
                            }
                        }
                    }
                },
            }
            proof {
                assert forall|w2: WitnessRef| #[trigger]
                    has_ref(map@, w2) <==> (has_ref(pre_body, w2) || w2 == w) by {}
                assert(has_ref(map@, w));
            }
            k2 = k2 + 1;
        }
        proof {
            assert forall|w: WitnessRef| #[trigger]
                has_ref(map@, w) <==> (exists|c2: int, j: int|
                    0 <= c2 < c + 1 && 0 <= j < meta.refs_of(c2).len() && #[trigger] meta.refs_of(
                        c2,
                    )[j] == w) by {
                if has_ref(map@, w) {
                    assert((exists|c2: int, j: int|
                        0 <= c2 < c && 0 <= j < meta.refs_of(c2).len() && #[trigger] meta.refs_of(
                            c2,
                        )[j] == w) || (exists|j: int|
                        0 <= j < refs@.len() && #[trigger] refs@[j] == w));
                    if exists|j: int| 0 <= j < refs@.len() && #[trigger] refs@[j] == w {
                        let j = choose|j: int| 0 <= j < refs@.len() && #[trigger] refs@[j] == w;
                        assert(meta.refs_of(c as int)[j] == w);
                    }
                }
                if exists|c2: int, j: int|
                    0 <= c2 < c + 1 && 0 <= j < meta.refs_of(c2).len() && #[trigger] meta.refs_of(
                        c2,
                    )[j] == w {
                    let (c2, j) = choose|c2: int, j: int|
                        0 <= c2 < c + 1 && 0 <= j < meta.refs_of(c2).len()
                            && #[trigger] meta.refs_of(c2)[j] == w;
                    if c2 == c {
                        assert(refs@[j] == w);
                    }
                }
            }
        }
        c = c + 1;
    }
    map
}

/// Equality-linked witnesses under one shared blinding produce the same
/// Schnorr response under one challenge: the response depends only on the
/// blinding, the witness and the challenge.
pub proof fn lemma_shared_blinding_links_responses(
    blinding: Scalar,
    w1: Scalar,
    w2: Scalar,
    challenge: Scalar,
)
    requires
        w1 == w2,
    ensures
        fr_response(blinding, w1, challenge) == fr_response(blinding, w2, challenge),
{
}

/// The contrapositive of response determinism: when two responses over one
/// shared blinding and one challenge differ, the linked witnesses cannot
/// have been equal. The converse — distinct witnesses force distinct
/// responses under a nonzero challenge — is a trusted clause of the
/// response computation in [`crate::backend`], since it rests on the
/// field's algebra.
pub proof fn lemma_response_mismatch_means_witness_mismatch(
    blinding: Scalar,
    w1: Scalar,
    w2: Scalar,
    challenge: Scalar,
)
    requires
        fr_response(blinding, w1, challenge) != fr_response(blinding, w2, challenge),
    ensures
        w1 != w2,
{
}

} // verus!
