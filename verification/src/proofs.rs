//! The proof orchestrator: driving every sub-protocol through
//! initialization, one shared Fiat-Shamir challenge, proof-part generation,
//! and independent re-verification.
//!
//! Proving instantiates one sub-protocol per statement in id order, injects
//! the shared blindings of the equality constraints, concatenates every
//! challenge contribution with the context and nonce bytes into one
//! transcript, hashes it to a single challenge, and consumes each
//! sub-protocol once for its proof part. Verification rebuilds the
//! transcript from public data and the received proof parts in the same
//! order, recomputes the challenge, checks every proof part, and finally
//! compares the response values of every equality constraint. Every failure
//! is fatal and carries the originating statement or constraint.

use vstd::prelude::*;
use crate::backend::{
    ProofRng, Scalar, accum_mem_proof_chal_contrib, accum_mem_proof_resp,
    accum_nonmem_proof_chal_contrib, accum_nonmem_proof_resp, bbs_msg_resp, bbs_proof_chal_contrib,
    bbs_proof_get_resp, fr_eq, hash_challenge, mem_resp_of, nonmem_resp_of, schnorr_responses,
    schnorr_response_get, bbs_proof_chal_bytes, bbs_verify_ok, challenge_of, g1_bytes,
    g1_vec_bytes, mem_proof_chal_bytes, mem_verify_ok, nonmem_proof_chal_bytes, nonmem_verify_ok,
    schnorr_verify_ok,
};
use crate::error::ProofSystemError;
use crate::meta_statement::{MetaStatement, blinding_of, distinct_refs, has_ref, shared_blindings};
use crate::pairs::distinct_indices;
use crate::proof_spec::ProofSpec;
use crate::statement::Statement;
use crate::statement_proof::StatementProof;
use crate::sub_protocols::{
    AccumulatorMembershipSubProtocol, AccumulatorNonMembershipSubProtocol, PoKBBSSigG1SubProtocol,
    SubProtocol, schnorr::SchnorrProtocol,
};
use crate::witness::Witness;

verus! {

/// The private witnesses of a proving call, one per statement, in statement
/// order.
pub struct Witnesses(pub Vec<Witness>);

impl Witnesses {
    pub fn new() -> (r: Witnesses)
        ensures
            r.0@.len() == 0,
    {
        Witnesses(Vec::new())
    }

    pub fn add(&mut self, w: Witness) -> (id: usize)
        ensures
            final(self).0@ == old(self).0@.push(w),
            id == old(self).0@.len(),
    {
        let id = self.0.len();
        self.0.push(w);
        id
    }

    pub open spec fn wf(self) -> bool {
        forall|i: int| 0 <= i < self.0@.len() ==> (#[trigger] self.0@[i]).wf()
    }
}

/// The indices at which a signature statement reveals its messages.
pub open spec fn revealed_ids(revealed: Seq<(usize, Scalar)>) -> Seq<usize> {
    revealed.map_values(|p: (usize, Scalar)| p.0)
}

/// The response scalar a statement's proof part carries for one witness
/// component, where the proof part's tag matches the statement and the
/// component has a response.
pub open spec fn resp_of_ref(
    stmts: Seq<Statement>,
    proofs: Seq<StatementProof>,
    r: (usize, usize),
) -> Option<Scalar> {
    match (stmts[r.0 as int], proofs[r.0 as int]) {
        (Statement::PoKBBSSignatureG1(s), StatementProof::PoKBBSSignatureG1(p)) => bbs_msg_resp(
            p,
            r.1 as int,
            revealed_ids(s.revealed_messages@),
        ),
        (
            Statement::AccumulatorMembership(_),
            StatementProof::AccumulatorMembership(p),
        ) => if r.1 == 0 {
            mem_resp_of(p)
        } else {
            Option::None
        },
        (
            Statement::AccumulatorNonMembership(_),
            StatementProof::AccumulatorNonMembership(p),
        ) => if r.1 == 0 {
            nonmem_resp_of(p)
        } else {
            Option::None
        },
        (
            Statement::PedersenCommitment(_),
            StatementProof::PedersenCommitment(p),
        ) => if r.1 < schnorr_responses(p.response).len() {
            Option::Some(schnorr_responses(p.response)[r.1 as int])
        } else {
            Option::None
        },
        _ => Option::None,
    }
}

/// An equality constraint holds of a proof when every one of its references
/// yields a response and all the responses are the same scalar.
pub open spec fn constraint_satisfied(
    stmts: Seq<Statement>,
    proofs: Seq<StatementProof>,
    refs: Seq<(usize, usize)>,
) -> bool {
    forall|k: int|
        0 <= k < refs.len() ==> (#[trigger] resp_of_ref(stmts, proofs, refs[k])) is Some
            && resp_of_ref(stmts, proofs, refs[k]) == resp_of_ref(stmts, proofs, refs[0])
}

/// The bytes one statement and its received proof part contribute to the
/// verifier's transcript; pairs under mismatched tags contribute nothing,
/// verification having already failed.
pub open spec fn pair_chal_bytes(stmt: Statement, sp: StatementProof) -> Seq<u8> {
    match (stmt, sp) {
        (Statement::PoKBBSSignatureG1(s), StatementProof::PoKBBSSignatureG1(p)) => {
            bbs_proof_chal_bytes(p, s.revealed_messages@, s.params)
        },
        (
            Statement::AccumulatorMembership(s),
            StatementProof::AccumulatorMembership(p),
        ) => mem_proof_chal_bytes(
            p,
            s.accumulator_value,
            s.public_key,
            s.params,
            s.proving_key,
        ),
        (
            Statement::AccumulatorNonMembership(s),
            StatementProof::AccumulatorNonMembership(p),
        ) => nonmem_proof_chal_bytes(
            p,
            s.accumulator_value,
            s.public_key,
            s.params,
            s.proving_key,
        ),
        (Statement::PedersenCommitment(s), StatementProof::PedersenCommitment(p)) => g1_vec_bytes(
            s.key@,
        ) + g1_bytes(s.commitment) + g1_bytes(p.t),
        _ => seq![],
    }
}

/// The verifier's transcript from statement `i` on: each pair's bytes in
/// statement order.
pub open spec fn transcript_from(
    stmts: Seq<Statement>,
    proofs: Seq<StatementProof>,
    i: int,
) -> Seq<u8>
    decreases stmts.len() - i when 0 <= i <= stmts.len()
{
    if i >= stmts.len() {
        seq![]
    } else {
        pair_chal_bytes(stmts[i], proofs[i]) + transcript_from(stmts, proofs, i + 1)
    }
}

/// The bytes an optional context or nonce adds to the transcript.
pub open spec fn opt_bytes(o: Option<Vec<u8>>) -> Seq<u8> {
    match o {
        Some(v) => v@,
        None => seq![],
    }
}

/// The challenge the verifier derives: the hash of the rebuilt transcript,
/// the context bytes and the nonce, a function of public data and the
/// received proof parts alone.
pub open spec fn verifier_challenge(
    ps: ProofSpec,
    proofs: Seq<StatementProof>,
    nonce: Option<Vec<u8>>,
) -> Scalar {
    challenge_of(
        transcript_from(ps.statements.0@, proofs, 0) + opt_bytes(ps.context) + opt_bytes(nonce),
    )
}

/// Whether the statement's collaborator verification accepts its proof part
/// under the challenge; a part under the wrong tag is never accepted.
pub open spec fn stmt_accepts(stmt: Statement, sp: StatementProof, ch: Scalar) -> bool {
    match (stmt, sp) {
        (Statement::PoKBBSSignatureG1(s), StatementProof::PoKBBSSignatureG1(p)) => bbs_verify_ok(
            p,
            s.revealed_messages@,
            ch,
            s.public_key,
            s.params,
        ),
        (
            Statement::AccumulatorMembership(s),
            StatementProof::AccumulatorMembership(p),
        ) => mem_verify_ok(p, s.accumulator_value, ch, s.public_key, s.params, s.proving_key),
        (
            Statement::AccumulatorNonMembership(s),
            StatementProof::AccumulatorNonMembership(p),
        ) => nonmem_verify_ok(p, s.accumulator_value, ch, s.public_key, s.params, s.proving_key),
        (
            Statement::PedersenCommitment(s),
            StatementProof::PedersenCommitment(p),
        ) => schnorr_verify_ok(p.response, s.key@, s.commitment, p.t, ch),
        _ => false,
    }
}

/// The indices of the revealed messages, in statement order.
fn revealed_ids_vec(revealed: &Vec<(usize, Scalar)>) -> (r: Vec<usize>)
    ensures
        r@ == revealed_ids(revealed@),
{
    let mut out: Vec<usize> = Vec::new();
    let mut k: usize = 0;
    while k < revealed.len()
        invariant
            0 <= k <= revealed@.len(),
            out@.len() == k,
            forall|j: int| 0 <= j < k ==> #[trigger] out@[j] == revealed@[j].0,
        decreases revealed@.len() - k,
    {
        out.push(revealed[k].0);
        k = k + 1;
    }
    assert(out@ =~= revealed_ids(revealed@));
    out
}

/// Extracts the response for one witness reference from the proof parts;
/// errs exactly when the reference has none.
fn response_for_ref(
    stmts: &Vec<Statement>,
    proofs: &Vec<StatementProof>,
    r: (usize, usize),
) -> (res: Result<Scalar, ProofSystemError>)
    requires
        r.0 < stmts@.len(),
        proofs@.len() == stmts@.len(),
    ensures
        res matches Ok(s) ==> resp_of_ref(stmts@, proofs@, r) == Some(s),
        res is Err ==> resp_of_ref(stmts@, proofs@, r) is None,
        res is Err ==> (res matches Err(ProofSystemError::ResponseUnavailable(s, w)) && s == r.0
            && w == r.1),
{
    match (&stmts[r.0], &proofs[r.0]) {
        (Statement::PoKBBSSignatureG1(s), StatementProof::PoKBBSSignatureG1(p)) => {
            let ids = revealed_ids_vec(&s.revealed_messages);
            match bbs_proof_get_resp(p, r.1, &ids) {
                Ok(sc) => Ok(sc),
                Err(_) => Err(ProofSystemError::ResponseUnavailable(r.0, r.1)),
            }
        },
        (Statement::AccumulatorMembership(_), StatementProof::AccumulatorMembership(p)) => {
            if r.1 != 0 {
                return Err(ProofSystemError::ResponseUnavailable(r.0, r.1));
            }
            match accum_mem_proof_resp(p) {
                Some(sc) => Ok(sc),
                None => Err(ProofSystemError::ResponseUnavailable(r.0, r.1)),
            }
        },
        (Statement::AccumulatorNonMembership(_), StatementProof::AccumulatorNonMembership(p)) => {
            if r.1 != 0 {
                return Err(ProofSystemError::ResponseUnavailable(r.0, r.1));
            }
            match accum_nonmem_proof_resp(p) {
                Some(sc) => Ok(sc),
                None => Err(ProofSystemError::ResponseUnavailable(r.0, r.1)),
            }
        },
        (Statement::PedersenCommitment(_), StatementProof::PedersenCommitment(p)) => {
            match schnorr_response_get(&p.response, r.1) {
                Ok(sc) => Ok(sc),
                Err(_) => Err(ProofSystemError::ResponseUnavailable(r.0, r.1)),
            }
        },
        _ => Err(ProofSystemError::ResponseUnavailable(r.0, r.1)),
    }
}

/// The blindings assigned to the witness components of statement `i`, keyed
/// by component index.
fn blindings_for_statement(map: &Vec<((usize, usize), Scalar)>, i: usize) -> (r: Vec<
    (usize, Scalar),
>)
    requires
        distinct_refs(map@),
    ensures
        distinct_indices(r@),
        forall|k: int|
            0 <= k < r@.len() ==> has_ref(map@, (i, #[trigger] r@[k].0)) && r@[k].1 == blinding_of(
                map@,
                (i, r@[k].0),
            ),
{
    let mut out: Vec<(usize, Scalar)> = Vec::new();
    let mut k: usize = 0;
    while k < map.len()
        invariant
            0 <= k <= map@.len(),
            distinct_refs(map@),
            forall|j1: int, j2: int|
                0 <= j1 < j2 < out@.len() ==> #[trigger] out@[j1].0 != #[trigger] out@[j2].0,
            forall|j: int|
                0 <= j < out@.len() ==> (exists|m: int|
                    0 <= m < k && #[trigger] map@[m].0 == (i, (#[trigger] out@[j]).0)),
            forall|j: int|
                0 <= j < out@.len() ==> has_ref(map@, (i, #[trigger] out@[j].0)) && out@[j].1
                    == blinding_of(map@, (i, out@[j].0)),
        decreases map@.len() - k,
    {
        let ((s_id, w_idx), b) = (map[k].0, map[k].1.clone());
        if s_id == i {
            proof {
                assert(map@[k as int].0 == (i, w_idx));
                assert(has_ref(map@, (i, w_idx)));
                assert(blinding_of(map@, (i, w_idx)) == map@[k as int].1);
                assert forall|j: int| 0 <= j < out@.len() implies #[trigger] out@[j].0 != w_idx by {
                    let m = choose|m: int| 0 <= m < k && #[trigger] map@[m].0 == (i, out@[j].0);
                    assert(map@[m].0 != map@[k as int].0);
                }
            }
            out.push((w_idx, b));
        }
        k = k + 1;
    }
    out
}

/// One non-interactive proof: the proof parts in statement order. The
/// challenge is recomputed, never trusted.
pub struct Proof {
    pub statement_proofs: Vec<StatementProof>,
}

impl Proof {
    /// Proves a specification: validates it, initializes one sub-protocol
    /// per statement with the shared blindings of the equality constraints,
    /// derives the challenge from every contribution in statement order with
    /// the context and nonce, and consumes each sub-protocol for its proof
    /// part. The proof parts come out tagged like their statements, in
    /// statement order.
    pub fn new(
        rng: &mut ProofRng,
        spec: ProofSpec,
        witnesses: Witnesses,
        nonce: Option<Vec<u8>>,
    ) -> (r: Result<Proof, ProofSystemError>)
        requires
            spec.statements_wf(),
            witnesses.wf(),
        ensures
            !spec.valid() ==> r is Err,
            witnesses.0@.len() != spec.statements.0@.len() && spec.valid() ==> (r matches Err(
                ProofSystemError::InvalidWitnessCount(got, expected),
            ) && got == witnesses.0@.len() && expected == spec.statements.0@.len()),
            r matches Ok(p) ==> spec.valid() && witnesses.0@.len() == spec.statements.0@.len()
                && p.statement_proofs@.len() == spec.statements.0@.len() && (forall|i: int|
                0 <= i < spec.statements.0@.len()
                    ==> (#[trigger] p.statement_proofs@[i]).matches_statement(
                    spec.statements.0@[i],
                )),
            r matches Err(ProofSystemError::WitnessIncompatibleWithStatement(i)) ==> (0 <= i
                < spec.statements.0@.len() && witnesses.0@.len() == spec.statements.0@.len()
                && !witnesses.0@[i as int].matches_statement(spec.statements.0@[i as int])),
            spec.valid() && witnesses.0@.len() == spec.statements.0@.len() && (forall|i: int|
                0 <= i < spec.statements.0@.len() ==> (#[trigger] witnesses.0@[i]).covers(
                    spec.statements.0@[i],
                )) ==> r is Ok,
    {
        match spec.validate() {
            Ok(()) => {},
            Err(e) => {
                return Err(e);
            },
        }
        let n = spec.statements.0.len();
        if witnesses.0.len() != n {
            return Err(ProofSystemError::InvalidWitnessCount(witnesses.0.len(), n));
        }
        let bmap = shared_blindings(&spec.meta_statements, rng);
        let ghost orig_stmts = spec.statements.0@;

        let mut stmts = spec.statements.0;
        let mut wits = witnesses.0;
        let mut subs: Vec<SubProtocol> = Vec::new();
        let mut i: usize = 0;
        while i < n
            invariant
                0 <= i <= n,
                n == orig_stmts.len(),
                stmts@ =~= orig_stmts.subrange(i as int, n as int),
                wits@ =~= witnesses.0@.subrange(i as int, n as int),
                orig_stmts == spec.statements.0@,
                witnesses.0@.len() == n,
                spec.valid(),
                subs@.len() == i,
                distinct_refs(bmap@),
                forall|j: int| 0 <= j < wits@.len() ==> (#[trigger] wits@[j]).wf(),
                forall|j: int| 0 <= j < stmts@.len() ==> (#[trigger] stmts@[j]).wf(),
                forall|j: int|
                    0 <= j < i ==> (#[trigger] subs@[j]).is_committed() && subs@[j].committed_gen_ok(),
                forall|j: int, sp: StatementProof|
                    0 <= j < i && #[trigger] subs@[j].emits_tag_of(sp) ==> sp.matches_statement(
                        orig_stmts[j],
                    ),
            decreases n - i,
        {
            assert(stmts@[0] == orig_stmts[i as int]);
            assert(wits@[0] == witnesses.0@[i as int]);
            let stmt = stmts.remove(0);
            let wit = wits.remove(0);
            match stmt {
                Statement::PoKBBSSignatureG1(s) => {
                    match wit {
                        Witness::PoKBBSSignatureG1(w) => {
                            let mut sp = PoKBBSSigG1SubProtocol::new(i, s);
                            let bl = blindings_for_statement(&bmap, i);
                            match sp.init(rng, bl, w) {
                                Ok(()) => {},
                                Err(e) => {
                                    return Err(e);
                                },
                            }
                            subs.push(SubProtocol::PoKBBSSignatureG1(sp));
                        },
                        _ => {
                            return Err(ProofSystemError::WitnessIncompatibleWithStatement(i));
                        },
                    }
                },
                Statement::AccumulatorMembership(s) => {
                    match wit {
                        Witness::AccumulatorMembership(w) => {
                            let mut sp = AccumulatorMembershipSubProtocol::new(i, s);
                            let bl = crate::meta_statement::find_ref(&bmap, (i, 0));
                            match sp.init(rng, bl, &w) {
                                Ok(()) => {},
                                Err(e) => {
                                    return Err(e);
                                },
                            }
                            subs.push(SubProtocol::AccumulatorMembership(sp));
                        },
                        _ => {
                            return Err(ProofSystemError::WitnessIncompatibleWithStatement(i));
                        },
                    }
                },
                Statement::AccumulatorNonMembership(s) => {
                    match wit {
                        Witness::AccumulatorNonMembership(w) => {
                            let mut sp = AccumulatorNonMembershipSubProtocol::new(i, s);
                            let bl = crate::meta_statement::find_ref(&bmap, (i, 0));
                            match sp.init(rng, bl, &w) {
                                Ok(()) => {},
                                Err(e) => {
                                    return Err(e);
                                },
                            }
                            subs.push(SubProtocol::AccumulatorNonMembership(sp));
                        },
                        _ => {
                            return Err(ProofSystemError::WitnessIncompatibleWithStatement(i));
                        },
                    }
                },
                Statement::PedersenCommitment(s) => {
                    match wit {
                        Witness::PedersenCommitment(w) => {
                            let mut sp = SchnorrProtocol::new(i, s.key, s.commitment);
                            let bl = blindings_for_statement(&bmap, i);
                            match sp.init(rng, bl, w) {
                                Ok(()) => {},
                                Err(e) => {
                                    return Err(e);
                                },
                            }
                            subs.push(SubProtocol::PoKPedersenCommitment(sp));
                        },
                        _ => {
                            return Err(ProofSystemError::WitnessIncompatibleWithStatement(i));
                        },
                    }
                },
            }
            i = i + 1;
        }
        // One transcript binds every sub-protocol's commitments, in
        // statement order, then the context, then the nonce.
        let mut writer: Vec<u8> = Vec::new();
        let mut j: usize = 0;
        while j < n
            invariant
                0 <= j <= n,
                n == orig_stmts.len(),
                orig_stmts == spec.statements.0@,
                witnesses.0@.len() == n,
                spec.valid(),
                subs@.len() == n,
                forall|k: int|
                    0 <= k < n ==> (#[trigger] subs@[k]).is_committed() && subs@[k].committed_gen_ok(),
                forall|k: int, sp: StatementProof|
                    0 <= k < n && #[trigger] subs@[k].emits_tag_of(sp) ==> sp.matches_statement(
                        orig_stmts[k],
                    ),
            decreases n - j,
        {
            match subs[j].challenge_contribution(&mut writer) {
                Ok(()) => {},
                Err(e) => {
                    return Err(e);
                },
            }
            j = j + 1;
        }
        match &spec.context {
            Some(ctx) => writer.extend_from_slice(ctx.as_slice()),
            None => {},
        }
        match &nonce {
            Some(nc) => writer.extend_from_slice(nc.as_slice()),
            None => {},
        }
        let challenge = hash_challenge(&writer);

        let mut statement_proofs: Vec<StatementProof> = Vec::new();
        let mut m: usize = 0;
        while m < n
            invariant
                0 <= m <= n,
                n == orig_stmts.len(),
                orig_stmts == spec.statements.0@,
                witnesses.0@.len() == n,
                spec.valid(),
                subs@.len() == n,
                statement_proofs@.len() == m,
                forall|k: int|
                    m <= k < n ==> (#[trigger] subs@[k]).is_committed() && subs@[k].committed_gen_ok(),
                forall|k: int, sp: StatementProof|
                    0 <= k < n && #[trigger] subs@[k].emits_tag_of(sp) ==> sp.matches_statement(
                        orig_stmts[k],
                    ),
                forall|k: int|
                    0 <= k < m ==> (#[trigger] statement_proofs@[k]).matches_statement(
                        orig_stmts[k],
                    ),
            decreases n - m,
        {
            let ghost subs_pre = subs@;
            let sub = &mut subs[m];
            match sub.gen_proof_contribution(&challenge) {
                Ok(sp) => {
                    proof {
                        assert(subs_pre[m as int].emits_tag_of(sp));
                    }
                    statement_proofs.push(sp);
                },
                Err(e) => {
                    return Err(e);
                },
            }
            m = m + 1;
        }
        Ok(Proof { statement_proofs })
    }

    /// Verifies a proof against a specification: validates it, rebuilds the
    /// transcript from public statement data and the received proof parts in
    /// statement order with the same context and nonce, recomputes the
    /// challenge, checks every proof part against its statement, and
    /// compares the responses of every equality constraint. Succeeds exactly
    /// when the specification is valid, the counts and tags agree, every
    /// statement's verification accepts its part under the recomputed
    /// challenge, and every constraint's responses agree; a failure carries
    /// the originating statement or constraint.
    pub fn verify(&self, spec: &ProofSpec, nonce: Option<Vec<u8>>) -> (r: Result<
        (),
        ProofSystemError,
    >)
        ensures
            !spec.valid() ==> r is Err,
            spec.valid() && self.statement_proofs@.len() != spec.statements.0@.len() ==> (r
                matches Err(ProofSystemError::InvalidProofCount(got, expected)) && got
                == self.statement_proofs@.len() && expected == spec.statements.0@.len()),
            r is Ok ==> spec.valid() && self.statement_proofs@.len() == spec.statements.0@.len()
                && (forall|i: int|
                0 <= i < spec.statements.0@.len()
                    ==> (#[trigger] self.statement_proofs@[i]).matches_statement(
                    spec.statements.0@[i],
                )) && (forall|i: int|
                0 <= i < spec.statements.0@.len() ==> #[trigger] stmt_accepts(
                    spec.statements.0@[i],
                    self.statement_proofs@[i],
                    verifier_challenge(*spec, self.statement_proofs@, nonce),
                )) && (forall|c: int|
                0 <= c < spec.meta_statements.0@.len() ==> constraint_satisfied(
                    spec.statements.0@,
                    self.statement_proofs@,
                    #[trigger] spec.meta_statements.refs_of(c),
                )),
            spec.valid() && self.statement_proofs@.len() == spec.statements.0@.len() && (forall|
                i: int,
            |
                0 <= i < spec.statements.0@.len() ==> #[trigger] stmt_accepts(
                    spec.statements.0@[i],
                    self.statement_proofs@[i],
                    verifier_challenge(*spec, self.statement_proofs@, nonce),
                )) && (forall|c: int|
                0 <= c < spec.meta_statements.0@.len() ==> constraint_satisfied(
                    spec.statements.0@,
                    self.statement_proofs@,
                    #[trigger] spec.meta_statements.refs_of(c),
                )) ==> r is Ok,
            r matches Err(ProofSystemError::WitnessEqualityViolated(c)) ==> 0 <= c
                < spec.meta_statements.0@.len() && !constraint_satisfied(
                spec.statements.0@,
                self.statement_proofs@,
                spec.meta_statements.refs_of(c as int),
            ),
            r matches Err(ProofSystemError::ResponseUnavailable(s, w)) ==> resp_of_ref(
                spec.statements.0@,
                self.statement_proofs@,
                (s, w),
            ) is None,
    {
        match spec.validate() {
            Ok(()) => {},
            Err(e) => {
                return Err(e);
            },
        }
        let n = spec.statements.0.len();
        if self.statement_proofs.len() != n {
            return Err(ProofSystemError::InvalidProofCount(self.statement_proofs.len(), n));
        }
        let ghost stmts_v = spec.statements.0@;
        let ghost proofs_v = self.statement_proofs@;
        // Rebuild the transcript from public data and the proof parts, in
        // statement order.
        let mut writer: Vec<u8> = Vec::new();
        proof {
            assert(writer@ + transcript_from(stmts_v, proofs_v, 0) =~= transcript_from(
                stmts_v,
                proofs_v,
                0,
            ));
        }
        let mut i: usize = 0;
        while i < n
            invariant
                0 <= i <= n,
                n == spec.statements.0@.len(),
                stmts_v == spec.statements.0@,
                proofs_v == self.statement_proofs@,
                self.statement_proofs@.len() == n,
                spec.valid(),
                writer@ + transcript_from(stmts_v, proofs_v, i as int) == transcript_from(
                    stmts_v,
                    proofs_v,
                    0,
                ),
                forall|k: int|
                    0 <= k < i ==> (#[trigger] self.statement_proofs@[k]).matches_statement(
                        spec.statements.0@[k],
                    ),
            decreases n - i,
        {
            let ghost w_pre = writer@;
            match (&spec.statements.0[i], &self.statement_proofs[i]) {
                (Statement::PoKBBSSignatureG1(st), StatementProof::PoKBBSSignatureG1(p)) => {
                    match bbs_proof_chal_contrib(p, &st.revealed_messages, &st.params, &mut writer)
                    {
                        Ok(()) => {},
                        Err(e) => {
                            return Err(ProofSystemError::BBSPlus(i, e));
                        },
                    }
                },
                (
                    Statement::AccumulatorMembership(st),
                    StatementProof::AccumulatorMembership(p),
                ) => {
                    match accum_mem_proof_chal_contrib(
                        p,
                        &st.accumulator_value,
                        &st.public_key,
                        &st.params,
                        &st.proving_key,
                        &mut writer,
                    ) {
                        Ok(()) => {},
                        Err(e) => {
                            return Err(ProofSystemError::VBAccumulator(i, e));
                        },
                    }
                },
                (
                    Statement::AccumulatorNonMembership(st),
                    StatementProof::AccumulatorNonMembership(p),
                ) => {
                    match accum_nonmem_proof_chal_contrib(
                        p,
                        &st.accumulator_value,
                        &st.public_key,
                        &st.params,
                        &st.proving_key,
                        &mut writer,
                    ) {
                        Ok(()) => {},
                        Err(e) => {
                            return Err(ProofSystemError::VBAccumulator(i, e));
                        },
                    }
                },
                (Statement::PedersenCommitment(st), StatementProof::PedersenCommitment(p)) => {
                    match SchnorrProtocol::compute_challenge_contribution(
                        &st.key,
                        &st.commitment,
                        &p.t,
                        &mut writer,
                    ) {
                        Ok(()) => {},
                        Err(_) => {
                            return Err(ProofSystemError::Serialization(i));
                        },
                    }
                },
                _ => {
                    proof {
                        assert(!stmt_accepts(
                            stmts_v[i as int],
                            proofs_v[i as int],
                            verifier_challenge(*spec, self.statement_proofs@, nonce),
                        ));
                    }
                    return Err(ProofSystemError::ProofIncompatibleWithProtocol(i));
                },
            }
            proof {
                assert(writer@ =~= w_pre + pair_chal_bytes(stmts_v[i as int], proofs_v[i as int]));
                assert(transcript_from(stmts_v, proofs_v, i as int) == pair_chal_bytes(
                    stmts_v[i as int],
                    proofs_v[i as int],
                ) + transcript_from(stmts_v, proofs_v, i + 1));
                assert(writer@ + transcript_from(stmts_v, proofs_v, i + 1) =~= w_pre
                    + transcript_from(stmts_v, proofs_v, i as int));
            }
            i = i + 1;
        }
        proof {
            assert(transcript_from(stmts_v, proofs_v, n as int) =~= Seq::<u8>::empty());
            assert(writer@ =~= transcript_from(stmts_v, proofs_v, 0));
        }
        let ghost t0 = transcript_from(stmts_v, proofs_v, 0);
        match &spec.context {
            Some(ctx) => writer.extend_from_slice(ctx.as_slice()),
            None => {},
        }
        proof {
            assert(writer@ =~= t0 + opt_bytes(spec.context));
        }
        match &nonce {
            Some(nc) => writer.extend_from_slice(nc.as_slice()),
            None => {},
        }
        proof {
            assert(writer@ =~= t0 + opt_bytes(spec.context) + opt_bytes(nonce));
        }
        let challenge = hash_challenge(&writer);
        proof {
            assert(challenge == verifier_challenge(*spec, self.statement_proofs@, nonce));
        }
        // Check every proof part against its statement, in statement order,
        // stopping at the first failure.
        let mut v: usize = 0;
        while v < n
            invariant
                0 <= v <= n,
                n == spec.statements.0@.len(),
                stmts_v == spec.statements.0@,
                proofs_v == self.statement_proofs@,
                self.statement_proofs@.len() == n,
                spec.valid(),
                challenge == verifier_challenge(*spec, self.statement_proofs@, nonce),
                forall|k: int|
                    0 <= k < n ==> (#[trigger] self.statement_proofs@[k]).matches_statement(
                        spec.statements.0@[k],
                    ),
                forall|k: int|
                    0 <= k < v ==> #[trigger] stmt_accepts(
                        spec.statements.0@[k],
                        self.statement_proofs@[k],
                        challenge,
                    ),
            decreases n - v,
        {
            match (&spec.statements.0[v], &self.statement_proofs[v]) {
                (Statement::PoKBBSSignatureG1(st), StatementProof::PoKBBSSignatureG1(p)) => {
                    match crate::backend::bbs_proof_verify(
                        p,
                        &st.revealed_messages,
                        &challenge,
                        &st.public_key,
                        &st.params,
                    ) {
                        Ok(()) => {},
                        Err(e) => {
                            proof {
                                assert(!stmt_accepts(
                                    stmts_v[v as int],
                                    proofs_v[v as int],
                                    challenge,
                                ));
                            }
                            return Err(ProofSystemError::BBSPlus(v, e));
                        },
                    }
                },
                (
                    Statement::AccumulatorMembership(st),
                    StatementProof::AccumulatorMembership(p),
                ) => {
                    match crate::backend::accum_mem_verify(
                        p,
                        &st.accumulator_value,
                        &challenge,
                        &st.public_key,
                        &st.params,
                        &st.proving_key,
                    ) {
                        Ok(()) => {},
                        Err(e) => {
                            proof {
                                assert(!stmt_accepts(
                                    stmts_v[v as int],
                                    proofs_v[v as int],
                                    challenge,
                                ));
                            }
                            return Err(ProofSystemError::VBAccumulator(v, e));
                        },
                    }
                },
                (
                    Statement::AccumulatorNonMembership(st),
                    StatementProof::AccumulatorNonMembership(p),
                ) => {
                    match crate::backend::accum_nonmem_verify(
                        p,
                        &st.accumulator_value,
                        &challenge,
                        &st.public_key,
                        &st.params,
                        &st.proving_key,
                    ) {
                        Ok(()) => {},
                        Err(e) => {
                            proof {
                                assert(!stmt_accepts(
                                    stmts_v[v as int],
                                    proofs_v[v as int],
                                    challenge,
                                ));
                            }
                            return Err(ProofSystemError::VBAccumulator(v, e));
                        },
                    }
                },
                (Statement::PedersenCommitment(st), StatementProof::PedersenCommitment(p)) => {
                    match crate::backend::schnorr_response_is_valid(
                        &p.response,
                        &st.key,
                        &st.commitment,
                        &p.t,
                        &challenge,
                    ) {
                        Ok(()) => {},
                        Err(e) => {
                            proof {
                                assert(!stmt_accepts(
                                    stmts_v[v as int],
                                    proofs_v[v as int],
                                    challenge,
                                ));
                            }
                            return Err(ProofSystemError::Schnorr(v, e));
                        },
                    }
                },
                _ => {
                    proof {
                        assert(!stmt_accepts(stmts_v[v as int], proofs_v[v as int], challenge));
                    }
                    return Err(ProofSystemError::ProofIncompatibleWithProtocol(v));
                },
            }
            v = v + 1;
        }
        // Compare the responses of every equality constraint: a mismatch
        // fails even though every proof part verified on its own.
        let mut c: usize = 0;
        while c < spec.meta_statements.0.len()
            invariant
                0 <= c <= spec.meta_statements.0@.len(),
                n == spec.statements.0@.len(),
                self.statement_proofs@.len() == n,
                spec.valid(),
                forall|c2: int|
                    0 <= c2 < c ==> constraint_satisfied(
                        spec.statements.0@,
                        self.statement_proofs@,
                        #[trigger] spec.meta_statements.refs_of(c2),
                    ),
            decreases spec.meta_statements.0@.len() - c,
        {
            let refs: &Vec<(usize, usize)> = match &spec.meta_statements.0[c] {
                MetaStatement::WitnessEquality(e) => &e.0,
            };
            assert(refs@ == spec.meta_statements.refs_of(c as int));
            let base = match response_for_ref(&spec.statements.0, &self.statement_proofs, refs[0]) {
                Ok(b) => b,
                Err(e) => {
                    proof {
                        assert(!constraint_satisfied(
                            spec.statements.0@,
                            self.statement_proofs@,
                            spec.meta_statements.refs_of(c as int),
                        ));
                    }
                    return Err(e);
                },
            };
            let mut k: usize = 1;
            while k < refs.len()
                invariant
                    1 <= k <= refs@.len(),
                    n == spec.statements.0@.len(),
                    self.statement_proofs@.len() == n,
                    spec.valid(),
                    0 <= c < spec.meta_statements.0@.len(),
                    refs@ == spec.meta_statements.refs_of(c as int),
                    refs@.len() >= 2,
                    resp_of_ref(spec.statements.0@, self.statement_proofs@, refs@[0]) == Some(
                        base,
                    ),
                    forall|j: int|
                        0 <= j < k ==> (#[trigger] resp_of_ref(
                            spec.statements.0@,
                            self.statement_proofs@,
                            refs@[j],
                        )) == Some(base),
                decreases refs@.len() - k,
            {
                match response_for_ref(&spec.statements.0, &self.statement_proofs, refs[k]) {
                    Ok(b2) => {
                        if !fr_eq(&base, &b2) {
                            proof {
                                assert(resp_of_ref(
                                    spec.statements.0@,
                                    self.statement_proofs@,
                                    spec.meta_statements.refs_of(c as int)[k as int],
                                ) == Some(b2));
                                assert(!constraint_satisfied(
                                    spec.statements.0@,
                                    self.statement_proofs@,
                                    spec.meta_statements.refs_of(c as int),
                                ));
                            }
                            return Err(ProofSystemError::WitnessEqualityViolated(c));
                        }
                    },
                    Err(e) => {
                        proof {
                            assert(resp_of_ref(
                                spec.statements.0@,
                                self.statement_proofs@,
                                spec.meta_statements.refs_of(c as int)[k as int],
                            ) is None);
                            assert(!constraint_satisfied(
                                spec.statements.0@,
                                self.statement_proofs@,
                                spec.meta_statements.refs_of(c as int),
                            ));
                        }
                        return Err(e);
                    },
                }
                k = k + 1;
            }
            c = c + 1;
        }
        Ok(())
    }
}

} // verus!
