//! Per-statement proof parts and their variant tags.
//!
//! Each statement contributes one proof part, tagged with the same variant
//! as the statement it answers; the parts are collected in statement order
//! inside a [`crate::proofs::Proof`].

use vstd::prelude::*;
use crate::backend::{BbsProof, G1, MemProof, NonMemProof, SchnorrResponseValue};
use crate::statement::Statement;

verus! {

/// The commitment-to-randomness and the responses of a Schnorr proof of an
/// opening of a Pedersen commitment.
pub struct PedersenCommitmentProof {
    pub t: G1,
    pub response: SchnorrResponseValue,
}

impl PedersenCommitmentProof {
    pub fn new(t: G1, response: SchnorrResponseValue) -> (r: PedersenCommitmentProof)
        ensures
            r.t == t,
            r.response == response,
    {
        PedersenCommitmentProof { t, response }
    }
}

/// One proof part, tagged by the kind of the statement it answers.
pub enum StatementProof {
    PoKBBSSignatureG1(BbsProof),
    AccumulatorMembership(MemProof),
    AccumulatorNonMembership(NonMemProof),
    PedersenCommitment(PedersenCommitmentProof),
}

impl StatementProof {
    /// Whether this proof part's tag answers the given statement's kind.
    pub open spec fn matches_statement(self, s: Statement) -> bool {
        match (self, s) {
            (StatementProof::PoKBBSSignatureG1(_), Statement::PoKBBSSignatureG1(_)) => true,
            (StatementProof::AccumulatorMembership(_), Statement::AccumulatorMembership(_)) => true,
            (
                StatementProof::AccumulatorNonMembership(_),
                Statement::AccumulatorNonMembership(_),
            ) => true,
            (StatementProof::PedersenCommitment(_), Statement::PedersenCommitment(_)) => true,
            _ => false,
        }
    }
}

} // verus!
