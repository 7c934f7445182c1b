//! Private witnesses: the secrets a proof is about.
//!
//! One witness per statement, held exclusively by the prover and never
//! serialized into a proof.

use vstd::prelude::*;
use crate::backend::{MemWitness, NonMemWitness, Scalar, Signature, sig_params_count};
use crate::pairs::{distinct_indices, has_idx};
use crate::statement::Statement;

verus! {

/// The signature and the hidden messages, keyed by message index, for a
/// signature-knowledge statement.
pub struct PoKBBSSignatureG1 {
    pub signature: Signature,
    pub unrevealed_messages: Vec<(usize, Scalar)>,
}

/// The accumulated element and its membership witness.
pub struct Membership {
    pub element: Scalar,
    pub witness: MemWitness,
}

/// The absent element and its non-membership witness.
pub struct NonMembership {
    pub element: Scalar,
    pub witness: NonMemWitness,
}

/// One private witness, of the same kind as its statement.
pub enum Witness {
    PoKBBSSignatureG1(PoKBBSSignatureG1),
    AccumulatorMembership(Membership),
    AccumulatorNonMembership(NonMembership),
    PedersenCommitment(Vec<Scalar>),
}

impl PoKBBSSignatureG1 {
    /// A signature witness is well formed when no message index occurs
    /// twice.
    pub open spec fn wf(self) -> bool {
        distinct_indices(self.unrevealed_messages@)
    }
}

impl Witness {
    pub open spec fn wf(self) -> bool {
        match self {
            Witness::PoKBBSSignatureG1(w) => w.wf(),
            _ => true,
        }
    }

    /// Whether this witness is of the kind its statement expects.
    pub open spec fn matches_statement(self, s: Statement) -> bool {
        match (self, s) {
            (Witness::PoKBBSSignatureG1(_), Statement::PoKBBSSignatureG1(_)) => true,
            (Witness::AccumulatorMembership(_), Statement::AccumulatorMembership(_)) => true,
            (Witness::AccumulatorNonMembership(_), Statement::AccumulatorNonMembership(_)) => true,
            (Witness::PedersenCommitment(_), Statement::PedersenCommitment(_)) => true,
            _ => false,
        }
    }

    /// Whether this witness, together with what the statement reveals,
    /// covers everything the statement demands: for a signature statement,
    /// every message slot; elsewhere, the matching kind suffices.
    pub open spec fn covers(self, s: Statement) -> bool {
        match (self, s) {
            (Witness::PoKBBSSignatureG1(w), Statement::PoKBBSSignatureG1(st)) => forall|i: int|
                0 <= i < sig_params_count(st.params) ==> has_idx(w.unrevealed_messages@, i)
                    || has_idx(st.revealed_messages@, i),
            _ => self.matches_statement(s),
        }
    }
}

} // verus!
