//! Public statements: the claims a proof establishes.
//!
//! Each statement carries the public parameters, public key and publicly
//! revealed values of one claim. A statement is immutable once placed in a
//! proof specification; its position there is its id.

use vstd::prelude::*;
use crate::backend::{
    AccumParams, AccumPublicKey, G1, MemProvingKey, NonMemProvingKey, Scalar, SigParams,
    SigPublicKey, sig_params_count,
};
use crate::pairs::distinct_indices;

verus! {

/// Knowledge of a BBS+ signature over a message vector, with the messages at
/// the given indices publicly revealed and the rest hidden.
pub struct PoKBBSSignatureG1 {
    pub params: SigParams,
    pub public_key: SigPublicKey,
    pub revealed_messages: Vec<(usize, Scalar)>,
}

/// Membership of a hidden element in the accumulator with the given public
/// value.
pub struct AccumulatorMembership {
    pub params: AccumParams,
    pub public_key: AccumPublicKey,
    pub proving_key: MemProvingKey,
    pub accumulator_value: G1,
}

/// Non-membership of a hidden element in the accumulator with the given
/// public value.
pub struct AccumulatorNonMembership {
    pub params: AccumParams,
    pub public_key: AccumPublicKey,
    pub proving_key: NonMemProvingKey,
    pub accumulator_value: G1,
}

/// Knowledge of an opening of `commitment` under the bases of `key`.
pub struct PedersenCommitment {
    pub key: Vec<G1>,
    pub commitment: G1,
}

/// One public claim, polymorphic over the supported claim kinds.
pub enum Statement {
    PoKBBSSignatureG1(PoKBBSSignatureG1),
    AccumulatorMembership(AccumulatorMembership),
    AccumulatorNonMembership(AccumulatorNonMembership),
    PedersenCommitment(PedersenCommitment),
}

impl PoKBBSSignatureG1 {
    /// A signature statement is well formed when no message index is
    /// revealed twice.
    pub open spec fn wf(self) -> bool {
        distinct_indices(self.revealed_messages@)
    }
}

impl Statement {
    pub open spec fn wf(self) -> bool {
        match self {
            Statement::PoKBBSSignatureG1(s) => s.wf(),
            _ => true,
        }
    }

    /// How many witness components the statement exposes for cross-statement
    /// equality: one per message slot for a signature, the element for an
    /// accumulator, one per base for a commitment opening.
    pub open spec fn spec_witness_count(self) -> int {
        match self {
            Statement::PoKBBSSignatureG1(s) => sig_params_count(s.params),
            Statement::AccumulatorMembership(_) => 1,
            Statement::AccumulatorNonMembership(_) => 1,
            Statement::PedersenCommitment(s) => s.key@.len() as int,
        }
    }

    /// The number of witness components the statement exposes.
    pub fn witness_count(&self) -> (r: usize)
        ensures
            r == self.spec_witness_count(),
    {
        match self {
            Statement::PoKBBSSignatureG1(s) => crate::backend::sig_params_message_count(&s.params),
            Statement::AccumulatorMembership(_) => 1,
            Statement::AccumulatorNonMembership(_) => 1,
            Statement::PedersenCommitment(s) => s.key.len(),
        }
    }
}

} // verus!
