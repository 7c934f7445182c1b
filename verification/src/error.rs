//! The error taxonomy of the proof system.
//!
//! Every failure is fatal and non-retryable: a structurally invalid proof
//! specification, a sub-protocol driven out of order, a missing message, a
//! mismatched proof tag, or a violated witness-equality constraint all
//! terminate proving or verification with an error that carries the
//! originating statement id, and never a secret witness value.

use vstd::prelude::*;

verus! {

#[derive(Debug)]
pub enum ProofSystemError {
    /// A witness reference addresses a statement id that the proof
    /// specification does not contain.
    InvalidStatementId(usize),
    /// A witness reference addresses a witness-component index that its
    /// statement does not expose.
    InvalidWitnessIndex(usize, usize),
    /// An equality constraint relates fewer than two witness references.
    EqualWitnessesTooSmall(usize),
    /// The witness kind handed to a statement does not match it.
    WitnessIncompatibleWithStatement(usize),
    /// The number of witnesses does not match the number of statements.
    InvalidWitnessCount(usize, usize),
    /// The number of statement proofs does not match the number of statements.
    InvalidProofCount(usize, usize),
    /// `init` was called on a sub-protocol already past its initial state.
    SubProtocolAlreadyInitialized(usize),
    /// A challenge contribution was requested before `init`.
    SubProtocolNotReadyToGenerateChallenge(usize),
    /// Proof generation was requested before `init`, or a second time.
    SubProtocolNotReadyToGenerateProof(usize),
    /// A signature-statement message slot is neither revealed by the
    /// statement nor supplied in the witness: `(statement id, slot index)`.
    BBSPlusProtocolMessageAbsent(usize, usize),
    /// A statement proof's variant tag does not match the sub-protocol
    /// verifying it.
    ProofIncompatibleWithProtocol(usize),
    /// A Pedersen-commitment proof was handed to a Schnorr sub-protocol
    /// under a different variant tag.
    ProofIncompatibleWithSchnorrProtocol,
    /// Two witness references constrained to be equal produced different
    /// response values: carries the index of the violated constraint.
    WitnessEqualityViolated(usize),
    /// A response value for a witness reference could not be extracted from
    /// its statement proof: `(statement id, witness index)`.
    ResponseUnavailable(usize, usize),
    /// A failure of the BBS+ signature collaborator, with the statement id.
    BBSPlus(usize, crate::backend::BbsError),
    /// A failure of the accumulator collaborator, with the statement id.
    VBAccumulator(usize, crate::backend::AccumError),
    /// A failure of the Schnorr collaborator, with the statement id.
    Schnorr(usize, crate::backend::SchnorrErr),
    /// A failure while serializing transcript bytes, with the statement id.
    Serialization(usize),
}

} // verus!
