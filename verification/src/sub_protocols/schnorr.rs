//! The generic Schnorr sub-protocol: proving knowledge of an opening
//! `(w_1, ..., w_k)` of a public commitment under public bases.
//!
//! Three phases: committing to one blinding per witness (caller-supplied
//! blindings make witnesses linkable across statements, the rest are drawn
//! fresh), contributing the bases, the commitment and the
//! commitment-to-randomness to the transcript, and deriving one response per
//! witness from the challenge. Deriving responses consumes the state, and
//! the witness buffer is cleared on the way out.

use vstd::prelude::*;
use crate::backend::{
    G1, ProofRng, Scalar, SchnorrCommitmentState, commitment_blindings, commitment_t, fr_rand,
    g1_bytes, g1_vec_bytes, schnorr_commitment_new, schnorr_commitment_point,
    schnorr_commitment_response, schnorr_response_is_valid, schnorr_responses, ser_g1, ser_g1_vec,
    zeroize_scalars, fr_response, msm_of, schnorr_verify_ok,
};
use crate::error::ProofSystemError;
use crate::pairs::{distinct_indices, find_value, has_idx, value_at};
use crate::statement_proof::{PedersenCommitmentProof, StatementProof};
use crate::sub_protocols::ProtocolState;

verus! {

/// The committed secrets of the protocol: the blindings inside the
/// collaborator's commitment, and the witnesses the responses will speak
/// of.
pub struct SchnorrSecrets {
    pub commitment_to_randomness: SchnorrCommitmentState,
    pub witnesses: Vec<Scalar>,
}

/// The Schnorr sub-protocol for one Pedersen-opening statement.
pub struct SchnorrProtocol {
    pub id: usize,
    pub commitment_key: Vec<G1>,
    pub commitment: G1,
    pub protocol: ProtocolState<SchnorrSecrets>,
}

impl SchnorrProtocol {
    pub fn new(id: usize, commitment_key: Vec<G1>, commitment: G1) -> (r: SchnorrProtocol)
        ensures
            r.id == id,
            r.commitment_key == commitment_key,
            r.commitment == commitment,
            r.protocol is Uninitialized,
    {
        SchnorrProtocol { id, commitment_key, commitment, protocol: ProtocolState::Uninitialized }
    }

    /// Commits to one blinding per witness: the blinding supplied for an
    /// index is used as given — this is how equality-linked witnesses share
    /// one blinding — and a fresh random one is drawn for every other index.
    /// With one witness per base, the commitment-to-randomness is the
    /// multi-scalar combination of the bases and the blindings.
    pub fn init(
        &mut self,
        rng: &mut ProofRng,
        blindings: Vec<(usize, Scalar)>,
        witnesses: Vec<Scalar>,
    ) -> (r: Result<(), ProofSystemError>)
        requires
            distinct_indices(blindings@),
        ensures
            final(self).id == old(self).id,
            final(self).commitment_key == old(self).commitment_key,
            final(self).commitment == old(self).commitment,
            !(old(self).protocol is Uninitialized) ==> (r matches Err(
                ProofSystemError::SubProtocolAlreadyInitialized(id),
            ) && id == old(self).id && final(self).protocol == old(self).protocol),
            old(self).protocol is Uninitialized ==> r is Ok && (final(self).protocol matches
                ProtocolState::Committed(s) && s.witnesses == witnesses && commitment_blindings(
                s.commitment_to_randomness,
            ).len() == witnesses@.len() && (witnesses@.len() == old(self).commitment_key@.len()
                ==> commitment_t(s.commitment_to_randomness) == msm_of(
                old(self).commitment_key@,
                commitment_blindings(s.commitment_to_randomness),
            )) && (forall|k: int|
                0 <= k < blindings@.len() && #[trigger] blindings@[k].0 < witnesses@.len()
                    ==> commitment_blindings(s.commitment_to_randomness)[blindings@[k].0 as int]
                    == blindings@[k].1)),
    {
        match &self.protocol {
            ProtocolState::Uninitialized => {},
            _ => {
                return Err(ProofSystemError::SubProtocolAlreadyInitialized(self.id));
            },
        }
        let n = witnesses.len();
        let mut blinding_vec: Vec<Scalar> = Vec::new();
        let mut i: usize = 0;
        while i < n
            invariant
                0 <= i <= n,
                n == witnesses@.len(),
                blinding_vec@.len() == i,
                distinct_indices(blindings@),
                forall|j: int|
                    0 <= j < i && has_idx(blindings@, j) ==> #[trigger] blinding_vec@[j]
                        == value_at(blindings@, j),
            decreases n - i,
        {
            match find_value(&blindings, i) {
                Some(b) => blinding_vec.push(b),
                None => {
                    let b = fr_rand(rng);
                    blinding_vec.push(b);
                },
            }
            i = i + 1;
        }
        let comm = schnorr_commitment_new(&self.commitment_key, blinding_vec);
        assert forall|k: int|
            0 <= k < blindings@.len() && #[trigger] blindings@[k].0 < witnesses@.len() implies
            commitment_blindings(comm)[blindings@[k].0 as int] == blindings@[k].1 by {
            let j = blindings@[k].0 as int;
            assert(has_idx(blindings@, j));
            assert(value_at(blindings@, j) == blindings@[k].1);
        }
        self.protocol = ProtocolState::Committed(
            SchnorrSecrets { commitment_to_randomness: comm, witnesses },
        );
        Ok(())
    }

    /// Serializes the bases, the commitment and the commitment-to-randomness
    /// into the transcript, in this fixed order, so prover and verifier
    /// transcripts match byte for byte.
    pub fn challenge_contribution(&self, writer: &mut Vec<u8>) -> (r: Result<
        (),
        ProofSystemError,
    >)
        ensures
            !(self.protocol is Committed) ==> (r matches Err(
                ProofSystemError::SubProtocolNotReadyToGenerateChallenge(id),
            ) && id == self.id && final(writer)@ == old(writer)@),
            self.protocol matches ProtocolState::Committed(s) ==> (r is Ok && final(writer)@
                == old(writer)@ + g1_vec_bytes(self.commitment_key@) + g1_bytes(self.commitment)
                + g1_bytes(commitment_t(s.commitment_to_randomness))),
    {
        match &self.protocol {
            ProtocolState::Committed(s) => {
                match ser_g1_vec(&self.commitment_key, writer) {
                    Ok(()) => {},
                    Err(_) => {
                        return Err(ProofSystemError::Serialization(self.id));
                    },
                }
                match ser_g1(&self.commitment, writer) {
                    Ok(()) => {},
                    Err(_) => {
                        return Err(ProofSystemError::Serialization(self.id));
                    },
                }
                let t = schnorr_commitment_point(&s.commitment_to_randomness);
                match ser_g1(&t, writer) {
                    Ok(()) => Ok(()),
                    Err(_) => Err(ProofSystemError::Serialization(self.id)),
                }
            },
            _ => Err(ProofSystemError::SubProtocolNotReadyToGenerateChallenge(self.id)),
        }
    }

    /// Emits the proof part under the Pedersen tag; same consumption rule as
    /// [`Self::gen_proof_contribution_as_struct`].
    pub fn gen_proof_contribution(&mut self, challenge: &Scalar) -> (r: Result<
        StatementProof,
        ProofSystemError,
    >)
        ensures
            final(self).id == old(self).id,
            final(self).commitment_key == old(self).commitment_key,
            final(self).commitment == old(self).commitment,
            !(old(self).protocol is Committed) ==> (r matches Err(
                ProofSystemError::SubProtocolNotReadyToGenerateProof(id),
            ) && id == old(self).id && final(self).protocol == old(self).protocol),
            old(self).protocol is Committed ==> final(self).protocol is Consumed,
            old(self).protocol matches ProtocolState::Committed(s) ==> (r is Ok <==>
                commitment_blindings(s.commitment_to_randomness).len() == s.witnesses@.len()),
            r matches Ok(sp) ==> old(self).protocol is Committed && (sp matches
                StatementProof::PedersenCommitment(p) && (old(self).protocol matches
                ProtocolState::Committed(s) ==> p.t == commitment_t(s.commitment_to_randomness)
                    && schnorr_responses(p.response).len() == s.witnesses@.len() && (forall|i: int|
                    0 <= i < s.witnesses@.len() ==> schnorr_responses(p.response)[i]
                        == fr_response(
                        commitment_blindings(s.commitment_to_randomness)[i],
                        s.witnesses@[i],
                        *challenge,
                    )))),
    {
        match self.gen_proof_contribution_as_struct(challenge) {
            Ok(p) => Ok(StatementProof::PedersenCommitment(p)),
            Err(e) => Err(e),
        }
    }

    /// Consumes the committed state: computes one response per witness from
    /// the challenge, clears the witness buffer on every exit path, and
    /// leaves the state consumed so a second derivation must fail.
    pub fn gen_proof_contribution_as_struct(&mut self, challenge: &Scalar) -> (r: Result<
        PedersenCommitmentProof,
        ProofSystemError,
    >)
        ensures
            final(self).id == old(self).id,
            final(self).commitment_key == old(self).commitment_key,
            final(self).commitment == old(self).commitment,
            !(old(self).protocol is Committed) ==> (r matches Err(
                ProofSystemError::SubProtocolNotReadyToGenerateProof(id),
            ) && id == old(self).id && final(self).protocol == old(self).protocol),
            old(self).protocol is Committed ==> final(self).protocol is Consumed,
            old(self).protocol matches ProtocolState::Committed(s) ==> (r is Ok <==>
                commitment_blindings(s.commitment_to_randomness).len() == s.witnesses@.len()),
            r matches Ok(p) ==> old(self).protocol is Committed && (old(self).protocol matches
                ProtocolState::Committed(s) ==> p.t == commitment_t(s.commitment_to_randomness)
                    && schnorr_responses(p.response).len() == s.witnesses@.len() && (forall|i: int|
                    0 <= i < s.witnesses@.len() ==> schnorr_responses(p.response)[i]
                        == fr_response(
                        commitment_blindings(s.commitment_to_randomness)[i],
                        s.witnesses@[i],
                        *challenge,
                    ))),
    {
        let mut st = ProtocolState::Consumed;
        core::mem::swap(&mut self.protocol, &mut st);
        match st {
            ProtocolState::Committed(s) => {
                let SchnorrSecrets { commitment_to_randomness: comm, witnesses: mut wits } = s;
                let t = schnorr_commitment_point(&comm);
                let res = schnorr_commitment_response(&comm, &wits, challenge);
                zeroize_scalars(&mut wits);
                match res {
                    Ok(resp) => Ok(PedersenCommitmentProof::new(t, resp)),
                    Err(e) => Err(ProofSystemError::Schnorr(self.id, e)),
                }
            },
            ProtocolState::Uninitialized => {
                self.protocol = ProtocolState::Uninitialized;
                Err(ProofSystemError::SubProtocolNotReadyToGenerateProof(self.id))
            },
            ProtocolState::Consumed => {
                Err(ProofSystemError::SubProtocolNotReadyToGenerateProof(self.id))
            },
        }
    }

    /// Whether the Schnorr verification equation accepts the proof part for
    /// this statement under the challenge; a part under any other tag is
    /// never accepted.
    pub open spec fn accepts(self, challenge: Scalar, sp: StatementProof) -> bool {
        match sp {
            StatementProof::PedersenCommitment(p) => schnorr_verify_ok(
                p.response,
                self.commitment_key@,
                self.commitment,
                p.t,
                challenge,
            ),
            _ => false,
        }
    }

    /// Checks a proof part against the statement: a part under any other tag
    /// is incompatible, and one under the Pedersen tag passes exactly when
    /// the verification equation holds.
    pub fn verify_proof_contribution(&self, challenge: &Scalar, proof_part: &StatementProof) -> (r:
        Result<(), ProofSystemError>)
        ensures
            r is Ok <==> self.accepts(*challenge, *proof_part),
            !(proof_part is PedersenCommitment) ==> (r matches Err(
                ProofSystemError::ProofIncompatibleWithSchnorrProtocol,
            )),
            proof_part is PedersenCommitment && r is Err ==> (r matches Err(
                ProofSystemError::Schnorr(id, _),
            ) && id == self.id),
            proof_part matches StatementProof::PedersenCommitment(p) && schnorr_responses(p.response)
                .len() != self.commitment_key@.len() ==> r is Err,
    {
        match proof_part {
            StatementProof::PedersenCommitment(p) => {
                self.verify_proof_contribution_as_struct(challenge, p)
            },
            _ => Err(ProofSystemError::ProofIncompatibleWithSchnorrProtocol),
        }
    }

    /// Recomputes the Schnorr verification equation for the proof part,
    /// accepting exactly when it holds; no state is read or written, so this
    /// may run any number of times.
    pub fn verify_proof_contribution_as_struct(
        &self,
        challenge: &Scalar,
        proof_part: &PedersenCommitmentProof,
    ) -> (r: Result<(), ProofSystemError>)
        ensures
            r is Ok <==> schnorr_verify_ok(
                proof_part.response,
                self.commitment_key@,
                self.commitment,
                proof_part.t,
                *challenge,
            ),
            schnorr_responses(proof_part.response).len() != self.commitment_key@.len() ==> r is Err,
            r is Err ==> (r matches Err(ProofSystemError::Schnorr(id, _)) && id == self.id),
    {
        match schnorr_response_is_valid(
            &proof_part.response,
            &self.commitment_key,
            &self.commitment,
            &proof_part.t,
            challenge,
        ) {
            Ok(()) => Ok(()),
            Err(e) => Err(ProofSystemError::Schnorr(self.id, e)),
        }
    }

    /// Serializes a Schnorr statement and commitment-to-randomness for the
    /// verifier's transcript, in the same fixed order as
    /// [`Self::challenge_contribution`].
    pub fn compute_challenge_contribution(
        bases: &Vec<G1>,
        y: &G1,
        t: &G1,
        writer: &mut Vec<u8>,
    ) -> (r: Result<(), ProofSystemError>)
        ensures
            r is Ok,
            final(writer)@ == old(writer)@ + g1_vec_bytes(bases@) + g1_bytes(*y) + g1_bytes(*t),
    {
        match ser_g1_vec(bases, writer) {
            Ok(()) => {},
            Err(_) => {
                return Err(ProofSystemError::Serialization(0));
            },
        }
        match ser_g1(y, writer) {
            Ok(()) => {},
            Err(_) => {
                return Err(ProofSystemError::Serialization(0));
            },
        }
        match ser_g1(t, writer) {
            Ok(()) => Ok(()),
            Err(_) => Err(ProofSystemError::Serialization(0)),
        }
    }

    /// Clears the secret state: whatever phase the protocol is in, the
    /// blindings and witnesses are dropped and the state left consumed.
    pub fn zeroize(&mut self)
        ensures
            final(self).id == old(self).id,
            final(self).commitment_key == old(self).commitment_key,
            final(self).commitment == old(self).commitment,
            final(self).protocol is Consumed,
    {
        let mut st = ProtocolState::Consumed;
        core::mem::swap(&mut self.protocol, &mut st);
        match st {
            ProtocolState::Committed(s) => {
                let SchnorrSecrets { commitment_to_randomness: _, witnesses: mut wits } = s;
                zeroize_scalars(&mut wits);
            },
            _ => {},
        }
    }
}

} // verus!
