//! The statement-specific sub-protocols behind the uniform three-phase
//! contract.
//!
//! A sub-protocol is the runtime companion of one statement, identified by
//! the statement's id. It is driven through `init`, one challenge
//! contribution, and one proof generation; generating a proof consumes the
//! committed state, so a second attempt fails rather than reuse commitment
//! randomness. Verification needs no state and may run any number of times.

pub mod schnorr;

use vstd::prelude::*;
use crate::backend::{
    BbsProtocol, MemProtocol, MsgSlot, NonMemProtocol, ProofRng, Scalar, accum_mem_chal_contrib,
    accum_mem_gen_proof, accum_mem_init, accum_mem_verify, accum_nonmem_chal_contrib,
    accum_nonmem_gen_proof, accum_nonmem_init, accum_nonmem_verify, bbs_gen_proof, bbs_pok_init,
    bbs_proof_verify, bbs_protocol_chal_contrib, sig_params_count, sig_params_message_count,
    bbs_protocol_chal_bytes, mem_protocol_chal_bytes, nonmem_protocol_chal_bytes, bbs_verify_ok,
    mem_verify_ok, nonmem_verify_ok, commitment_blindings, commitment_t, g1_bytes, g1_vec_bytes,
};
use crate::error::ProofSystemError;
use crate::pairs::{distinct_indices, find_value, has_idx, value_at};
use crate::statement;
use crate::statement_proof::StatementProof;
use crate::witness;

verus! {

/// The life of a sub-protocol's secret state: not yet initialized, committed
/// to its randomness, or consumed by proof generation. A consumed state can
/// never return to `Committed`, which makes reuse of commitment randomness
/// under a second challenge unrepresentable.
pub enum ProtocolState<P> {
    Uninitialized,
    Committed(P),
    Consumed,
}

/// Decides which inner range-proof strategy a bound check `[min, max)` uses.
/// Ranges narrower than the fixed threshold use the CLS strategy; wider
/// ranges use the CCS strategy. Prover and verifier recompute this from the
/// same `(min, max)`, so both always agree on the strategy in effect.
pub fn should_use_cls(min: u64, max: u64) -> (r: bool)
    requires
        min <= max,
    ensures
        r == (max - min < 2097152),
{
    max - min < 2097152
}

/// The uniform contract every sub-protocol offers: contribute to the
/// challenge transcript, generate the proof part once, verify a proof part.
pub trait ProofSubProtocol {
    fn challenge_contribution(&self, target: &mut Vec<u8>) -> Result<(), ProofSystemError>;

    fn gen_proof_contribution(&mut self, challenge: &Scalar) -> Result<
        StatementProof,
        ProofSystemError,
    >;

    fn verify_proof_contribution(&self, challenge: &Scalar, proof_part: &StatementProof) -> Result<
        (),
        ProofSystemError,
    >;
}

/// The sub-protocol proving knowledge of a BBS+ signature.
pub struct PoKBBSSigG1SubProtocol {
    pub id: usize,
    pub statement: statement::PoKBBSSignatureG1,
    pub protocol: ProtocolState<BbsProtocol>,
}

/// The sub-protocol proving accumulator membership.
pub struct AccumulatorMembershipSubProtocol {
    pub id: usize,
    pub statement: statement::AccumulatorMembership,
    pub protocol: ProtocolState<MemProtocol>,
}

/// The sub-protocol proving accumulator non-membership.
pub struct AccumulatorNonMembershipSubProtocol {
    pub id: usize,
    pub statement: statement::AccumulatorNonMembership,
    pub protocol: ProtocolState<NonMemProtocol>,
}

/// What the slot at index `i` holds once composed: the hidden message takes
/// precedence, under its supplied blinding where one exists, else a fresh
/// random one; a slot the witness does not hold carries the revealed
/// message.
pub open spec fn expected_slot(
    revealed: Seq<(usize, Scalar)>,
    hidden: Seq<(usize, Scalar)>,
    blindings: Seq<(usize, Scalar)>,
    i: int,
) -> MsgSlot {
    if has_idx(hidden, i) {
        if has_idx(blindings, i) {
            MsgSlot::BlindWith(value_at(hidden, i), value_at(blindings, i))
        } else {
            MsgSlot::BlindRandom(value_at(hidden, i))
        }
    } else {
        MsgSlot::Revealed(value_at(revealed, i))
    }
}

/// Composes one entry per message slot from the revealed messages, the
/// hidden messages and the caller-supplied blindings: exactly the values
/// handed to the signature collaborator. Succeeds exactly when every slot
/// is covered; otherwise reports the smallest uncovered slot.
pub fn compose_message_slots(
    id: usize,
    count: usize,
    revealed: &Vec<(usize, Scalar)>,
    hidden: &Vec<(usize, Scalar)>,
    blindings: &Vec<(usize, Scalar)>,
) -> (r: Result<Vec<MsgSlot>, ProofSystemError>)
    requires
        distinct_indices(revealed@),
        distinct_indices(hidden@),
        distinct_indices(blindings@),
    ensures
        r is Ok <==> (forall|i: int|
            0 <= i < count ==> has_idx(hidden@, i) || has_idx(revealed@, i)),
        r matches Ok(slots) ==> slots@.len() == count && (forall|i: int|
            0 <= i < count ==> #[trigger] slots@[i] == expected_slot(
                revealed@,
                hidden@,
                blindings@,
                i,
            )),
        r matches Err(ProofSystemError::BBSPlusProtocolMessageAbsent(id2, i)) ==> (id2 == id && 0
            <= i < count && !has_idx(hidden@, i as int) && !has_idx(revealed@, i as int) && (forall|
            j: int,
        |
            0 <= j < i ==> has_idx(hidden@, j) || has_idx(revealed@, j))),
        r is Err ==> r matches Err(ProofSystemError::BBSPlusProtocolMessageAbsent(_, _)),
{
    let mut slots: Vec<MsgSlot> = Vec::new();
    let mut i: usize = 0;
    while i < count
        invariant
            0 <= i <= count,
            slots@.len() == i,
            distinct_indices(revealed@),
            distinct_indices(hidden@),
            distinct_indices(blindings@),
            forall|j: int| 0 <= j < i ==> has_idx(hidden@, j) || has_idx(revealed@, j),
            forall|j: int|
                0 <= j < i ==> #[trigger] slots@[j] == expected_slot(
                    revealed@,
                    hidden@,
                    blindings@,
                    j,
                ),
        decreases count - i,
    {
        match find_value(hidden, i) {
            Some(m) => {
                match find_value(blindings, i) {
                    Some(b) => slots.push(MsgSlot::BlindWith(m, b)),
                    None => slots.push(MsgSlot::BlindRandom(m)),
                }
            },
            None => {
                match find_value(revealed, i) {
                    Some(m) => slots.push(MsgSlot::Revealed(m)),
                    None => {
                        return Err(ProofSystemError::BBSPlusProtocolMessageAbsent(id, i));
                    },
                }
            },
        }
        i = i + 1;
    }
    Ok(slots)
}

impl PoKBBSSigG1SubProtocol {
    pub fn new(id: usize, statement: statement::PoKBBSSignatureG1) -> (r: PoKBBSSigG1SubProtocol)
        ensures
            r.id == id,
            r.statement == statement,
            r.protocol is Uninitialized,
    {
        PoKBBSSigG1SubProtocol { id, statement, protocol: ProtocolState::Uninitialized }
    }

    /// Composes one entry per message slot through
    /// [`compose_message_slots`] and hands them to the collaborator's
    /// protocol. Fails with `SubProtocolAlreadyInitialized` past the initial
    /// state, with `BBSPlusProtocolMessageAbsent` at the smallest slot that
    /// is neither revealed nor supplied, and succeeds otherwise.
    pub fn init(
        &mut self,
        rng: &mut ProofRng,
        blindings: Vec<(usize, Scalar)>,
        witness: witness::PoKBBSSignatureG1,
    ) -> (r: Result<(), ProofSystemError>)
        requires
            old(self).statement.wf(),
            witness.wf(),
            distinct_indices(blindings@),
        ensures
            final(self).id == old(self).id,
            final(self).statement == old(self).statement,
            !(old(self).protocol is Uninitialized) ==> (r matches Err(
                ProofSystemError::SubProtocolAlreadyInitialized(id),
            ) && id == old(self).id && final(self).protocol == old(self).protocol),
            old(self).protocol is Uninitialized ==> (r is Ok <==> (forall|i: int|
                0 <= i < sig_params_count(old(self).statement.params) ==> has_idx(
                    witness.unrevealed_messages@,
                    i,
                ) || has_idx(old(self).statement.revealed_messages@, i))),
            r is Ok ==> final(self).protocol is Committed,
            r is Err ==> final(self).protocol == old(self).protocol,
            r matches Err(ProofSystemError::BBSPlusProtocolMessageAbsent(id, i)) ==> (id == old(
                self,
            ).id && 0 <= i < sig_params_count(old(self).statement.params) && !has_idx(
                witness.unrevealed_messages@,
                i as int,
            ) && !has_idx(old(self).statement.revealed_messages@, i as int) && (forall|j: int|
                0 <= j < i ==> has_idx(witness.unrevealed_messages@, j) || has_idx(
                    old(self).statement.revealed_messages@,
                    j,
                ))),
            r is Err ==> ((r matches Err(ProofSystemError::SubProtocolAlreadyInitialized(_))) || (
            r matches Err(ProofSystemError::BBSPlusProtocolMessageAbsent(_, _)))),
    {
        match &self.protocol {
            ProtocolState::Uninitialized => {},
            _ => {
                return Err(ProofSystemError::SubProtocolAlreadyInitialized(self.id));
            },
        }
        let count = sig_params_message_count(&self.statement.params);
        let slots = match compose_message_slots(
            self.id,
            count,
            &self.statement.revealed_messages,
            &witness.unrevealed_messages,
            &blindings,
        ) {
            Ok(s) => s,
            Err(e) => {
                return Err(e);
            },
        };
        match bbs_pok_init(rng, &witness.signature, &self.statement.params, &slots) {
            Ok(p) => {
                self.protocol = ProtocolState::Committed(p);
                Ok(())
            },
            Err(e) => Err(ProofSystemError::BBSPlus(self.id, e)),
        }
    }

    /// Serializes the committed protocol's contribution into the transcript,
    /// which cannot fail; the only error is being asked before `init` or
    /// after the state is consumed.
    pub fn challenge_contribution(&self, writer: &mut Vec<u8>) -> (r: Result<
        (),
        ProofSystemError,
    >)
        ensures
            !(self.protocol is Committed) ==> (r matches Err(
                ProofSystemError::SubProtocolNotReadyToGenerateChallenge(id),
            ) && id == self.id && final(writer)@ == old(writer)@),
            self.protocol matches ProtocolState::Committed(p) ==> (r is Ok && final(writer)@
                == old(writer)@ + bbs_protocol_chal_bytes(
                p,
                self.statement.revealed_messages@,
                self.statement.params,
            )),
    {
        match &self.protocol {
            ProtocolState::Committed(p) => {
                match bbs_protocol_chal_contrib(
                    p,
                    &self.statement.revealed_messages,
                    &self.statement.params,
                    writer,
                ) {
                    Ok(()) => Ok(()),
                    Err(e) => Err(ProofSystemError::BBSPlus(self.id, e)),
                }
            },
            _ => Err(ProofSystemError::SubProtocolNotReadyToGenerateChallenge(self.id)),
        }
    }

    /// Consumes the committed state and emits the tagged proof part; a
    /// second call finds the state consumed and fails.
    pub fn gen_proof_contribution(&mut self, challenge: &Scalar) -> (r: Result<
        StatementProof,
        ProofSystemError,
    >)
        ensures
            final(self).id == old(self).id,
            final(self).statement == old(self).statement,
            !(old(self).protocol is Committed) ==> (r matches Err(
                ProofSystemError::SubProtocolNotReadyToGenerateProof(id),
            ) && id == old(self).id && final(self).protocol == old(self).protocol),
            old(self).protocol is Committed ==> final(self).protocol is Consumed && r is Ok,
            r matches Ok(sp) ==> old(self).protocol is Committed && sp is PoKBBSSignatureG1,
    {
        let mut st = ProtocolState::Consumed;
        core::mem::swap(&mut self.protocol, &mut st);
        match st {
            ProtocolState::Committed(p) => {
                match bbs_gen_proof(p, challenge) {
                    Ok(pr) => Ok(StatementProof::PoKBBSSignatureG1(pr)),
                    Err(e) => Err(ProofSystemError::BBSPlus(self.id, e)),
                }
            },
            ProtocolState::Uninitialized => {
                self.protocol = ProtocolState::Uninitialized;
                Err(ProofSystemError::SubProtocolNotReadyToGenerateProof(self.id))
            },
            ProtocolState::Consumed => {
                Err(ProofSystemError::SubProtocolNotReadyToGenerateProof(self.id))
            },
        }
    }

    /// Whether the collaborator's verification accepts the proof part for
    /// this statement under the challenge; a part under any other tag is
    /// never accepted.
    pub open spec fn accepts(self, challenge: Scalar, sp: StatementProof) -> bool {
        match sp {
            StatementProof::PoKBBSSignatureG1(p) => bbs_verify_ok(
                p,
                self.statement.revealed_messages@,
                challenge,
                self.statement.public_key,
                self.statement.params,
            ),
            _ => false,
        }
    }

    /// Checks a proof part against the statement: a part under any other tag
    /// is incompatible, and one under the right tag passes exactly when the
    /// collaborator's verification accepts it.
    pub fn verify_proof_contribution(&self, challenge: &Scalar, proof_part: &StatementProof) -> (r:
        Result<(), ProofSystemError>)
        ensures
            r is Ok <==> self.accepts(*challenge, *proof_part),
            !(proof_part is PoKBBSSignatureG1) ==> (r matches Err(
                ProofSystemError::ProofIncompatibleWithProtocol(id),
            ) && id == self.id),
            proof_part is PoKBBSSignatureG1 && r is Err ==> (r matches Err(
                ProofSystemError::BBSPlus(id, _),
            ) && id == self.id),
    {
        match proof_part {
            StatementProof::PoKBBSSignatureG1(p) => {
                match bbs_proof_verify(
                    p,
                    &self.statement.revealed_messages,
                    challenge,
                    &self.statement.public_key,
                    &self.statement.params,
                ) {
                    Ok(()) => Ok(()),
                    Err(e) => Err(ProofSystemError::BBSPlus(self.id, e)),
                }
            },
            _ => Err(ProofSystemError::ProofIncompatibleWithProtocol(self.id)),
        }
    }
}

impl AccumulatorMembershipSubProtocol {
    pub fn new(id: usize, statement: statement::AccumulatorMembership) -> (r:
        AccumulatorMembershipSubProtocol)
        ensures
            r.id == id,
            r.statement == statement,
            r.protocol is Uninitialized,
    {
        AccumulatorMembershipSubProtocol { id, statement, protocol: ProtocolState::Uninitialized }
    }

    /// Hands the element, its optional linking blinding and the membership
    /// witness to the collaborator; fails when called on a sub-protocol
    /// already past its initial state.
    pub fn init(
        &mut self,
        rng: &mut ProofRng,
        blinding: Option<Scalar>,
        witness: &witness::Membership,
    ) -> (r: Result<(), ProofSystemError>)
        ensures
            final(self).id == old(self).id,
            final(self).statement == old(self).statement,
            !(old(self).protocol is Uninitialized) ==> (r matches Err(
                ProofSystemError::SubProtocolAlreadyInitialized(id),
            ) && id == old(self).id && final(self).protocol == old(self).protocol),
            old(self).protocol is Uninitialized ==> r is Ok && final(self).protocol is Committed,
    {
        match &self.protocol {
            ProtocolState::Uninitialized => {
                let p = accum_mem_init(
                    rng,
                    &witness.element,
                    blinding,
                    &witness.witness,
                    &self.statement.public_key,
                    &self.statement.params,
                    &self.statement.proving_key,
                );
                self.protocol = ProtocolState::Committed(p);
                Ok(())
            },
            _ => Err(ProofSystemError::SubProtocolAlreadyInitialized(self.id)),
        }
    }

    /// Serializes the committed protocol's contribution into the transcript,
    /// which cannot fail; the only error is being asked before `init` or
    /// after the state is consumed.
    pub fn challenge_contribution(&self, writer: &mut Vec<u8>) -> (r: Result<
        (),
        ProofSystemError,
    >)
        ensures
            !(self.protocol is Committed) ==> (r matches Err(
                ProofSystemError::SubProtocolNotReadyToGenerateChallenge(id),
            ) && id == self.id && final(writer)@ == old(writer)@),
            self.protocol matches ProtocolState::Committed(p) ==> (r is Ok && final(writer)@
                == old(writer)@ + mem_protocol_chal_bytes(
                p,
                self.statement.accumulator_value,
                self.statement.public_key,
                self.statement.params,
                self.statement.proving_key,
            )),
    {
        match &self.protocol {
            ProtocolState::Committed(p) => {
                match accum_mem_chal_contrib(
                    p,
                    &self.statement.accumulator_value,
                    &self.statement.public_key,
                    &self.statement.params,
                    &self.statement.proving_key,
                    writer,
                ) {
                    Ok(()) => Ok(()),
                    Err(e) => Err(ProofSystemError::VBAccumulator(self.id, e)),
                }
            },
            _ => Err(ProofSystemError::SubProtocolNotReadyToGenerateChallenge(self.id)),
        }
    }

    /// Consumes the committed state and emits the tagged proof part; a
    /// second call finds the state consumed and fails.
    pub fn gen_proof_contribution(&mut self, challenge: &Scalar) -> (r: Result<
        StatementProof,
        ProofSystemError,
    >)
        ensures
            final(self).id == old(self).id,
            final(self).statement == old(self).statement,
            !(old(self).protocol is Committed) ==> (r matches Err(
                ProofSystemError::SubProtocolNotReadyToGenerateProof(id),
            ) && id == old(self).id && final(self).protocol == old(self).protocol),
            old(self).protocol is Committed ==> final(self).protocol is Consumed && r is Ok,
            r matches Ok(sp) ==> old(self).protocol is Committed && sp is AccumulatorMembership,
    {
        let mut st = ProtocolState::Consumed;
        core::mem::swap(&mut self.protocol, &mut st);
        match st {
            ProtocolState::Committed(p) => {
                match accum_mem_gen_proof(p, challenge) {
                    Ok(pr) => Ok(StatementProof::AccumulatorMembership(pr)),
                    Err(e) => Err(ProofSystemError::VBAccumulator(self.id, e)),
                }
            },
            ProtocolState::Uninitialized => {
                self.protocol = ProtocolState::Uninitialized;
                Err(ProofSystemError::SubProtocolNotReadyToGenerateProof(self.id))
            },
            ProtocolState::Consumed => {
                Err(ProofSystemError::SubProtocolNotReadyToGenerateProof(self.id))
            },
        }
    }

    /// Whether the collaborator's verification accepts the proof part for
    /// this statement under the challenge; a part under any other tag is
    /// never accepted.
    pub open spec fn accepts(self, challenge: Scalar, sp: StatementProof) -> bool {
        match sp {
            StatementProof::AccumulatorMembership(p) => mem_verify_ok(
                p,
                self.statement.accumulator_value,
                challenge,
                self.statement.public_key,
                self.statement.params,
                self.statement.proving_key,
            ),
            _ => false,
        }
    }

    /// Checks a proof part against the statement: a part under any other tag
    /// is incompatible, and one under the right tag passes exactly when the
    /// collaborator's verification accepts it.
    pub fn verify_proof_contribution(&self, challenge: &Scalar, proof_part: &StatementProof) -> (r:
        Result<(), ProofSystemError>)
        ensures
            r is Ok <==> self.accepts(*challenge, *proof_part),
            !(proof_part is AccumulatorMembership) ==> (r matches Err(
                ProofSystemError::ProofIncompatibleWithProtocol(id),
            ) && id == self.id),
            proof_part is AccumulatorMembership && r is Err ==> (r matches Err(
                ProofSystemError::VBAccumulator(id, _),
            ) && id == self.id),
    {
        match proof_part {
            StatementProof::AccumulatorMembership(p) => {
                match accum_mem_verify(
                    p,
                    &self.statement.accumulator_value,
                    challenge,
                    &self.statement.public_key,
                    &self.statement.params,
                    &self.statement.proving_key,
                ) {
                    Ok(()) => Ok(()),
                    Err(e) => Err(ProofSystemError::VBAccumulator(self.id, e)),
                }
            },
            _ => Err(ProofSystemError::ProofIncompatibleWithProtocol(self.id)),
        }
    }
}

impl AccumulatorNonMembershipSubProtocol {
    pub fn new(id: usize, statement: statement::AccumulatorNonMembership) -> (r:
        AccumulatorNonMembershipSubProtocol)
        ensures
            r.id == id,
            r.statement == statement,
            r.protocol is Uninitialized,
    {
        AccumulatorNonMembershipSubProtocol {
            id,
            statement,
            protocol: ProtocolState::Uninitialized,
        }
    }

    /// Hands the element, its optional linking blinding and the
    /// non-membership witness to the collaborator; fails when called on a
    /// sub-protocol already past its initial state.
    pub fn init(
        &mut self,
        rng: &mut ProofRng,
        blinding: Option<Scalar>,
        witness: &witness::NonMembership,
    ) -> (r: Result<(), ProofSystemError>)
        ensures
            final(self).id == old(self).id,
            final(self).statement == old(self).statement,
            !(old(self).protocol is Uninitialized) ==> (r matches Err(
                ProofSystemError::SubProtocolAlreadyInitialized(id),
            ) && id == old(self).id && final(self).protocol == old(self).protocol),
            old(self).protocol is Uninitialized ==> r is Ok && final(self).protocol is Committed,
    {
        match &self.protocol {
            ProtocolState::Uninitialized => {
                let p = accum_nonmem_init(
                    rng,
                    &witness.element,
                    blinding,
                    &witness.witness,
                    &self.statement.public_key,
                    &self.statement.params,
                    &self.statement.proving_key,
                );
                self.protocol = ProtocolState::Committed(p);
                Ok(())
            },
            _ => Err(ProofSystemError::SubProtocolAlreadyInitialized(self.id)),
        }
    }

    /// Serializes the committed protocol's contribution into the transcript,
    /// which cannot fail; the only error is being asked before `init` or
    /// after the state is consumed.
    pub fn challenge_contribution(&self, writer: &mut Vec<u8>) -> (r: Result<
        (),
        ProofSystemError,
    >)
        ensures
            !(self.protocol is Committed) ==> (r matches Err(
                ProofSystemError::SubProtocolNotReadyToGenerateChallenge(id),
            ) && id == self.id && final(writer)@ == old(writer)@),
            self.protocol matches ProtocolState::Committed(p) ==> (r is Ok && final(writer)@
                == old(writer)@ + nonmem_protocol_chal_bytes(
                p,
                self.statement.accumulator_value,
                self.statement.public_key,
                self.statement.params,
                self.statement.proving_key,
            )),
    {
        match &self.protocol {
            ProtocolState::Committed(p) => {
                match accum_nonmem_chal_contrib(
                    p,
                    &self.statement.accumulator_value,
                    &self.statement.public_key,
                    &self.statement.params,
                    &self.statement.proving_key,
                    writer,
                ) {
                    Ok(()) => Ok(()),
                    Err(e) => Err(ProofSystemError::VBAccumulator(self.id, e)),
                }
            },
            _ => Err(ProofSystemError::SubProtocolNotReadyToGenerateChallenge(self.id)),
        }
    }

    /// Consumes the committed state and emits the tagged proof part; a
    /// second call finds the state consumed and fails.
    pub fn gen_proof_contribution(&mut self, challenge: &Scalar) -> (r: Result<
        StatementProof,
        ProofSystemError,
    >)
        ensures
            final(self).id == old(self).id,
            final(self).statement == old(self).statement,
            !(old(self).protocol is Committed) ==> (r matches Err(
                ProofSystemError::SubProtocolNotReadyToGenerateProof(id),
            ) && id == old(self).id && final(self).protocol == old(self).protocol),
            old(self).protocol is Committed ==> final(self).protocol is Consumed && r is Ok,
            r matches Ok(sp) ==> old(self).protocol is Committed && sp is AccumulatorNonMembership,
    {
        let mut st = ProtocolState::Consumed;
        core::mem::swap(&mut self.protocol, &mut st);
        match st {
            ProtocolState::Committed(p) => {
                match accum_nonmem_gen_proof(p, challenge) {
                    Ok(pr) => Ok(StatementProof::AccumulatorNonMembership(pr)),
                    Err(e) => Err(ProofSystemError::VBAccumulator(self.id, e)),
                }
            },
            ProtocolState::Uninitialized => {
                self.protocol = ProtocolState::Uninitialized;
                Err(ProofSystemError::SubProtocolNotReadyToGenerateProof(self.id))
            },
            ProtocolState::Consumed => {
                Err(ProofSystemError::SubProtocolNotReadyToGenerateProof(self.id))
            },
        }
    }

    /// Whether the collaborator's verification accepts the proof part for
    /// this statement under the challenge; a part under any other tag is
    /// never accepted.
    pub open spec fn accepts(self, challenge: Scalar, sp: StatementProof) -> bool {
        match sp {
            StatementProof::AccumulatorNonMembership(p) => nonmem_verify_ok(
                p,
                self.statement.accumulator_value,
                challenge,
                self.statement.public_key,
                self.statement.params,
                self.statement.proving_key,
            ),
            _ => false,
        }
    }

    /// Checks a proof part against the statement: a part under any other tag
    /// is incompatible, and one under the right tag passes exactly when the
    /// collaborator's verification accepts it.
    pub fn verify_proof_contribution(&self, challenge: &Scalar, proof_part: &StatementProof) -> (r:
        Result<(), ProofSystemError>)
        ensures
            r is Ok <==> self.accepts(*challenge, *proof_part),
            !(proof_part is AccumulatorNonMembership) ==> (r matches Err(
                ProofSystemError::ProofIncompatibleWithProtocol(id),
            ) && id == self.id),
            proof_part is AccumulatorNonMembership && r is Err ==> (r matches Err(
                ProofSystemError::VBAccumulator(id, _),
            ) && id == self.id),
    {
        match proof_part {
            StatementProof::AccumulatorNonMembership(p) => {
                match accum_nonmem_verify(
                    p,
                    &self.statement.accumulator_value,
                    challenge,
                    &self.statement.public_key,
                    &self.statement.params,
                    &self.statement.proving_key,
                ) {
                    Ok(()) => Ok(()),
                    Err(e) => Err(ProofSystemError::VBAccumulator(self.id, e)),
                }
            },
            _ => Err(ProofSystemError::ProofIncompatibleWithProtocol(self.id)),
        }
    }
}

/// The sub-protocols a statement can instantiate, dispatched by exhaustive
/// matching over the closed set of statement kinds.
pub enum SubProtocol {
    PoKBBSSignatureG1(PoKBBSSigG1SubProtocol),
    AccumulatorMembership(AccumulatorMembershipSubProtocol),
    AccumulatorNonMembership(AccumulatorNonMembershipSubProtocol),
    PoKPedersenCommitment(schnorr::SchnorrProtocol),
}

impl SubProtocol {
    /// The live state of the inner sub-protocol, summarized for contracts.
    pub open spec fn is_committed(self) -> bool {
        match self {
            SubProtocol::PoKBBSSignatureG1(s) => s.protocol is Committed,
            SubProtocol::AccumulatorMembership(s) => s.protocol is Committed,
            SubProtocol::AccumulatorNonMembership(s) => s.protocol is Committed,
            SubProtocol::PoKPedersenCommitment(s) => s.protocol is Committed,
        }
    }

    pub open spec fn is_consumed(self) -> bool {
        match self {
            SubProtocol::PoKBBSSignatureG1(s) => s.protocol is Consumed,
            SubProtocol::AccumulatorMembership(s) => s.protocol is Consumed,
            SubProtocol::AccumulatorNonMembership(s) => s.protocol is Consumed,
            SubProtocol::PoKPedersenCommitment(s) => s.protocol is Consumed,
        }
    }

    /// The transcript bytes a committed sub-protocol contributes.
    pub open spec fn committed_chal_bytes(self) -> Seq<u8> {
        match self {
            SubProtocol::PoKBBSSignatureG1(s) => match s.protocol {
                ProtocolState::Committed(p) => bbs_protocol_chal_bytes(
                    p,
                    s.statement.revealed_messages@,
                    s.statement.params,
                ),
                _ => seq![],
            },
            SubProtocol::AccumulatorMembership(s) => match s.protocol {
                ProtocolState::Committed(p) => mem_protocol_chal_bytes(
                    p,
                    s.statement.accumulator_value,
                    s.statement.public_key,
                    s.statement.params,
                    s.statement.proving_key,
                ),
                _ => seq![],
            },
            SubProtocol::AccumulatorNonMembership(s) => match s.protocol {
                ProtocolState::Committed(p) => nonmem_protocol_chal_bytes(
                    p,
                    s.statement.accumulator_value,
                    s.statement.public_key,
                    s.statement.params,
                    s.statement.proving_key,
                ),
                _ => seq![],
            },
            SubProtocol::PoKPedersenCommitment(s) => match s.protocol {
                ProtocolState::Committed(sec) => g1_vec_bytes(s.commitment_key@) + g1_bytes(
                    s.commitment,
                ) + g1_bytes(commitment_t(sec.commitment_to_randomness)),
                _ => seq![],
            },
        }
    }

    /// Whether proof generation succeeds from the committed state: always,
    /// except for a Schnorr state whose blinding and witness counts differ,
    /// which `init` never produces.
    pub open spec fn committed_gen_ok(self) -> bool {
        match self {
            SubProtocol::PoKPedersenCommitment(s) => match s.protocol {
                ProtocolState::Committed(sec) => commitment_blindings(
                    sec.commitment_to_randomness,
                ).len() == sec.witnesses@.len(),
                _ => true,
            },
            _ => true,
        }
    }

    /// Whether this sub-protocol's verification accepts the proof part under
    /// the challenge.
    pub open spec fn verification_accepts(self, challenge: Scalar, sp: StatementProof) -> bool {
        match self {
            SubProtocol::PoKBBSSignatureG1(s) => s.accepts(challenge, sp),
            SubProtocol::AccumulatorMembership(s) => s.accepts(challenge, sp),
            SubProtocol::AccumulatorNonMembership(s) => s.accepts(challenge, sp),
            SubProtocol::PoKPedersenCommitment(s) => s.accepts(challenge, sp),
        }
    }

    /// The statement-proof tag this sub-protocol emits.
    pub open spec fn emits_tag_of(self, sp: StatementProof) -> bool {
        match self {
            SubProtocol::PoKBBSSignatureG1(_) => sp is PoKBBSSignatureG1,
            SubProtocol::AccumulatorMembership(_) => sp is AccumulatorMembership,
            SubProtocol::AccumulatorNonMembership(_) => sp is AccumulatorNonMembership,
            SubProtocol::PoKPedersenCommitment(_) => sp is PedersenCommitment,
        }
    }

    pub fn challenge_contribution(&self, writer: &mut Vec<u8>) -> (r: Result<
        (),
        ProofSystemError,
    >)
        ensures
            r is Ok <==> self.is_committed(),
            !self.is_committed() ==> final(writer)@ == old(writer)@,
            self.is_committed() ==> final(writer)@ == old(writer)@ + self.committed_chal_bytes(),
    {
        match self {
            SubProtocol::PoKBBSSignatureG1(s) => s.challenge_contribution(writer),
            SubProtocol::AccumulatorMembership(s) => s.challenge_contribution(writer),
            SubProtocol::AccumulatorNonMembership(s) => s.challenge_contribution(writer),
            SubProtocol::PoKPedersenCommitment(s) => s.challenge_contribution(writer),
        }
    }

    pub fn gen_proof_contribution(&mut self, challenge: &Scalar) -> (r: Result<
        StatementProof,
        ProofSystemError,
    >)
        ensures
            !old(self).is_committed() ==> (r matches Err(
                ProofSystemError::SubProtocolNotReadyToGenerateProof(_),
            )),
            old(self).is_committed() ==> final(self).is_consumed(),
            old(self).is_committed() ==> (r is Ok <==> old(self).committed_gen_ok()),
            r is Ok ==> old(self).is_committed(),
            r matches Ok(sp) ==> old(self).emits_tag_of(sp),
            forall|sp2: StatementProof| #[trigger]
                final(self).emits_tag_of(sp2) == old(self).emits_tag_of(sp2),
    {
        match self {
            SubProtocol::PoKBBSSignatureG1(s) => s.gen_proof_contribution(challenge),
            SubProtocol::AccumulatorMembership(s) => s.gen_proof_contribution(challenge),
            SubProtocol::AccumulatorNonMembership(s) => s.gen_proof_contribution(challenge),
            SubProtocol::PoKPedersenCommitment(s) => s.gen_proof_contribution(challenge),
        }
    }

    pub fn verify_proof_contribution(&self, challenge: &Scalar, proof_part: &StatementProof) -> (r:
        Result<(), ProofSystemError>)
        ensures
            r is Ok <==> self.verification_accepts(*challenge, *proof_part),
    {
        match self {
            SubProtocol::PoKBBSSignatureG1(s) => s.verify_proof_contribution(challenge, proof_part),
            SubProtocol::AccumulatorMembership(s) => s.verify_proof_contribution(challenge, proof_part),
            SubProtocol::AccumulatorNonMembership(s) => {
                s.verify_proof_contribution(challenge, proof_part)
            },
            SubProtocol::PoKPedersenCommitment(s) => {
                s.verify_proof_contribution(challenge, proof_part)
            },
        }
    }
}

} // verus!
