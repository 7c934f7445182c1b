//! Trusted boundary to the cryptographic collaborator crates.
//!
//! The collaborators (the BBS+ signature scheme, the accumulator scheme, the
//! generalized Schnorr protocol, the curve arithmetic) are consumed only
//! through the items of this module. Verus cannot read the collaborators'
//! generic types directly, so each value is carried in an opaque struct of
//! this crate, and each call stands behind a wrapper whose contract states
//! what the collaborator's source shows. Everything stated here is believed,
//! not proved: each wrapper's doc comment names the outside function relied
//! on. Uninterpreted spec functions give names to results that are functions
//! of their arguments alone but are too large to state, such as transcript
//! byte strings and Schnorr response vectors.

use vstd::prelude::*;
use ark_bls12_381::{Bls12_381, Fr, G1Affine};
use ark_serialize::CanonicalSerialize;
use ark_std::rand::rngs::StdRng;
use ark_std::rand::SeedableRng;
use ark_std::UniformRand;
use dock_crypto_utils::signature::MultiMessageSignatureParams;
use dock_crypto_utils::signature::MessageOrBlinding;
use zeroize::Zeroize;

verus! {

/// An element of the scalar field of the curve.
#[verifier::external_body]
pub struct Scalar {
    pub(crate) inner: Fr,
}

impl Clone for Scalar {
    /// Relies on the field type being `Copy`: the clone is the same value.
    #[verifier::external_body]
    fn clone(&self) -> (r: Scalar)
        ensures
            r == *self,
    {
        Scalar { inner: self.inner }
    }
}

/// A point of the curve's first group, in affine form.
#[verifier::external_body]
pub struct G1 {
    pub(crate) inner: G1Affine,
}

impl Clone for G1 {
    /// Relies on the point type being `Copy`: the clone is the same value.
    #[verifier::external_body]
    fn clone(&self) -> (r: G1)
        ensures
            r == *self,
    {
        G1 { inner: self.inner }
    }
}

/// The caller-supplied randomness source every proving call draws from.
#[verifier::external_body]
pub struct ProofRng {
    pub(crate) inner: StdRng,
}

/// BBS+ signature parameters, fixing the number of signed messages.
#[verifier::external_body]
pub struct SigParams {
    pub(crate) inner: bbs_plus::setup::SignatureParamsG1<Bls12_381>,
}

/// A BBS+ public key in the second group.
#[verifier::external_body]
pub struct SigPublicKey {
    pub(crate) inner: bbs_plus::setup::PublicKeyG2<Bls12_381>,
}

/// A BBS+ signature over a message vector.
#[verifier::external_body]
pub struct Signature {
    pub(crate) inner: bbs_plus::signature::SignatureG1<Bls12_381>,
}

/// The live (committed) state of the BBS+ signature proof-of-knowledge
/// protocol.
#[verifier::external_body]
pub struct BbsProtocol {
    inner: bbs_plus::proof::PoKOfSignatureG1Protocol<Bls12_381>,
}

/// The proof part emitted by the BBS+ signature sub-protocol.
#[verifier::external_body]
pub struct BbsProof {
    inner: bbs_plus::proof::PoKOfSignatureG1Proof<Bls12_381>,
}

/// Accumulator setup parameters.
#[verifier::external_body]
pub struct AccumParams {
    pub(crate) inner: vb_accumulator::setup::SetupParams<Bls12_381>,
}

/// An accumulator public key in the second group.
#[verifier::external_body]
pub struct AccumPublicKey {
    pub(crate) inner: vb_accumulator::setup::PublicKey<Bls12_381>,
}

/// The proving key shared by prover and verifier of membership proofs.
#[verifier::external_body]
pub struct MemProvingKey {
    pub(crate) inner: vb_accumulator::setup::MembershipProvingKey<G1Affine>,
}

/// The proving key shared by prover and verifier of non-membership proofs.
#[verifier::external_body]
pub struct NonMemProvingKey {
    pub(crate) inner: vb_accumulator::setup::NonMembershipProvingKey<G1Affine>,
}

/// A membership witness for one accumulated element.
#[verifier::external_body]
pub struct MemWitness {
    pub(crate) inner: vb_accumulator::witness::MembershipWitness<G1Affine>,
}

/// A non-membership witness for one element outside the accumulator.
#[verifier::external_body]
pub struct NonMemWitness {
    pub(crate) inner: vb_accumulator::witness::NonMembershipWitness<G1Affine>,
}

/// The live state of the accumulator membership proof protocol.
#[verifier::external_body]
pub struct MemProtocol {
    inner: vb_accumulator::proofs::MembershipProofProtocol<Bls12_381>,
}

/// The live state of the accumulator non-membership proof protocol.
#[verifier::external_body]
pub struct NonMemProtocol {
    inner: vb_accumulator::proofs::NonMembershipProofProtocol<Bls12_381>,
}

/// The proof part emitted by the accumulator membership sub-protocol.
#[verifier::external_body]
pub struct MemProof {
    inner: vb_accumulator::proofs::MembershipProof<Bls12_381>,
}

/// The proof part emitted by the accumulator non-membership sub-protocol.
#[verifier::external_body]
pub struct NonMemProof {
    inner: vb_accumulator::proofs::NonMembershipProof<Bls12_381>,
}

/// A Schnorr commitment to randomness: the blindings and their combined
/// commitment point.
#[verifier::external_body]
pub struct SchnorrCommitmentState {
    inner: schnorr_pok::SchnorrCommitment<G1Affine>,
}

/// The response vector of a Schnorr proof, one scalar per witness.
#[verifier::external_body]
pub struct SchnorrResponseValue {
    inner: schnorr_pok::SchnorrResponse<G1Affine>,
}

/// An error of the BBS+ collaborator.
#[verifier::external_body]
#[derive(Debug)]
pub struct BbsError {
    pub(crate) inner: bbs_plus::error::BBSPlusError,
}

/// An error of the accumulator collaborator.
#[verifier::external_body]
#[derive(Debug)]
pub struct AccumError {
    pub(crate) inner: vb_accumulator::error::VBAccumulatorError,
}

/// An error of the Schnorr collaborator.
#[verifier::external_body]
#[derive(Debug)]
pub struct SchnorrErr {
    inner: schnorr_pok::error::SchnorrError,
}

/// An error while writing transcript bytes.
#[verifier::external_body]
#[derive(Debug)]
pub struct SerError {
    inner: ark_serialize::SerializationError,
}

/// What the proving side supplies for one message slot of a signature
/// statement: the message revealed, hidden behind a fresh random blinding,
/// or hidden behind the given blinding.
pub enum MsgSlot {
    Revealed(Scalar),
    BlindRandom(Scalar),
    BlindWith(Scalar, Scalar),
}

// ---------------------------------------------------------------------------
// Names for results of outside calls that are functions of their arguments
// alone but too large to state.
// ---------------------------------------------------------------------------

/// The number of messages the signature parameters support.
pub uninterp spec fn sig_params_count(p: SigParams) -> int;

/// The blinding scalars a Schnorr commitment was built from.
pub uninterp spec fn commitment_blindings(c: SchnorrCommitmentState) -> Seq<Scalar>;

/// The commitment-to-randomness point of a Schnorr commitment.
pub uninterp spec fn commitment_t(c: SchnorrCommitmentState) -> G1;

/// The scalars a Schnorr response vector holds.
pub uninterp spec fn schnorr_responses(r: SchnorrResponseValue) -> Seq<Scalar>;

/// The response the Schnorr protocol computes for one witness under one
/// blinding and one challenge.
pub uninterp spec fn fr_response(blinding: Scalar, witness: Scalar, challenge: Scalar) -> Scalar;

/// The canonical compressed encoding of a curve point.
pub uninterp spec fn g1_bytes(p: G1) -> Seq<u8>;

/// The canonical compressed encoding of a sequence of curve points.
pub uninterp spec fn g1_vec_bytes(v: Seq<G1>) -> Seq<u8>;

/// The transcript bytes the live BBS+ protocol contributes.
pub uninterp spec fn bbs_protocol_chal_bytes(
    p: BbsProtocol,
    revealed: Seq<(usize, Scalar)>,
    params: SigParams,
) -> Seq<u8>;

/// The transcript bytes a finished BBS+ proof contributes.
pub uninterp spec fn bbs_proof_chal_bytes(
    p: BbsProof,
    revealed: Seq<(usize, Scalar)>,
    params: SigParams,
) -> Seq<u8>;

/// The Schnorr response a BBS+ proof carries for one message index, given
/// the revealed indices.
pub uninterp spec fn bbs_msg_resp(p: BbsProof, msg_idx: int, revealed: Seq<usize>) -> Option<
    Scalar,
>;

/// The transcript bytes the live membership protocol contributes.
pub uninterp spec fn mem_protocol_chal_bytes(
    p: MemProtocol,
    accumulated: G1,
    pk: AccumPublicKey,
    params: AccumParams,
    prk: MemProvingKey,
) -> Seq<u8>;

/// The transcript bytes a finished membership proof contributes.
pub uninterp spec fn mem_proof_chal_bytes(
    p: MemProof,
    accumulated: G1,
    pk: AccumPublicKey,
    params: AccumParams,
    prk: MemProvingKey,
) -> Seq<u8>;

/// The Schnorr response a membership proof carries for the element.
pub uninterp spec fn mem_resp_of(p: MemProof) -> Option<Scalar>;

/// The transcript bytes the live non-membership protocol contributes.
pub uninterp spec fn nonmem_protocol_chal_bytes(
    p: NonMemProtocol,
    accumulated: G1,
    pk: AccumPublicKey,
    params: AccumParams,
    prk: NonMemProvingKey,
) -> Seq<u8>;

/// The transcript bytes a finished non-membership proof contributes.
pub uninterp spec fn nonmem_proof_chal_bytes(
    p: NonMemProof,
    accumulated: G1,
    pk: AccumPublicKey,
    params: AccumParams,
    prk: NonMemProvingKey,
) -> Seq<u8>;

/// The Schnorr response a non-membership proof carries for the element.
pub uninterp spec fn nonmem_resp_of(p: NonMemProof) -> Option<Scalar>;

/// The field element the Fiat-Shamir hash derives from transcript bytes.
pub uninterp spec fn challenge_of(bytes: Seq<u8>) -> Scalar;

/// Whether a scalar is the field's zero.
pub uninterp spec fn fr_is_zero(s: Scalar) -> bool;

/// The multi-scalar combination of bases and scalars of equal length.
pub uninterp spec fn msm_of(bases: Seq<G1>, scalars: Seq<Scalar>) -> G1;

/// Whether the BBS+ collaborator's verification accepts the proof under the
/// revealed messages, challenge, public key and parameters.
pub uninterp spec fn bbs_verify_ok(
    p: BbsProof,
    revealed: Seq<(usize, Scalar)>,
    challenge: Scalar,
    pk: SigPublicKey,
    params: SigParams,
) -> bool;

/// Whether the accumulator collaborator's membership verification accepts
/// the proof.
pub uninterp spec fn mem_verify_ok(
    p: MemProof,
    accumulated: G1,
    challenge: Scalar,
    pk: AccumPublicKey,
    params: AccumParams,
    prk: MemProvingKey,
) -> bool;

/// Whether the accumulator collaborator's non-membership verification
/// accepts the proof.
pub uninterp spec fn nonmem_verify_ok(
    p: NonMemProof,
    accumulated: G1,
    challenge: Scalar,
    pk: AccumPublicKey,
    params: AccumParams,
    prk: NonMemProvingKey,
) -> bool;

/// Whether the Schnorr verification equation holds of the responses, bases,
/// commitment, commitment-to-randomness and challenge.
pub uninterp spec fn schnorr_verify_ok(
    resp: SchnorrResponseValue,
    bases: Seq<G1>,
    y: G1,
    t: G1,
    challenge: Scalar,
) -> bool;

// ---------------------------------------------------------------------------
// Wrappers around the collaborators' calls.
// ---------------------------------------------------------------------------

/// Relies on `ark_std::UniformRand::rand`: draws a uniformly random scalar.
/// Nothing is promised of the value.
#[verifier::external_body]
pub(crate) fn fr_rand(rng: &mut ProofRng) -> Scalar {
    Scalar { inner: <Fr as UniformRand>::rand(&mut rng.inner) }
}

/// Relies on the field type's derived `PartialEq`, which compares the unique
/// canonical representations, so it agrees with equality of the values.
#[verifier::external_body]
pub(crate) fn fr_eq(a: &Scalar, b: &Scalar) -> (r: bool)
    ensures
        r == (a == b),
{
    a.inner == b.inner
}

/// Relies on `zeroize::Zeroize` for the field type: clears each scalar in
/// place, keeping the vector's length.
#[verifier::external_body]
pub(crate) fn zeroize_scalars(v: &mut Vec<Scalar>)
    ensures
        final(v)@.len() == old(v)@.len(),
{
    for s in v.iter_mut() {
        s.inner.zeroize();
    }
}

/// Relies on `rand::Rng::gen` for `bool`: a fair coin. Nothing is promised
/// of the value.
#[verifier::external_body]
pub(crate) fn rng_coin(rng: &mut ProofRng) -> bool {
    ark_std::rand::Rng::gen::<bool>(&mut rng.inner)
}

/// Relies on `rand::SeedableRng::seed_from_u64` for the standard RNG.
#[verifier::external_body]
pub fn rng_from_seed(seed: u64) -> ProofRng {
    ProofRng { inner: StdRng::seed_from_u64(seed) }
}

/// Relies on `bbs_plus::setup::SignatureParamsG1::supported_message_count`:
/// the number of message slots of the parameters.
#[verifier::external_body]
pub(crate) fn sig_params_message_count(p: &SigParams) -> (r: usize)
    ensures
        r == sig_params_count(*p),
{
    p.inner.supported_message_count()
}

/// Relies on `schnorr_pok::SchnorrCommitment::new`: stores the given
/// blindings and commits to them under the given bases; with equally many
/// bases and blindings the commitment point is their multi-scalar
/// combination.
#[verifier::external_body]
pub(crate) fn schnorr_commitment_new(bases: &Vec<G1>, blindings: Vec<Scalar>) -> (r:
    SchnorrCommitmentState)
    ensures
        commitment_blindings(r) == blindings@,
        bases@.len() == blindings@.len() ==> commitment_t(r) == msm_of(bases@, blindings@),
{
    let b: Vec<G1Affine> = bases.iter().map(|g| g.inner).collect();
    let bl: Vec<Fr> = blindings.into_iter().map(|s| s.inner).collect();
    SchnorrCommitmentState { inner: schnorr_pok::SchnorrCommitment::new(&b, bl) }
}

/// Relies on the `t` field of `schnorr_pok::SchnorrCommitment`: the
/// commitment-to-randomness point.
#[verifier::external_body]
pub(crate) fn schnorr_commitment_point(c: &SchnorrCommitmentState) -> (r: G1)
    ensures
        r == commitment_t(*c),
{
    G1 { inner: c.inner.t }
}

/// Relies on `schnorr_pok::SchnorrCommitment::response`: returns the
/// per-witness responses, or an error when the number of witnesses differs
/// from the number of blindings. Each response is blinding + witness times
/// challenge, and for a nonzero challenge that map is injective in the
/// witness, which is the rejection half of witness equality.
#[verifier::external_body]
pub(crate) fn schnorr_commitment_response(
    c: &SchnorrCommitmentState,
    witnesses: &Vec<Scalar>,
    challenge: &Scalar,
) -> (r: Result<SchnorrResponseValue, SchnorrErr>)
    ensures
        r is Ok <==> commitment_blindings(*c).len() == witnesses@.len(),
        r matches Ok(resp) ==> schnorr_responses(resp).len() == witnesses@.len() && (forall|
            i: int,
        |
            0 <= i < witnesses@.len() ==> schnorr_responses(resp)[i] == fr_response(
                commitment_blindings(*c)[i],
                witnesses@[i],
                *challenge,
            )),
        r matches Ok(resp) ==> (forall|i: int, w2: Scalar|
            0 <= i < witnesses@.len() && !fr_is_zero(*challenge) && w2 != witnesses@[i]
                ==> #[trigger] fr_response(commitment_blindings(*c)[i], w2, *challenge)
                != fr_response(commitment_blindings(*c)[i], witnesses@[i], *challenge)),
{
    let w: Vec<Fr> = witnesses.iter().map(|s| s.inner).collect();
    match c.inner.response(&w, &challenge.inner) {
        Ok(resp) => Ok(SchnorrResponseValue { inner: resp }),
        Err(e) => Err(SchnorrErr { inner: e }),
    }
}

/// Relies on `schnorr_pok::SchnorrResponse::is_valid`: accepts exactly when
/// the Schnorr verification equation holds, a deterministic function of the
/// arguments; a response count different from the number of bases is always
/// refused.
#[verifier::external_body]
pub(crate) fn schnorr_response_is_valid(
    resp: &SchnorrResponseValue,
    bases: &Vec<G1>,
    y: &G1,
    t: &G1,
    challenge: &Scalar,
) -> (r: Result<(), SchnorrErr>)
    ensures
        r is Ok <==> schnorr_verify_ok(*resp, bases@, *y, *t, *challenge),
        schnorr_responses(*resp).len() != bases@.len() ==> r is Err,
{
    let b: Vec<G1Affine> = bases.iter().map(|g| g.inner).collect();
    match resp.inner.is_valid(&b, &y.inner, &t.inner, &challenge.inner) {
        Ok(()) => Ok(()),
        Err(e) => Err(SchnorrErr { inner: e }),
    }
}

/// Relies on `schnorr_pok::SchnorrResponse::get_response`: hands out the
/// response at an index, erring exactly when the index is out of range.
#[verifier::external_body]
pub(crate) fn schnorr_response_get(resp: &SchnorrResponseValue, idx: usize) -> (r: Result<
    Scalar,
    SchnorrErr,
>)
    ensures
        r is Ok <==> idx < schnorr_responses(*resp).len(),
        r matches Ok(s) ==> s == schnorr_responses(*resp)[idx as int],
{
    match resp.inner.get_response(idx) {
        Ok(s) => Ok(Scalar { inner: *s }),
        Err(e) => Err(SchnorrErr { inner: e }),
    }
}

/// Relies on `ark_serialize::CanonicalSerialize::serialize_compressed` for a
/// curve point: appends its canonical compressed encoding. Writing into a
/// byte vector cannot fail, so the call always succeeds.
#[verifier::external_body]
pub(crate) fn ser_g1(p: &G1, writer: &mut Vec<u8>) -> (r: Result<(), SerError>)
    ensures
        r is Ok,
        final(writer)@ == old(writer)@ + g1_bytes(*p),
{
    match p.inner.serialize_compressed(&mut *writer) {
        Ok(()) => Ok(()),
        Err(e) => Err(SerError { inner: e }),
    }
}

/// Relies on `ark_serialize::CanonicalSerialize::serialize_compressed` for a
/// slice of curve points: appends their canonical compressed encoding.
/// Writing into a byte vector cannot fail, so the call always succeeds.
#[verifier::external_body]
pub(crate) fn ser_g1_vec(v: &Vec<G1>, writer: &mut Vec<u8>) -> (r: Result<(), SerError>)
    ensures
        r is Ok,
        final(writer)@ == old(writer)@ + g1_vec_bytes(v@),
{
    let pts: Vec<G1Affine> = v.iter().map(|g| g.inner).collect();
    match pts.as_slice().serialize_compressed(&mut *writer) {
        Ok(()) => Ok(()),
        Err(e) => Err(SerError { inner: e }),
    }
}

/// Relies on `bbs_plus::proof::PoKOfSignatureG1Protocol::init`: randomizes
/// the signature and commits to the blindings of the hidden messages. The
/// call errs exactly when the number of slots differs from the number of
/// message slots of the parameters: with a matching count the composed
/// message sequence is sorted by unique index and within the bases, so no
/// other failure path exists. The result is randomized, so nothing more is
/// promised of it.
#[verifier::external_body]
pub(crate) fn bbs_pok_init(
    rng: &mut ProofRng,
    sig: &Signature,
    params: &SigParams,
    slots: &Vec<MsgSlot>,
) -> (r: Result<BbsProtocol, BbsError>)
    ensures
        r is Ok <==> slots@.len() == sig_params_count(*params),
{
    let mb = slots.iter().map(|s| match s {
        MsgSlot::Revealed(m) => MessageOrBlinding::RevealMessage(&m.inner),
        MsgSlot::BlindRandom(m) => MessageOrBlinding::BlindMessageRandomly(&m.inner),
        MsgSlot::BlindWith(m, b) => {
            MessageOrBlinding::BlindMessageWithConcreteBlinding { message: &m.inner, blinding: b.inner }
        },
    });
    let res = bbs_plus::proof::PoKOfSignatureG1Protocol::init(&mut rng.inner, &sig.inner, &params.inner, mb);
    match res {
        Ok(p) => Ok(BbsProtocol { inner: p }),
        Err(e) => Err(BbsError { inner: e }),
    }
}

/// Relies on `bbs_plus::proof::PoKOfSignatureG1Protocol::challenge_contribution`:
/// appends the protocol's transcript bytes, a function of the protocol state,
/// the revealed messages and the parameters. Writing into a byte vector
/// cannot fail, so the call always succeeds.
#[verifier::external_body]
pub(crate) fn bbs_protocol_chal_contrib(
    p: &BbsProtocol,
    revealed: &Vec<(usize, Scalar)>,
    params: &SigParams,
    writer: &mut Vec<u8>,
) -> (r: Result<(), BbsError>)
    ensures
        r is Ok,
        final(writer)@ == old(writer)@ + bbs_protocol_chal_bytes(*p, revealed@, *params),
{
    let m: std::collections::BTreeMap<usize, Fr> = revealed.iter().map(
        |(i, s)| (*i, s.inner),
    ).collect();
    match p.inner.challenge_contribution(&m, &params.inner, &mut *writer) {
        Ok(()) => Ok(()),
        Err(e) => Err(BbsError { inner: e }),
    }
}

/// Relies on `bbs_plus::proof::PoKOfSignatureG1Protocol::gen_proof`: consumes
/// the committed state and computes the responses for the challenge. The
/// call errs only when the protocol's witness and blinding counts differ,
/// and every value of this opaque type is built by `bbs_pok_init`, whose
/// output has them equal, so the call succeeds.
#[verifier::external_body]
pub(crate) fn bbs_gen_proof(p: BbsProtocol, challenge: &Scalar) -> (r: Result<BbsProof, BbsError>)
    ensures
        r is Ok,
{
    match p.inner.gen_proof(&challenge.inner) {
        Ok(pr) => Ok(BbsProof { inner: pr }),
        Err(e) => Err(BbsError { inner: e }),
    }
}

/// Relies on `bbs_plus::proof::PoKOfSignatureG1Proof::challenge_contribution`:
/// appends the finished proof's transcript bytes, a function of the proof,
/// the revealed messages and the parameters. Writing into a byte vector
/// cannot fail, so the call always succeeds.
#[verifier::external_body]
pub(crate) fn bbs_proof_chal_contrib(
    p: &BbsProof,
    revealed: &Vec<(usize, Scalar)>,
    params: &SigParams,
    writer: &mut Vec<u8>,
) -> (r: Result<(), BbsError>)
    ensures
        r is Ok,
        final(writer)@ == old(writer)@ + bbs_proof_chal_bytes(*p, revealed@, *params),
{
    let m: std::collections::BTreeMap<usize, Fr> = revealed.iter().map(
        |(i, s)| (*i, s.inner),
    ).collect();
    match p.inner.challenge_contribution(&m, &params.inner, &mut *writer) {
        Ok(()) => Ok(()),
        Err(e) => Err(BbsError { inner: e }),
    }
}

/// Relies on `bbs_plus::proof::PoKOfSignatureG1Proof::verify`: accepts
/// exactly when the pairing equation and the Schnorr responses hold under
/// the challenge, a deterministic function of the arguments.
#[verifier::external_body]
pub(crate) fn bbs_proof_verify(
    p: &BbsProof,
    revealed: &Vec<(usize, Scalar)>,
    challenge: &Scalar,
    pk: &SigPublicKey,
    params: &SigParams,
) -> (r: Result<(), BbsError>)
    ensures
        r is Ok <==> bbs_verify_ok(*p, revealed@, *challenge, *pk, *params),
{
    let m: std::collections::BTreeMap<usize, Fr> = revealed.iter().map(
        |(i, s)| (*i, s.inner),
    ).collect();
    match p.inner.verify(&m, &challenge.inner, pk.inner.clone(), params.inner.clone()) {
        Ok(()) => Ok(()),
        Err(e) => Err(BbsError { inner: e }),
    }
}

/// Relies on `bbs_plus::proof::PoKOfSignatureG1Proof::get_resp_for_message`:
/// the response for a message index, a function of the proof, the index and
/// the revealed indices alone; errs exactly when no response exists for the
/// index.
#[verifier::external_body]
pub(crate) fn bbs_proof_get_resp(
    p: &BbsProof,
    msg_idx: usize,
    revealed_ids: &Vec<usize>,
) -> (r: Result<Scalar, BbsError>)
    ensures
        r matches Ok(s) ==> bbs_msg_resp(*p, msg_idx as int, revealed_ids@) == Some(s),
        r is Err ==> bbs_msg_resp(*p, msg_idx as int, revealed_ids@) is None,
{
    let ids: std::collections::BTreeSet<usize> = revealed_ids.iter().copied().collect();
    match p.inner.get_resp_for_message(msg_idx, &ids) {
        Ok(s) => Ok(Scalar { inner: *s }),
        Err(e) => Err(BbsError { inner: e }),
    }
}

/// Relies on `vb_accumulator::proofs::MembershipProofProtocol::init`:
/// randomizes the witness and commits. The result is randomized, so nothing
/// is promised of it.
#[verifier::external_body]
pub(crate) fn accum_mem_init(
    rng: &mut ProofRng,
    element: &Scalar,
    blinding: Option<Scalar>,
    witness: &MemWitness,
    pk: &AccumPublicKey,
    params: &AccumParams,
    prk: &MemProvingKey,
) -> (r: MemProtocol) {
    MemProtocol {
        inner: vb_accumulator::proofs::MembershipProofProtocol::init(
            &mut rng.inner,
            element.inner,
            blinding.map(|b| b.inner),
            &witness.inner,
            &pk.inner,
            &params.inner,
            &prk.inner,
        ),
    }
}

/// Relies on `vb_accumulator::proofs::MembershipProofProtocol::challenge_contribution`:
/// appends the protocol's transcript bytes, a function of its arguments
/// alone; writing into a byte vector cannot fail, so the call always
/// succeeds.
#[verifier::external_body]
pub(crate) fn accum_mem_chal_contrib(
    p: &MemProtocol,
    accumulated: &G1,
    pk: &AccumPublicKey,
    params: &AccumParams,
    prk: &MemProvingKey,
    writer: &mut Vec<u8>,
) -> (r: Result<(), AccumError>)
    ensures
        r is Ok,
        final(writer)@ == old(writer)@ + mem_protocol_chal_bytes(
            *p,
            *accumulated,
            *pk,
            *params,
            *prk,
        ),
{
    match p.inner.challenge_contribution(
        &accumulated.inner,
        &pk.inner,
        &params.inner,
        &prk.inner,
        &mut *writer,
    ) {
        Ok(()) => Ok(()),
        Err(e) => Err(AccumError { inner: e }),
    }
}

/// Relies on `vb_accumulator::proofs::MembershipProofProtocol::gen_proof`:
/// consumes the committed state and computes the responses for the
/// challenge; the collaborator returns them unconditionally.
#[verifier::external_body]
pub(crate) fn accum_mem_gen_proof(p: MemProtocol, challenge: &Scalar) -> (r: Result<
    MemProof,
    AccumError,
>)
    ensures
        r is Ok,
{
    match p.inner.gen_proof(&challenge.inner) {
        Ok(pr) => Ok(MemProof { inner: pr }),
        Err(e) => Err(AccumError { inner: e }),
    }
}

/// Relies on `vb_accumulator::proofs::MembershipProof::challenge_contribution`:
/// appends the finished proof's transcript bytes, a function of its
/// arguments alone; writing into a byte vector cannot fail, so the call
/// always succeeds.
#[verifier::external_body]
pub(crate) fn accum_mem_proof_chal_contrib(
    p: &MemProof,
    accumulated: &G1,
    pk: &AccumPublicKey,
    params: &AccumParams,
    prk: &MemProvingKey,
    writer: &mut Vec<u8>,
) -> (r: Result<(), AccumError>)
    ensures
        r is Ok,
        final(writer)@ == old(writer)@ + mem_proof_chal_bytes(
            *p,
            *accumulated,
            *pk,
            *params,
            *prk,
        ),
{
    match p.inner.challenge_contribution(
        &accumulated.inner,
        &pk.inner,
        &params.inner,
        &prk.inner,
        &mut *writer,
    ) {
        Ok(()) => Ok(()),
        Err(e) => Err(AccumError { inner: e }),
    }
}

/// Relies on `vb_accumulator::proofs::MembershipProof::verify`: accepts
/// exactly when the membership verification equations hold, a deterministic
/// function of the arguments.
#[verifier::external_body]
pub(crate) fn accum_mem_verify(
    p: &MemProof,
    accumulated: &G1,
    challenge: &Scalar,
    pk: &AccumPublicKey,
    params: &AccumParams,
    prk: &MemProvingKey,
) -> (r: Result<(), AccumError>)
    ensures
        r is Ok <==> mem_verify_ok(*p, *accumulated, *challenge, *pk, *params, *prk),
{
    match p.inner.verify(
        &accumulated.inner,
        &challenge.inner,
        pk.inner.clone(),
        params.inner.clone(),
        &prk.inner,
    ) {
        Ok(()) => Ok(()),
        Err(e) => Err(AccumError { inner: e }),
    }
}

/// Relies on `vb_accumulator::proofs::MembershipProof::get_schnorr_response_for_element`:
/// the response for the accumulated element, a function of the proof alone.
#[verifier::external_body]
pub(crate) fn accum_mem_proof_resp(p: &MemProof) -> (r: Option<Scalar>)
    ensures
        r == mem_resp_of(*p),
{
    p.inner.get_schnorr_response_for_element().map(|s| Scalar { inner: *s })
}

/// Relies on `vb_accumulator::proofs::NonMembershipProofProtocol::init`:
/// randomizes the witness and commits. The result is randomized, so nothing
/// is promised of it.
#[verifier::external_body]
pub(crate) fn accum_nonmem_init(
    rng: &mut ProofRng,
    element: &Scalar,
    blinding: Option<Scalar>,
    witness: &NonMemWitness,
    pk: &AccumPublicKey,
    params: &AccumParams,
    prk: &NonMemProvingKey,
) -> (r: NonMemProtocol) {
    NonMemProtocol {
        inner: vb_accumulator::proofs::NonMembershipProofProtocol::init(
            &mut rng.inner,
            element.inner,
            blinding.map(|b| b.inner),
            &witness.inner,
            &pk.inner,
            &params.inner,
            &prk.inner,
        ),
    }
}

/// Relies on `vb_accumulator::proofs::NonMembershipProofProtocol::challenge_contribution`:
/// appends the protocol's transcript bytes, a function of its arguments
/// alone; writing into a byte vector cannot fail, so the call always
/// succeeds.
#[verifier::external_body]
pub(crate) fn accum_nonmem_chal_contrib(
    p: &NonMemProtocol,
    accumulated: &G1,
    pk: &AccumPublicKey,
    params: &AccumParams,
    prk: &NonMemProvingKey,
    writer: &mut Vec<u8>,
) -> (r: Result<(), AccumError>)
    ensures
        r is Ok,
        final(writer)@ == old(writer)@ + nonmem_protocol_chal_bytes(
            *p,
            *accumulated,
            *pk,
            *params,
            *prk,
        ),
{
    match p.inner.challenge_contribution(
        &accumulated.inner,
        &pk.inner,
        &params.inner,
        &prk.inner,
        &mut *writer,
    ) {
        Ok(()) => Ok(()),
        Err(e) => Err(AccumError { inner: e }),
    }
}

/// Relies on `vb_accumulator::proofs::NonMembershipProofProtocol::gen_proof`:
/// consumes the committed state and computes the responses for the
/// challenge; the collaborator returns them unconditionally.
#[verifier::external_body]
pub(crate) fn accum_nonmem_gen_proof(p: NonMemProtocol, challenge: &Scalar) -> (r: Result<
    NonMemProof,
    AccumError,
>)
    ensures
        r is Ok,
{
    match p.inner.gen_proof(&challenge.inner) {
        Ok(pr) => Ok(NonMemProof { inner: pr }),
        Err(e) => Err(AccumError { inner: e }),
    }
}

/// Relies on `vb_accumulator::proofs::NonMembershipProof::challenge_contribution`:
/// appends the finished proof's transcript bytes, a function of its
/// arguments alone; writing into a byte vector cannot fail, so the call
/// always succeeds.
#[verifier::external_body]
pub(crate) fn accum_nonmem_proof_chal_contrib(
    p: &NonMemProof,
    accumulated: &G1,
    pk: &AccumPublicKey,
    params: &AccumParams,
    prk: &NonMemProvingKey,
    writer: &mut Vec<u8>,
) -> (r: Result<(), AccumError>)
    ensures
        r is Ok,
        final(writer)@ == old(writer)@ + nonmem_proof_chal_bytes(
            *p,
            *accumulated,
            *pk,
            *params,
            *prk,
        ),
{
    match p.inner.challenge_contribution(
        &accumulated.inner,
        &pk.inner,
        &params.inner,
        &prk.inner,
        &mut *writer,
    ) {
        Ok(()) => Ok(()),
        Err(e) => Err(AccumError { inner: e }),
    }
}

/// Relies on `vb_accumulator::proofs::NonMembershipProof::verify`: accepts
/// exactly when the non-membership verification equations hold, a
/// deterministic function of the arguments.
#[verifier::external_body]
pub(crate) fn accum_nonmem_verify(
    p: &NonMemProof,
    accumulated: &G1,
    challenge: &Scalar,
    pk: &AccumPublicKey,
    params: &AccumParams,
    prk: &NonMemProvingKey,
) -> (r: Result<(), AccumError>)
    ensures
        r is Ok <==> nonmem_verify_ok(*p, *accumulated, *challenge, *pk, *params, *prk),
{
    match p.inner.verify(
        &accumulated.inner,
        &challenge.inner,
        pk.inner.clone(),
        params.inner.clone(),
        &prk.inner,
    ) {
        Ok(()) => Ok(()),
        Err(e) => Err(AccumError { inner: e }),
    }
}

/// Relies on `vb_accumulator::proofs::NonMembershipProof::get_schnorr_response_for_element`:
/// the response for the element, a function of the proof alone.
#[verifier::external_body]
pub(crate) fn accum_nonmem_proof_resp(p: &NonMemProof) -> (r: Option<Scalar>)
    ensures
        r == nonmem_resp_of(*p),
{
    p.inner.get_schnorr_response_for_element().map(|s| Scalar { inner: *s })
}

/// Relies on `schnorr_pok::compute_random_oracle_challenge` with the
/// Blake2b512 hash: derives the challenge scalar from the transcript bytes
/// alone.
#[verifier::external_body]
pub(crate) fn hash_challenge(bytes: &Vec<u8>) -> (r: Scalar)
    ensures
        r == challenge_of(bytes@),
{
    Scalar {
        inner: schnorr_pok::compute_random_oracle_challenge::<Fr, blake2::Blake2b512>(bytes),
    }
}

} // verus!
