//! Creation of the public parameters, keys, signatures and accumulator
//! witnesses the proof system is instantiated with.
//!
//! These are trusted wrappers around the collaborator crates' setup
//! functions, taking and returning only plain values and the opaque types of
//! [`crate::backend`]. The proof system itself never performs setup; callers
//! and tests build their instances here.

use vstd::prelude::*;
use ark_bls12_381::{Bls12_381, Fr, G1Affine, G1Projective};
use ark_ec::CurveGroup;
use ark_ec::VariableBaseMSM;
use vb_accumulator::positive::Accumulator;
use ark_std::UniformRand;
use crate::backend::{
    AccumError, AccumParams, AccumPublicKey, BbsError, G1, MemProvingKey, MemWitness,
    NonMemProvingKey, NonMemWitness, ProofRng, Scalar, SigParams, SigPublicKey, Signature,
    sig_params_count,
};

verus! {

/// A BBS+ secret key, held by the signer alone.
#[verifier::external_body]
pub struct SigSecretKey {
    pub(crate) inner: bbs_plus::setup::SecretKey<Fr>,
}

/// An accumulator secret key, held by the accumulator manager alone.
#[verifier::external_body]
pub struct AccumSecretKey {
    pub(crate) inner: vb_accumulator::setup::SecretKey<Fr>,
}

/// A positive accumulator's public value.
#[verifier::external_body]
pub struct PositiveAccum {
    pub(crate) inner: vb_accumulator::positive::PositiveAccumulator<G1Affine>,
}

/// A universal accumulator's public value.
#[verifier::external_body]
pub struct UniversalAccum {
    pub(crate) inner: vb_accumulator::universal::UniversalAccumulator<G1Affine>,
}

/// Whether the sum of the element and the accumulator secret key is
/// invertible; the witness computations below are defined exactly then.
pub uninterp spec fn accum_sum_invertible(element: Scalar, sk: AccumSecretKey) -> bool;

/// Relies on the field type's addition and `is_zero` of `ark_ff`: whether
/// the element plus the secret key is invertible, which is exactly when it
/// is nonzero.
#[verifier::external_body]
pub fn accum_sum_invertible_check(element: &Scalar, sk: &AccumSecretKey) -> (r: bool)
    ensures
        r == accum_sum_invertible(*element, *sk),
{
    ark_ff::Field::inverse(&(element.inner + sk.inner.0)).is_some()
}

/// Relies on the field type's `From<u64>`: embeds an integer in the scalar
/// field.
#[verifier::external_body]
pub fn scalar_from_u64(x: u64) -> Scalar {
    Scalar { inner: Fr::from(x) }
}

/// Relies on `ark_std::UniformRand::rand` for the group: draws a random
/// curve point. Nothing is promised of the value.
#[verifier::external_body]
pub fn g1_rand(rng: &mut ProofRng) -> G1 {
    G1 { inner: G1Projective::rand(&mut rng.inner).into_affine() }
}

/// Relies on `ark_ec::VariableBaseMSM::msm_unchecked`: the Pedersen
/// commitment to the scalars under the bases; with equally many bases and
/// scalars it is their multi-scalar combination. Extra bases or scalars are
/// ignored.
#[verifier::external_body]
pub fn pedersen_commit(bases: &Vec<G1>, scalars: &Vec<Scalar>) -> (r: G1)
    ensures
        bases@.len() == scalars@.len() ==> r == crate::backend::msm_of(bases@, scalars@),
{
    let b: Vec<G1Affine> = bases.iter().map(|g| g.inner).collect();
    let s: Vec<Fr> = scalars.iter().map(|x| x.inner).collect();
    G1 { inner: G1Projective::msm_unchecked(&b, &s).into_affine() }
}

/// Relies on `bbs_plus::setup::SignatureParamsG1::generate_using_rng`: the
/// generated parameters support exactly the requested number of messages.
/// The collaborator refuses a count of zero, so it is left out here.
#[verifier::external_body]
pub fn sig_params_new(rng: &mut ProofRng, message_count: u32) -> (r: SigParams)
    requires
        message_count >= 1,
    ensures
        sig_params_count(r) == message_count as int,
{
    SigParams {
        inner: bbs_plus::setup::SignatureParamsG1::generate_using_rng(
            &mut rng.inner,
            message_count,
        ),
    }
}

/// Relies on `bbs_plus::setup::KeypairG2::generate_using_rng`: a fresh
/// secret key with its public key.
#[verifier::external_body]
pub fn sig_keygen(rng: &mut ProofRng, params: &SigParams) -> (SigSecretKey, SigPublicKey) {
    let kp = bbs_plus::setup::KeypairG2::<Bls12_381>::generate_using_rng(
        &mut rng.inner,
        &params.inner,
    );
    (SigSecretKey { inner: kp.secret_key.clone() }, SigPublicKey { inner: kp.public_key.clone() })
}

/// Relies on `bbs_plus::signature::SignatureG1::new`: signs the message
/// vector; errs when the number of messages differs from what the
/// parameters support, or no message is given.
#[verifier::external_body]
pub fn sig_new(
    rng: &mut ProofRng,
    messages: &Vec<Scalar>,
    sk: &SigSecretKey,
    params: &SigParams,
) -> (r: Result<Signature, BbsError>)
    ensures
        messages@.len() != sig_params_count(*params) ==> r is Err,
{
    let msgs: Vec<Fr> = messages.iter().map(|m| m.inner).collect();
    match bbs_plus::signature::SignatureG1::new(&mut rng.inner, &msgs, &sk.inner, &params.inner) {
        Ok(s) => Ok(Signature { inner: s }),
        Err(e) => Err(BbsError { inner: e }),
    }
}

/// Relies on `vb_accumulator::setup::SetupParams::generate_using_rng`.
#[verifier::external_body]
pub fn accum_params_new(rng: &mut ProofRng) -> AccumParams {
    AccumParams {
        inner: vb_accumulator::setup::SetupParams::generate_using_rng(&mut rng.inner),
    }
}

/// Relies on `vb_accumulator::setup::Keypair::generate_using_rng`: a fresh
/// secret key with its public key.
#[verifier::external_body]
pub fn accum_keygen(rng: &mut ProofRng, params: &AccumParams) -> (AccumSecretKey, AccumPublicKey) {
    let kp = vb_accumulator::setup::Keypair::generate_using_rng(&mut rng.inner, &params.inner);
    (AccumSecretKey { inner: kp.secret_key.clone() }, AccumPublicKey { inner: kp.public_key.clone() })
}

/// Relies on `vb_accumulator::setup::MembershipProvingKey::generate_using_rng`.
#[verifier::external_body]
pub fn mem_proving_key_new(rng: &mut ProofRng) -> MemProvingKey {
    MemProvingKey {
        inner: vb_accumulator::setup::MembershipProvingKey::generate_using_rng(&mut rng.inner),
    }
}

/// Relies on `vb_accumulator::setup::NonMembershipProvingKey::generate_using_rng`.
#[verifier::external_body]
pub fn nonmem_proving_key_new(rng: &mut ProofRng) -> NonMemProvingKey {
    NonMemProvingKey {
        inner: vb_accumulator::setup::NonMembershipProvingKey::generate_using_rng(&mut rng.inner),
    }
}

/// Relies on `vb_accumulator::positive::PositiveAccumulator::initialize`.
#[verifier::external_body]
pub fn positive_accum_init(params: &AccumParams) -> PositiveAccum {
    PositiveAccum {
        inner: vb_accumulator::positive::PositiveAccumulator::initialize(&params.inner),
    }
}

/// Relies on `vb_accumulator::positive::PositiveAccumulator::compute_new_post_add`:
/// the accumulator value after one more element.
#[verifier::external_body]
pub fn positive_accum_add(
    acc: &PositiveAccum,
    element: &Scalar,
    sk: &AccumSecretKey,
) -> PositiveAccum {
    let v = acc.inner.compute_new_post_add(&element.inner, &sk.inner);
    PositiveAccum { inner: vb_accumulator::positive::PositiveAccumulator(v) }
}

/// Relies on the accumulated value of
/// `vb_accumulator::positive::PositiveAccumulator`.
#[verifier::external_body]
pub fn positive_accum_value(acc: &PositiveAccum) -> G1 {
    G1 { inner: *acc.inner.value() }
}

/// Relies on `compute_membership_witness` of the `Accumulator` trait of
/// `vb_accumulator`: the witness for an accumulated element. The
/// collaborator aborts when the member is the negation of the secret key,
/// so that input is left out.
#[verifier::external_body]
pub fn positive_accum_mem_witness(
    acc: &PositiveAccum,
    member: &Scalar,
    sk: &AccumSecretKey,
) -> MemWitness
    requires
        accum_sum_invertible(*member, *sk),
{
    MemWitness { inner: acc.inner.compute_membership_witness(&member.inner, &sk.inner) }
}

/// Relies on `vb_accumulator::universal::UniversalAccumulator::initialize_given_f_V`.
#[verifier::external_body]
pub fn universal_accum_init(f_v: &Scalar, params: &AccumParams, max_size: u64) -> UniversalAccum {
    UniversalAccum {
        inner: vb_accumulator::universal::UniversalAccumulator::initialize_given_f_V(
            f_v.inner,
            &params.inner,
            max_size,
        ),
    }
}

/// Relies on the accumulated value of
/// `vb_accumulator::universal::UniversalAccumulator`.
#[verifier::external_body]
pub fn universal_accum_value(acc: &UniversalAccum) -> G1 {
    G1 { inner: *acc.inner.value() }
}

/// Relies on `vb_accumulator::universal::UniversalAccumulator::compute_d_given_members`:
/// the product of the differences between each member and the non-member.
#[verifier::external_body]
pub fn universal_accum_compute_d(non_member: &Scalar, members: &Vec<Scalar>) -> Scalar {
    let m: Vec<Fr> = members.iter().map(|s| s.inner).collect();
    Scalar {
        inner:
            vb_accumulator::universal::UniversalAccumulator::<G1Affine>::compute_d_given_members(
            &non_member.inner,
            &m,
        ),
    }
}

/// Relies on `vb_accumulator::universal::UniversalAccumulator::compute_non_membership_witness_given_d`:
/// the witness for an element absent from the accumulator; errs when `d` is
/// zero. The collaborator aborts when the non-member is the negation of the
/// secret key, so that input is left out.
#[verifier::external_body]
pub fn universal_accum_nonmem_witness(
    acc: &UniversalAccum,
    d: &Scalar,
    non_member: &Scalar,
    sk: &AccumSecretKey,
    params: &AccumParams,
) -> Result<NonMemWitness, AccumError>
    requires
        accum_sum_invertible(*non_member, *sk),
{
    match acc.inner.compute_non_membership_witness_given_d(
        d.inner,
        &non_member.inner,
        &sk.inner,
        &params.inner,
    ) {
        Ok(w) => Ok(NonMemWitness { inner: w }),
        Err(e) => Err(AccumError { inner: e }),
    }
}

/// Computes the membership witness after testing that it is defined,
/// which fails only for the element equal to the negated secret key.
pub fn positive_accum_mem_witness_checked(
    acc: &PositiveAccum,
    member: &Scalar,
    sk: &AccumSecretKey,
) -> (r: Option<MemWitness>)
    ensures
        r is Some <==> accum_sum_invertible(*member, *sk),
{
    if accum_sum_invertible_check(member, sk) {
        Some(positive_accum_mem_witness(acc, member, sk))
    } else {
        None
    }
}

/// Computes the non-membership witness after testing that it is defined,
/// which fails only for the non-member equal to the negated secret key.
pub fn universal_accum_nonmem_witness_checked(
    acc: &UniversalAccum,
    d: &Scalar,
    non_member: &Scalar,
    sk: &AccumSecretKey,
    params: &AccumParams,
) -> (r: Option<Result<NonMemWitness, AccumError>>)
    ensures
        r is Some <==> accum_sum_invertible(*non_member, *sk),
{
    if accum_sum_invertible_check(non_member, sk) {
        Some(universal_accum_nonmem_witness(acc, d, non_member, sk, params))
    } else {
        None
    }
}

} // verus!
