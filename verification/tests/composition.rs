use proof_system::backend::{rng_from_seed, ProofRng, Scalar, G1};
use proof_system::error::ProofSystemError;
use proof_system::meta_statement::{EqualWitnesses, MetaStatements};
use proof_system::proof_spec::{ProofSpec, Statements};
use proof_system::proofs::{Proof, Witnesses};
use proof_system::setup::{
    accum_keygen, accum_params_new, g1_rand, mem_proving_key_new, nonmem_proving_key_new,
    pedersen_commit, positive_accum_add, positive_accum_init, positive_accum_mem_witness_checked,
    positive_accum_value, scalar_from_u64, sig_keygen, sig_new, sig_params_new,
    universal_accum_compute_d, universal_accum_init, universal_accum_nonmem_witness_checked,
    universal_accum_value,
};
use proof_system::should_use_cls;
use proof_system::statement;
use proof_system::statement::Statement;
use proof_system::sub_protocols::schnorr::SchnorrProtocol;
use proof_system::sub_protocols::{AccumulatorMembershipSubProtocol, PoKBBSSigG1SubProtocol};
use proof_system::witness;
use proof_system::witness::Witness;

const MSG_COUNT: u32 = 5;

fn msgs_from(base: u64) -> Vec<Scalar> {
    (0..MSG_COUNT as u64).map(|i| scalar_from_u64(base + 1 + i)).collect()
}

/// Builds a proof spec with one BBS+ signature statement over five hidden
/// messages and one Pedersen commitment statement, linking the signature
/// message at `link_idx` to the commitment opening at index 0. The Pedersen
/// witness at index 0 is `linked_value`; deterministic in `seed`.
fn build_linked(
    seed: u64,
    link_idx: usize,
    linked_value: u64,
) -> (ProofSpec, Witnesses) {
    let mut rng: ProofRng = rng_from_seed(seed);
    let sig_params = sig_params_new(&mut rng, MSG_COUNT);
    let (sig_sk, sig_pk) = sig_keygen(&mut rng, &sig_params);
    let msgs = msgs_from(100);
    let sig = sig_new(&mut rng, &msgs, &sig_sk, &sig_params).unwrap();

    let bases: Vec<G1> = vec![g1_rand(&mut rng), g1_rand(&mut rng)];
    let opening: Vec<Scalar> = vec![scalar_from_u64(linked_value), scalar_from_u64(777)];
    let commitment = pedersen_commit(&bases, &opening);

    let mut statements = Statements::new();
    statements.add(Statement::PoKBBSSignatureG1(statement::PoKBBSSignatureG1 {
        params: sig_params,
        public_key: sig_pk,
        revealed_messages: Vec::new(),
    }));
    statements.add(Statement::PedersenCommitment(statement::PedersenCommitment {
        key: bases,
        commitment,
    }));

    let mut meta = MetaStatements::new();
    meta.add_witness_equality(EqualWitnesses(vec![(0, link_idx), (1, 0)]));

    let spec = ProofSpec::new(statements, meta, None);

    let unrevealed: Vec<(usize, Scalar)> = msgs.iter().cloned().enumerate().collect();
    let mut wits = Witnesses::new();
    wits.add(Witness::PoKBBSSignatureG1(witness::PoKBBSSignatureG1 {
        signature: sig,
        unrevealed_messages: unrevealed,
    }));
    wits.add(Witness::PedersenCommitment(opening));
    (spec, wits)
}

#[test]
fn strategy_selection_is_deterministic() {
    assert!(should_use_cls(100, 200));
    assert!(should_use_cls(100, 200));
    assert!(should_use_cls(0, 2097151));
    assert!(!should_use_cls(0, 2097152));
    assert!(!should_use_cls(100, 100 + 2_u64.pow(21)));
    assert!(should_use_cls(7, 7));
}

#[test]
fn linked_signature_and_commitment_verifies() {
    // The committed value really is the signed message at index 1.
    let (spec_p, wits) = build_linked(7, 1, 102);
    let (spec_v, _) = build_linked(7, 1, 102);
    let mut rng = rng_from_seed(99);
    let proof = Proof::new(&mut rng, spec_p, wits, None).unwrap();
    proof.verify(&spec_v, None).unwrap();
}

#[test]
fn witness_mismatch_is_rejected() {
    // The committed value 110 was never signed: each statement proof holds
    // on its own, but the equality constraint must fail.
    let (spec_p, wits) = build_linked(7, 0, 110);
    let (spec_v, _) = build_linked(7, 0, 110);
    let mut rng = rng_from_seed(99);
    let proof = Proof::new(&mut rng, spec_p, wits, None).unwrap();
    let res = proof.verify(&spec_v, None);
    assert!(matches!(res, Err(ProofSystemError::WitnessEqualityViolated(0))));
}

#[test]
fn wrong_nonce_is_rejected() {
    let (spec_p, wits) = build_linked(11, 1, 102);
    let (spec_v, _) = build_linked(11, 1, 102);
    let mut rng = rng_from_seed(99);
    let proof = Proof::new(&mut rng, spec_p, wits, Some(b"session-1".to_vec())).unwrap();
    assert!(proof.verify(&spec_v, Some(b"session-2".to_vec())).is_err());
    let (spec_v2, _) = build_linked(11, 1, 102);
    let proof2 = {
        let (spec_p2, wits2) = build_linked(11, 1, 102);
        let mut rng2 = rng_from_seed(99);
        Proof::new(&mut rng2, spec_p2, wits2, Some(b"session-1".to_vec())).unwrap()
    };
    proof2.verify(&spec_v2, Some(b"session-1".to_vec())).unwrap();
}

fn accum_setup(
    seed: u64,
    element: u64,
) -> (ProofSpec, Witnesses) {
    let mut rng = rng_from_seed(seed);
    let params = accum_params_new(&mut rng);
    let (sk, pk) = accum_keygen(&mut rng, &params);
    let prk = mem_proving_key_new(&mut rng);
    let elem = scalar_from_u64(element);
    let acc = positive_accum_init(&params);
    let acc = positive_accum_add(&acc, &elem, &sk);
    let value = positive_accum_value(&acc);
    let mem_wit = positive_accum_mem_witness_checked(&acc, &elem, &sk).unwrap();

    let mut statements = Statements::new();
    statements.add(Statement::AccumulatorMembership(statement::AccumulatorMembership {
        params,
        public_key: pk,
        proving_key: prk,
        accumulator_value: value,
    }));
    let spec = ProofSpec::new(statements, MetaStatements::new(), None);

    let mut wits = Witnesses::new();
    wits.add(Witness::AccumulatorMembership(witness::Membership {
        element: elem,
        witness: mem_wit,
    }));
    (spec, wits)
}

#[test]
fn accumulator_membership_verifies() {
    let (spec_p, wits) = accum_setup(21, 42);
    let (spec_v, _) = accum_setup(21, 42);
    let mut rng = rng_from_seed(99);
    let proof = Proof::new(&mut rng, spec_p, wits, None).unwrap();
    proof.verify(&spec_v, None).unwrap();
}

fn nonmem_setup(seed: u64, absent: u64) -> (ProofSpec, Witnesses) {
    let mut rng = rng_from_seed(seed);
    let params = accum_params_new(&mut rng);
    let (sk, pk) = accum_keygen(&mut rng, &params);
    let prk = nonmem_proving_key_new(&mut rng);
    let f_v = scalar_from_u64(12345);
    let acc = universal_accum_init(&f_v, &params, 16);
    let value = universal_accum_value(&acc);
    let non_member = scalar_from_u64(absent);
    let d = universal_accum_compute_d(&non_member, &Vec::new());
    let wit = universal_accum_nonmem_witness_checked(&acc, &d, &non_member, &sk, &params)
        .unwrap()
        .unwrap();

    let mut statements = Statements::new();
    statements.add(Statement::AccumulatorNonMembership(statement::AccumulatorNonMembership {
        params,
        public_key: pk,
        proving_key: prk,
        accumulator_value: value,
    }));
    let spec = ProofSpec::new(statements, MetaStatements::new(), None);

    let mut wits = Witnesses::new();
    wits.add(Witness::AccumulatorNonMembership(witness::NonMembership {
        element: non_member,
        witness: wit,
    }));
    (spec, wits)
}

#[test]
fn accumulator_non_membership_verifies() {
    let (spec_p, wits) = nonmem_setup(23, 555);
    let (spec_v, _) = nonmem_setup(23, 555);
    let mut rng = rng_from_seed(99);
    let proof = Proof::new(&mut rng, spec_p, wits, None).unwrap();
    proof.verify(&spec_v, None).unwrap();
}

#[test]
fn validate_rejects_missing_statement_id() {
    let (spec_ok, _) = build_linked(3, 1, 102);
    let mut meta = MetaStatements::new();
    meta.add_witness_equality(EqualWitnesses(vec![(0, 1), (5, 0)]));
    let spec = ProofSpec::new(spec_ok.statements, meta, None);
    assert!(matches!(spec.validate(), Err(ProofSystemError::InvalidStatementId(5))));
}

#[test]
fn validate_rejects_bad_witness_index() {
    let (spec_ok, _) = build_linked(3, 1, 102);
    let mut meta = MetaStatements::new();
    meta.add_witness_equality(EqualWitnesses(vec![(0, 99), (1, 0)]));
    let spec = ProofSpec::new(spec_ok.statements, meta, None);
    assert!(matches!(spec.validate(), Err(ProofSystemError::InvalidWitnessIndex(0, 99))));
}

#[test]
fn validate_rejects_tiny_constraint() {
    let (spec_ok, _) = build_linked(3, 1, 102);
    let mut meta = MetaStatements::new();
    meta.add_witness_equality(EqualWitnesses(vec![(0, 1)]));
    let spec = ProofSpec::new(spec_ok.statements, meta, None);
    assert!(matches!(spec.validate(), Err(ProofSystemError::EqualWitnessesTooSmall(0))));
}

#[test]
fn missing_message_is_reported() {
    // Message slot 2 is neither revealed by the statement nor supplied by
    // the witness.
    let mut rng = rng_from_seed(31);
    let sig_params = sig_params_new(&mut rng, MSG_COUNT);
    let (sig_sk, sig_pk) = sig_keygen(&mut rng, &sig_params);
    let msgs = msgs_from(200);
    let sig = sig_new(&mut rng, &msgs, &sig_sk, &sig_params).unwrap();

    let mut statements = Statements::new();
    statements.add(Statement::PoKBBSSignatureG1(statement::PoKBBSSignatureG1 {
        params: sig_params,
        public_key: sig_pk,
        revealed_messages: Vec::new(),
    }));
    let spec = ProofSpec::new(statements, MetaStatements::new(), None);

    let unrevealed: Vec<(usize, Scalar)> = msgs
        .iter()
        .cloned()
        .enumerate()
        .filter(|(i, _)| *i != 2)
        .collect();
    let mut wits = Witnesses::new();
    wits.add(Witness::PoKBBSSignatureG1(witness::PoKBBSSignatureG1 {
        signature: sig,
        unrevealed_messages: unrevealed,
    }));

    let res = Proof::new(&mut rng, spec, wits, None);
    assert!(matches!(res, Err(ProofSystemError::BBSPlusProtocolMessageAbsent(0, 2))));
}

#[test]
fn revealed_message_scenario_verifies() {
    // Reveal message 0 publicly; hide the other four.
    fn build(seed: u64) -> (ProofSpec, Witnesses) {
        let mut rng = rng_from_seed(seed);
        let sig_params = sig_params_new(&mut rng, MSG_COUNT);
        let (sig_sk, sig_pk) = sig_keygen(&mut rng, &sig_params);
        let msgs = msgs_from(300);
        let sig = sig_new(&mut rng, &msgs, &sig_sk, &sig_params).unwrap();
        let mut statements = Statements::new();
        statements.add(Statement::PoKBBSSignatureG1(statement::PoKBBSSignatureG1 {
            params: sig_params,
            public_key: sig_pk,
            revealed_messages: vec![(0, msgs[0].clone())],
        }));
        let spec = ProofSpec::new(statements, MetaStatements::new(), None);
        let unrevealed: Vec<(usize, Scalar)> = msgs
            .iter()
            .cloned()
            .enumerate()
            .filter(|(i, _)| *i != 0)
            .collect();
        let mut wits = Witnesses::new();
        wits.add(Witness::PoKBBSSignatureG1(witness::PoKBBSSignatureG1 {
            signature: sig,
            unrevealed_messages: unrevealed,
        }));
        (spec, wits)
    }
    let (spec_p, wits) = build(41);
    let (spec_v, _) = build(41);
    let mut rng = rng_from_seed(99);
    let proof = Proof::new(&mut rng, spec_p, wits, None).unwrap();
    proof.verify(&spec_v, None).unwrap();
}

#[test]
fn tampered_revealed_message_is_rejected() {
    fn build(seed: u64, revealed_value: u64) -> (ProofSpec, Witnesses) {
        let mut rng = rng_from_seed(seed);
        let sig_params = sig_params_new(&mut rng, MSG_COUNT);
        let (sig_sk, sig_pk) = sig_keygen(&mut rng, &sig_params);
        let msgs = msgs_from(300);
        let sig = sig_new(&mut rng, &msgs, &sig_sk, &sig_params).unwrap();
        let mut statements = Statements::new();
        statements.add(Statement::PoKBBSSignatureG1(statement::PoKBBSSignatureG1 {
            params: sig_params,
            public_key: sig_pk,
            revealed_messages: vec![(0, scalar_from_u64(revealed_value))],
        }));
        let spec = ProofSpec::new(statements, MetaStatements::new(), None);
        let unrevealed: Vec<(usize, Scalar)> = msgs
            .iter()
            .cloned()
            .enumerate()
            .filter(|(i, _)| *i != 0)
            .collect();
        let mut wits = Witnesses::new();
        wits.add(Witness::PoKBBSSignatureG1(witness::PoKBBSSignatureG1 {
            signature: sig,
            unrevealed_messages: unrevealed,
        }));
        (spec, wits)
    }
    // Message 0 is 301; the verifier is told it is 999.
    let (spec_p, wits) = build(41, 301);
    let (spec_v, _) = build(41, 999);
    let mut rng = rng_from_seed(99);
    let proof = Proof::new(&mut rng, spec_p, wits, None).unwrap();
    assert!(proof.verify(&spec_v, None).is_err());
}

#[test]
fn proof_count_mismatch_is_rejected() {
    let (spec_p, wits) = accum_setup(21, 42);
    let mut rng = rng_from_seed(99);
    let proof = Proof::new(&mut rng, spec_p, wits, None).unwrap();
    // A verifier spec with an extra statement.
    let (mut spec_v, _) = accum_setup(21, 42);
    let (extra, _) = accum_setup(25, 43);
    let mut stmts = spec_v.statements;
    let mut extra_stmts = extra.statements;
    stmts.add(extra_stmts.0.remove(0));
    let spec_v = ProofSpec::new(stmts, MetaStatements::new(), None);
    assert!(matches!(
        proof.verify(&spec_v, None),
        Err(ProofSystemError::InvalidProofCount(1, 2))
    ));
}

#[test]
fn mismatched_proof_tag_is_rejected() {
    // A proof generated for an accumulator statement, verified against a
    // signature statement of the same count.
    let (spec_p, wits) = accum_setup(21, 42);
    let mut rng = rng_from_seed(99);
    let proof = Proof::new(&mut rng, spec_p, wits, None).unwrap();

    let mut rng2 = rng_from_seed(33);
    let sig_params = sig_params_new(&mut rng2, MSG_COUNT);
    let (_, sig_pk) = sig_keygen(&mut rng2, &sig_params);
    let mut statements = Statements::new();
    statements.add(Statement::PoKBBSSignatureG1(statement::PoKBBSSignatureG1 {
        params: sig_params,
        public_key: sig_pk,
        revealed_messages: Vec::new(),
    }));
    let spec_v = ProofSpec::new(statements, MetaStatements::new(), None);
    assert!(matches!(
        proof.verify(&spec_v, None),
        Err(ProofSystemError::ProofIncompatibleWithProtocol(0))
    ));
}

#[test]
fn witness_kind_mismatch_is_rejected() {
    let (spec_p, _) = accum_setup(21, 42);
    let mut wits = Witnesses::new();
    wits.add(Witness::PedersenCommitment(vec![scalar_from_u64(1)]));
    let mut rng = rng_from_seed(99);
    assert!(matches!(
        Proof::new(&mut rng, spec_p, wits, None),
        Err(ProofSystemError::WitnessIncompatibleWithStatement(0))
    ));
}

#[test]
fn witness_count_mismatch_is_rejected() {
    let (spec_p, _) = accum_setup(21, 42);
    let wits = Witnesses::new();
    let mut rng = rng_from_seed(99);
    assert!(matches!(
        Proof::new(&mut rng, spec_p, wits, None),
        Err(ProofSystemError::InvalidWitnessCount(0, 1))
    ));
}

#[test]
fn schnorr_proof_generation_is_single_use() {
    let mut rng = rng_from_seed(51);
    let bases: Vec<G1> = vec![g1_rand(&mut rng), g1_rand(&mut rng)];
    let opening: Vec<Scalar> = vec![scalar_from_u64(5), scalar_from_u64(6)];
    let commitment = pedersen_commit(&bases, &opening);
    let mut sp = SchnorrProtocol::new(0, bases, commitment);
    sp.init(&mut rng, Vec::new(), opening).unwrap();
    let challenge = scalar_from_u64(12321);
    let first = sp.gen_proof_contribution_as_struct(&challenge);
    assert!(first.is_ok());
    let second = sp.gen_proof_contribution_as_struct(&challenge);
    assert!(matches!(
        second,
        Err(ProofSystemError::SubProtocolNotReadyToGenerateProof(0))
    ));
}

#[test]
fn schnorr_round_trip_at_fixed_challenge() {
    let mut rng = rng_from_seed(52);
    let bases: Vec<G1> = vec![g1_rand(&mut rng), g1_rand(&mut rng), g1_rand(&mut rng)];
    let opening: Vec<Scalar> =
        vec![scalar_from_u64(5), scalar_from_u64(6), scalar_from_u64(7)];
    let commitment = pedersen_commit(&bases, &opening);
    let mut sp = SchnorrProtocol::new(3, bases.clone(), commitment.clone());
    sp.init(&mut rng, Vec::new(), opening).unwrap();
    let challenge = scalar_from_u64(987654321);
    let part = sp.gen_proof_contribution_as_struct(&challenge).unwrap();
    let verifier = SchnorrProtocol::new(3, bases, commitment);
    verifier.verify_proof_contribution_as_struct(&challenge, &part).unwrap();
    // A different challenge must not verify the same part.
    let other = scalar_from_u64(123456789);
    assert!(verifier.verify_proof_contribution_as_struct(&other, &part).is_err());
}

#[test]
fn sub_protocol_phases_enforce_order() {
    let mut rng = rng_from_seed(53);
    let params = accum_params_new(&mut rng);
    let (sk, pk) = accum_keygen(&mut rng, &params);
    let prk = mem_proving_key_new(&mut rng);
    let elem = scalar_from_u64(8);
    let acc = positive_accum_add(&positive_accum_init(&params), &elem, &sk);
    let value = positive_accum_value(&acc);
    let mem_wit = positive_accum_mem_witness_checked(&acc, &elem, &sk).unwrap();

    let stmt = statement::AccumulatorMembership {
        params,
        public_key: pk,
        proving_key: prk,
        accumulator_value: value,
    };
    let mut sp = AccumulatorMembershipSubProtocol::new(4, stmt);

    let mut writer: Vec<u8> = Vec::new();
    assert!(matches!(
        sp.challenge_contribution(&mut writer),
        Err(ProofSystemError::SubProtocolNotReadyToGenerateChallenge(4))
    ));
    let challenge = scalar_from_u64(555);
    assert!(matches!(
        sp.gen_proof_contribution(&challenge),
        Err(ProofSystemError::SubProtocolNotReadyToGenerateProof(4))
    ));

    let w = witness::Membership { element: elem, witness: mem_wit };
    sp.init(&mut rng, None, &w).unwrap();
    assert!(matches!(
        sp.init(&mut rng, None, &w),
        Err(ProofSystemError::SubProtocolAlreadyInitialized(4))
    ));
    sp.challenge_contribution(&mut writer).unwrap();
    assert!(!writer.is_empty());
    sp.gen_proof_contribution(&challenge).unwrap();
    assert!(matches!(
        sp.gen_proof_contribution(&challenge),
        Err(ProofSystemError::SubProtocolNotReadyToGenerateProof(4))
    ));
}

#[test]
fn bbs_sub_protocol_uses_witness_over_revealed() {
    // Every slot has a witness message and slot 0 is also revealed: init
    // must succeed, taking the witness value for slot 0.
    let mut rng = rng_from_seed(54);
    let sig_params = sig_params_new(&mut rng, MSG_COUNT);
    let (sig_sk, sig_pk) = sig_keygen(&mut rng, &sig_params);
    let msgs = msgs_from(400);
    let sig = sig_new(&mut rng, &msgs, &sig_sk, &sig_params).unwrap();
    let stmt = statement::PoKBBSSignatureG1 {
        params: sig_params,
        public_key: sig_pk,
        revealed_messages: vec![(0, msgs[0].clone())],
    };
    let mut sp = PoKBBSSigG1SubProtocol::new(0, stmt);
    let unrevealed: Vec<(usize, Scalar)> = msgs.iter().cloned().enumerate().collect();
    let wit = witness::PoKBBSSignatureG1 { signature: sig, unrevealed_messages: unrevealed };
    sp.init(&mut rng, Vec::new(), wit).unwrap();
}

#[test]
fn revealed_message_cannot_be_equality_linked() {
    // Message 0 is revealed, so no Schnorr response exists for it; linking
    // it to the commitment opening must fail with the reference attached.
    fn build(seed: u64) -> (ProofSpec, Witnesses) {
        let mut rng = rng_from_seed(seed);
        let sig_params = sig_params_new(&mut rng, MSG_COUNT);
        let (sig_sk, sig_pk) = sig_keygen(&mut rng, &sig_params);
        let msgs = msgs_from(500);
        let sig = sig_new(&mut rng, &msgs, &sig_sk, &sig_params).unwrap();
        let bases: Vec<G1> = vec![g1_rand(&mut rng), g1_rand(&mut rng)];
        let opening: Vec<Scalar> = vec![scalar_from_u64(501), scalar_from_u64(777)];
        let commitment = pedersen_commit(&bases, &opening);
        let mut statements = Statements::new();
        statements.add(Statement::PoKBBSSignatureG1(statement::PoKBBSSignatureG1 {
            params: sig_params,
            public_key: sig_pk,
            revealed_messages: vec![(0, msgs[0].clone())],
        }));
        statements.add(Statement::PedersenCommitment(statement::PedersenCommitment {
            key: bases,
            commitment,
        }));
        let mut meta = MetaStatements::new();
        meta.add_witness_equality(EqualWitnesses(vec![(0, 0), (1, 0)]));
        let spec = ProofSpec::new(statements, meta, None);
        let unrevealed: Vec<(usize, Scalar)> = msgs
            .iter()
            .cloned()
            .enumerate()
            .filter(|(i, _)| *i != 0)
            .collect();
        let mut wits = Witnesses::new();
        wits.add(Witness::PoKBBSSignatureG1(witness::PoKBBSSignatureG1 {
            signature: sig,
            unrevealed_messages: unrevealed,
        }));
        wits.add(Witness::PedersenCommitment(opening));
        (spec, wits)
    }
    let (spec_p, wits) = build(61);
    let (spec_v, _) = build(61);
    let mut rng = rng_from_seed(99);
    let proof = Proof::new(&mut rng, spec_p, wits, None).unwrap();
    assert!(matches!(
        proof.verify(&spec_v, None),
        Err(ProofSystemError::ResponseUnavailable(0, 0))
    ));
}

#[test]
fn schnorr_rejects_foreign_proof_tag() {
    let (spec_p, wits) = accum_setup(21, 42);
    let mut rng = rng_from_seed(99);
    let proof = Proof::new(&mut rng, spec_p, wits, None).unwrap();

    let bases: Vec<G1> = vec![g1_rand(&mut rng)];
    let opening: Vec<Scalar> = vec![scalar_from_u64(2)];
    let commitment = pedersen_commit(&bases, &opening);
    let sp = SchnorrProtocol::new(0, bases, commitment);
    let challenge = scalar_from_u64(5);
    assert!(matches!(
        sp.verify_proof_contribution(&challenge, &proof.statement_proofs[0]),
        Err(ProofSystemError::ProofIncompatibleWithSchnorrProtocol)
    ));
}

#[test]
fn accumulator_element_linked_to_signed_message() {
    // The accumulated element and the signed message at index 1 are the
    // same value, and the constraint links them; flipping the element to
    // one never signed must fail only the equality check.
    fn build(seed: u64, element: u64) -> (ProofSpec, Witnesses) {
        let mut rng = rng_from_seed(seed);
        let sig_params = sig_params_new(&mut rng, MSG_COUNT);
        let (sig_sk, sig_pk) = sig_keygen(&mut rng, &sig_params);
        let msgs = msgs_from(100);
        let sig = sig_new(&mut rng, &msgs, &sig_sk, &sig_params).unwrap();
        let params = accum_params_new(&mut rng);
        let (sk, pk) = accum_keygen(&mut rng, &params);
        let prk = mem_proving_key_new(&mut rng);
        let elem = scalar_from_u64(element);
        let acc = positive_accum_add(&positive_accum_init(&params), &elem, &sk);
        let value = positive_accum_value(&acc);
        let mem_wit = positive_accum_mem_witness_checked(&acc, &elem, &sk).unwrap();

        let mut statements = Statements::new();
        statements.add(Statement::PoKBBSSignatureG1(statement::PoKBBSSignatureG1 {
            params: sig_params,
            public_key: sig_pk,
            revealed_messages: Vec::new(),
        }));
        statements.add(Statement::AccumulatorMembership(statement::AccumulatorMembership {
            params,
            public_key: pk,
            proving_key: prk,
            accumulator_value: value,
        }));
        let mut meta = MetaStatements::new();
        meta.add_witness_equality(EqualWitnesses(vec![(0, 1), (1, 0)]));
        let spec = ProofSpec::new(statements, meta, None);

        let unrevealed: Vec<(usize, Scalar)> = msgs.iter().cloned().enumerate().collect();
        let mut wits = Witnesses::new();
        wits.add(Witness::PoKBBSSignatureG1(witness::PoKBBSSignatureG1 {
            signature: sig,
            unrevealed_messages: unrevealed,
        }));
        wits.add(Witness::AccumulatorMembership(witness::Membership {
            element: elem,
            witness: mem_wit,
        }));
        (spec, wits)
    }
    // The signed message at index 1 is 102.
    let (spec_p, wits) = build(71, 102);
    let (spec_v, _) = build(71, 102);
    let mut rng = rng_from_seed(99);
    let proof = Proof::new(&mut rng, spec_p, wits, None).unwrap();
    proof.verify(&spec_v, None).unwrap();

    let (spec_p2, wits2) = build(71, 999);
    let (spec_v2, _) = build(71, 999);
    let mut rng2 = rng_from_seed(99);
    let proof2 = Proof::new(&mut rng2, spec_p2, wits2, None).unwrap();
    assert!(matches!(
        proof2.verify(&spec_v2, None),
        Err(ProofSystemError::WitnessEqualityViolated(0))
    ));
}


#[test]
fn bbs_sub_protocol_rejects_second_init() {
    let mut rng = rng_from_seed(57);
    let sig_params = sig_params_new(&mut rng, MSG_COUNT);
    let (sig_sk, sig_pk) = sig_keygen(&mut rng, &sig_params);
    let msgs = msgs_from(600);
    let sig = sig_new(&mut rng, &msgs, &sig_sk, &sig_params).unwrap();
    let sig2 = sig_new(&mut rng, &msgs, &sig_sk, &sig_params).unwrap();
    let stmt = statement::PoKBBSSignatureG1 {
        params: sig_params,
        public_key: sig_pk,
        revealed_messages: Vec::new(),
    };
    let mut sp = PoKBBSSigG1SubProtocol::new(9, stmt);
    let unrevealed: Vec<(usize, Scalar)> = msgs.iter().cloned().enumerate().collect();
    let wit = witness::PoKBBSSignatureG1 {
        signature: sig,
        unrevealed_messages: unrevealed.clone(),
    };
    sp.init(&mut rng, Vec::new(), wit).unwrap();
    let wit2 = witness::PoKBBSSignatureG1 { signature: sig2, unrevealed_messages: unrevealed };
    assert!(matches!(
        sp.init(&mut rng, Vec::new(), wit2),
        Err(ProofSystemError::SubProtocolAlreadyInitialized(9))
    ));
}
