use bellman::groth16::{create_proof, generate_parameters, Parameters};
use bellman::{Index, SynthesisError, Variable as CurveVariable};
use bls12_381::{Bls12, G1Projective, G2Projective, Scalar};
use recursive_zkp::artifact::{Proof, ProofError, PROOF_BYTES};
use recursive_zkp::circuit::FactorizationCircuit;
use recursive_zkp::cs::{ConstraintSystem, Mode, SynthesisError as OwnSynthesisError};
use recursive_zkp::cyclic::CyclicCircuit;
use recursive_zkp::gated;
use recursive_zkp::field::Fr;
use recursive_zkp::gadget::VerifierCircuit;
use recursive_zkp::keys::{KeyError, ProvingKey, VerifyingKey};
use recursive_zkp::lc::{LinearCombination, Variable};
use recursive_zkp::prover::{
    guard, prove, prove_over, prove_system, release, ProveError, ProvingJob,
};
use recursive_zkp::randomness::RandomnessSource;
use recursive_zkp::relation::Relation;
use recursive_zkp::setup;
use recursive_zkp::setup::{shape, trapdoor, KeyPair, SetupError};
use recursive_zkp::verify::{conclude, verify, verify_bytes, VerifyError};

fn scalar(x: &Fr) -> Scalar {
    Scalar::from_raw(x.to_limbs())
}

/// Replays a frozen system, with or without values, to the outside
/// constraint system.
struct Replay<'a> {
    shape: &'a ConstraintSystem,
    public: Option<&'a [Fr]>,
    private: Option<&'a [Fr]>,
}

fn combination(
    lc: &LinearCombination,
    mut out: bellman::LinearCombination<Scalar>,
) -> bellman::LinearCombination<Scalar> {
    if let Some(c) = lc.constant() {
        out = out + (scalar(&c), CurveVariable::new_unchecked(Index::Input(0)));
    }
    for i in 0..lc.len() {
        let term = lc.term(i);
        let variable = match term.variable {
            Variable::Public(k) => CurveVariable::new_unchecked(Index::Input(k + 1)),
            Variable::Private(k) => CurveVariable::new_unchecked(Index::Aux(k)),
        };
        out = out + (scalar(&term.coefficient), variable);
    }
    out
}

fn value(values: Option<&[Fr]>, i: usize) -> Result<Scalar, SynthesisError> {
    values.map(|v| scalar(&v[i])).ok_or(SynthesisError::AssignmentMissing)
}

impl<'a> bellman::Circuit<Scalar> for Replay<'a> {
    fn synthesize<CS: bellman::ConstraintSystem<Scalar>>(
        self,
        cs: &mut CS,
    ) -> Result<(), SynthesisError> {
        for i in 0..self.shape.num_public() {
            cs.alloc_input(|| "public", || value(self.public, i))?;
        }
        for i in 0..self.shape.num_private() {
            cs.alloc(|| "private", || value(self.private, i))?;
        }
        for k in 0..self.shape.num_constraints() {
            let c = self.shape.constraint(k);
            cs.enforce(
                || "constraint",
                |lc| combination(&c.a, lc),
                |lc| combination(&c.b, lc),
                |lc| combination(&c.c, lc),
            );
        }
        Ok(())
    }
}

fn parameters_for(system: &ConstraintSystem, rng: &mut RandomnessSource) -> Vec<u8> {
    let t = trapdoor(rng);
    let parameters = generate_parameters::<Bls12, _>(
        Replay { shape: system, public: None, private: None },
        G1Projective::generator() * scalar(&t.g1),
        G2Projective::generator() * scalar(&t.g2),
        scalar(&t.alpha),
        scalar(&t.beta),
        scalar(&t.gamma),
        scalar(&t.delta),
        scalar(&t.tau),
    )
    .unwrap();
    let mut bytes = Vec::new();
    parameters.write(&mut bytes).unwrap();
    bytes
}

fn keys_for(relation: &Relation, rng: &mut RandomnessSource) -> (ConstraintSystem, KeyPair) {
    let system = shape(relation).unwrap();
    let bytes = parameters_for(&system, rng);
    let keys = setup::derive(&system, bytes).unwrap();
    (system, keys)
}

fn finish(system: &ConstraintSystem, key: &ProvingKey, job: &ProvingJob) -> Proof {
    let parameters = Parameters::<Bls12>::read(&key.as_bytes()[..], true).unwrap();
    let made = create_proof(
        Replay { shape: system, public: Some(&job.public_inputs), private: Some(&job.witness) },
        &parameters,
        scalar(&job.r),
        scalar(&job.s),
    )
    .unwrap();
    let mut bytes = Vec::new();
    bytes.extend_from_slice(&made.a.to_uncompressed());
    bytes.extend_from_slice(&made.b.to_uncompressed());
    bytes.extend_from_slice(&made.c.to_uncompressed());
    Proof::from_bytes(bytes).unwrap()
}

fn factorization(p: u64, q: u64, n: u64) -> Relation {
    Relation::Factorization(FactorizationCircuit {
        n: Some(Fr::from_u64(n)),
        p: Some(Fr::from_u64(p)),
        q: Some(Fr::from_u64(q)),
    })
}

fn source(tag: u8) -> RandomnessSource {
    RandomnessSource::from_seed([tag; 32])
}

#[test]
fn factorization_of_391_is_proved_and_verified() {
    let mut rng = source(1);
    let relation = factorization(17, 23, 391);
    let (system, keys) = keys_for(&relation, &mut rng);
    assert_eq!(system.num_public(), 1);
    assert_eq!(system.num_private(), 2);
    assert_eq!(system.num_constraints(), 1);
    assert!(system.is_frozen());
    assert_eq!(keys.proving.num_public(), 1);
    assert_eq!(keys.proving.num_private(), 2);
    assert_eq!(keys.verifying.num_inputs(), 1);
    let job = prove(&relation, &keys.proving, &mut rng).unwrap();
    assert_eq!(job.public_inputs, vec![Fr::from_u64(391)]);
    assert_eq!(job.witness, vec![Fr::from_u64(17), Fr::from_u64(23)]);
    let proof = finish(&system, &keys.proving, &job);
    assert_eq!(verify(&proof, &job.public_inputs, &keys.verifying), Ok(true));
}

#[test]
fn proof_does_not_verify_for_another_input() {
    let mut rng = source(2);
    let relation = factorization(17, 23, 391);
    let (system, keys) = keys_for(&relation, &mut rng);
    let job = prove(&relation, &keys.proving, &mut rng).unwrap();
    let proof = finish(&system, &keys.proving, &job);
    assert_eq!(verify(&proof, &vec![Fr::from_u64(392)], &keys.verifying), Ok(false));
}

#[test]
fn wrong_product_is_refused_by_the_prover() {
    let mut rng = source(3);
    let (_, keys) = keys_for(&factorization(17, 23, 391), &mut rng);
    let wrong = factorization(17, 23, 392);
    assert_eq!(
        prove(&wrong, &keys.proving, &mut rng).err(),
        Some(ProveError::ConstraintUnsatisfied)
    );
}

#[test]
fn zero_factor_gives_zero() {
    let mut rng = source(4);
    let relation = factorization(0, 23, 0);
    let (system, keys) = keys_for(&relation, &mut rng);
    let job = prove(&relation, &keys.proving, &mut rng).unwrap();
    let proof = finish(&system, &keys.proving, &job);
    assert_eq!(verify(&proof, &vec![Fr::zero()], &keys.verifying), Ok(true));
    let both = factorization(0, 0, 0);
    assert!(prove(&both, &keys.proving, &mut rng).is_ok());
    let not_zero = factorization(0, 23, 1);
    assert_eq!(
        prove(&not_zero, &keys.proving, &mut rng).err(),
        Some(ProveError::ConstraintUnsatisfied)
    );
}

#[test]
fn product_that_wraps_around_the_field_order_is_accepted() {
    // p = order - 1 and q = 2 give n = order - 2 in the field.
    let top = |l0: u64| {
        Fr::from_limbs(l0, 0x53bd_a402_fffe_5bfe, 0x3339_d808_09a1_d805, 0x73ed_a753_299d_7d48)
            .unwrap()
    };
    let relation = Relation::Factorization(FactorizationCircuit {
        n: Some(top(0xffff_fffe_ffff_ffff)),
        p: Some(top(0xffff_ffff_0000_0000)),
        q: Some(Fr::from_u64(2)),
    });
    let mut rng = source(5);
    let (_, keys) = keys_for(&relation, &mut rng);
    assert!(prove(&relation, &keys.proving, &mut rng).is_ok());
}

#[test]
fn missing_witness_is_reported() {
    let mut rng = source(6);
    let (_, keys) = keys_for(&factorization(3, 5, 15), &mut rng);
    let partial = Relation::Factorization(FactorizationCircuit {
        n: Some(Fr::from_u64(15)),
        p: None,
        q: Some(Fr::from_u64(5)),
    });
    assert_eq!(
        prove(&partial, &keys.proving, &mut rng).err(),
        Some(ProveError::Synthesis(OwnSynthesisError::AssignmentMissing))
    );
}

#[test]
fn key_of_another_shape_is_refused() {
    let mut rng = source(7);
    let (_, keys) = keys_for(&factorization(3, 5, 15), &mut rng);
    let outer = Relation::Verifier(VerifierCircuit {
        proof: Some(Proof::from_bytes(vec![0u8; PROOF_BYTES]).unwrap()),
        public_input: Some(Fr::one()),
    });
    assert_eq!(prove(&outer, &keys.proving, &mut rng).err(), Some(ProveError::ShapeMismatch));
}

#[test]
fn flipping_a_bit_of_the_proof_never_verifies() {
    let mut rng = source(8);
    let relation = factorization(17, 23, 391);
    let (system, keys) = keys_for(&relation, &mut rng);
    let job = prove(&relation, &keys.proving, &mut rng).unwrap();
    let bytes = finish(&system, &keys.proving, &job).to_bytes();
    for at in [0usize, 47, 48, 95, 96, 200, 287, 288, 383] {
        for bit in [0u8, 7] {
            let mut tampered = bytes.clone();
            tampered[at] ^= 1 << bit;
            let answer = verify_bytes(tampered, &job.public_inputs, &keys.verifying);
            assert!(
                answer == Ok(false) || answer == Err(VerifyError::MalformedProof),
                "byte {at} bit {bit}: {answer:?}"
            );
        }
    }
}

#[test]
fn artifacts_survive_a_round_trip() {
    let mut rng = source(9);
    let relation = factorization(17, 23, 391);
    let (system, keys) = keys_for(&relation, &mut rng);
    let job = prove(&relation, &keys.proving, &mut rng).unwrap();
    let proof = finish(&system, &keys.proving, &job);

    let proof_again = Proof::from_bytes(proof.to_bytes()).unwrap();
    let verifying_again = VerifyingKey::from_bytes(keys.verifying.to_bytes()).unwrap();
    let proving_again = ProvingKey::from_bytes(keys.proving.to_bytes()).unwrap();
    assert_eq!(proof_again.to_bytes(), proof.to_bytes());
    assert_eq!(verifying_again.to_bytes(), keys.verifying.to_bytes());
    assert_eq!(proving_again.to_bytes(), keys.proving.to_bytes());
    assert_eq!(verify(&proof_again, &job.public_inputs, &verifying_again), Ok(true));

    let second = prove(&relation, &proving_again, &mut rng).unwrap();
    let other = finish(&system, &proving_again, &second);
    assert_eq!(verify(&other, &second.public_inputs, &keys.verifying), Ok(true));
}

#[test]
fn wrong_number_of_inputs_is_malformed() {
    let mut rng = source(10);
    let relation = factorization(17, 23, 391);
    let (system, keys) = keys_for(&relation, &mut rng);
    let job = prove(&relation, &keys.proving, &mut rng).unwrap();
    let proof = finish(&system, &keys.proving, &job);
    assert_eq!(verify(&proof, &vec![], &keys.verifying), Err(VerifyError::MalformedProof));
    let two = vec![Fr::from_u64(391), Fr::one()];
    assert_eq!(verify(&proof, &two, &keys.verifying), Err(VerifyError::MalformedProof));
}

#[test]
fn wrong_number_of_proof_bytes_is_malformed() {
    let mut rng = source(11);
    let (_, keys) = keys_for(&factorization(17, 23, 391), &mut rng);
    let inputs = vec![Fr::from_u64(391)];
    assert_eq!(
        verify_bytes(vec![0u8; 383], &inputs, &keys.verifying),
        Err(VerifyError::MalformedProof)
    );
    assert_eq!(verify_bytes(vec![], &inputs, &keys.verifying), Err(VerifyError::MalformedProof));
    assert_eq!(Proof::from_bytes(vec![0u8; 385]).err(), Some(ProofError::WrongLength));
    // Bytes of the right length that are no points are refused as well.
    assert_eq!(
        verify_bytes(vec![0xffu8; PROOF_BYTES], &inputs, &keys.verifying),
        Err(VerifyError::MalformedProof)
    );
}

#[test]
fn keys_that_are_not_keys_are_refused() {
    let mut rng = source(12);
    let (system, keys) = keys_for(&factorization(17, 23, 391), &mut rng);
    assert_eq!(ProvingKey::from_bytes(vec![]).err(), Some(KeyError::Malformed));
    assert_eq!(VerifyingKey::from_bytes(vec![0u8; 867]).err(), Some(KeyError::Malformed));
    let mut short = keys.verifying.to_bytes();
    short.pop();
    assert_eq!(VerifyingKey::from_bytes(short).err(), Some(KeyError::Malformed));
    let mut bent = keys.verifying.to_bytes();
    bent[5] ^= 1;
    assert_eq!(VerifyingKey::from_bytes(bent).err(), Some(KeyError::InvalidPoint));
    // A verifying key is no proving key.
    assert_eq!(
        setup::derive(&system, keys.verifying.to_bytes()).err(),
        Some(SetupError::Key(KeyError::Malformed))
    );
}

#[test]
fn parameters_with_a_bent_point_are_refused() {
    let mut rng = source(23);
    let system = shape(&factorization(1, 1, 1)).unwrap();
    let mut bytes = parameters_for(&system, &mut rng);
    bytes[100] ^= 1;
    assert_eq!(setup::derive(&system, bytes).err(), Some(SetupError::Key(KeyError::InvalidPoint)));
}

#[test]
fn parameters_with_a_bent_point_in_a_list_are_refused() {
    let mut rng = source(27);
    let system = shape(&factorization(1, 1, 1)).unwrap();
    let mut bytes = parameters_for(&system, &mut rng);
    let last = bytes.len() - 1;
    bytes[last] ^= 1;
    assert_eq!(ProvingKey::from_bytes(bytes.clone()).err(), Some(KeyError::InvalidPoint));
    assert_eq!(setup::derive(&system, bytes).err(), Some(SetupError::Key(KeyError::InvalidPoint)));
}

#[test]
fn parameters_of_another_shape_are_refused() {
    let mut rng = source(13);
    let inner = shape(&factorization(1, 1, 1)).unwrap();
    let outer = shape(&Relation::Verifier(VerifierCircuit::without_witness())).unwrap();
    let bytes = parameters_for(&outer, &mut rng);
    assert_eq!(setup::derive(&inner, bytes).err(), Some(SetupError::ShapeMismatch));
}

#[test]
fn same_trapdoor_gives_same_keys() {
    let relation = factorization(17, 23, 391);
    let (_, first) = keys_for(&relation, &mut source(14));
    let (_, second) = keys_for(&relation, &mut source(14));
    let (_, third) = keys_for(&relation, &mut source(15));
    assert_eq!(first.proving.to_bytes(), second.proving.to_bytes());
    assert_eq!(first.verifying.to_bytes(), second.verifying.to_bytes());
    assert_ne!(first.verifying.to_bytes(), third.verifying.to_bytes());
}

#[test]
fn empty_system_has_no_shape() {
    let cs = ConstraintSystem::new(Mode::Shape);
    assert_eq!(setup::freeze(cs).err(), Some(SetupError::ShapeEmpty));
    let mut rng = source(16);
    let (_, keys) = keys_for(&factorization(17, 23, 391), &mut rng);
    let empty = ConstraintSystem::new(Mode::Shape);
    assert_eq!(setup::derive(&empty, keys.proving.to_bytes()).err(), Some(SetupError::ShapeEmpty));
}

#[test]
fn placeholder_gadget_over_a_factorization_proof() {
    let mut rng = source(17);
    let relation = factorization(17, 23, 391);
    let (system, keys) = keys_for(&relation, &mut rng);
    let job = prove(&relation, &keys.proving, &mut rng).unwrap();
    let inner = finish(&system, &keys.proving, &job);
    assert_eq!(verify(&inner, &job.public_inputs, &keys.verifying), Ok(true));

    let outer = Relation::Verifier(VerifierCircuit {
        proof: Some(inner.clone()),
        public_input: Some(Fr::one()),
    });
    let (outer_system, outer_keys) = keys_for(&outer, &mut rng);
    assert_eq!(outer_system.num_public(), 9);
    assert_eq!(outer_system.num_private(), 0);
    assert_eq!(outer_system.num_constraints(), 1);
    let outer_job = prove(&outer, &outer_keys.proving, &mut rng).unwrap();
    assert_eq!(outer_job.public_inputs.len(), 9);
    for k in 0..8 {
        assert_eq!(outer_job.public_inputs[k], inner.component(k));
    }
    assert_eq!(outer_job.public_inputs[8], Fr::one());
    let outer_proof = finish(&outer_system, &outer_keys.proving, &outer_job);
    assert_eq!(verify(&outer_proof, &outer_job.public_inputs, &outer_keys.verifying), Ok(true));

    // The gadget asserts nothing about the inner proof: an outer proof over
    // bytes that are no proof at all verifies just as well.
    let junk = Relation::Verifier(VerifierCircuit {
        proof: Some(Proof::from_bytes(vec![7u8; PROOF_BYTES]).unwrap()),
        public_input: Some(Fr::one()),
    });
    let junk_job = prove(&junk, &outer_keys.proving, &mut rng).unwrap();
    let junk_proof = finish(&outer_system, &outer_keys.proving, &junk_job);
    assert_eq!(verify(&junk_proof, &junk_job.public_inputs, &outer_keys.verifying), Ok(true));

    // Its one constraint holds the public input to 1.
    let two = Relation::Verifier(VerifierCircuit {
        proof: Some(inner),
        public_input: Some(Fr::from_u64(2)),
    });
    assert_eq!(
        prove(&two, &outer_keys.proving, &mut rng).err(),
        Some(ProveError::ConstraintUnsatisfied)
    );
}

#[test]
fn gated_factorization_is_proved_and_verified() {
    let mut rng = source(18);
    let circuit = gated::FactorizationCircuit {
        a: Some(Fr::from_u64(3)),
        b: Some(Fr::from_u64(5)),
        n: Fr::from_u64(15),
    };
    let blank = Relation::Gated(circuit.without_witnesses());
    let (system, keys) = keys_for(&blank, &mut rng);
    let relation = Relation::Gated(circuit);
    let job = prove(&relation, &keys.proving, &mut rng).unwrap();
    let proof = finish(&system, &keys.proving, &job);
    assert_eq!(job.public_inputs, circuit.instances()[0]);
    assert_eq!(verify(&proof, &job.public_inputs, &keys.verifying), Ok(true));
    assert_eq!(verify(&proof, &vec![Fr::from_u64(16)], &keys.verifying), Ok(false));
}

#[test]
fn factorization_from_gates_is_proved_and_verified() {
    let mut rng = source(19);
    let relation = Relation::Targets {
        a: Some(Fr::from_u64(3)),
        b: Some(Fr::from_u64(5)),
        n: Some(Fr::from_u64(15)),
    };
    let (system, keys) = keys_for(&relation, &mut rng);
    let job = prove(&relation, &keys.proving, &mut rng).unwrap();
    let proof = finish(&system, &keys.proving, &job);
    assert_eq!(verify(&proof, &vec![Fr::from_u64(15)], &keys.verifying), Ok(true));
}

#[test]
fn one_key_pair_serves_the_base_case_and_the_next_step() {
    let mut rng = source(20);
    let n = Fr::from_u64(15);
    let (system, keys) = keys_for(&Relation::Cyclic(CyclicCircuit::without_witness()), &mut rng);

    let base = CyclicCircuit::base_case(n);
    let base_job = prove(&Relation::Cyclic(base), &keys.proving, &mut rng).unwrap();
    let base_proof = finish(&system, &keys.proving, &base_job);
    assert_eq!(base_job.public_inputs, vec![n, n, n]);
    assert_eq!(verify(&base_proof, &base_job.public_inputs, &keys.verifying), Ok(true));

    let claim = base.claim().unwrap();
    let step = CyclicCircuit::recursive_step(n, &claim, &claim);
    let step_job = prove(&Relation::Cyclic(step), &keys.proving, &mut rng).unwrap();
    let step_proof = finish(&system, &keys.proving, &step_job);
    assert_eq!(step_job.public_inputs, vec![n, Fr::from_u64(30), n]);
    assert_eq!(verify(&step_proof, &step_job.public_inputs, &keys.verifying), Ok(true));
    assert_eq!(verify(&step_proof, &base_job.public_inputs, &keys.verifying), Ok(false));
}

#[test]
fn two_proofs_of_one_statement_differ() {
    let mut rng = source(21);
    let relation = factorization(17, 23, 391);
    let (system, keys) = keys_for(&relation, &mut rng);
    let first = prove(&relation, &keys.proving, &mut rng).unwrap();
    let second = prove(&relation, &keys.proving, &mut rng).unwrap();
    assert_ne!((first.r, first.s), (second.r, second.s));
    let a = finish(&system, &keys.proving, &first);
    let b = finish(&system, &keys.proving, &second);
    assert_ne!(a.to_bytes(), b.to_bytes());
    assert!(RandomnessSource::from_os().is_some());
}

#[test]
fn outer_proof_is_prepared_only_over_an_accepted_inner_proof() {
    let mut rng = source(22);
    let relation = factorization(17, 23, 391);
    let (system, keys) = keys_for(&relation, &mut rng);
    let job = prove(&relation, &keys.proving, &mut rng).unwrap();
    let inner = finish(&system, &keys.proving, &job);
    let (outer_system, outer_keys) =
        keys_for(&Relation::Verifier(VerifierCircuit::without_witness()), &mut rng);

    let outer_job = prove_over(
        &inner,
        &job.public_inputs,
        &keys.verifying,
        Fr::one(),
        &outer_keys.proving,
        &mut rng,
    )
    .unwrap();
    let outer = finish(&outer_system, &outer_keys.proving, &outer_job);
    assert_eq!(verify(&outer, &outer_job.public_inputs, &outer_keys.verifying), Ok(true));

    // The inner proof does not verify for another input.
    let other = vec![Fr::from_u64(392)];
    assert_eq!(
        prove_over(&inner, &other, &keys.verifying, Fr::one(), &outer_keys.proving, &mut rng)
            .err(),
        Some(ProveError::InnerProofRejected)
    );
    // Nor do bytes that are no proof, nor a proof with too many inputs.
    let junk = Proof::from_bytes(vec![7u8; PROOF_BYTES]).unwrap();
    assert_eq!(
        prove_over(
            &junk,
            &job.public_inputs,
            &keys.verifying,
            Fr::one(),
            &outer_keys.proving,
            &mut rng
        )
        .err(),
        Some(ProveError::InnerProofRejected)
    );
    assert_eq!(
        prove_over(&inner, &vec![], &keys.verifying, Fr::one(), &outer_keys.proving, &mut rng)
            .err(),
        Some(ProveError::InnerProofRejected)
    );
    // An accepted inner proof does not excuse a wrong public input.
    assert_eq!(
        prove_over(
            &inner,
            &job.public_inputs,
            &keys.verifying,
            Fr::from_u64(2),
            &outer_keys.proving,
            &mut rng
        )
        .err(),
        Some(ProveError::ConstraintUnsatisfied)
    );
}

#[test]
fn verdicts_are_definite() {
    assert_eq!(conclude(Some(true)), Ok(true));
    assert_eq!(conclude(Some(false)), Ok(false));
    assert_eq!(conclude(None), Err(VerifyError::MalformedProof));
    assert_eq!(guard(Ok(true)), Ok(()));
    assert_eq!(guard(Ok(false)), Err(ProveError::InnerProofRejected));
    assert_eq!(guard(Err(VerifyError::MalformedProof)), Err(ProveError::InnerProofRejected));
}

#[test]
fn coordinates_are_read_in_the_order_of_the_points() {
    // Every coordinate holds its own offset in its last byte.
    let mut bytes = vec![0u8; PROOF_BYTES];
    for k in 0..8 {
        bytes[48 * k + 47] = k as u8 + 1;
    }
    let proof = Proof::from_bytes(bytes).unwrap();
    let expected = [1u64, 2, 4, 3, 6, 5, 7, 8];
    for k in 0..8 {
        assert_eq!(proof.component(k), Fr::from_u64(expected[k]));
    }
    // A coordinate above the order of the scalar field is reduced.
    let mut large = vec![0u8; PROOF_BYTES];
    large[15] = 1; // a.x = 2^256
    let reduced = Proof::from_bytes(large).unwrap().component(0);
    let mut wide = [0u8; 64];
    wide[32] = 1;
    assert_eq!(reduced, Fr::from_wide(&wide));
    assert_ne!(reduced, Fr::zero());
}

/// `(x + 3) * x = y` for a private `x` and a public `y`.
fn hand_built(mode: Mode, x: u64, y: u64) -> ConstraintSystem {
    let mut cs = ConstraintSystem::new(mode);
    let out = cs.alloc_public(Some(Fr::from_u64(y))).unwrap();
    let x = cs.alloc_private(Some(Fr::from_u64(x))).unwrap();
    cs.enforce(
        LinearCombination::from_variable(x).add_constant(Fr::from_u64(3)),
        LinearCombination::from_variable(x),
        LinearCombination::from_variable(out),
    )
    .unwrap();
    cs
}

#[test]
fn hand_built_system_with_a_constant_is_proved_and_verified() {
    let mut rng = source(24);
    let system = setup::freeze(hand_built(Mode::Shape, 0, 0)).unwrap();
    let keys = setup::derive(&system, parameters_for(&system, &mut rng)).unwrap();

    let witness = hand_built(Mode::Witness, 4, 28);
    assert!(witness.is_satisfied());
    let job = prove_system(&witness, &keys.proving, &mut rng).unwrap();
    assert_eq!(job.public_inputs, vec![Fr::from_u64(28)]);
    assert_eq!(job.witness, vec![Fr::from_u64(4)]);
    let proof = finish(&system, &keys.proving, &job);
    assert_eq!(verify(&proof, &job.public_inputs, &keys.verifying), Ok(true));
    assert_eq!(verify(&proof, &vec![Fr::from_u64(27)], &keys.verifying), Ok(false));

    let wrong = hand_built(Mode::Witness, 4, 27);
    assert_eq!(wrong.first_unsatisfied(), Some(0));
    assert_eq!(
        prove_system(&wrong, &keys.proving, &mut rng).err(),
        Some(ProveError::ConstraintUnsatisfied)
    );
}

#[test]
fn copies_keep_what_they_copy() {
    let proof = Proof::from_bytes((0..PROOF_BYTES).map(|i| i as u8).collect()).unwrap();
    let circuit = VerifierCircuit { proof: Some(proof.clone()), public_input: Some(Fr::one()) };
    let copy = circuit.clone();
    assert_eq!(copy.proof.unwrap().to_bytes(), proof.to_bytes());
    assert_eq!(copy.public_input, Some(Fr::one()));
    let system = hand_built(Mode::Witness, 4, 28);
    let c = system.constraint(0).clone();
    assert_eq!(c.a.constant(), Some(Fr::from_u64(3)));
    assert_eq!(c.a.len(), 1);
    assert_eq!(c.c.term(0).variable, Variable::Public(0));
}

#[test]
fn only_proofs_that_verify_are_released() {
    let mut rng = source(25);
    let relation = factorization(17, 23, 391);
    let (system, keys) = keys_for(&relation, &mut rng);
    let job = prove(&relation, &keys.proving, &mut rng).unwrap();
    let bytes = finish(&system, &keys.proving, &job).to_bytes();

    let released = release(bytes.clone(), &job, &keys.verifying).unwrap();
    assert_eq!(released.to_bytes(), bytes);
    assert_eq!(verify(&released, &job.public_inputs, &keys.verifying), Ok(true));

    let mut tampered = bytes.clone();
    tampered[383] ^= 1;
    assert_eq!(
        release(tampered, &job, &keys.verifying).err(),
        Some(ProveError::ProofRejected)
    );
    assert_eq!(
        release(bytes[..100].to_vec(), &job, &keys.verifying).err(),
        Some(ProveError::ProofRejected)
    );
    // A proof is released for the inputs of its own job only.
    let other_relation = factorization(1, 391, 391);
    let other = ProvingJob { public_inputs: vec![Fr::from_u64(390)], ..job };
    assert_eq!(release(bytes, &other, &keys.verifying).err(), Some(ProveError::ProofRejected));
    assert!(prove(&other_relation, &keys.proving, &mut rng).is_ok());
}

#[test]
fn blinding_factors_are_the_next_two_draws() {
    let mut rng = source(26);
    let relation = factorization(17, 23, 391);
    let (_, keys) = keys_for(&relation, &mut rng);
    let mut ahead = RandomnessSource::from_seed([26; 32]);
    for _ in 0..7 {
        ahead.next_element();
    }
    // A refused job draws nothing.
    let wrong = factorization(17, 23, 392);
    assert!(prove(&wrong, &keys.proving, &mut rng).is_err());
    let job = prove(&relation, &keys.proving, &mut rng).unwrap();
    assert_eq!(job.r, ahead.next_element());
    assert_eq!(job.s, ahead.next_element());
    assert_eq!(rng.next_element(), ahead.next_element());
}
