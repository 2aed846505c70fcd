use recursive_zkp::builder::{
    add_virtual_bool_target_safe, add_virtual_public_input, add_virtual_target,
    common_data_for_recursion, connect, create_factorization_circuit, mul_add, select,
};
use recursive_zkp::circuit::FactorizationCircuit;
use recursive_zkp::cs::{ConstraintSystem, Mode, SynthesisError};
use recursive_zkp::cyclic::{CyclicCircuit, RecursionState, StepClaim};
use recursive_zkp::artifact::{g1_coordinates, g2_coordinates, Proof, ProofError, PROOF_BYTES};
use recursive_zkp::field::Fr;
use recursive_zkp::gadget::VerifierCircuit;
use recursive_zkp::gated;
use recursive_zkp::lc::{LinearCombination, Variable};
use recursive_zkp::relation::Relation;

fn witness_of(relation: &Relation) -> ConstraintSystem {
    let mut cs = ConstraintSystem::new(Mode::Witness);
    relation.synthesize(&mut cs).unwrap();
    cs
}

#[test]
fn test_factorization_circuit() {
    let circuit = gated::FactorizationCircuit {
        a: Some(Fr::from_u64(3)),
        b: Some(Fr::from_u64(5)),
        n: Fr::from_u64(15),
    };
    let mut cs = ConstraintSystem::new(Mode::Witness);
    let row = circuit.synthesize(&mut cs).unwrap();
    assert!(cs.is_satisfied());
    assert_eq!(cs.public_inputs(), circuit.instances()[0]);
    assert_eq!(circuit.num_instance(), vec![1]);
    assert_eq!(row.n, Variable::Public(0));
    assert_eq!(row.selector, Variable::Private(0));
    assert_eq!(cs.value(row.ab), Some(Fr::from_u64(15)));
    assert_eq!(cs.num_constraints(), 4);
    assert_eq!(cs.num_private(), 6);
}

#[test]
fn gated_circuit_rejects_a_wrong_instance() {
    let circuit = gated::FactorizationCircuit {
        a: Some(Fr::from_u64(3)),
        b: Some(Fr::from_u64(5)),
        n: Fr::from_u64(16),
    };
    let mut cs = ConstraintSystem::new(Mode::Witness);
    circuit.synthesize(&mut cs).unwrap();
    assert!(!cs.is_satisfied());
    assert_eq!(cs.first_unsatisfied(), Some(3));
}

#[test]
fn gated_circuit_without_witnesses_has_the_same_structure() {
    let circuit = gated::FactorizationCircuit {
        a: Some(Fr::from_u64(3)),
        b: Some(Fr::from_u64(5)),
        n: Fr::from_u64(15),
    };
    let blank = circuit.without_witnesses();
    assert_eq!(blank.a, None);
    assert_eq!(blank.b, None);
    assert_eq!(blank.n, Fr::zero());
    let mut shape = ConstraintSystem::new(Mode::Shape);
    blank.synthesize(&mut shape).unwrap();
    let mut full = ConstraintSystem::new(Mode::Witness);
    circuit.synthesize(&mut full).unwrap();
    assert_eq!(shape.num_public(), full.num_public());
    assert_eq!(shape.num_private(), full.num_private());
    assert_eq!(shape.num_constraints(), full.num_constraints());
    // In witness mode the unknown factors are missed.
    let mut cs = ConstraintSystem::new(Mode::Witness);
    assert_eq!(blank.synthesize(&mut cs).err(), Some(SynthesisError::AssignmentMissing));
    assert_eq!(cs.num_private(), 0);
}

#[test]
fn gates_with_the_selector_off_say_nothing() {
    let mut cs = ConstraintSystem::new(Mode::Witness);
    let selector = cs.alloc_private(Some(Fr::zero())).unwrap();
    let a = cs.alloc_private(Some(Fr::from_u64(3))).unwrap();
    let b = cs.alloc_private(Some(Fr::from_u64(5))).unwrap();
    let ab = cs.alloc_private(Some(Fr::from_u64(99))).unwrap();
    let n = cs.alloc_public(Some(Fr::from_u64(7))).unwrap();
    let row = gated::FactorizationConfig { a, b, ab, n, selector };
    gated::FactorizationCircuit::configure(&mut cs, &row).unwrap();
    assert!(cs.is_satisfied());
    let foreign = gated::FactorizationConfig { a: Variable::Private(40), ..row };
    assert_eq!(
        gated::FactorizationCircuit::configure(&mut cs, &foreign).err(),
        Some(SynthesisError::ShapeMismatch)
    );
}

#[test]
fn single_constraint_circuit_in_both_modes() {
    let circuit = FactorizationCircuit {
        n: Some(Fr::from_u64(391)),
        p: Some(Fr::from_u64(17)),
        q: Some(Fr::from_u64(23)),
    };
    let mut witness = ConstraintSystem::new(Mode::Witness);
    circuit.synthesize(&mut witness).unwrap();
    assert!(witness.is_satisfied());
    assert_eq!(witness.public_inputs(), vec![Fr::from_u64(391)]);
    assert_eq!(witness.witness(), vec![Fr::from_u64(17), Fr::from_u64(23)]);

    let mut shape = ConstraintSystem::new(Mode::Shape);
    FactorizationCircuit::without_witness().synthesize(&mut shape).unwrap();
    assert_eq!(shape.num_public(), 1);
    assert_eq!(shape.num_private(), 2);
    assert_eq!(shape.num_constraints(), 1);
    assert_eq!(shape.public_value(0), None);
    // Values given in shape mode are not kept.
    let mut ignored = ConstraintSystem::new(Mode::Shape);
    circuit.synthesize(&mut ignored).unwrap();
    assert_eq!(ignored.private_value(1), None);
    let c = shape.constraint(0);
    assert_eq!(c.a.len(), 1);
    assert_eq!(c.a.term(0).variable, Variable::Private(0));
    assert_eq!(c.b.term(0).variable, Variable::Private(1));
    assert_eq!(c.c.term(0).variable, Variable::Public(0));
    assert_eq!(c.c.term(0).coefficient, Fr::one());
}

#[test]
fn frozen_system_takes_nothing_more() {
    let mut cs = ConstraintSystem::new(Mode::Shape);
    let v = cs.alloc_private(None).unwrap();
    cs.freeze();
    assert!(cs.is_frozen());
    assert_eq!(cs.alloc_public(None).err(), Some(SynthesisError::SystemFrozen));
    assert_eq!(cs.alloc_private(None).err(), Some(SynthesisError::SystemFrozen));
    let lc = || LinearCombination::from_variable(v);
    assert_eq!(cs.enforce(lc(), lc(), lc()).err(), Some(SynthesisError::SystemFrozen));
    assert_eq!(
        FactorizationCircuit::without_witness().synthesize(&mut cs).err(),
        Some(SynthesisError::SystemFrozen)
    );
    assert_eq!(cs.num_private(), 1);
    assert_eq!(cs.num_constraints(), 0);
}

#[test]
fn constraint_over_a_foreign_variable_is_a_shape_mismatch() {
    let mut cs = ConstraintSystem::new(Mode::Witness);
    let v = cs.alloc_private(Some(Fr::one())).unwrap();
    let own = || LinearCombination::from_variable(v);
    let foreign = LinearCombination::from_variable(Variable::Private(1));
    assert_eq!(cs.enforce(own(), own(), foreign).err(), Some(SynthesisError::ShapeMismatch));
    let public = LinearCombination::from_variable(Variable::Public(0));
    assert_eq!(cs.enforce(public, own(), own()).err(), Some(SynthesisError::ShapeMismatch));
    assert_eq!(cs.num_constraints(), 0);
    assert_eq!(cs.enforce(own(), own(), own()), Ok(()));
    assert!(cs.is_satisfied());
}

#[test]
fn witness_mode_asks_for_every_value() {
    let mut cs = ConstraintSystem::new(Mode::Witness);
    assert_eq!(cs.alloc_public(None).err(), Some(SynthesisError::AssignmentMissing));
    assert_eq!(cs.alloc_private(None).err(), Some(SynthesisError::AssignmentMissing));
    assert_eq!(cs.num_public(), 0);
    let mut shape = ConstraintSystem::new(Mode::Shape);
    assert_eq!(shape.alloc_public(None), Ok(Variable::Public(0)));
    assert_eq!(shape.alloc_public(None), Ok(Variable::Public(1)));
    assert_eq!(shape.alloc_private(None), Ok(Variable::Private(0)));
}

#[test]
fn terms_of_one_variable_are_summed() {
    let x = Variable::Private(0);
    let y = Variable::Public(3);
    let lc = LinearCombination::zero()
        .add_term(x, Fr::from_u64(2))
        .add_term(y, Fr::from_u64(5))
        .add_term(x, Fr::from_u64(40))
        .add_constant(Fr::from_u64(7))
        .add_constant(Fr::from_u64(1));
    assert_eq!(lc.len(), 2);
    assert_eq!(lc.term(0).variable, x);
    assert_eq!(lc.term(0).coefficient, Fr::from_u64(42));
    assert_eq!(lc.term(1).variable, y);
    assert_eq!(lc.term(1).coefficient, Fr::from_u64(5));
    assert_eq!(lc.constant(), Some(Fr::from_u64(8)));
    assert!(lc.fits(4, 1));
    assert!(!lc.fits(3, 1));
    assert!(!lc.fits(4, 0));
    let public = vec![Some(Fr::from_u64(10)); 4];
    let private = vec![Some(Fr::from_u64(3))];
    // 8 + 42 * 3 + 5 * 10
    assert_eq!(lc.clone().evaluate(&public, &private), Fr::from_u64(184));
    assert_eq!(LinearCombination::zero().constant(), None);
}

#[test]
fn gates_compute_their_values() {
    let mut cs = ConstraintSystem::new(Mode::Witness);
    let a = add_virtual_target(&mut cs, Some(Fr::from_u64(6))).unwrap();
    let b = add_virtual_target(&mut cs, Some(Fr::from_u64(7))).unwrap();
    let c = add_virtual_public_input(&mut cs, Some(Fr::from_u64(100))).unwrap();
    let yes = add_virtual_bool_target_safe(&mut cs, Some(true)).unwrap();
    let no = add_virtual_bool_target_safe(&mut cs, Some(false)).unwrap();
    let product = recursive_zkp::builder::mul(&mut cs, a, b).unwrap();
    assert_eq!(cs.value(product), Some(Fr::from_u64(42)));
    let total = mul_add(&mut cs, a, b, c).unwrap();
    assert_eq!(cs.value(total), Some(Fr::from_u64(142)));
    let first = select(&mut cs, yes, a, b).unwrap();
    assert_eq!(cs.value(first), Some(Fr::from_u64(6)));
    let second = select(&mut cs, no, a, b).unwrap();
    assert_eq!(cs.value(second), Some(Fr::from_u64(7)));
    connect(&mut cs, first, a).unwrap();
    connect(&mut cs, second, b).unwrap();
    assert!(cs.is_satisfied());
    let before = cs.num_constraints();
    connect(&mut cs, a, b).unwrap();
    assert_eq!(cs.first_unsatisfied(), Some(before));
    assert_eq!(
        select(&mut cs, Variable::Private(1000), a, b).err(),
        Some(SynthesisError::ShapeMismatch)
    );
    assert_eq!(
        mul_add(&mut cs, a, Variable::Public(9), c).err(),
        Some(SynthesisError::ShapeMismatch)
    );
}

#[test]
fn flag_that_is_not_a_truth_value_is_caught() {
    let mut cs = ConstraintSystem::new(Mode::Witness);
    let two = cs.alloc_private(Some(Fr::from_u64(2))).unwrap();
    let lc = || LinearCombination::from_variable(two);
    cs.enforce(lc(), lc(), lc()).unwrap();
    assert!(!cs.is_satisfied());
    let mut shape = ConstraintSystem::new(Mode::Shape);
    assert_eq!(add_virtual_bool_target_safe(&mut shape, None), Ok(Variable::Private(0)));
    assert_eq!(shape.num_constraints(), 1);
}

#[test]
fn factorization_from_gates() {
    let mut cs = ConstraintSystem::new(Mode::Witness);
    let (a, b, ab) = create_factorization_circuit(
        &mut cs,
        Some(Fr::from_u64(3)),
        Some(Fr::from_u64(5)),
        Some(Fr::from_u64(15)),
    )
    .unwrap();
    assert_eq!((a, b, ab), (Variable::Private(0), Variable::Private(1), Variable::Private(2)));
    assert_eq!(cs.value(ab), Some(Fr::from_u64(15)));
    assert!(cs.is_satisfied());
    assert_eq!(cs.public_inputs(), vec![Fr::from_u64(15)]);

    let wrong = witness_of(&Relation::Targets {
        a: Some(Fr::from_u64(3)),
        b: Some(Fr::from_u64(5)),
        n: Some(Fr::from_u64(14)),
    });
    assert_eq!(wrong.first_unsatisfied(), Some(1));
    let mut partial = ConstraintSystem::new(Mode::Witness);
    assert_eq!(
        create_factorization_circuit(&mut partial, Some(Fr::one()), None, Some(Fr::one())).err(),
        Some(SynthesisError::AssignmentMissing)
    );
}

#[test]
fn common_data_has_two_public_inputs() {
    let (common, a, b) = common_data_for_recursion();
    assert_eq!((a, b), (Variable::Private(0), Variable::Private(1)));
    assert!(common.is_frozen());
    assert_eq!(common.mode(), Mode::Shape);
    assert_eq!(common.num_public(), 2);
    assert_eq!(common.num_private(), 3);
    assert_eq!(common.num_constraints(), 3);
}

#[test]
fn base_case_outputs_its_initial_value() {
    let n = Fr::from_u64(15);
    let state = RecursionState::BaseCase;
    assert!(!state.verifies());
    let dummy = StepClaim { initial_value: Fr::zero(), output_value: Fr::zero() };
    let step = CyclicCircuit::next_step(state, n, &dummy, &dummy);
    assert_eq!(step.verify_proofs, Some(false));
    assert_eq!(step.claim(), Some(StepClaim { initial_value: n, output_value: n }));
    let cs = witness_of(&Relation::Cyclic(step));
    assert!(cs.is_satisfied());
    assert_eq!(cs.public_inputs(), vec![n, n, n]);
    assert_eq!(cs.num_private(), 9);
    assert_eq!(cs.num_constraints(), 8);
    assert_eq!(state.advance(), RecursionState::RecursiveStep);
}

#[test]
fn recursive_step_adds_the_outputs() {
    let n = Fr::from_u64(15);
    let base = CyclicCircuit::base_case(n).claim().unwrap();
    let state = RecursionState::BaseCase.advance();
    assert!(state.verifies());
    let step = CyclicCircuit::next_step(state, n, &base, &base);
    assert_eq!(step.verify_proofs, Some(true));
    assert_eq!(step.output_value, Some(Fr::from_u64(30)));
    let mut cs = ConstraintSystem::new(Mode::Witness);
    let targets = step.synthesize(&mut cs).unwrap();
    assert!(cs.is_satisfied());
    assert_eq!(cs.value(targets.actual_value_in), Some(Fr::from_u64(15)));
    assert_eq!(cs.value(targets.new_output_value), Some(Fr::from_u64(30)));

    // A step that keeps the output at `n` does not add up.
    let stuck = CyclicCircuit { output_value: Some(n), ..step };
    assert!(!witness_of(&Relation::Cyclic(stuck)).is_satisfied());
    // A step cannot change what the chain started from.
    let moved = CyclicCircuit { initial_value: Some(Fr::from_u64(16)), ..step };
    assert_eq!(witness_of(&Relation::Cyclic(moved)).first_unsatisfied(), Some(1));
}

#[test]
fn cyclic_shape_is_the_same_for_every_step() {
    let mut shape = ConstraintSystem::new(Mode::Shape);
    CyclicCircuit::without_witness().synthesize(&mut shape).unwrap();
    let base = witness_of(&Relation::Cyclic(CyclicCircuit::base_case(Fr::from_u64(15))));
    assert_eq!(shape.num_public(), base.num_public());
    assert_eq!(shape.num_private(), base.num_private());
    assert_eq!(shape.num_constraints(), base.num_constraints());
    let mut cs = ConstraintSystem::new(Mode::Witness);
    assert_eq!(
        CyclicCircuit::without_witness().synthesize(&mut cs).err(),
        Some(SynthesisError::AssignmentMissing)
    );
}

fn numbered_proof() -> Proof {
    Proof::from_bytes((0..PROOF_BYTES).map(|i| (i % 251) as u8).collect()).unwrap()
}

#[test]
fn gadget_without_its_public_input_stops_after_the_coordinates() {
    let proof = numbered_proof();
    let circuit = VerifierCircuit { proof: Some(proof.clone()), public_input: None };
    let mut cs = ConstraintSystem::new(Mode::Witness);
    assert_eq!(circuit.synthesize(&mut cs), Err(SynthesisError::AssignmentMissing));
    assert_eq!(cs.num_public(), 8);
    assert_eq!(cs.num_private(), 0);
    assert_eq!(cs.num_constraints(), 0);
    for k in 0..8 {
        assert_eq!(cs.public_value(k), Some(proof.component(k)));
    }
    // In shape mode nothing is missed.
    let mut shape = ConstraintSystem::new(Mode::Shape);
    assert_eq!(circuit.synthesize(&mut shape), Ok(()));
    assert_eq!(shape.num_public(), 9);
    assert_eq!(shape.num_constraints(), 1);
}

#[test]
fn gadget_without_its_proof_allocates_nothing() {
    for public_input in [None, Some(Fr::one())] {
        let circuit = VerifierCircuit { proof: None, public_input };
        let mut cs = ConstraintSystem::new(Mode::Witness);
        assert_eq!(circuit.synthesize(&mut cs), Err(SynthesisError::AssignmentMissing));
        assert_eq!(cs.num_public(), 0);
        assert_eq!(cs.num_constraints(), 0);
    }
    let full = VerifierCircuit { proof: Some(numbered_proof()), public_input: Some(Fr::one()) };
    let mut frozen = ConstraintSystem::new(Mode::Witness);
    frozen.freeze();
    assert_eq!(full.synthesize(&mut frozen), Err(SynthesisError::SystemFrozen));
    assert_eq!(frozen.num_public(), 0);
}

#[test]
fn factorization_stops_at_the_first_missing_value() {
    let n = Some(Fr::from_u64(15));
    let p = Some(Fr::from_u64(3));
    let q = Some(Fr::from_u64(5));
    let cases = [
        (FactorizationCircuit { n: None, p, q }, 0, 0),
        (FactorizationCircuit { n, p: None, q }, 1, 0),
        (FactorizationCircuit { n, p: None, q: None }, 1, 0),
        (FactorizationCircuit { n, p, q: None }, 1, 1),
    ];
    for (circuit, public, private) in cases {
        let mut cs = ConstraintSystem::new(Mode::Witness);
        assert_eq!(circuit.synthesize(&mut cs), Err(SynthesisError::AssignmentMissing));
        assert_eq!(cs.num_public(), public);
        assert_eq!(cs.num_private(), private);
        assert_eq!(cs.num_constraints(), 0);
    }
    let mut cs = ConstraintSystem::new(Mode::Witness);
    assert_eq!(
        FactorizationCircuit { n, p, q: None }.synthesize(&mut cs).err(),
        Some(SynthesisError::AssignmentMissing)
    );
    assert_eq!(cs.public_value(0), n);
    assert_eq!(cs.private_value(0), p);
}

#[test]
fn coordinates_rebuild_the_proof() {
    let proof = numbered_proof();
    let bytes = proof.to_bytes();
    let coordinates: Vec<Vec<u8>> = (0..8).map(|k| proof.coordinate(k).to_vec()).collect();
    assert_eq!(coordinates[0], bytes[0..48].to_vec());
    assert_eq!(coordinates[2], bytes[144..192].to_vec());
    assert_eq!(coordinates[3], bytes[96..144].to_vec());
    assert_eq!(coordinates[5], bytes[192..240].to_vec());
    assert_eq!(coordinates[7], bytes[336..384].to_vec());
    assert_eq!(Proof::from_coordinates(&coordinates).unwrap().to_bytes(), bytes);

    let (x, y) = g1_coordinates(proof.point_a());
    assert_eq!((x, y), (proof.coordinate(0), proof.coordinate(1)));
    let ((x0, x1), (y0, y1)) = g2_coordinates(proof.point_b());
    assert_eq!((x0, x1), (proof.coordinate(2), proof.coordinate(3)));
    assert_eq!((y0, y1), (proof.coordinate(4), proof.coordinate(5)));
    let (x, y) = g1_coordinates(proof.point_c());
    assert_eq!((x, y), (proof.coordinate(6), proof.coordinate(7)));

    let mut short = coordinates.clone();
    short[4].pop();
    assert_eq!(Proof::from_coordinates(&short).err(), Some(ProofError::WrongLength));
    assert_eq!(
        Proof::from_coordinates(&coordinates[..7].to_vec()).err(),
        Some(ProofError::WrongLength)
    );
}

#[test]
fn flipping_any_bit_changes_the_public_value_of_its_coordinate() {
    let proof = numbered_proof();
    let bytes = proof.to_bytes();
    let blocks = [0usize, 1, 3, 2, 5, 4, 6, 7];
    for at in 0..PROOF_BYTES {
        let k = blocks[at / 48];
        for bit in 0..8 {
            let mut flipped = bytes.clone();
            flipped[at] ^= 1 << bit;
            let other = Proof::from_bytes(flipped).unwrap();
            assert_ne!(other.component(k), proof.component(k), "byte {at} bit {bit}");
            for j in (0..8).filter(|j| *j != k) {
                assert_eq!(other.component(j), proof.component(j));
            }
        }
    }
}

#[test]
fn coordinate_and_coordinate_plus_the_order_give_one_value() {
    // The order of the scalar field, as the last 32 bytes of a coordinate.
    let order = [
        0x73u8, 0xed, 0xa7, 0x53, 0x29, 0x9d, 0x7d, 0x48, 0x33, 0x39, 0xd8, 0x08, 0x09, 0xa1,
        0xd8, 0x05, 0x53, 0xbd, 0xa4, 0x02, 0xff, 0xfe, 0x5b, 0xfe, 0xff, 0xff, 0xff, 0xff, 0x00,
        0x00, 0x00, 0x01,
    ];
    let zero = Proof::from_bytes(vec![0u8; PROOF_BYTES]).unwrap();
    let mut bytes = vec![0u8; PROOF_BYTES];
    bytes[16..48].copy_from_slice(&order);
    let shifted = Proof::from_bytes(bytes).unwrap();
    assert_eq!(shifted.component(0), zero.component(0));
    assert_ne!(shifted.to_bytes(), zero.to_bytes());
}

#[test]
fn next_step_takes_over_both_claims() {
    let n = Fr::from_u64(15);
    let inner = StepClaim { initial_value: Fr::from_u64(15), output_value: Fr::from_u64(40) };
    let other = StepClaim { initial_value: Fr::from_u64(9), output_value: Fr::from_u64(2) };
    let step = CyclicCircuit::next_step(RecursionState::RecursiveStep, n, &inner, &other);
    assert_eq!(step.n, Some(n));
    assert_eq!(step.initial_value, Some(inner.initial_value));
    assert_eq!(step.inner_initial_value, Some(inner.initial_value));
    assert_eq!(step.inner_output_value, Some(inner.output_value));
    assert_eq!(step.other_output_value, Some(other.output_value));
    assert_eq!(step.output_value, Some(Fr::from_u64(42)));
    let base = CyclicCircuit::next_step(RecursionState::BaseCase, n, &inner, &other);
    assert_eq!(base.n, Some(n));
    assert_eq!(base.inner_initial_value, Some(n));
    assert_eq!(base.inner_output_value, Some(Fr::zero()));
    assert_eq!(base.other_output_value, Some(Fr::zero()));
}
