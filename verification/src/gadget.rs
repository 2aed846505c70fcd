//! The recursive verifier gadget, in placeholder mode.
//!
//! The gadget makes the eight coordinates of an inner proof public inputs
//! of an outer circuit, each reduced into the scalar field. The reduction
//! loses the part of a coordinate above the field order, so the public
//! inputs do not determine the inner proof in general; what they do bind
//! is stated in [`crate::binding`]. The gadget does NOT re-state the inner
//! verification equation: its only constraint is `public_input = 1`. A
//! valid outer proof therefore shows nothing about the inner proof's
//! validity, and the gadget is not sound for recursion. It serves to wire
//! circuits together.

use crate::artifact::{component_value, Proof, COMPONENTS};
use crate::cs::{
    value_spec, ConstraintSpec, ConstraintSystem, Mode, SynthesisError, SystemSpec,
};
use crate::field::{modulus, Fr};
use crate::lc::{lemma_eval_variable, Assignment, LcSpec, LinearCombination, Variable};
use vstd::prelude::*;

verus! {

/// The constraint `x * 1 = 1`.
pub open spec fn unit_constraint(x: Variable) -> ConstraintSpec {
    ConstraintSpec {
        a: LcSpec::of_variable(x),
        b: LcSpec::of_constant(1),
        c: LcSpec::of_constant(1),
    }
}

/// `x * 1 = 1` is satisfied exactly when the value of `x` is congruent to 1.
pub proof fn lemma_unit_constraint(x: Variable, values: Assignment)
    ensures
        unit_constraint(x).satisfied(values) <==> values.value_of(x) % modulus() == 1,
{
    lemma_eval_variable(x, values);
    let v = values.value_of(x) % modulus();
    assert(v * 1 == v) by (nonlinear_arith);
}

/// The value kept for the coordinate with number `k` of an optional proof.
pub open spec fn component_of(inner: Option<Seq<u8>>, k: int) -> Option<nat> {
    match inner {
        Some(bytes) => Some(component_value(bytes, k)),
        None => None,
    }
}

/// The system with public variables for the first `count` coordinates of
/// the proof.
pub open spec fn with_components(sys: SystemSpec, inner: Option<Seq<u8>>, count: nat) -> SystemSpec
    decreases count,
{
    if count == 0 {
        sys
    } else {
        with_components(sys, inner, (count - 1) as nat).with_public(
            component_of(inner, count - 1),
        )
    }
}

/// A circuit about an inner proof, in placeholder mode: see the module's
/// description for what it does not show.
#[derive(Debug)]
pub struct VerifierCircuit {
    /// The inner proof.
    pub proof: Option<Proof>,
    /// The public input, which the one constraint holds to 1.
    pub public_input: Option<Fr>,
}

impl Clone for VerifierCircuit {
    fn clone(&self) -> (r: VerifierCircuit)
        ensures
            r.proof_spec() == self.proof_spec(),
            r.public_input == self.public_input,
    {
        VerifierCircuit {
            proof: match &self.proof {
                Some(p) => Some(p.clone()),
                None => None,
            },
            public_input: self.public_input,
        }
    }
}

impl VerifierCircuit {
    /// The encoding of the inner proof, if there is one.
    pub open spec fn proof_spec(self) -> Option<Seq<u8>> {
        match self.proof {
            Some(p) => Some(p@),
            None => None,
        }
    }

    /// Whether the inner proof and the public input are given.
    pub open spec fn complete(self) -> bool {
        self.proof is Some && self.public_input is Some
    }

    /// Whether the public input is congruent to 1.
    pub open spec fn holds(self) -> bool
        recommends
            self.complete(),
    {
        self.public_input->0.value() % modulus() == 1
    }

    /// Why synthesis into `sys` is refused, if it is.
    pub open spec fn synthesis_error(self, sys: SystemSpec) -> Option<SynthesisError> {
        if sys.frozen {
            Some(SynthesisError::SystemFrozen)
        } else if sys.mode == Mode::Witness && !self.complete() {
            Some(SynthesisError::AssignmentMissing)
        } else {
            None
        }
    }

    /// What a refused synthesis leaves. The variables are allocated one
    /// after the other, and the first value that is missed stops the
    /// synthesis: without the inner proof nothing is allocated; with the
    /// inner proof and without the public input the eight coordinates are.
    /// No constraint is emitted either way.
    pub open spec fn refused(self, sys: SystemSpec) -> SystemSpec {
        if !sys.frozen && sys.mode == Mode::Witness && self.proof is Some {
            with_components(sys, self.proof_spec(), COMPONENTS as nat)
        } else {
            sys
        }
    }

    /// The system after synthesis: eight more public variables for the
    /// coordinates of the inner proof, one more for the public input, and
    /// the constraint `public_input * 1 = 1`.
    pub open spec fn synthesized(self, sys: SystemSpec) -> SystemSpec {
        with_components(sys, self.proof_spec(), COMPONENTS as nat).with_public(
            value_spec(self.public_input),
        ).with_constraint(
            unit_constraint(Variable::Public((sys.public.len() + COMPONENTS) as usize)),
        )
    }

    /// The circuit without values, as used to learn its structure.
    pub fn without_witness() -> (c: VerifierCircuit)
        ensures
            c.proof is None && c.public_input is None,
    {
        VerifierCircuit { proof: None, public_input: None }
    }

    /// Allocates the coordinates of the inner proof and the public input
    /// as public variables and enforces `public_input = 1`.
    ///
    /// The same steps are taken in both modes; only in witness mode are the
    /// values read. The first value that is missed stops the synthesis, and
    /// what was allocated before it stays: see [`VerifierCircuit::refused`].
    pub fn synthesize(&self, cs: &mut ConstraintSystem) -> (r: Result<(), SynthesisError>)
        requires
            old(cs).wf(),
        ensures
            final(cs).wf(),
            final(cs)@.mode == old(cs)@.mode,
            final(cs)@.frozen == old(cs)@.frozen,
            match self.synthesis_error(old(cs)@) {
                Some(e) => r == Err::<(), SynthesisError>(e) && final(cs)@ == self.refused(
                    old(cs)@,
                ),
                None => r == Ok::<(), SynthesisError>(()) && final(cs)@ == self.synthesized(
                    old(cs)@,
                ),
            },
    {
        let ghost start = cs@;
        let ghost inner = self.proof_spec();
        let mut k: usize = 0;
        while k < COMPONENTS
            invariant
                k <= COMPONENTS,
                cs.wf(),
                start == old(cs)@,
                inner == self.proof_spec(),
                cs@ == with_components(start, inner, k as nat),
                cs@.frozen == start.frozen,
                cs@.mode == start.mode,
                cs@.public.len() == start.public.len() + k,
                cs@.private == start.private,
                k > 0 ==> !start.frozen,
                k > 0 && start.mode == Mode::Witness ==> self.proof is Some,
            decreases COMPONENTS - k,
        {
            let value = match &self.proof {
                Some(p) => Some(p.component(k)),
                None => None,
            };
            assert(value_spec(value) == component_of(inner, k as int));
            match cs.alloc_public(value) {
                Ok(_) => {},
                Err(e) => { return Err(e); },
            }
            k += 1;
        }
        let input = match cs.alloc_public(self.public_input) {
            Ok(v) => v,
            Err(e) => { return Err(e); },
        };
        cs.enforce(
            LinearCombination::from_variable(input),
            LinearCombination::from_constant(Fr::one()),
            LinearCombination::from_constant(Fr::one()),
        )
    }
}

/// The public variables that the coordinates take do not touch what was
/// there, and they all have values where the inner proof is given.
pub proof fn lemma_with_components(sys: SystemSpec, inner: Option<Seq<u8>>, count: nat)
    ensures
        with_components(sys, inner, count).mode == sys.mode,
        with_components(sys, inner, count).frozen == sys.frozen,
        with_components(sys, inner, count).private == sys.private,
        with_components(sys, inner, count).constraints == sys.constraints,
        with_components(sys, inner, count).public.len() == sys.public.len() + count,
        forall|i: int|
            0 <= i < sys.public.len() ==> with_components(sys, inner, count).public[i]
                == sys.public[i],
        forall|k: int|
            0 <= k < count ==> with_components(sys, inner, count).public[sys.public.len() + k]
                == sys.kept(component_of(inner, k)),
    decreases count,
{
    if count > 0 {
        lemma_with_components(sys, inner, (count - 1) as nat);
    }
}

/// The placeholder gadget is satisfied exactly when its public input is
/// congruent to 1, whatever the inner proof is: it shows nothing about the
/// inner proof.
pub proof fn law_gadget_means_one(circuit: VerifierCircuit)
    requires
        circuit.complete(),
    ensures
        circuit.synthesized(SystemSpec::empty(Mode::Witness)).satisfied() <==> circuit.holds(),
{
    let start = SystemSpec::empty(Mode::Witness);
    let sys = circuit.synthesized(start);
    let input = Variable::Public(COMPONENTS);
    lemma_with_components(start, circuit.proof_spec(), COMPONENTS as nat);
    assert(sys.constraints.len() == 1);
    assert(sys.constraints[0] == unit_constraint(input));
    assert(sys.values().value_of(input) == circuit.public_input->0.value());
    lemma_unit_constraint(input, sys.values());
}

} // verus!
