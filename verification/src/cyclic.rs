//! The wiring of a cyclic recursion: one circuit shape that serves the
//! base case and every later step.
//!
//! A step has two public values, the initial value of the chain and the
//! output of this step, and a private flag that says whether the step
//! continues an earlier one. The claims of the earlier steps (their public
//! values) are private variables of the step. The constraints are
//!
//! - the flag is 0 or 1;
//! - the initial value of the inner step is the initial value of this one,
//!   so that a chain cannot change what it started from;
//! - `output = flag * other_output + select(flag, inner_output, initial)`.
//!
//! The step does NOT re-state the verification of the inner proofs: like
//! the gadget of [`crate::gadget`], it is a placeholder for that part, and
//! a proof of a step shows nothing about the proofs of earlier steps.

use crate::builder::{
    add_virtual_bool_target_safe, balance_constraint, connect, connect_system,
    equality_constraint, flag_system, lemma_balance_constraint, lemma_equality_constraint,
    lemma_sum_constraint, mul_add, mul_add_system, next_private, select, select_system,
    sum_constraint,
};
use crate::circuit::{lemma_product_constraint, product_constraint};
use crate::cs::{value_spec, ConstraintSystem, Mode, SynthesisError, SystemSpec};
use crate::field::{modulus, Fr};
use crate::lc::Variable;
use vstd::arithmetic::div_mod::{lemma_add_mod_noop_right, lemma_mod_twice};
use vstd::prelude::*;

verus! {

/// Where a recursion stands.
#[derive(Clone, Copy, Debug, PartialEq, Eq, Structural)]
pub enum RecursionState {
    /// No step has been proved yet: the next step has no inner proof.
    BaseCase,
    /// The next step continues the step proved last.
    RecursiveStep,
}

/// The public values of a step.
#[derive(Clone, Copy, Debug, PartialEq, Eq, Structural)]
pub struct StepClaim {
    /// The value that the chain started from.
    pub initial_value: Fr,
    /// The output of the step.
    pub output_value: Fr,
}

/// One step of the recursion, with its values as far as they are known.
#[derive(Clone, Copy, Debug)]
pub struct CyclicCircuit {
    /// Public: the value that the chain started from.
    pub initial_value: Option<Fr>,
    /// Public: the output of this step.
    pub output_value: Option<Fr>,
    /// Public: the number whose factorization the chain is about.
    pub n: Option<Fr>,
    /// Whether this step continues an earlier one.
    pub verify_proofs: Option<bool>,
    /// The initial value that the inner step claims.
    pub inner_initial_value: Option<Fr>,
    /// The output that the inner step claims.
    pub inner_output_value: Option<Fr>,
    /// The output that the other inner step claims.
    pub other_output_value: Option<Fr>,
}

/// The variables of a step.
#[derive(Clone, Copy, Debug, PartialEq, Eq, Structural)]
pub struct StepTargets {
    pub initial_value: Variable,
    pub output_value: Variable,
    pub n: Variable,
    pub verify_proofs: Variable,
    pub inner_initial_value: Variable,
    pub inner_output_value: Variable,
    pub other_output_value: Variable,
    /// What the step takes over: the inner output, or the initial value.
    pub actual_value_in: Variable,
    /// What the step computes as its output.
    pub new_output_value: Variable,
}

impl RecursionState {
    /// The state after a step was proved: from then on every step
    /// continues an earlier one.
    pub fn advance(self) -> (next: RecursionState)
        ensures
            next == RecursionState::RecursiveStep,
    {
        RecursionState::RecursiveStep
    }

    /// The flag of the next step in this state.
    pub fn verifies(self) -> (flag: bool)
        ensures
            flag == (self == RecursionState::RecursiveStep),
    {
        match self {
            RecursionState::BaseCase => false,
            RecursionState::RecursiveStep => true,
        }
    }
}

impl CyclicCircuit {
    /// Whether all values are given.
    pub open spec fn complete(self) -> bool {
        &&& self.initial_value is Some
        &&& self.output_value is Some
        &&& self.n is Some
        &&& self.verify_proofs is Some
        &&& self.inner_initial_value is Some
        &&& self.inner_output_value is Some
        &&& self.other_output_value is Some
    }

    /// The output that the constraints ask for: the initial value where
    /// the step continues nothing, else the sum of the two inner outputs.
    pub open spec fn expected_output(self) -> nat
        recommends
            self.complete(),
    {
        if self.verify_proofs->0 {
            (self.other_output_value->0.value() + self.inner_output_value->0.value()) % modulus()
        } else {
            self.initial_value->0.value() % modulus()
        }
    }

    /// What a step states: it starts from what its inner step started
    /// from, and its output is the expected one.
    pub open spec fn holds(self) -> bool
        recommends
            self.complete(),
    {
        &&& self.inner_initial_value->0.value() % modulus() == self.initial_value->0.value()
            % modulus()
        &&& self.output_value->0.value() % modulus() == self.expected_output()
    }

    /// Whether this is the first step of a chain about `n`: it continues
    /// nothing, it starts from `n` and outputs `n`, and its inner claims
    /// are the dummies that start from `n` and output 0.
    pub open spec fn is_base_case(self, n: Fr) -> bool {
        &&& self.complete()
        &&& self.verify_proofs == Some(false)
        &&& self.initial_value == Some(n)
        &&& self.output_value == Some(n)
        &&& self.n == Some(n)
        &&& self.inner_initial_value == Some(n)
        &&& self.inner_output_value->0.value() == 0
        &&& self.other_output_value->0.value() == 0
    }

    /// Whether this is the step about `n` that continues the two claimed
    /// steps: it starts from what the inner step started from, it takes
    /// over both claimed outputs, and its output is their sum.
    pub open spec fn is_recursive_step(self, n: Fr, inner: StepClaim, other: StepClaim) -> bool {
        &&& self.complete()
        &&& self.verify_proofs == Some(true)
        &&& self.initial_value == Some(inner.initial_value)
        &&& self.n == Some(n)
        &&& self.inner_initial_value == Some(inner.initial_value)
        &&& self.inner_output_value == Some(inner.output_value)
        &&& self.other_output_value == Some(other.output_value)
        &&& self.output_value->0.value() == (other.output_value.value()
            + inner.output_value.value()) % modulus()
    }

    /// Why synthesis into `sys` is refused, if it is.
    pub open spec fn synthesis_error(self, sys: SystemSpec) -> Option<SynthesisError> {
        if sys.frozen {
            Some(SynthesisError::SystemFrozen)
        } else if sys.mode == Mode::Witness && !self.complete() {
            Some(SynthesisError::AssignmentMissing)
        } else {
            None
        }
    }

    /// The variables that synthesis into `sys` allocates.
    pub open spec fn targets(sys: SystemSpec) -> StepTargets {
        StepTargets {
            initial_value: Variable::Public(sys.public.len() as usize),
            output_value: Variable::Public((sys.public.len() + 1) as usize),
            n: Variable::Public((sys.public.len() + 2) as usize),
            verify_proofs: next_private(sys, 0),
            inner_initial_value: next_private(sys, 1),
            inner_output_value: next_private(sys, 2),
            other_output_value: next_private(sys, 3),
            actual_value_in: next_private(sys, 6),
            new_output_value: next_private(sys, 8),
        }
    }

    /// The system with the variables of the step allocated and the flag
    /// held to 0 or 1.
    pub open spec fn allocated(self, sys: SystemSpec) -> SystemSpec {
        flag_system(
            sys.with_public(value_spec(self.initial_value)).with_public(
                value_spec(self.output_value),
            ),
            self.verify_proofs,
        ).with_private(value_spec(self.inner_initial_value)).with_private(
            value_spec(self.inner_output_value),
        ).with_private(value_spec(self.other_output_value)).with_public(value_spec(self.n))
    }

    /// The system after synthesis.
    pub open spec fn synthesized(self, sys: SystemSpec) -> SystemSpec {
        let t = Self::targets(sys);
        let wired = connect_system(self.allocated(sys), t.initial_value, t.inner_initial_value);
        let selected = select_system(wired, t.verify_proofs, t.inner_output_value, t.initial_value);
        let summed = mul_add_system(
            selected,
            t.verify_proofs,
            t.other_output_value,
            t.actual_value_in,
        );
        connect_system(summed, t.output_value, t.new_output_value)
    }

    /// The step without values, as used to learn its structure.
    pub fn without_witness() -> (c: CyclicCircuit)
        ensures
            c.initial_value is None,
            c.output_value is None,
            c.n is None,
            c.verify_proofs is None,
            c.inner_initial_value is None,
            c.inner_output_value is None,
            c.other_output_value is None,
    {
        CyclicCircuit {
            initial_value: None,
            output_value: None,
            n: None,
            verify_proofs: None,
            inner_initial_value: None,
            inner_output_value: None,
            other_output_value: None,
        }
    }

    /// The first step of a chain about `n`: it continues nothing, its
    /// inner claims are dummies, and its output is its initial value.
    pub fn base_case(n: Fr) -> (c: CyclicCircuit)
        ensures
            c.is_base_case(n),
            c.holds(),
    {
        CyclicCircuit {
            initial_value: Some(n),
            output_value: Some(n),
            n: Some(n),
            verify_proofs: Some(false),
            inner_initial_value: Some(n),
            inner_output_value: Some(Fr::zero()),
            other_output_value: Some(Fr::zero()),
        }
    }

    /// The step that continues two proved steps: it takes over the initial
    /// value of the inner one, and its output is the sum of their outputs.
    pub fn recursive_step(n: Fr, inner: &StepClaim, other: &StepClaim) -> (c: CyclicCircuit)
        ensures
            c.is_recursive_step(n, *inner, *other),
            c.holds(),
    {
        proof {
            lemma_mod_twice(
                (other.output_value.value() + inner.output_value.value()) as int,
                modulus() as int,
            );
        }
        CyclicCircuit {
            initial_value: Some(inner.initial_value),
            output_value: Some(other.output_value.add(&inner.output_value)),
            n: Some(n),
            verify_proofs: Some(true),
            inner_initial_value: Some(inner.initial_value),
            inner_output_value: Some(inner.output_value),
            other_output_value: Some(other.output_value),
        }
    }

    /// The step that a recursion in the given state proves next.
    pub fn next_step(state: RecursionState, n: Fr, inner: &StepClaim, other: &StepClaim) -> (c:
        CyclicCircuit)
        ensures
            state == RecursionState::BaseCase ==> c.is_base_case(n),
            state == RecursionState::RecursiveStep ==> c.is_recursive_step(n, *inner, *other),
            c.holds(),
    {
        match state {
            RecursionState::BaseCase => CyclicCircuit::base_case(n),
            RecursionState::RecursiveStep => CyclicCircuit::recursive_step(n, inner, other),
        }
    }

    /// What the step claims in public, where its values are known.
    pub fn claim(&self) -> (r: Option<StepClaim>)
        ensures
            r is Some <==> self.initial_value is Some && self.output_value is Some,
            r is Some ==> r->0.initial_value == self.initial_value->0 && r->0.output_value
                == self.output_value->0,
    {
        match (self.initial_value, self.output_value) {
            (Some(initial_value), Some(output_value)) => Some(
                StepClaim { initial_value, output_value },
            ),
            _ => None,
        }
    }

    /// Allocates the variables of the step and wires them.
    ///
    /// The same steps are taken in both modes; only in witness mode are the
    /// values read. Where synthesis is refused the system is left as it was.
    pub fn synthesize(&self, cs: &mut ConstraintSystem) -> (r: Result<StepTargets, SynthesisError>)
        requires
            old(cs).wf(),
        ensures
            final(cs).wf(),
            final(cs)@.mode == old(cs)@.mode,
            final(cs)@.frozen == old(cs)@.frozen,
            match self.synthesis_error(old(cs)@) {
                Some(e) => r == Err::<StepTargets, SynthesisError>(e) && final(cs)@ == old(cs)@,
                None => r == Ok::<StepTargets, SynthesisError>(Self::targets(old(cs)@))
                    && final(cs)@ == self.synthesized(old(cs)@),
            },
    {
        if cs.is_frozen() {
            return Err(SynthesisError::SystemFrozen);
        }
        if cs.mode() == Mode::Witness && (self.initial_value.is_none()
            || self.output_value.is_none() || self.n.is_none() || self.verify_proofs.is_none()
            || self.inner_initial_value.is_none() || self.inner_output_value.is_none()
            || self.other_output_value.is_none()) {
            return Err(SynthesisError::AssignmentMissing);
        }
        let initial_value = match cs.alloc_public(self.initial_value) {
            Ok(v) => v,
            Err(e) => { return Err(e); },
        };
        let output_value = match cs.alloc_public(self.output_value) {
            Ok(v) => v,
            Err(e) => { return Err(e); },
        };
        let verify_proofs = match add_virtual_bool_target_safe(cs, self.verify_proofs) {
            Ok(v) => v,
            Err(e) => { return Err(e); },
        };
        let inner_initial_value = match cs.alloc_private(self.inner_initial_value) {
            Ok(v) => v,
            Err(e) => { return Err(e); },
        };
        let inner_output_value = match cs.alloc_private(self.inner_output_value) {
            Ok(v) => v,
            Err(e) => { return Err(e); },
        };
        let other_output_value = match cs.alloc_private(self.other_output_value) {
            Ok(v) => v,
            Err(e) => { return Err(e); },
        };
        let n = match cs.alloc_public(self.n) {
            Ok(v) => v,
            Err(e) => { return Err(e); },
        };
        match connect(cs, initial_value, inner_initial_value) {
            Ok(()) => {},
            Err(e) => { return Err(e); },
        }
        let actual_value_in = match select(cs, verify_proofs, inner_output_value, initial_value) {
            Ok(v) => v,
            Err(e) => { return Err(e); },
        };
        let new_output_value = match mul_add(
            cs,
            verify_proofs,
            other_output_value,
            actual_value_in,
        ) {
            Ok(v) => v,
            Err(e) => { return Err(e); },
        };
        match connect(cs, output_value, new_output_value) {
            Ok(()) => {},
            Err(e) => { return Err(e); },
        }
        Ok(
            StepTargets {
                initial_value,
                output_value,
                n,
                verify_proofs,
                inner_initial_value,
                inner_output_value,
                other_output_value,
                actual_value_in,
                new_output_value,
            },
        )
    }
}

/// A step is satisfied exactly when it starts from what its inner step
/// started from and its output is the expected one. In particular no
/// satisfied step changes the value that its chain started from.
pub proof fn law_step_means(circuit: CyclicCircuit)
    requires
        circuit.complete(),
    ensures
        circuit.synthesized(SystemSpec::empty(Mode::Witness)).satisfied() <==> circuit.holds(),
{
    let m = modulus() as int;
    let sys = circuit.synthesized(SystemSpec::empty(Mode::Witness));
    let values = sys.values();
    let initial = Variable::Public(0);
    let output = Variable::Public(1);
    let flag = Variable::Private(0);
    let inner_initial = Variable::Private(1);
    let inner_output = Variable::Private(2);
    let other_output = Variable::Private(3);
    let taken = Variable::Private(4);
    let left = Variable::Private(5);
    let picked = Variable::Private(6);
    let scaled = Variable::Private(7);
    let total = Variable::Private(8);
    let f: nat = if circuit.verify_proofs->0 { 1 } else { 0 };
    let i = circuit.initial_value->0.value();
    let o = circuit.output_value->0.value();
    let ii = circuit.inner_initial_value->0.value();
    let io = circuit.inner_output_value->0.value();
    let oo = circuit.other_output_value->0.value();
    let r = if f == 1 { io } else { i };

    assert(sys.constraints.len() == 8);
    assert(sys.constraints[0] == product_constraint(flag, flag, flag));
    assert(sys.constraints[1] == equality_constraint(initial, inner_initial));
    assert(sys.constraints[2] == product_constraint(flag, inner_output, taken));
    assert(sys.constraints[3] == product_constraint(flag, initial, left));
    assert(sys.constraints[4] == balance_constraint(picked, left, taken, initial));
    assert(sys.constraints[5] == product_constraint(flag, other_output, scaled));
    assert(sys.constraints[6] == sum_constraint(scaled, picked, total));
    assert(sys.constraints[7] == equality_constraint(output, total));

    assert(values.value_of(initial) == i);
    assert(values.value_of(output) == o);
    assert(values.value_of(flag) == f);
    assert(values.value_of(inner_initial) == ii);
    assert(values.value_of(inner_output) == io);
    assert(values.value_of(other_output) == oo);
    assert(values.value_of(taken) == (f * io) % modulus());
    assert(values.value_of(left) == (f * i) % modulus());
    assert(values.value_of(picked) == r);
    assert(values.value_of(scaled) == (f * oo) % modulus());
    assert(values.value_of(total) == ((f * oo) % modulus() + r) % modulus());

    lemma_product_constraint(flag, flag, flag, values);
    lemma_equality_constraint(initial, inner_initial, values);
    lemma_product_constraint(flag, inner_output, taken, values);
    lemma_product_constraint(flag, initial, left, values);
    lemma_balance_constraint(picked, left, taken, initial, values);
    lemma_product_constraint(flag, other_output, scaled, values);
    lemma_sum_constraint(scaled, picked, total, values);
    lemma_equality_constraint(output, total, values);

    lemma_mod_twice((f * io) as int, m);
    lemma_mod_twice((f * i) as int, m);
    lemma_mod_twice((f * oo) as int, m);
    lemma_mod_twice(((f * oo) % modulus() + r) as int, m);
    if f == 1 {
        assert(f * f == f && f * io == io && f * i == i && f * oo == oo) by (nonlinear_arith)
            requires
                f == 1,
        ;
        lemma_add_mod_noop_right(io as int, i as int, m);
        lemma_add_mod_noop_right(i as int, io as int, m);
        lemma_add_mod_noop_right(io as int, oo as int, m);
    } else {
        assert(f * f == f && f * io == 0 && f * i == 0 && f * oo == 0) by (nonlinear_arith)
            requires
                f == 0,
        ;
    }
    assert(sys.constraints[1].satisfied(values) <==> ii % modulus() == i % modulus());
    assert(sys.constraints[7].satisfied(values) <==> o % modulus() == circuit.expected_output());
    if circuit.holds() {
        assert forall|k: int| 0 <= k < sys.constraints.len() implies (
        #[trigger] sys.constraints[k]).satisfied(values) by {}
    }
    if sys.satisfied() {
        assert(sys.constraints[1].satisfied(values));
        assert(sys.constraints[7].satisfied(values));
    }
}

} // verus!
