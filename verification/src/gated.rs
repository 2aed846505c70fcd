//! The factorization relation laid out as one row of cells with two gates
//! that a selector switches on.
//!
//! The row has three private cells `a`, `b`, `ab`, a public cell `n` and a
//! selector `s`. The gates are `s * (a * b - ab) = 0` and
//! `s * (ab - n) = 0`. In rank-1 form they become four constraints over two
//! more private variables `t` and `w`: `a * b = t`, `s * t = w`,
//! `s * ab = w` and `s * n = w`. With the selector at 1 these say
//! `a * b = ab = n`; with the selector at 0 they say nothing of the cells.

use crate::builder::{mul_system, next_private, next_public};
use crate::circuit::{lemma_product_constraint, product_constraint};
use crate::cs::{value_spec, ConstraintSystem, Mode, SynthesisError, SystemSpec};
use crate::field::{modulus, Fr};
use crate::lc::{LinearCombination, Variable};
use vstd::prelude::*;

verus! {

/// The cells of one row.
#[derive(Clone, Copy, Debug, PartialEq, Eq, Structural)]
pub struct FactorizationConfig {
    pub a: Variable,
    pub b: Variable,
    pub ab: Variable,
    pub n: Variable,
    pub selector: Variable,
}

/// The factorization relation with its values: the factors, which may be
/// unknown, and the public `n`.
#[derive(Clone, Copy, Debug)]
pub struct FactorizationCircuit {
    pub a: Option<Fr>,
    pub b: Option<Fr>,
    pub n: Fr,
}

/// Why the gates are refused for a row, if they are.
pub open spec fn gates_error(sys: SystemSpec, row: FactorizationConfig) -> Option<SynthesisError> {
    if sys.frozen {
        Some(SynthesisError::SystemFrozen)
    } else if !sys.owns(row.a) || !sys.owns(row.b) || !sys.owns(row.ab) || !sys.owns(row.n)
        || !sys.owns(row.selector) {
        Some(SynthesisError::ShapeMismatch)
    } else {
        None
    }
}

/// The system after the two gates were added for a row.
pub open spec fn gates_system(sys: SystemSpec, row: FactorizationConfig) -> SystemSpec {
    mul_system(mul_system(sys, row.a, row.b), row.selector, next_private(sys, 0)).with_constraint(
        product_constraint(row.selector, row.ab, next_private(sys, 1)),
    ).with_constraint(product_constraint(row.selector, row.n, next_private(sys, 1)))
}

impl FactorizationCircuit {
    /// The row that synthesis into `sys` lays out.
    pub open spec fn row(sys: SystemSpec) -> FactorizationConfig {
        FactorizationConfig {
            selector: next_private(sys, 0),
            a: next_private(sys, 1),
            b: next_private(sys, 2),
            ab: next_private(sys, 3),
            n: next_public(sys),
        }
    }

    /// The value of the cell `ab`: the product of the factors.
    pub open spec fn product(self) -> Option<nat> {
        if self.a is Some && self.b is Some {
            Some((self.a->0.value() * self.b->0.value()) % crate::field::modulus())
        } else {
            None
        }
    }

    /// Why synthesis into `sys` is refused, if it is.
    pub open spec fn synthesis_error(self, sys: SystemSpec) -> Option<SynthesisError> {
        if sys.frozen {
            Some(SynthesisError::SystemFrozen)
        } else if sys.mode == Mode::Witness && (self.a is None || self.b is None) {
            Some(SynthesisError::AssignmentMissing)
        } else {
            None
        }
    }

    /// The system with the cells of the row allocated: the selector, set
    /// to 1, the factors, their product, and the public `n`.
    pub open spec fn assigned(self, sys: SystemSpec) -> SystemSpec {
        sys.with_private(Some(1)).with_private(value_spec(self.a)).with_private(
            value_spec(self.b),
        ).with_private(self.product()).with_public(Some(self.n.value()))
    }

    /// The system after synthesis: the row and its gates.
    pub open spec fn synthesized(self, sys: SystemSpec) -> SystemSpec {
        gates_system(self.assigned(sys), Self::row(sys))
    }

    /// The same circuit with unknown factors and `n` at zero, as used to
    /// learn its structure.
    pub fn without_witnesses(&self) -> (c: FactorizationCircuit)
        ensures
            c.a is None && c.b is None && c.n.value() == 0,
    {
        FactorizationCircuit { a: None, b: None, n: Fr::zero() }
    }

    /// How many public values the circuit has in each of its instance
    /// columns: one column with one value.
    pub fn num_instance(&self) -> (r: Vec<usize>)
        ensures
            r@ == seq![1usize],
    {
        let mut r: Vec<usize> = Vec::new();
        r.push(1);
        r
    }

    /// The public values of the circuit, by instance column: `n`.
    pub fn instances(&self) -> (r: Vec<Vec<Fr>>)
        ensures
            r@.len() == 1,
            r@[0]@ == seq![self.n],
    {
        let mut column: Vec<Fr> = Vec::new();
        column.push(self.n);
        let mut r: Vec<Vec<Fr>> = Vec::new();
        r.push(column);
        r
    }

    /// Adds the two gates for a row of cells that the system has allocated.
    pub fn configure(cs: &mut ConstraintSystem, row: &FactorizationConfig) -> (r: Result<
        (),
        SynthesisError,
    >)
        requires
            old(cs).wf(),
        ensures
            final(cs).wf(),
            match gates_error(old(cs)@, *row) {
                Some(e) => r == Err::<(), SynthesisError>(e) && final(cs)@ == old(cs)@,
                None => r == Ok::<(), SynthesisError>(()) && final(cs)@ == gates_system(
                    old(cs)@,
                    *row,
                ),
            },
    {
        if cs.is_frozen() {
            return Err(SynthesisError::SystemFrozen);
        }
        if !cs.owns(row.a) || !cs.owns(row.b) || !cs.owns(row.ab) || !cs.owns(row.n) || !cs.owns(
            row.selector,
        ) {
            return Err(SynthesisError::ShapeMismatch);
        }
        let t = match crate::builder::mul(cs, row.a, row.b) {
            Ok(v) => v,
            Err(e) => { return Err(e); },
        };
        let w = match crate::builder::mul(cs, row.selector, t) {
            Ok(v) => v,
            Err(e) => { return Err(e); },
        };
        match cs.enforce(
            LinearCombination::from_variable(row.selector),
            LinearCombination::from_variable(row.ab),
            LinearCombination::from_variable(w),
        ) {
            Ok(()) => {},
            Err(e) => { return Err(e); },
        }
        cs.enforce(
            LinearCombination::from_variable(row.selector),
            LinearCombination::from_variable(row.n),
            LinearCombination::from_variable(w),
        )
    }

    /// Lays out the row (the selector switched on, the factors, their
    /// product, and `n`) and adds the gates. Returns the cells.
    ///
    /// Where synthesis is refused the system is left as it was.
    pub fn synthesize(&self, cs: &mut ConstraintSystem) -> (r: Result<
        FactorizationConfig,
        SynthesisError,
    >)
        requires
            old(cs).wf(),
        ensures
            final(cs).wf(),
            final(cs)@.mode == old(cs)@.mode,
            final(cs)@.frozen == old(cs)@.frozen,
            match self.synthesis_error(old(cs)@) {
                Some(e) => r == Err::<FactorizationConfig, SynthesisError>(e)
                    && final(cs)@ == old(cs)@,
                None => r == Ok::<FactorizationConfig, SynthesisError>(Self::row(old(cs)@))
                    && final(cs)@ == self.synthesized(old(cs)@),
            },
    {
        if cs.is_frozen() {
            return Err(SynthesisError::SystemFrozen);
        }
        if cs.mode() == Mode::Witness && (self.a.is_none() || self.b.is_none()) {
            return Err(SynthesisError::AssignmentMissing);
        }
        let product = match (self.a, self.b) {
            (Some(x), Some(y)) => Some(x.mul(&y)),
            _ => None,
        };
        let selector = match cs.alloc_private(Some(Fr::one())) {
            Ok(v) => v,
            Err(e) => { return Err(e); },
        };
        let a = match cs.alloc_private(self.a) {
            Ok(v) => v,
            Err(e) => { return Err(e); },
        };
        let b = match cs.alloc_private(self.b) {
            Ok(v) => v,
            Err(e) => { return Err(e); },
        };
        let ab = match cs.alloc_private(product) {
            Ok(v) => v,
            Err(e) => { return Err(e); },
        };
        let n = match cs.alloc_public(Some(self.n)) {
            Ok(v) => v,
            Err(e) => { return Err(e); },
        };
        let row = FactorizationConfig { a, b, ab, n, selector };
        match Self::configure(cs, &row) {
            Ok(()) => Ok(row),
            Err(e) => Err(e),
        }
    }
}

/// With the selector switched on, the row and its gates are satisfied
/// exactly when the product of the factors is congruent to `n`.
pub proof fn law_row_means_the_product(circuit: FactorizationCircuit)
    requires
        circuit.a is Some,
        circuit.b is Some,
    ensures
        circuit.synthesized(SystemSpec::empty(Mode::Witness)).satisfied() <==> (
        circuit.a->0.value() * circuit.b->0.value()) % modulus() == circuit.n.value() % modulus(),
{
    let m = modulus() as int;
    let sys = circuit.synthesized(SystemSpec::empty(Mode::Witness));
    let values = sys.values();
    let product = (circuit.a->0.value() * circuit.b->0.value()) % modulus();
    let s = Variable::Private(0);
    let a = Variable::Private(1);
    let b = Variable::Private(2);
    let ab = Variable::Private(3);
    let t = Variable::Private(4);
    let w = Variable::Private(5);
    let n = Variable::Public(0);
    assert(sys.constraints.len() == 4);
    assert(sys.constraints[0] == product_constraint(a, b, t));
    assert(sys.constraints[1] == product_constraint(s, t, w));
    assert(sys.constraints[2] == product_constraint(s, ab, w));
    assert(sys.constraints[3] == product_constraint(s, n, w));
    assert(values.value_of(s) == 1);
    assert(values.value_of(a) == circuit.a->0.value());
    assert(values.value_of(b) == circuit.b->0.value());
    assert(values.value_of(ab) == product);
    assert(values.value_of(t) == product);
    assert(values.value_of(w) == (1 * product) % modulus());
    assert(values.value_of(n) == circuit.n.value());
    assert(1 * product == product) by (nonlinear_arith);
    assert(1 * circuit.n.value() == circuit.n.value()) by (nonlinear_arith);
    vstd::arithmetic::div_mod::lemma_mod_twice(
        (circuit.a->0.value() * circuit.b->0.value()) as int,
        m,
    );
    lemma_product_constraint(a, b, t, values);
    lemma_product_constraint(s, t, w, values);
    lemma_product_constraint(s, ab, w, values);
    lemma_product_constraint(s, n, w, values);
}

} // verus!
