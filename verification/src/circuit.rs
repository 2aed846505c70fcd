//! The factorization relation `p * q = n` as a circuit.

use crate::cs::{
    value_spec, ConstraintSpec, ConstraintSystem, Mode, SynthesisError, SystemSpec,
};
use crate::field::{modulus, Fr};
use crate::lc::{lemma_eval_variable, Assignment, LcSpec, LinearCombination, Variable};
use vstd::arithmetic::div_mod::lemma_mul_mod_noop_general;
use vstd::prelude::*;

verus! {

/// The constraint `x * y = z` between three variables.
pub open spec fn product_constraint(x: Variable, y: Variable, z: Variable) -> ConstraintSpec {
    ConstraintSpec {
        a: LcSpec::of_variable(x),
        b: LcSpec::of_variable(y),
        c: LcSpec::of_variable(z),
    }
}

/// `x * y = z` is satisfied exactly when the product of the values of `x`
/// and `y` is congruent to the value of `z`.
pub proof fn lemma_product_constraint(x: Variable, y: Variable, z: Variable, values: Assignment)
    ensures
        product_constraint(x, y, z).satisfied(values) <==> (values.value_of(x) * values.value_of(
            y,
        )) % modulus() == values.value_of(z) % modulus(),
{
    lemma_eval_variable(x, values);
    lemma_eval_variable(y, values);
    lemma_eval_variable(z, values);
    lemma_mul_mod_noop_general(
        values.value_of(x) as int,
        values.value_of(y) as int,
        modulus() as int,
    );
}

/// The statement "I know `p` and `q` with `p * q = n`", for a public `n`.
///
/// The relation is over the field: any `p` and `q` whose product is
/// congruent to `n` modulo the field order are accepted, also where the
/// product of the integers is not `n`. Nothing bounds `p` and `q`.
#[derive(Clone, Copy, Debug)]
pub struct FactorizationCircuit {
    /// The public input.
    pub n: Option<Fr>,
    /// The first private factor.
    pub p: Option<Fr>,
    /// The second private factor.
    pub q: Option<Fr>,
}

impl FactorizationCircuit {
    /// Whether all three values are given.
    pub open spec fn complete(self) -> bool {
        self.n is Some && self.p is Some && self.q is Some
    }

    /// Whether the product of the factors is congruent to `n`.
    pub open spec fn holds(self) -> bool
        recommends
            self.complete(),
    {
        (self.p->0.value() * self.q->0.value()) % modulus() == self.n->0.value() % modulus()
    }

    /// Why synthesis into `sys` is refused, if it is.
    pub open spec fn synthesis_error(self, sys: SystemSpec) -> Option<SynthesisError> {
        if sys.frozen {
            Some(SynthesisError::SystemFrozen)
        } else if sys.mode == Mode::Witness && !self.complete() {
            Some(SynthesisError::AssignmentMissing)
        } else {
            None
        }
    }

    /// What a refused synthesis leaves. The variables are allocated one
    /// after the other, `n` first, and the first value that is missed stops
    /// the synthesis: what was allocated before it stays, and no constraint
    /// is emitted.
    pub open spec fn refused(self, sys: SystemSpec) -> SystemSpec {
        if sys.frozen || sys.mode != Mode::Witness || self.n is None {
            sys
        } else if self.p is None {
            sys.with_public(value_spec(self.n))
        } else {
            sys.with_public(value_spec(self.n)).with_private(value_spec(self.p))
        }
    }

    /// The system after synthesis: one more public variable for `n`, two
    /// more private ones for `p` and `q`, and the constraint `p * q = n`.
    pub open spec fn synthesized(self, sys: SystemSpec) -> SystemSpec {
        sys.with_public(value_spec(self.n)).with_private(value_spec(self.p)).with_private(
            value_spec(self.q),
        ).with_constraint(
            product_constraint(
                Variable::Private(sys.private.len() as usize),
                Variable::Private((sys.private.len() + 1) as usize),
                Variable::Public(sys.public.len() as usize),
            ),
        )
    }

    /// The circuit without values, as used to learn its structure.
    pub fn without_witness() -> (c: FactorizationCircuit)
        ensures
            c.n is None && c.p is None && c.q is None,
    {
        FactorizationCircuit { n: None, p: None, q: None }
    }

    /// Allocates `n`, `p` and `q` and enforces `p * q = n`.
    ///
    /// The same steps are taken in both modes; only in witness mode are the
    /// values read. The first value that is missed stops the synthesis, and
    /// what was allocated before it stays: see
    /// [`FactorizationCircuit::refused`].
    pub fn synthesize(&self, cs: &mut ConstraintSystem) -> (r: Result<(), SynthesisError>)
        requires
            old(cs).wf(),
        ensures
            final(cs).wf(),
            final(cs)@.mode == old(cs)@.mode,
            final(cs)@.frozen == old(cs)@.frozen,
            match self.synthesis_error(old(cs)@) {
                Some(e) => r == Err::<(), SynthesisError>(e) && final(cs)@ == self.refused(
                    old(cs)@,
                ),
                None => r == Ok::<(), SynthesisError>(()) && final(cs)@ == self.synthesized(
                    old(cs)@,
                ),
            },
    {
        let n_var = match cs.alloc_public(self.n) {
            Ok(v) => v,
            Err(e) => { return Err(e); },
        };
        let p_var = match cs.alloc_private(self.p) {
            Ok(v) => v,
            Err(e) => { return Err(e); },
        };
        let q_var = match cs.alloc_private(self.q) {
            Ok(v) => v,
            Err(e) => { return Err(e); },
        };
        cs.enforce(
            LinearCombination::from_variable(p_var),
            LinearCombination::from_variable(q_var),
            LinearCombination::from_variable(n_var),
        )
    }

    /// Synthesis keeps a system valid, as long as its variables can still
    /// be counted.
    pub proof fn lemma_synthesized_wf(self, sys: SystemSpec)
        requires
            sys.wf(),
            sys.public.len() < usize::MAX,
            sys.private.len() + 1 < usize::MAX,
            sys.mode == Mode::Witness ==> self.complete(),
        ensures
            self.synthesized(sys).wf(),
    {
        let after = self.synthesized(sys);
        let added = after.constraints.last();
        assert(added.a.within(after.public.len(), after.private.len()));
        assert(added.b.within(after.public.len(), after.private.len()));
        assert(added.c.within(after.public.len(), after.private.len()));
        assert forall|i: int| 0 <= i < after.constraints.len() implies (
        #[trigger] after.constraints[i]).within(after.public.len(), after.private.len()) by {
            if i < sys.constraints.len() {
                assert(after.constraints[i] == sys.constraints[i]);
                assert(sys.constraints[i].within(sys.public.len(), sys.private.len()));
            }
        }
    }

    /// After synthesis in witness mode, the constraint that was added is
    /// satisfied exactly when the relation holds.
    pub proof fn lemma_constraint_means_relation(self, sys: SystemSpec)
        requires
            sys.wf(),
            sys.mode == Mode::Witness,
            self.complete(),
            self.synthesized(sys).wf(),
        ensures
            self.synthesized(sys).constraints.last().satisfied(self.synthesized(sys).values())
                <==> self.holds(),
    {
        let after = self.synthesized(sys);
        let p = Variable::Private(sys.private.len() as usize);
        let q = Variable::Private((sys.private.len() + 1) as usize);
        let n = Variable::Public(sys.public.len() as usize);
        lemma_product_constraint(p, q, n, after.values());
        assert(after.values().value_of(p) == self.p->0.value());
        assert(after.values().value_of(q) == self.q->0.value());
        assert(after.values().value_of(n) == self.n->0.value());
    }
}

} // verus!
