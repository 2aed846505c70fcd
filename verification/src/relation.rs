//! The relations that the engine knows, behind one synthesis function.

use crate::artifact::COMPONENTS;
use crate::builder::{
    create_factorization_circuit, factorization_error, factorization_system,
    law_gates_mean_the_product,
};
use crate::circuit::FactorizationCircuit;
use crate::cs::{value_spec, ConstraintSystem, Mode, SynthesisError, SystemSpec};
use crate::cyclic::{law_step_means, CyclicCircuit};
use crate::field::{modulus, Fr};
use crate::gadget::{law_gadget_means_one, lemma_with_components, VerifierCircuit};
use crate::gated::law_row_means_the_product;
use vstd::prelude::*;

verus! {

/// A circuit: a relation together with the values of its variables, as far
/// as they are known.
///
/// Setup and the prover both go through [`Relation::synthesize`], so that
/// the structure that a key is made for is the structure that is proved.
#[derive(Debug)]
pub enum Relation {
    /// `p * q = n` for a public `n`, as one constraint.
    Factorization(FactorizationCircuit),
    /// The placeholder gadget about an inner proof.
    Verifier(VerifierCircuit),
    /// `a * b = n` laid out as a row of cells with selector-gated gates.
    Gated(crate::gated::FactorizationCircuit),
    /// `a * b = n` built from a product gate and an equality gate.
    Targets { a: Option<Fr>, b: Option<Fr>, n: Option<Fr> },
    /// One step of a cyclic recursion.
    Cyclic(CyclicCircuit),
}

impl Relation {
    /// Why synthesis into `sys` is refused, if it is.
    pub open spec fn synthesis_error(self, sys: SystemSpec) -> Option<SynthesisError> {
        match self {
            Relation::Factorization(c) => c.synthesis_error(sys),
            Relation::Verifier(c) => c.synthesis_error(sys),
            Relation::Gated(c) => c.synthesis_error(sys),
            Relation::Targets { a, b, n } => factorization_error(
                sys,
                value_spec(a),
                value_spec(b),
                value_spec(n),
            ),
            Relation::Cyclic(c) => c.synthesis_error(sys),
        }
    }

    /// What a refused synthesis leaves: the variables that were allocated
    /// before the first value was missed, where the relation allocates one
    /// by one, else the system as it was.
    pub open spec fn refused(self, sys: SystemSpec) -> SystemSpec {
        match self {
            Relation::Factorization(c) => c.refused(sys),
            Relation::Verifier(c) => c.refused(sys),
            Relation::Gated(_) => sys,
            Relation::Targets { .. } => sys,
            Relation::Cyclic(_) => sys,
        }
    }

    /// The system after synthesis.
    pub open spec fn synthesized(self, sys: SystemSpec) -> SystemSpec {
        match self {
            Relation::Factorization(c) => c.synthesized(sys),
            Relation::Verifier(c) => c.synthesized(sys),
            Relation::Gated(c) => c.synthesized(sys),
            Relation::Targets { a, b, n } => factorization_system(
                sys,
                value_spec(a),
                value_spec(b),
                value_spec(n),
            ),
            Relation::Cyclic(c) => c.synthesized(sys),
        }
    }

    /// Whether all values of the relation are given.
    pub open spec fn complete(self) -> bool {
        match self {
            Relation::Factorization(c) => c.complete(),
            Relation::Verifier(c) => c.complete(),
            Relation::Gated(c) => c.a is Some && c.b is Some,
            Relation::Targets { a, b, n } => a is Some && b is Some && n is Some,
            Relation::Cyclic(c) => c.complete(),
        }
    }

    /// What the relation states of its values.
    pub open spec fn holds(self) -> bool
        recommends
            self.complete(),
    {
        match self {
            Relation::Factorization(c) => c.holds(),
            Relation::Verifier(c) => c.holds(),
            Relation::Gated(c) => (c.a->0.value() * c.b->0.value()) % modulus() == c.n.value()
                % modulus(),
            Relation::Targets { a, b, n } => (a->0.value() * b->0.value()) % modulus()
                == n->0.value() % modulus(),
            Relation::Cyclic(c) => c.holds(),
        }
    }

    /// Whether two circuits are of the same relation, whatever their
    /// values.
    pub open spec fn same_kind(self, other: Relation) -> bool {
        match self {
            Relation::Factorization(_) => other is Factorization,
            Relation::Verifier(_) => other is Verifier,
            Relation::Gated(_) => other is Gated,
            Relation::Targets { .. } => other is Targets,
            Relation::Cyclic(_) => other is Cyclic,
        }
    }

    /// The structure that synthesis leaves does not depend on the values of
    /// the circuit nor on the mode: setup and the prover, which synthesize
    /// the same relation from the same structure, arrive at the same
    /// structure.
    pub proof fn law_structure_ignores_values(self, other: Relation, a: SystemSpec, b: SystemSpec)
        requires
            self.same_kind(other),
            a.shape() == b.shape(),
        ensures
            self.synthesized(a).shape() == other.synthesized(b).shape(),
    {
        match self {
            Relation::Verifier(c) => {
                let d = other->Verifier_0;
                lemma_with_components(a, c.proof_spec(), COMPONENTS as nat);
                lemma_with_components(b, d.proof_spec(), COMPONENTS as nat);
            },
            _ => {},
        }
    }

    /// The constraints of a relation say what the relation states: a
    /// complete circuit, synthesized on its own, is satisfied exactly when
    /// the relation holds of its values.
    pub proof fn law_satisfied_means_holds(self)
        requires
            self.complete(),
        ensures
            self.synthesized(SystemSpec::empty(Mode::Witness)).satisfied() <==> self.holds(),
    {
        let start = SystemSpec::empty(Mode::Witness);
        let sys = self.synthesized(start);
        match self {
            Relation::Factorization(c) => {
                c.lemma_synthesized_wf(start);
                c.lemma_constraint_means_relation(start);
                assert(sys.constraints.len() == 1);
                assert(sys.constraints[0] == sys.constraints.last());
            },
            Relation::Verifier(c) => {
                law_gadget_means_one(c);
            },
            Relation::Gated(c) => {
                law_row_means_the_product(c);
            },
            Relation::Targets { a, b, n } => {
                law_gates_mean_the_product(a->0.value(), b->0.value(), n->0.value());
            },
            Relation::Cyclic(c) => {
                law_step_means(c);
            },
        }
    }

    /// Allocates the variables of the relation and emits its constraints.
    /// Where synthesis is refused, the system is left as
    /// [`Relation::refused`] says.
    pub fn synthesize(&self, cs: &mut ConstraintSystem) -> (r: Result<(), SynthesisError>)
        requires
            old(cs).wf(),
        ensures
            final(cs).wf(),
            final(cs)@.mode == old(cs)@.mode,
            final(cs)@.frozen == old(cs)@.frozen,
            match self.synthesis_error(old(cs)@) {
                Some(e) => r == Err::<(), SynthesisError>(e) && final(cs)@ == self.refused(
                    old(cs)@,
                ),
                None => r == Ok::<(), SynthesisError>(()) && final(cs)@ == self.synthesized(
                    old(cs)@,
                ),
            },
    {
        match self {
            Relation::Factorization(c) => c.synthesize(cs),
            Relation::Verifier(c) => c.synthesize(cs),
            Relation::Gated(c) => match c.synthesize(cs) {
                Ok(_) => Ok(()),
                Err(e) => Err(e),
            },
            Relation::Targets { a, b, n } => match create_factorization_circuit(cs, *a, *b, *n) {
                Ok(_) => Ok(()),
                Err(e) => Err(e),
            },
            Relation::Cyclic(c) => match c.synthesize(cs) {
                Ok(_) => Ok(()),
                Err(e) => Err(e),
            },
        }
    }
}

} // verus!
