//! The prover's own part: the circuit is run in witness mode, its values
//! are checked against every constraint, and the blinding factors are
//! drawn. The group arithmetic that turns all this into a proof is done
//! outside this library, from the [`ProvingJob`]; what it gives becomes a
//! proof only through [`release`], which verifies it first.

use crate::artifact::Proof;
use crate::circuit::FactorizationCircuit;
use crate::cs::{ConstraintSystem, Mode, SynthesisError, SystemSpec};
use crate::field::{modulus, values, Fr};
use crate::gadget::VerifierCircuit;
use crate::keys::{key_inputs, key_witnesses, ProvingKey, VerifyingKey};
use crate::lc::Assignment;
use crate::randomness::{
    advance, element_at, lemma_advance_twice, RandomnessSource, SourceSpec,
};
use crate::relation::Relation;
use crate::setup::{derivation, law_keys_fit_the_shape, shape_of};
use crate::verify::{verification, verification_of_bytes, verify, VerifyError};
use vstd::prelude::*;

verus! {

/// Why no proof can be made.
#[derive(Clone, Copy, Debug, PartialEq, Eq, Structural)]
pub enum ProveError {
    /// Synthesis in witness mode was refused.
    Synthesis(SynthesisError),
    /// The witness does not satisfy some constraint.
    ConstraintUnsatisfied,
    /// The proving key is for another number of variables.
    ShapeMismatch,
    /// The inner proof that an outer proof was asked about does not verify.
    InnerProofRejected,
    /// What was made from a job is not a proof that verifies.
    ProofRejected,
}

/// All that the making of a proof needs besides the proving key: the values
/// of all variables and the two blinding factors. The blinding factors must
/// never be used for a second proof.
#[derive(Debug)]
pub struct ProvingJob {
    /// The values of the public variables, in allocation order.
    pub public_inputs: Vec<Fr>,
    /// The values of the private variables, in allocation order.
    pub witness: Vec<Fr>,
    /// The first blinding factor.
    pub r: Fr,
    /// The second blinding factor.
    pub s: Fr,
}

impl ProvingJob {
    /// Whether the blinding factors of the job are the two elements that a
    /// source in the state `before` gives next, and `after` is the state
    /// two draws later.
    pub open spec fn blinded_by(self, before: SourceSpec, after: SourceSpec) -> bool {
        &&& self.r.value() == element_at(before.seed, before.drawn)
        &&& self.s.value() == element_at(before.seed, advance(before.drawn, 1))
        &&& after == (SourceSpec { seed: before.seed, drawn: advance(before.drawn, 2) })
    }
}

/// Why a system in witness mode cannot be proved under a key, if it cannot.
pub open spec fn witness_error(sys: SystemSpec, key: Seq<u8>) -> Option<ProveError> {
    if !sys.satisfied() {
        Some(ProveError::ConstraintUnsatisfied)
    } else if key_inputs(key) != sys.public.len() || key_witnesses(key) != sys.private.len() {
        Some(ProveError::ShapeMismatch)
    } else {
        None
    }
}

/// What the prover makes of a relation under a key: the values that go into
/// the proof, or the reason why there is none.
pub open spec fn proving(relation: Relation, key: Seq<u8>) -> Result<Assignment, ProveError> {
    match relation.synthesis_error(SystemSpec::empty(Mode::Witness)) {
        Some(e) => Err(ProveError::Synthesis(e)),
        None => {
            let sys = relation.synthesized(SystemSpec::empty(Mode::Witness));
            match witness_error(sys, key) {
                Some(e) => Err(e),
                None => Ok(sys.values()),
            }
        },
    }
}

/// Checks a system in witness mode against its own constraints and against
/// the key, and draws the blinding factors.
pub fn prove_system(cs: &ConstraintSystem, key: &ProvingKey, rng: &mut RandomnessSource) -> (r:
    Result<ProvingJob, ProveError>)
    requires
        cs.wf(),
        cs@.mode == Mode::Witness,
    ensures
        match witness_error(cs@, key@) {
            Some(e) => r is Err && r->Err_0 == e && final(rng)@ == old(rng)@,
            None => r is Ok && values(r->Ok_0.public_inputs@) == cs@.values().public && values(
                r->Ok_0.witness@,
            ) == cs@.values().private && r->Ok_0.blinded_by(old(rng)@, final(rng)@),
        },
{
    if !cs.is_satisfied() {
        return Err(ProveError::ConstraintUnsatisfied);
    }
    if key.num_public() != cs.num_public() || key.num_private() != cs.num_private() {
        return Err(ProveError::ShapeMismatch);
    }
    let r = rng.next_element();
    let s = rng.next_element();
    proof {
        lemma_advance_twice(old(rng)@.drawn, 1, 1);
    }
    Ok(ProvingJob { public_inputs: cs.public_inputs(), witness: cs.witness(), r, s })
}

/// Runs the relation in witness mode, checks that its values satisfy every
/// constraint, and draws the blinding factors.
///
/// A witness that does not satisfy the relation never leads to a job, and
/// so never to a proof.
pub fn prove(relation: &Relation, key: &ProvingKey, rng: &mut RandomnessSource) -> (r: Result<
    ProvingJob,
    ProveError,
>)
    ensures
        match proving(*relation, key@) {
            Ok(assignment) => r is Ok && values(r->Ok_0.public_inputs@) == assignment.public
                && values(r->Ok_0.witness@) == assignment.private && r->Ok_0.blinded_by(
                old(rng)@,
                final(rng)@,
            ),
            Err(e) => r is Err && r->Err_0 == e && final(rng)@ == old(rng)@,
        },
{
    let mut cs = ConstraintSystem::new(Mode::Witness);
    match relation.synthesize(&mut cs) {
        Ok(()) => {},
        Err(e) => { return Err(ProveError::Synthesis(e)); },
    }
    prove_system(&cs, key, rng)
}

/// What [`release`] gives for the bytes that were made from a job: the
/// proof with that encoding, if it verifies for the job's public inputs.
pub open spec fn releasing(bytes: Seq<u8>, inputs: Seq<nat>, key: Seq<u8>) -> Result<
    Seq<u8>,
    ProveError,
> {
    if verification_of_bytes(bytes, inputs, key) == Ok::<bool, VerifyError>(true) {
        Ok(bytes)
    } else {
        Err(ProveError::ProofRejected)
    }
}

/// Takes the bytes that were made from a job as its proof, after verifying
/// them for the job's public inputs: nothing leaves the prover as a proof
/// that the verifier would not accept.
pub fn release(bytes: Vec<u8>, job: &ProvingJob, key: &VerifyingKey) -> (r: Result<
    Proof,
    ProveError,
>)
    ensures
        match releasing(bytes@, values(job.public_inputs@), key@) {
            Ok(encoding) => r is Ok && r->Ok_0@ == encoding,
            Err(e) => r is Err && r->Err_0 == e,
        },
{
    let proof = match Proof::from_bytes(bytes) {
        Ok(proof) => proof,
        Err(_) => { return Err(ProveError::ProofRejected); },
    };
    match verify(&proof, &job.public_inputs, key) {
        Ok(true) => Ok(proof),
        _ => Err(ProveError::ProofRejected),
    }
}

/// Every proof that the prover releases verifies, under the key and for
/// the public inputs that it was released for.
pub proof fn law_released_proofs_verify(bytes: Seq<u8>, inputs: Seq<nat>, key: Seq<u8>)
    requires
        releasing(bytes, inputs, key) is Ok,
    ensures
        verification(releasing(bytes, inputs, key)->Ok_0, inputs, key) == Ok::<
            bool,
            VerifyError,
        >(true),
{
}

/// Why the prover refuses to go on after the verification of an inner
/// proof, if it does: anything but acceptance stops it.
pub open spec fn guard_error(verdict: Result<bool, VerifyError>) -> Option<ProveError> {
    if verdict == Ok::<bool, VerifyError>(true) {
        None
    } else {
        Some(ProveError::InnerProofRejected)
    }
}

/// What [`prove_over`] makes of an inner proof and a public input.
pub open spec fn proving_over(
    inner: Proof,
    inner_inputs: Seq<nat>,
    inner_key: Seq<u8>,
    public_input: Fr,
    outer_key: Seq<u8>,
) -> Result<Assignment, ProveError> {
    match guard_error(verification(inner@, inner_inputs, inner_key)) {
        Some(e) => Err(e),
        None => proving(
            Relation::Verifier(
                VerifierCircuit { proof: Some(inner), public_input: Some(public_input) },
            ),
            outer_key,
        ),
    }
}

/// Lets the prover go on only after an inner proof was accepted.
pub fn guard(verdict: Result<bool, VerifyError>) -> (r: Result<(), ProveError>)
    ensures
        match guard_error(verdict) {
            Some(e) => r == Err::<(), ProveError>(e),
            None => r == Ok::<(), ProveError>(()),
        },
{
    match verdict {
        Ok(true) => Ok(()),
        _ => Err(ProveError::InnerProofRejected),
    }
}

/// Prepares an outer proof about an inner proof, after verifying the inner
/// proof: where it does not verify, nothing is prepared.
///
/// The check is the prover's own. The outer circuit is the placeholder
/// gadget, which does not repeat it: an outer proof still shows nothing
/// about the inner proof to someone who does not trust its prover.
pub fn prove_over(
    inner: &Proof,
    inner_inputs: &Vec<Fr>,
    inner_key: &VerifyingKey,
    public_input: Fr,
    outer_key: &ProvingKey,
    rng: &mut RandomnessSource,
) -> (r: Result<ProvingJob, ProveError>)
    ensures
        match proving_over(*inner, values(inner_inputs@), inner_key@, public_input, outer_key@) {
            Ok(assignment) => r is Ok && values(r->Ok_0.public_inputs@) == assignment.public
                && values(r->Ok_0.witness@) == assignment.private && r->Ok_0.blinded_by(
                old(rng)@,
                final(rng)@,
            ),
            Err(e) => r is Err && r->Err_0 == e && final(rng)@ == old(rng)@,
        },
{
    match guard(verify(inner, inner_inputs, inner_key)) {
        Ok(()) => {},
        Err(e) => { return Err(e); },
    }
    let outer = Relation::Verifier(
        VerifierCircuit { proof: Some(inner.clone()), public_input: Some(public_input) },
    );
    prove(&outer, outer_key, rng)
}

/// An inner proof that fails verification, or cannot be verified at all,
/// never leads to an outer proof from [`prove_over`].
pub proof fn law_rejected_inner_proof_stops_the_prover(
    inner: Proof,
    inner_inputs: Seq<nat>,
    inner_key: Seq<u8>,
    public_input: Fr,
    outer_key: Seq<u8>,
)
    requires
        verification(inner@, inner_inputs, inner_key) != Ok::<bool, VerifyError>(true),
    ensures
        proving_over(inner, inner_inputs, inner_key, public_input, outer_key) == Err::<
            Assignment,
            ProveError,
        >(ProveError::InnerProofRejected),
{
}

/// A complete circuit of which the relation does not hold is never proved,
/// whatever the key: the prover answers `ConstraintUnsatisfied`. One of
/// which it holds passes the prover's checks under every key for as many
/// variables as the relation has.
pub proof fn law_prover_checks_the_relation(relation: Relation, key: Seq<u8>)
    requires
        relation.complete(),
    ensures
        !relation.holds() ==> proving(relation, key) == Err::<Assignment, ProveError>(
            ProveError::ConstraintUnsatisfied,
        ),
        relation.holds() ==> proving(relation, key) != Err::<Assignment, ProveError>(
            ProveError::ConstraintUnsatisfied,
        ),
{
    relation.law_satisfied_means_holds();
}

/// Setup and the prover agree on the structure: under a proving key that
/// setup gave for a relation, the prover never finds another number of
/// variables, whatever values the circuit has.
pub proof fn law_prover_fits_the_keys_of_setup(
    blank: Relation,
    relation: Relation,
    parameters: Seq<u8>,
)
    requires
        blank.same_kind(relation),
        derivation(shape_of(blank), parameters) is Ok,
    ensures
        proving(relation, derivation(shape_of(blank), parameters)->Ok_0.0) != Err::<
            Assignment,
            ProveError,
        >(ProveError::ShapeMismatch),
{
    law_keys_fit_the_shape(shape_of(blank), parameters);
    blank.law_structure_ignores_values(
        relation,
        SystemSpec::empty(Mode::Shape),
        SystemSpec::empty(Mode::Witness),
    );
}

/// A factorization whose product is not congruent to `n` is never proved,
/// whatever the key: the prover answers `ConstraintUnsatisfied`.
pub proof fn law_wrong_product_is_refused(circuit: FactorizationCircuit, key: Seq<u8>)
    requires
        circuit.complete(),
        !circuit.holds(),
    ensures
        proving(Relation::Factorization(circuit), key) == Err::<Assignment, ProveError>(
            ProveError::ConstraintUnsatisfied,
        ),
{
    Relation::Factorization(circuit).law_satisfied_means_holds();
}

/// A factorization with a factor 0 holds exactly of `n = 0`: the zero
/// element is a value like any other.
pub proof fn law_zero_factor(circuit: FactorizationCircuit)
    requires
        circuit.complete(),
        circuit.p->0.value() == 0 || circuit.q->0.value() == 0,
    ensures
        circuit.holds() <==> circuit.n->0.value() % modulus() == 0,
{
    assert(circuit.p->0.value() * circuit.q->0.value() == 0) by (nonlinear_arith)
        requires
            circuit.p->0.value() == 0 || circuit.q->0.value() == 0,
    ;
}

/// A factorization whose product is congruent to `n` passes the prover's
/// checks under every key made for the relation's shape.
pub proof fn law_right_product_is_accepted(circuit: FactorizationCircuit, key: Seq<u8>)
    requires
        circuit.complete(),
        circuit.holds(),
        key_inputs(key) == 1,
        key_witnesses(key) == 2,
    ensures
        proving(Relation::Factorization(circuit), key) is Ok,
        proving(Relation::Factorization(circuit), key)->Ok_0.public == seq![
            circuit.n->0.value(),
        ],
{
    Relation::Factorization(circuit).law_satisfied_means_holds();
    let sys = circuit.synthesized(SystemSpec::empty(Mode::Witness));
    assert(sys.values().public =~= seq![circuit.n->0.value()]);
}

} // verus!
