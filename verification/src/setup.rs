//! Setup: from a circuit's structure and the parameters made for it to the
//! two keys.
//!
//! The parameters themselves (the structured reference string evaluated for
//! the circuit) are computed outside this library, from the frozen system
//! that [`shape`] returns and the [`Trapdoor`] that [`trapdoor`] draws. The
//! same structure and the same trapdoor give the same parameters.

use crate::cs::{ConstraintSystem, Mode, SystemSpec};
use crate::field::Fr;
use crate::keys::{
    be_u32, key_inputs, key_witnesses, list_end, KeyError, ProvingKey, VerifyingKey,
};
use crate::randomness::{
    advance, element_at, lemma_advance_twice, RandomnessSource, SourceSpec,
};
use crate::relation::Relation;
use vstd::prelude::*;

verus! {

/// Why setup failed.
#[derive(Clone, Copy, Debug, PartialEq, Eq, Structural)]
pub enum SetupError {
    /// The circuit has no constraint.
    ShapeEmpty,
    /// The parameters are for another number of variables.
    ShapeMismatch,
    /// The parameters are not a key.
    Key(KeyError),
}

/// The secret values that the parameters are computed from. Whoever knows
/// them can forge proofs: they are to be dropped once the parameters exist.
#[derive(Clone, Copy, Debug)]
pub struct Trapdoor {
    pub alpha: Fr,
    pub beta: Fr,
    pub gamma: Fr,
    pub delta: Fr,
    pub tau: Fr,
    /// The multiple of the first group's generator that serves as its base.
    pub g1: Fr,
    /// The multiple of the second group's generator that serves as its base.
    pub g2: Fr,
}

impl Trapdoor {
    /// Whether the trapdoor holds the seven elements that a source in the
    /// given state gives next, in the order of the fields.
    pub open spec fn drawn_from(self, source: SourceSpec) -> bool {
        &&& self.alpha.value() == element_at(source.seed, source.drawn)
        &&& self.beta.value() == element_at(source.seed, advance(source.drawn, 1))
        &&& self.gamma.value() == element_at(source.seed, advance(source.drawn, 2))
        &&& self.delta.value() == element_at(source.seed, advance(source.drawn, 3))
        &&& self.tau.value() == element_at(source.seed, advance(source.drawn, 4))
        &&& self.g1.value() == element_at(source.seed, advance(source.drawn, 5))
        &&& self.g2.value() == element_at(source.seed, advance(source.drawn, 6))
    }
}

/// The two keys of one circuit shape.
#[derive(Debug)]
pub struct KeyPair {
    pub proving: ProvingKey,
    pub verifying: VerifyingKey,
}

/// The structure of a relation: what its synthesis in shape mode leaves,
/// frozen.
pub open spec fn shape_of(relation: Relation) -> SystemSpec {
    SystemSpec { frozen: true, ..relation.synthesized(SystemSpec::empty(Mode::Shape)) }
}

/// What freezing a system as a shape gives.
pub open spec fn frozen_shape(sys: SystemSpec) -> Result<SystemSpec, SetupError> {
    if sys.constraints.len() == 0 {
        Err(SetupError::ShapeEmpty)
    } else {
        Ok(SystemSpec { frozen: true, ..sys })
    }
}

/// What [`derive`] gives: the encodings of the proving and the verifying
/// key.
pub open spec fn derivation(shape: SystemSpec, parameters: Seq<u8>) -> Result<
    (Seq<u8>, Seq<u8>),
    SetupError,
> {
    if shape.constraints.len() == 0 {
        Err(SetupError::ShapeEmpty)
    } else if ProvingKey::decoded(parameters) is Err {
        Err(SetupError::Key(ProvingKey::decoded(parameters)->Err_0))
    } else if key_inputs(parameters) != shape.public.len() || key_witnesses(parameters)
        != shape.private.len() {
        Err(SetupError::ShapeMismatch)
    } else {
        match VerifyingKey::decoded(parameters.subrange(0, list_end(parameters, 864, 96))) {
            Ok(verifying) => Ok((parameters, verifying)),
            Err(e) => Err(SetupError::Key(e)),
        }
    }
}

/// Freezes a system as the shape of a circuit, unless it has no constraint.
pub fn freeze(cs: ConstraintSystem) -> (r: Result<ConstraintSystem, SetupError>)
    requires
        cs.wf(),
    ensures
        match frozen_shape(cs@) {
            Ok(sys) => r is Ok && r->Ok_0@ == sys && r->Ok_0.wf(),
            Err(e) => r is Err && r->Err_0 == e,
        },
{
    if cs.num_constraints() == 0 {
        return Err(SetupError::ShapeEmpty);
    }
    let mut cs = cs;
    cs.freeze();
    Ok(cs)
}

/// Runs the relation in shape mode and freezes what it leaves.
pub fn shape(relation: &Relation) -> (r: Result<ConstraintSystem, SetupError>)
    ensures
        match frozen_shape(relation.synthesized(SystemSpec::empty(Mode::Shape))) {
            Ok(sys) => r is Ok && r->Ok_0@ == sys && r->Ok_0.wf(),
            Err(e) => r is Err && r->Err_0 == e,
        },
{
    let mut cs = ConstraintSystem::new(Mode::Shape);
    match relation.synthesize(&mut cs) {
        Ok(()) => freeze(cs),
        // A fresh system in shape mode refuses nothing.
        Err(_) => vstd::pervasive::unreached(),
    }
}

/// Draws a trapdoor: the next seven elements of the source, which moves on
/// by seven draws. The same source in the same state gives the same
/// trapdoor.
pub fn trapdoor(rng: &mut RandomnessSource) -> (t: Trapdoor)
    ensures
        t.drawn_from(old(rng)@),
        final(rng)@ == (SourceSpec {
            seed: old(rng)@.seed,
            drawn: advance(old(rng)@.drawn, 7),
        }),
{
    let ghost start = rng@.drawn;
    let alpha = rng.next_element();
    let beta = rng.next_element();
    let gamma = rng.next_element();
    let delta = rng.next_element();
    let tau = rng.next_element();
    let g1 = rng.next_element();
    let g2 = rng.next_element();
    proof {
        lemma_advance_twice(start, 1, 1);
        lemma_advance_twice(start, 2, 1);
        lemma_advance_twice(start, 3, 1);
        lemma_advance_twice(start, 4, 1);
        lemma_advance_twice(start, 5, 1);
        lemma_advance_twice(start, 6, 1);
    }
    Trapdoor { alpha, beta, gamma, delta, tau, g1, g2 }
}

/// Takes the parameters computed for a shape as its two keys, after
/// checking that they are laid out as a key, that their points decode, and
/// that they are for as many public and private variables as the shape
/// has.
pub fn derive(shape: &ConstraintSystem, parameters: Vec<u8>) -> (r: Result<KeyPair, SetupError>)
    requires
        shape.wf(),
    ensures
        match derivation(shape@, parameters@) {
            Ok((proving, verifying)) => r is Ok && r->Ok_0.proving@ == proving
                && r->Ok_0.verifying@ == verifying,
            Err(e) => r is Err && r->Err_0 == e,
        },
{
    if shape.num_constraints() == 0 {
        return Err(SetupError::ShapeEmpty);
    }
    let proving = match ProvingKey::from_bytes(parameters) {
        Ok(key) => key,
        Err(e) => { return Err(SetupError::Key(e)); },
    };
    if proving.num_public() != shape.num_public() || proving.num_private() != shape.num_private() {
        return Err(SetupError::ShapeMismatch);
    }
    let verifying = match proving.verifying_key() {
        Ok(key) => key,
        Err(e) => { return Err(SetupError::Key(e)); },
    };
    Ok(KeyPair { proving, verifying })
}

/// The keys that setup gives fit the shape they were made for: the proving
/// key is for as many public and private variables as the shape has, and
/// the verifying key expects as many public inputs.
pub proof fn law_keys_fit_the_shape(shape: SystemSpec, parameters: Seq<u8>)
    requires
        derivation(shape, parameters) is Ok,
    ensures
        key_inputs(derivation(shape, parameters)->Ok_0.0) == shape.public.len(),
        key_witnesses(derivation(shape, parameters)->Ok_0.0) == shape.private.len(),
        key_inputs(derivation(shape, parameters)->Ok_0.1) == shape.public.len(),
{
    let end = list_end(parameters, 864, 96);
    let prefix = parameters.subrange(0, end);
    assert(be_u32(prefix, 864) == be_u32(parameters, 864));
}

/// Setup is deterministic in its randomness: two trapdoors drawn from
/// sources in the same state are the same trapdoor.
pub proof fn law_same_source_gives_same_trapdoor(
    first: Trapdoor,
    second: Trapdoor,
    source: SourceSpec,
)
    requires
        first.drawn_from(source),
        second.drawn_from(source),
    ensures
        first == second,
{
    first.alpha.lemma_value_injective(second.alpha);
    first.beta.lemma_value_injective(second.beta);
    first.gamma.lemma_value_injective(second.gamma);
    first.delta.lemma_value_injective(second.delta);
    first.tau.lemma_value_injective(second.tau);
    first.g1.lemma_value_injective(second.g1);
    first.g2.lemma_value_injective(second.g2);
}

} // verus!
