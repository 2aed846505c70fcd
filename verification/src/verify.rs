//! The verifier: structural checks first, then the pairing check.

use crate::artifact::{point_a, point_b, point_c, Proof, PROOF_BYTES};
use crate::field::{values, Fr};
use crate::keys::{key_inputs, key_points_decode, VerifyingKey};
use bellman::groth16::Proof as CurveProof;
use bellman::groth16::VerifyingKey as CurveKey;
use bellman::groth16::{prepare_verifying_key, verify_proof};
use bls12_381::{Bls12, G1Affine, G2Affine, Scalar};
use vstd::prelude::*;

verus! {

/// Why a proof could not be checked at all.
#[derive(Clone, Copy, Debug, PartialEq, Eq, Structural)]
pub enum VerifyError {
    /// The public inputs are not as many as the verifying key expects, the
    /// bytes are not as many as a proof has, or a point of the proof is not
    /// a point of its group.
    MalformedProof,
}

/// Whether 96 bytes are the uncompressed encoding of a point of the first
/// group.
pub uninterp spec fn g1_point_decodes(point: Seq<u8>) -> bool;

/// Whether 192 bytes are the uncompressed encoding of a point of the second
/// group.
pub uninterp spec fn g2_point_decodes(point: Seq<u8>) -> bool;

/// What the pairing check says of a proof with the given encoding, under a
/// verifying key with the given encoding and for the given public inputs:
/// `None` where the key or a point of the proof does not decode, else
/// `Some(true)` where the check accepts and `Some(false)` where it refuses.
pub uninterp spec fn groth16_outcome(key: Seq<u8>, proof: Seq<u8>, inputs: Seq<nat>) -> Option<
    bool,
>;

/// Whether the three points of a proof decode.
pub open spec fn proof_decodes(proof: Seq<u8>) -> bool {
    g1_point_decodes(point_a(proof)) && g2_point_decodes(point_b(proof)) && g1_point_decodes(
        point_c(proof),
    )
}

/// Whether bytes decode as a point of the first group.
///
/// Calls `G1Affine::from_uncompressed` of `bls12_381` and says whether it
/// gave a point: the encoding is well formed, and the point is on the curve
/// and in the right subgroup.
#[verifier::external_body]
fn g1_decodes(point: &[u8; 96]) -> (ok: bool)
    ensures
        ok == g1_point_decodes(point@),
{
    G1Affine::from_uncompressed(point).is_some().into()
}

/// Whether bytes decode as a point of the second group.
///
/// Calls `G2Affine::from_uncompressed` of `bls12_381` and says whether it
/// gave a point: the encoding is well formed, and the point is on the curve
/// and in the right subgroup.
#[verifier::external_body]
fn g2_decodes(point: &[u8; 192]) -> (ok: bool)
    ensures
        ok == g2_point_decodes(point@),
{
    G2Affine::from_uncompressed(point).is_some().into()
}

/// Runs the pairing check.
///
/// Decodes the key with `VerifyingKey::read` of `bellman::groth16` and the
/// three points of the proof with `from_uncompressed` of `bls12_381`, and
/// calls `prepare_verifying_key` and `verify_proof` of `bellman::groth16`.
/// The result is a function of the three arguments alone: `None` where the
/// key or a point does not decode, and only there; else whether
/// `verify_proof` accepted.
#[verifier::external_body]
fn pairing_check(key: &Vec<u8>, proof: &Proof, inputs: &Vec<Fr>) -> (r: Option<bool>)
    ensures
        r == groth16_outcome(key@, proof@, values(inputs@)),
        r.is_some() == (key_points_decode(key@) && proof_decodes(proof@)),
{
    let key = CurveKey::<Bls12>::read(&key[..]).ok()?;
    let a = G1Affine::from_uncompressed(&proof.a).into_option()?;
    let b = G2Affine::from_uncompressed(&proof.b).into_option()?;
    let c = G1Affine::from_uncompressed(&proof.c).into_option()?;
    let inputs: Vec<Scalar> = inputs.iter().map(|x| Scalar::from_raw(x.to_limbs())).collect();
    Some(verify_proof(&prepare_verifying_key(&key), &CurveProof { a, b, c }, &inputs).is_ok())
}

/// What the verifier concludes from the outcome of the pairing check.
pub open spec fn conclusion(outcome: Option<bool>) -> Result<bool, VerifyError> {
    match outcome {
        Some(accepted) => Ok(accepted),
        None => Err(VerifyError::MalformedProof),
    }
}

/// What verification gives for a proof, public inputs and a key: the
/// structural error where the public inputs are not as many as the key
/// expects or a point of the proof does not decode, else what the pairing
/// check says.
pub open spec fn verification(proof: Seq<u8>, inputs: Seq<nat>, key: Seq<u8>) -> Result<
    bool,
    VerifyError,
> {
    if inputs.len() != key_inputs(key) || !proof_decodes(proof) {
        Err(VerifyError::MalformedProof)
    } else {
        conclusion(groth16_outcome(key, proof, inputs))
    }
}

/// What verification gives for bytes offered as a proof.
pub open spec fn verification_of_bytes(bytes: Seq<u8>, inputs: Seq<nat>, key: Seq<u8>) -> Result<
    bool,
    VerifyError,
> {
    if bytes.len() != PROOF_BYTES {
        Err(VerifyError::MalformedProof)
    } else {
        verification(bytes, inputs, key)
    }
}

/// Turns the outcome of the pairing check into the verifier's answer: a
/// definite boolean, or the structural error.
pub fn conclude(outcome: Option<bool>) -> (r: Result<bool, VerifyError>)
    ensures
        r == conclusion(outcome),
{
    match outcome {
        Some(accepted) => Ok(accepted),
        None => Err(VerifyError::MalformedProof),
    }
}

/// Whether the three points of the proof decode.
pub fn decodes(proof: &Proof) -> (ok: bool)
    ensures
        ok == proof_decodes(proof@),
{
    g1_decodes(proof.point_a()) && g2_decodes(proof.point_b()) && g1_decodes(proof.point_c())
}

/// Checks a proof against public inputs and a verifying key.
///
/// The number of public inputs is compared with what the key expects
/// before any point is decoded, and the points are decoded before any
/// pairing is computed. Under a verifying key, whose own points decode,
/// the answer is the structural error exactly where one of these two tests
/// fails; everywhere else it is a definite boolean.
pub fn verify(proof: &Proof, public_inputs: &Vec<Fr>, key: &VerifyingKey) -> (r: Result<
    bool,
    VerifyError,
>)
    ensures
        r == verification(proof@, values(public_inputs@), key@),
        r is Err <==> values(public_inputs@).len() != key_inputs(key@) || !proof_decodes(proof@),
{
    proof {
        use_type_invariant(key);
    }
    if public_inputs.len() != key.num_inputs() {
        return Err(VerifyError::MalformedProof);
    }
    if !decodes(proof) {
        return Err(VerifyError::MalformedProof);
    }
    let outcome = pairing_check(key.as_bytes(), proof, public_inputs);
    conclude(outcome)
}

/// Checks bytes offered as a proof against public inputs and a verifying
/// key. Bytes that are not as many as a proof has are refused first.
pub fn verify_bytes(bytes: Vec<u8>, public_inputs: &Vec<Fr>, key: &VerifyingKey) -> (r: Result<
    bool,
    VerifyError,
>)
    ensures
        r == verification_of_bytes(bytes@, values(public_inputs@), key@),
{
    match Proof::from_bytes(bytes) {
        Ok(proof) => verify(&proof, public_inputs, key),
        Err(_) => Err(VerifyError::MalformedProof),
    }
}

/// A proof that was written out and read back verifies as it did before,
/// and so does a proof under a key that was written out and read back:
/// verification looks at the encodings only, and reading back what was
/// written gives the same encodings.
pub proof fn law_round_trip_verifies_alike(proof: Proof, inputs: Seq<nat>, key: VerifyingKey)
    requires
        key.wf(),
    ensures
        Proof::decoded(proof@) == Ok::<Seq<u8>, crate::artifact::ProofError>(proof@),
        VerifyingKey::decoded(key@) == Ok::<Seq<u8>, crate::keys::KeyError>(key@),
        verification_of_bytes(proof@, inputs, key@) == verification(proof@, inputs, key@),
{
    proof.lemma_length();
}

} // verus!
