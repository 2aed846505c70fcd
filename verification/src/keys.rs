//! Proving and verifying keys as byte artifacts.
//!
//! A verifying key is six points in uncompressed form, a count, and that
//! many points for the instance: one for the constant `1` and one for each
//! public variable. A proving key is a verifying key followed by five
//! counted lists of points, the second of which has one point for each
//! private variable.

use vstd::prelude::*;
use vstd::slice::slice_subrange;

verus! {

/// The length of the six fixed points of a verifying key.
pub const FIXED_POINTS_BYTES: usize = 864;

/// The length of a point of the first group, uncompressed.
pub const G1_BYTES: usize = 96;

/// The length of a point of the second group, uncompressed.
pub const G2_BYTES: usize = 192;

/// The number held by the four bytes of `bytes` that start at `at`, most
/// significant byte first.
pub open spec fn be_u32(bytes: Seq<u8>, at: int) -> nat {
    (bytes[at] as nat) * 0x100_0000 + (bytes[at + 1] as nat) * 0x1_0000 + (bytes[at + 2] as nat)
        * 0x100 + (bytes[at + 3] as nat)
}

/// Where a counted list of items of `width` bytes ends that starts at `at`
/// with its count.
pub open spec fn list_end(bytes: Seq<u8>, at: int, width: int) -> int {
    at + 4 + width * be_u32(bytes, at)
}

/// Whether a counted list of items of `width` bytes starts at `at` and
/// lies within the bytes.
pub open spec fn list_fits(bytes: Seq<u8>, at: int, width: int) -> bool {
    0 <= at && at + 4 <= bytes.len() && list_end(bytes, at, width) <= bytes.len()
}

/// Whether the bytes begin with the layout of a verifying key: the fixed
/// points and a list of at least one instance point.
pub open spec fn key_prefix(bytes: Seq<u8>) -> bool {
    list_fits(bytes, 864, 96) && be_u32(bytes, 864) >= 1
}

/// Whether the bytes are laid out as a verifying key.
pub open spec fn verifying_layout(bytes: Seq<u8>) -> bool {
    key_prefix(bytes) && list_end(bytes, 864, 96) == bytes.len()
}

/// Whether the bytes are laid out as a proving key.
pub open spec fn proving_layout(bytes: Seq<u8>) -> bool {
    let h = list_end(bytes, 864, 96);
    let l = list_end(bytes, h, 96);
    let a = list_end(bytes, l, 96);
    let b1 = list_end(bytes, a, 96);
    let b2 = list_end(bytes, b1, 96);
    &&& key_prefix(bytes)
    &&& list_fits(bytes, h, 96)
    &&& list_fits(bytes, l, 96)
    &&& list_fits(bytes, a, 96)
    &&& list_fits(bytes, b1, 96)
    &&& list_fits(bytes, b2, 192)
    &&& list_end(bytes, b2, 192) == bytes.len()
}

/// The number of public variables that a key laid out in `bytes` is for.
pub open spec fn key_inputs(bytes: Seq<u8>) -> nat
    recommends
        key_prefix(bytes),
{
    (be_u32(bytes, 864) - 1) as nat
}

/// The number of private variables that a proving key laid out in `bytes`
/// is for.
pub open spec fn key_witnesses(bytes: Seq<u8>) -> nat
    recommends
        proving_layout(bytes),
{
    be_u32(bytes, list_end(bytes, list_end(bytes, 864, 96), 96))
}

/// Whether a verifying key can be read from these bytes: every point is the
/// encoding of a point of its group, and no instance point is the identity.
pub uninterp spec fn key_points_decode(key: Seq<u8>) -> bool;

/// Whether a proving key can be read from these bytes with every point
/// checked: every point is the encoding of a point of its group, and no
/// point of the lists is the identity.
pub uninterp spec fn parameters_points_decode(key: Seq<u8>) -> bool;

/// Why bytes are not a key.
#[derive(Clone, Copy, Debug, PartialEq, Eq, Structural)]
pub enum KeyError {
    /// The bytes are not laid out as a key of the kind asked for.
    Malformed,
    /// Some point of the key is not a point of its group.
    InvalidPoint,
}

/// Reads four bytes as a number, most significant byte first.
fn read_be_u32(bytes: &[u8], at: usize) -> (r: u32)
    requires
        at + 4 <= bytes@.len(),
    ensures
        r == be_u32(bytes@, at as int),
{
    let b0: u32 = bytes[at] as u32;
    let b1: u32 = bytes[at + 1] as u32;
    let b2: u32 = bytes[at + 2] as u32;
    let b3: u32 = bytes[at + 3] as u32;
    b0 * 0x100_0000 + b1 * 0x1_0000 + b2 * 0x100 + b3
}

/// Where the counted list that starts at `at` ends, if it lies within the
/// bytes.
fn read_list(bytes: &[u8], at: usize, width: usize) -> (r: Option<usize>)
    requires
        width == G1_BYTES || width == G2_BYTES,
    ensures
        r is Some <==> list_fits(bytes@, at as int, width as int),
        r is Some ==> r->0 == list_end(bytes@, at as int, width as int),
{
    let len = bytes.len();
    if at > len || len - at < 4 {
        return None;
    }
    let count: u64 = read_be_u32(bytes, at) as u64;
    let room: u64 = (len - at - 4) as u64;
    let need: u64 = (width as u64) * count;
    if need > room {
        return None;
    }
    Some(at + 4 + need as usize)
}

/// Whether the points of a verifying key decode.
///
/// Calls `VerifyingKey::read` of `bellman::groth16` for the curve BLS12-381
/// and says whether it gave a key. It reads the fixed points and the
/// instance points one by one, and refuses a point that is not on the
/// curve or not in the right subgroup, and an instance point that is the
/// identity.
#[verifier::external_body]
fn points_decode(key: &Vec<u8>) -> (ok: bool)
    ensures
        ok == key_points_decode(key@),
{
    bellman::groth16::VerifyingKey::<bls12_381::Bls12>::read(&key[..]).is_ok()
}

/// Whether the points of a proving key decode.
///
/// Calls `Parameters::read` of `bellman::groth16` for the curve BLS12-381,
/// with the checks switched on, and says whether it gave the parameters.
/// It reads the verifying key and then the five lists point by point, and
/// refuses a point that is not on the curve or not in the right subgroup,
/// and a point of a list that is the identity.
#[verifier::external_body]
fn parameters_decode(key: &Vec<u8>) -> (ok: bool)
    ensures
        ok == parameters_points_decode(key@),
{
    bellman::groth16::Parameters::<bls12_381::Bls12>::read(&key[..], true).is_ok()
}

/// A verifying key: what is needed to check proofs of one circuit shape.
#[derive(Debug)]
pub struct VerifyingKey {
    bytes: Vec<u8>,
}

impl View for VerifyingKey {
    type V = Seq<u8>;

    closed spec fn view(&self) -> Seq<u8> {
        self.bytes@
    }
}

impl Clone for VerifyingKey {
    fn clone(&self) -> (r: VerifyingKey)
        ensures
            r@ == self@,
    {
        proof {
            use_type_invariant(self);
        }
        VerifyingKey { bytes: self.bytes.clone() }
    }
}

impl VerifyingKey {
    #[verifier::type_invariant]
    pub open spec fn wf(&self) -> bool {
        verifying_layout(self@) && key_points_decode(self@)
    }

    /// What reading `bytes` as a verifying key gives.
    pub open spec fn decoded(bytes: Seq<u8>) -> Result<Seq<u8>, KeyError> {
        if !verifying_layout(bytes) {
            Err(KeyError::Malformed)
        } else if !key_points_decode(bytes) {
            Err(KeyError::InvalidPoint)
        } else {
            Ok(bytes)
        }
    }

    /// Takes bytes as a verifying key, if they are laid out as one and
    /// their points decode.
    pub fn from_bytes(bytes: Vec<u8>) -> (r: Result<VerifyingKey, KeyError>)
        ensures
            match VerifyingKey::decoded(bytes@) {
                Ok(encoding) => r is Ok && r->Ok_0@ == encoding,
                Err(e) => r == Err::<VerifyingKey, KeyError>(e),
            },
    {
        let end = read_list(bytes.as_slice(), FIXED_POINTS_BYTES, G1_BYTES);
        match end {
            None => { return Err(KeyError::Malformed); },
            Some(e) => {
                if e != bytes.len() || e < FIXED_POINTS_BYTES + 4 + G1_BYTES {
                    return Err(KeyError::Malformed);
                }
            },
        }
        if !points_decode(&bytes) {
            return Err(KeyError::InvalidPoint);
        }
        Ok(VerifyingKey { bytes })
    }

    /// The encoding of the key.
    pub fn to_bytes(&self) -> (bytes: Vec<u8>)
        ensures
            bytes@ == self@,
    {
        self.bytes.clone()
    }

    /// The bytes of the key.
    pub fn as_bytes(&self) -> (bytes: &Vec<u8>)
        ensures
            bytes@ == self@,
    {
        &self.bytes
    }

    /// The encoding of the point `alpha` in the first group.
    pub fn alpha_g1(&self) -> (r: &[u8])
        ensures
            r@ == self@.subrange(0, 96),
    {
        proof {
            use_type_invariant(self);
        }
        slice_subrange(self.bytes.as_slice(), 0, 96)
    }

    /// The encoding of the point `beta` in the second group.
    pub fn beta_g2(&self) -> (r: &[u8])
        ensures
            r@ == self@.subrange(192, 384),
    {
        proof {
            use_type_invariant(self);
        }
        slice_subrange(self.bytes.as_slice(), 192, 384)
    }

    /// The encoding of the point `gamma` in the second group.
    pub fn gamma_g2(&self) -> (r: &[u8])
        ensures
            r@ == self@.subrange(384, 576),
    {
        proof {
            use_type_invariant(self);
        }
        slice_subrange(self.bytes.as_slice(), 384, 576)
    }

    /// The encoding of the point `delta` in the second group.
    pub fn delta_g2(&self) -> (r: &[u8])
        ensures
            r@ == self@.subrange(672, 864),
    {
        proof {
            use_type_invariant(self);
        }
        slice_subrange(self.bytes.as_slice(), 672, 864)
    }

    /// The encoding of the instance point with the given number: number 0
    /// is for the constant `1`, the others for the public inputs in order.
    pub fn instance_point(&self, i: usize) -> (r: &[u8])
        requires
            i <= key_inputs(self@),
        ensures
            r@ == self@.subrange(868 + 96 * i, 964 + 96 * i),
    {
        proof {
            use_type_invariant(self);
        }
        let source = self.bytes.as_slice();
        assert(868 + 96 * be_u32(source@, 864) == source.len());
        assert(96 * i + 96 <= 96 * be_u32(source@, 864));
        let at = FIXED_POINTS_BYTES + 4 + G1_BYTES * i;
        slice_subrange(source, at, at + G1_BYTES)
    }

    /// The number of public inputs that the key expects.
    pub fn num_inputs(&self) -> (n: usize)
        ensures
            n == key_inputs(self@),
    {
        proof {
            use_type_invariant(self);
        }
        let count = read_be_u32(self.bytes.as_slice(), FIXED_POINTS_BYTES);
        (count - 1) as usize
    }

    /// Reading back the encoding of a key gives a key with the same
    /// encoding: one that every function of this library treats alike.
    pub proof fn law_round_trip(self)
        requires
            self.wf(),
        ensures
            VerifyingKey::decoded(self@) == Ok::<Seq<u8>, KeyError>(self@),
    {
    }
}

/// A proving key: what is needed to make proofs of one circuit shape.
#[derive(Debug)]
pub struct ProvingKey {
    bytes: Vec<u8>,
}

impl View for ProvingKey {
    type V = Seq<u8>;

    closed spec fn view(&self) -> Seq<u8> {
        self.bytes@
    }
}

impl Clone for ProvingKey {
    fn clone(&self) -> (r: ProvingKey)
        ensures
            r@ == self@,
    {
        proof {
            use_type_invariant(self);
        }
        ProvingKey { bytes: self.bytes.clone() }
    }
}

impl ProvingKey {
    #[verifier::type_invariant]
    pub open spec fn wf(&self) -> bool {
        proving_layout(self@) && parameters_points_decode(self@)
    }

    /// What reading `bytes` as a proving key gives.
    pub open spec fn decoded(bytes: Seq<u8>) -> Result<Seq<u8>, KeyError> {
        if !proving_layout(bytes) {
            Err(KeyError::Malformed)
        } else if !parameters_points_decode(bytes) {
            Err(KeyError::InvalidPoint)
        } else {
            Ok(bytes)
        }
    }

    /// Takes bytes as a proving key, if they are laid out as one and their
    /// points decode.
    pub fn from_bytes(bytes: Vec<u8>) -> (r: Result<ProvingKey, KeyError>)
        ensures
            match ProvingKey::decoded(bytes@) {
                Ok(encoding) => r is Ok && r->Ok_0@ == encoding,
                Err(e) => r == Err::<ProvingKey, KeyError>(e),
            },
    {
        let view = bytes.as_slice();
        let h = match read_list(view, FIXED_POINTS_BYTES, G1_BYTES) {
            Some(e) => e,
            None => { return Err(KeyError::Malformed); },
        };
        if h < FIXED_POINTS_BYTES + 4 + G1_BYTES {
            return Err(KeyError::Malformed);
        }
        let l = match read_list(view, h, G1_BYTES) {
            Some(e) => e,
            None => { return Err(KeyError::Malformed); },
        };
        let a = match read_list(view, l, G1_BYTES) {
            Some(e) => e,
            None => { return Err(KeyError::Malformed); },
        };
        let b1 = match read_list(view, a, G1_BYTES) {
            Some(e) => e,
            None => { return Err(KeyError::Malformed); },
        };
        let b2 = match read_list(view, b1, G1_BYTES) {
            Some(e) => e,
            None => { return Err(KeyError::Malformed); },
        };
        let end = match read_list(view, b2, G2_BYTES) {
            Some(e) => e,
            None => { return Err(KeyError::Malformed); },
        };
        if end != bytes.len() {
            return Err(KeyError::Malformed);
        }
        if !parameters_decode(&bytes) {
            return Err(KeyError::InvalidPoint);
        }
        Ok(ProvingKey { bytes })
    }

    /// The encoding of the key.
    pub fn to_bytes(&self) -> (bytes: Vec<u8>)
        ensures
            bytes@ == self@,
    {
        self.bytes.clone()
    }

    /// The bytes of the key.
    pub fn as_bytes(&self) -> (bytes: &Vec<u8>)
        ensures
            bytes@ == self@,
    {
        &self.bytes
    }

    /// The number of public variables of the shape that the key is for.
    pub fn num_public(&self) -> (n: usize)
        ensures
            n == key_inputs(self@),
    {
        proof {
            use_type_invariant(self);
        }
        let count = read_be_u32(self.bytes.as_slice(), FIXED_POINTS_BYTES);
        (count - 1) as usize
    }

    /// The number of private variables of the shape that the key is for.
    pub fn num_private(&self) -> (n: usize)
        ensures
            n == key_witnesses(self@),
    {
        proof {
            use_type_invariant(self);
        }
        let view = self.bytes.as_slice();
        let h = read_list(view, FIXED_POINTS_BYTES, G1_BYTES).unwrap();
        let l = read_list(view, h, G1_BYTES).unwrap();
        read_be_u32(view, l) as usize
    }

    /// The verifying key that the proving key begins with.
    pub fn verifying_key(&self) -> (r: Result<VerifyingKey, KeyError>)
        ensures
            match VerifyingKey::decoded(self@.subrange(0, list_end(self@, 864, 96))) {
                Ok(encoding) => r is Ok && r->Ok_0@ == encoding,
                Err(e) => r == Err::<VerifyingKey, KeyError>(e),
            },
    {
        proof {
            use_type_invariant(self);
        }
        let view = self.bytes.as_slice();
        let h = read_list(view, FIXED_POINTS_BYTES, G1_BYTES).unwrap();
        let prefix = vstd::slice::slice_to_vec(slice_subrange(view, 0, h));
        VerifyingKey::from_bytes(prefix)
    }

    /// Reading back the encoding of a key gives a key with the same
    /// encoding: one that every function of this library treats alike.
    pub proof fn law_round_trip(self)
        requires
            self.wf(),
        ensures
            ProvingKey::decoded(self@) == Ok::<Seq<u8>, KeyError>(self@),
    {
    }
}

} // verus!
