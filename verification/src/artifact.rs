//! Proofs as byte artifacts.
//!
//! A proof is three points `a`, `b`, `c` in uncompressed form: eight base
//! field coordinates of 48 bytes each, most significant byte first. The
//! layout is known here and nowhere else: the points and coordinates are
//! handed out by accessors.

use crate::field::{be_nat, modulus, Fr};
use vstd::prelude::*;
use vstd::slice::slice_subrange;

verus! {

/// The length of one coordinate.
pub const COORDINATE_BYTES: usize = 48;

/// The number of coordinates of a proof.
pub const COMPONENTS: usize = 8;

/// The length of an encoded proof.
pub const PROOF_BYTES: usize = 384;

/// Where the coordinate with the given number starts in the encoding.
///
/// The coordinates are numbered `a.x, a.y, b.x.c0, b.x.c1, b.y.c0,
/// b.y.c1, c.x, c.y`; the encoding puts `c1` before `c0`.
pub open spec fn component_offset(k: int) -> int {
    if k == 0 {
        0
    } else if k == 1 {
        48
    } else if k == 2 {
        144
    } else if k == 3 {
        96
    } else if k == 4 {
        240
    } else if k == 5 {
        192
    } else if k == 6 {
        288
    } else {
        336
    }
}

/// The coordinate with the given number: its 48 bytes.
pub open spec fn coordinate(proof: Seq<u8>, k: int) -> Seq<u8> {
    proof.subrange(component_offset(k), component_offset(k) + 48)
}

/// The coordinate with the given number, reduced into the scalar field.
pub open spec fn component_value(proof: Seq<u8>, k: int) -> nat {
    be_nat(coordinate(proof, k)) % modulus()
}

/// The encoding of the point `a` within the encoding of a proof.
pub open spec fn point_a(proof: Seq<u8>) -> Seq<u8> {
    proof.subrange(0, 96)
}

/// The encoding of the point `b` within the encoding of a proof.
pub open spec fn point_b(proof: Seq<u8>) -> Seq<u8> {
    proof.subrange(96, 288)
}

/// The encoding of the point `c` within the encoding of a proof.
pub open spec fn point_c(proof: Seq<u8>) -> Seq<u8> {
    proof.subrange(288, 384)
}

/// Why bytes are not a proof.
#[derive(Clone, Copy, Debug, PartialEq, Eq, Structural)]
pub enum ProofError {
    /// The bytes do not hold the eight coordinates of a proof.
    WrongLength,
}

/// The place in the order of the encoding of the coordinate with the given
/// number: the encoding puts `c1` before `c0`.
pub open spec fn component_block(k: int) -> int {
    component_offset(k) / 48
}

/// The encoding that holds the eight coordinates, given by number.
pub open spec fn laid_out(coordinates: Seq<Seq<u8>>) -> Seq<u8> {
    coordinates[0] + coordinates[1] + coordinates[3] + coordinates[2] + coordinates[5]
        + coordinates[4] + coordinates[6] + coordinates[7]
}

/// What putting coordinates together as a proof gives: the proof that
/// holds them, if they are eight of 48 bytes each.
pub open spec fn assembled(coordinates: Seq<Seq<u8>>) -> Result<Seq<u8>, ProofError> {
    if coordinates.len() == COMPONENTS && (forall|k: int|
        0 <= k < COMPONENTS ==> (#[trigger] coordinates[k]).len() == COORDINATE_BYTES) {
        Ok(laid_out(coordinates))
    } else {
        Err(ProofError::WrongLength)
    }
}

/// The two coordinates `x`, `y` of a point of the first group, given by
/// its 96 bytes.
pub fn g1_coordinates(point: &[u8]) -> (r: (&[u8], &[u8]))
    requires
        point@.len() == 96,
    ensures
        r.0@ == point@.subrange(0, 48),
        r.1@ == point@.subrange(48, 96),
{
    (slice_subrange(point, 0, 48), slice_subrange(point, 48, 96))
}

/// The four coordinates `(x.c0, x.c1)`, `(y.c0, y.c1)` of a point of the
/// second group, given by its 192 bytes, which hold `c1` before `c0`.
pub fn g2_coordinates(point: &[u8]) -> (r: ((&[u8], &[u8]), (&[u8], &[u8])))
    requires
        point@.len() == 192,
    ensures
        r.0.0@ == point@.subrange(48, 96),
        r.0.1@ == point@.subrange(0, 48),
        r.1.0@ == point@.subrange(144, 192),
        r.1.1@ == point@.subrange(96, 144),
{
    (
        (slice_subrange(point, 48, 96), slice_subrange(point, 0, 48)),
        (slice_subrange(point, 144, 192), slice_subrange(point, 96, 144)),
    )
}

/// A copy of the `N` bytes of `source` that start at `at`.
fn copy_bytes<const N: usize>(source: &[u8], at: usize) -> (r: [u8; N])
    requires
        at + N <= source@.len(),
    ensures
        r@ == source@.subrange(at as int, at + N),
{
    let mut r = [0u8; N];
    let mut i: usize = 0;
    while i < N
        invariant
            i <= N,
            at + N <= source.len(),
            source.len() == source@.len(),
            forall|j: int| 0 <= j < i ==> r@[j] == source@[at + j],
        decreases N - i,
    {
        r[i] = source[at + i];
        i += 1;
    }
    assert(r@ =~= source@.subrange(at as int, at + N));
    r
}

/// A proof: an artifact of fixed size that holds no witness value. It is
/// kept as the encodings of its three points.
#[derive(Debug)]
pub struct Proof {
    pub(crate) a: [u8; 96],
    pub(crate) b: [u8; 192],
    pub(crate) c: [u8; 96],
}

impl View for Proof {
    type V = Seq<u8>;

    closed spec fn view(&self) -> Seq<u8> {
        self.a@ + self.b@ + self.c@
    }
}

impl Clone for Proof {
    fn clone(&self) -> (r: Proof)
        ensures
            r@ == self@,
    {
        Proof { a: self.a, b: self.b, c: self.c }
    }
}

impl Proof {
    /// The encoding of a proof has as many bytes as a proof has.
    pub proof fn lemma_length(self)
        ensures
            self@.len() == PROOF_BYTES,
    {
    }

    /// What reading `bytes` as a proof gives: the proof with that encoding,
    /// if there are as many bytes as a proof has.
    pub open spec fn decoded(bytes: Seq<u8>) -> Result<Seq<u8>, ProofError> {
        if bytes.len() == PROOF_BYTES {
            Ok(bytes)
        } else {
            Err(ProofError::WrongLength)
        }
    }

    /// Takes bytes as a proof, if there are as many as a proof has.
    pub fn from_bytes(bytes: Vec<u8>) -> (r: Result<Proof, ProofError>)
        ensures
            match Proof::decoded(bytes@) {
                Ok(encoding) => r is Ok && r->Ok_0@ == encoding,
                Err(e) => r == Err::<Proof, ProofError>(e),
            },
    {
        if bytes.len() != PROOF_BYTES {
            return Err(ProofError::WrongLength);
        }
        let source = bytes.as_slice();
        let proof = Proof {
            a: copy_bytes::<96>(source, 0),
            b: copy_bytes::<192>(source, 96),
            c: copy_bytes::<96>(source, 288),
        };
        assert(proof@ =~= bytes@);
        Ok(proof)
    }

    /// Puts eight coordinates, given by number, together as a proof.
    pub fn from_coordinates(coordinates: &Vec<Vec<u8>>) -> (r: Result<Proof, ProofError>)
        ensures
            match assembled(Seq::new(coordinates@.len(), |k: int| coordinates@[k]@)) {
                Ok(encoding) => r is Ok && r->Ok_0@ == encoding && forall|k: int|
                    0 <= k < COMPONENTS ==> coordinate(encoding, k) == coordinates@[k]@,
                Err(e) => r == Err::<Proof, ProofError>(e),
            },
    {
        let ghost given = Seq::new(coordinates@.len(), |k: int| coordinates@[k]@);
        if coordinates.len() != COMPONENTS {
            return Err(ProofError::WrongLength);
        }
        let mut k: usize = 0;
        while k < COMPONENTS
            invariant
                k <= COMPONENTS,
                coordinates@.len() == COMPONENTS,
                given == Seq::new(coordinates@.len(), |k: int| coordinates@[k]@),
                forall|j: int| 0 <= j < k ==> (#[trigger] given[j]).len() == COORDINATE_BYTES,
            decreases COMPONENTS - k,
        {
            if coordinates[k].len() != COORDINATE_BYTES {
                assert(given[k as int].len() != COORDINATE_BYTES);
                return Err(ProofError::WrongLength);
            }
            k += 1;
        }
        let mut bytes: Vec<u8> = Vec::new();
        bytes.extend_from_slice(coordinates[0].as_slice());
        bytes.extend_from_slice(coordinates[1].as_slice());
        bytes.extend_from_slice(coordinates[3].as_slice());
        bytes.extend_from_slice(coordinates[2].as_slice());
        bytes.extend_from_slice(coordinates[5].as_slice());
        bytes.extend_from_slice(coordinates[4].as_slice());
        bytes.extend_from_slice(coordinates[6].as_slice());
        bytes.extend_from_slice(coordinates[7].as_slice());
        proof {
            assert(bytes@ =~= laid_out(given));
            assert forall|j: int| 0 <= j < COMPONENTS implies coordinate(bytes@, j)
                == coordinates@[j]@ by {
                assert(given[j].len() == COORDINATE_BYTES);
                assert(coordinate(bytes@, j) =~= given[j]);
            }
        }
        Proof::from_bytes(bytes)
    }

    /// The encoding of the proof.
    pub fn to_bytes(&self) -> (bytes: Vec<u8>)
        ensures
            bytes@ == self@,
            bytes@.len() == PROOF_BYTES,
    {
        let mut bytes: Vec<u8> = Vec::new();
        bytes.extend_from_slice(self.a.as_slice());
        bytes.extend_from_slice(self.b.as_slice());
        bytes.extend_from_slice(self.c.as_slice());
        bytes
    }

    /// The encoding of the point `a`.
    pub fn point_a(&self) -> (r: &[u8; 96])
        ensures
            r@ == point_a(self@),
    {
        assert(self.a@ =~= point_a(self@));
        &self.a
    }

    /// The encoding of the point `b`.
    pub fn point_b(&self) -> (r: &[u8; 192])
        ensures
            r@ == point_b(self@),
    {
        assert(self.b@ =~= point_b(self@));
        &self.b
    }

    /// The encoding of the point `c`.
    pub fn point_c(&self) -> (r: &[u8; 96])
        ensures
            r@ == point_c(self@),
    {
        assert(self.c@ =~= point_c(self@));
        &self.c
    }

    /// The 48 bytes of the coordinate with number `k`.
    pub fn coordinate(&self, k: usize) -> (r: &[u8])
        requires
            k < COMPONENTS,
        ensures
            r@ == coordinate(self@, k as int),
    {
        let r = if k == 0 {
            slice_subrange(self.a.as_slice(), 0, 48)
        } else if k == 1 {
            slice_subrange(self.a.as_slice(), 48, 96)
        } else if k == 2 {
            slice_subrange(self.b.as_slice(), 48, 96)
        } else if k == 3 {
            slice_subrange(self.b.as_slice(), 0, 48)
        } else if k == 4 {
            slice_subrange(self.b.as_slice(), 144, 192)
        } else if k == 5 {
            slice_subrange(self.b.as_slice(), 96, 144)
        } else if k == 6 {
            slice_subrange(self.c.as_slice(), 0, 48)
        } else {
            slice_subrange(self.c.as_slice(), 48, 96)
        };
        assert(r@ =~= coordinate(self@, k as int));
        r
    }

    /// The coordinate with number `k`, reduced into the scalar field.
    pub fn component(&self, k: usize) -> (r: Fr)
        requires
            k < COMPONENTS,
        ensures
            r.value() == component_value(self@, k as int),
    {
        Fr::from_be_bytes_reduced(self.coordinate(k))
    }

    /// Reading back the encoding of a proof gives a proof with the same
    /// encoding: one that every function of this library treats alike.
    pub proof fn law_round_trip(self)
        ensures
            Proof::decoded(self@) == Ok::<Seq<u8>, ProofError>(self@),
    {
    }
}

} // verus!
