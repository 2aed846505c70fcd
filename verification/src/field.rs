//! Elements of the BLS12-381 scalar field.
//!
//! An element is kept as four 64-bit limbs, least significant first, that
//! hold its canonical representative. The arithmetic itself is done by the
//! `bls12_381` crate.

use bls12_381::Scalar;
use vstd::prelude::*;

verus! {

/// The order of the scalar field.
pub open spec fn modulus() -> nat {
    0x73eda753299d7d483339d80809a1d80553bda402fffe5bfeffffffff00000001nat
}

/// The number that four limbs stand for, least significant limb first.
pub open spec fn limbs_value(l0: u64, l1: u64, l2: u64, l3: u64) -> nat {
    (l0 as nat) + (l1 as nat) * 0x1_0000_0000_0000_0000nat + (l2 as nat)
        * 0x1_0000_0000_0000_0000_0000_0000_0000_0000nat + (l3 as nat)
        * 0x1_0000_0000_0000_0000_0000_0000_0000_0000_0000_0000_0000_0000nat
}

/// The number held by the eight bytes of `bytes` that start at `at`, least
/// significant byte first.
pub open spec fn le_word(bytes: Seq<u8>, at: int) -> nat {
    (bytes[at] as nat) + (bytes[at + 1] as nat) * 0x100nat + (bytes[at + 2] as nat) * 0x1_0000nat
        + (bytes[at + 3] as nat) * 0x100_0000nat + (bytes[at + 4] as nat) * 0x1_0000_0000nat
        + (bytes[at + 5] as nat) * 0x100_0000_0000nat + (bytes[at + 6] as nat)
        * 0x1_0000_0000_0000nat + (bytes[at + 7] as nat) * 0x100_0000_0000_0000nat
}

/// The number held by 32 bytes, least significant byte first.
pub open spec fn le_value(bytes: Seq<u8>) -> nat {
    le_word(bytes, 0) + le_word(bytes, 8) * 0x1_0000_0000_0000_0000nat + le_word(bytes, 16)
        * 0x1_0000_0000_0000_0000_0000_0000_0000_0000nat + le_word(bytes, 24)
        * 0x1_0000_0000_0000_0000_0000_0000_0000_0000_0000_0000_0000_0000nat
}

/// The number held by a byte string of any length, least significant byte
/// first.
pub open spec fn le_nat(bytes: Seq<u8>) -> nat
    decreases bytes.len(),
{
    if bytes.len() == 0 {
        0
    } else {
        (bytes[0] as nat) + 0x100 * le_nat(bytes.skip(1))
    }
}

/// The number held by a byte string of any length, most significant byte
/// first.
pub open spec fn be_nat(bytes: Seq<u8>) -> nat {
    le_nat(bytes.reverse())
}

/// The numbers that a sequence of elements stands for.
pub open spec fn values(elements: Seq<Fr>) -> Seq<nat> {
    Seq::new(elements.len(), |i: int| elements[i].value())
}

/// An element of the scalar field, held as its canonical representative.
#[derive(Clone, Copy, Debug, PartialEq, Eq, Structural)]
pub struct Fr {
    l0: u64,
    l1: u64,
    l2: u64,
    l3: u64,
}

/// Reads the eight bytes of `bytes` that start at `at` as one limb.
fn read_word(bytes: &[u8; 32], at: usize) -> (w: u64)
    requires
        at <= 24,
    ensures
        w as nat == le_word(bytes@, at as int),
{
    let b0: u64 = bytes[at] as u64;
    let b1: u64 = bytes[at + 1] as u64;
    let b2: u64 = bytes[at + 2] as u64;
    let b3: u64 = bytes[at + 3] as u64;
    let b4: u64 = bytes[at + 4] as u64;
    let b5: u64 = bytes[at + 5] as u64;
    let b6: u64 = bytes[at + 6] as u64;
    let b7: u64 = bytes[at + 7] as u64;
    b0 + b1 * 0x100 + b2 * 0x1_0000 + b3 * 0x100_0000 + b4 * 0x1_0000_0000 + b5 * 0x100_0000_0000
        + b6 * 0x1_0000_0000_0000 + b7 * 0x100_0000_0000_0000
}

/// The product of two elements, as 32 little-endian bytes.
///
/// Calls `Mul` of `bls12_381::Scalar` on the two elements read with
/// `Scalar::from_raw`, and encodes the product with `Scalar::to_bytes`: the
/// canonical representative of the product modulo the field order.
#[verifier::external_body]
fn scalar_mul(a: &Fr, b: &Fr) -> (bytes: [u8; 32])
    ensures
        le_value(bytes@) == (a.value() * b.value()) % modulus(),
{
    let x = Scalar::from_raw([a.l0, a.l1, a.l2, a.l3]);
    let y = Scalar::from_raw([b.l0, b.l1, b.l2, b.l3]);
    (x * y).to_bytes()
}

/// The sum of two elements, as 32 little-endian bytes.
///
/// Calls `Add` of `bls12_381::Scalar` on the two elements read with
/// `Scalar::from_raw`, and encodes the sum with `Scalar::to_bytes`: the
/// canonical representative of the sum modulo the field order.
#[verifier::external_body]
fn scalar_add(a: &Fr, b: &Fr) -> (bytes: [u8; 32])
    ensures
        le_value(bytes@) == (a.value() + b.value()) % modulus(),
{
    let x = Scalar::from_raw([a.l0, a.l1, a.l2, a.l3]);
    let y = Scalar::from_raw([b.l0, b.l1, b.l2, b.l3]);
    (x + y).to_bytes()
}

/// A 512-bit number reduced into the field, as 32 little-endian bytes.
///
/// Calls `Scalar::from_bytes_wide` of `bls12_381` on the 64 bytes, which
/// reads them as a little-endian number and reduces it by the field order,
/// and encodes the element with `Scalar::to_bytes`.
#[verifier::external_body]
fn scalar_reduce(wide: &[u8; 64]) -> (bytes: [u8; 32])
    ensures
        le_value(bytes@) == le_nat(wide@) % modulus(),
{
    Scalar::from_bytes_wide(wide).to_bytes()
}

/// Appending zero bytes to a little-endian byte string keeps its number.
proof fn lemma_le_nat_padded(bytes: Seq<u8>, zeros: Seq<u8>)
    requires
        forall|i: int| 0 <= i < zeros.len() ==> zeros[i] == 0,
    ensures
        le_nat(bytes + zeros) == le_nat(bytes),
    decreases bytes.len() + zeros.len(),
{
    if bytes.len() == 0 {
        assert(bytes + zeros =~= zeros);
        if zeros.len() > 0 {
            assert(Seq::<u8>::empty() + zeros.skip(1) =~= zeros.skip(1));
            lemma_le_nat_padded(Seq::empty(), zeros.skip(1));
        }
    } else {
        assert((bytes + zeros).skip(1) =~= bytes.skip(1) + zeros);
        lemma_le_nat_padded(bytes.skip(1), zeros);
    }
}

impl Fr {
    /// The number in `0 .. modulus()` that this element stands for.
    pub closed spec fn value(self) -> nat {
        limbs_value(self.l0, self.l1, self.l2, self.l3)
    }

    /// Every element that executable code holds is canonical.
    #[verifier::type_invariant]
    pub open spec fn is_canonical(self) -> bool {
        self.value() < modulus()
    }

    /// Two elements with the same value are the same element.
    pub proof fn lemma_value_injective(self, other: Fr)
        requires
            self.value() == other.value(),
        ensures
            self == other,
    {
    }

    /// The additive identity.
    pub fn zero() -> (r: Fr)
        ensures
            r.value() == 0,
    {
        Fr { l0: 0, l1: 0, l2: 0, l3: 0 }
    }

    /// The multiplicative identity.
    pub fn one() -> (r: Fr)
        ensures
            r.value() == 1,
    {
        Fr { l0: 1, l1: 0, l2: 0, l3: 0 }
    }

    /// The element that stands for a 64-bit number.
    pub fn from_u64(x: u64) -> (r: Fr)
        ensures
            r.value() == x,
    {
        Fr { l0: x, l1: 0, l2: 0, l3: 0 }
    }

    /// Builds the element from 32 little-endian bytes known to be canonical.
    fn from_canonical_bytes(bytes: &[u8; 32]) -> (r: Fr)
        requires
            le_value(bytes@) < modulus(),
        ensures
            r.value() == le_value(bytes@),
    {
        Fr {
            l0: read_word(bytes, 0),
            l1: read_word(bytes, 8),
            l2: read_word(bytes, 16),
            l3: read_word(bytes, 24),
        }
    }

    /// The element with the given limbs, least significant first, if they
    /// hold a number below the field order.
    pub fn from_limbs(l0: u64, l1: u64, l2: u64, l3: u64) -> (r: Option<Fr>)
        ensures
            r is Some <==> limbs_value(l0, l1, l2, l3) < modulus(),
            r is Some ==> r->0.value() == limbs_value(l0, l1, l2, l3),
    {
        let below = l3 < 0x73ed_a753_299d_7d48 || (l3 == 0x73ed_a753_299d_7d48 && (l2
            < 0x3339_d808_09a1_d805 || (l2 == 0x3339_d808_09a1_d805 && (l1 < 0x53bd_a402_fffe_5bfe
            || (l1 == 0x53bd_a402_fffe_5bfe && l0 < 0xffff_ffff_0000_0001)))));
        if below {
            Some(Fr { l0, l1, l2, l3 })
        } else {
            None
        }
    }

    /// The limbs of the canonical representative, least significant first.
    pub fn to_limbs(&self) -> (limbs: [u64; 4])
        ensures
            limbs_value(limbs[0], limbs[1], limbs[2], limbs[3]) == self.value(),
    {
        [self.l0, self.l1, self.l2, self.l3]
    }

    /// The element held by 32 little-endian bytes, if they hold a number
    /// below the field order.
    pub fn from_bytes(bytes: &[u8; 32]) -> (r: Option<Fr>)
        ensures
            r is Some <==> le_value(bytes@) < modulus(),
            r is Some ==> r->0.value() == le_value(bytes@),
    {
        Fr::from_limbs(
            read_word(bytes, 0),
            read_word(bytes, 8),
            read_word(bytes, 16),
            read_word(bytes, 24),
        )
    }

    /// The element that a little-endian number of 64 bytes reduces to.
    pub fn from_wide(bytes: &[u8; 64]) -> (r: Fr)
        ensures
            r.value() == le_nat(bytes@) % modulus(),
    {
        let reduced = scalar_reduce(bytes);
        Fr::from_canonical_bytes(&reduced)
    }

    /// The element that a big-endian number of at most 64 bytes reduces to.
    pub fn from_be_bytes_reduced(bytes: &[u8]) -> (r: Fr)
        requires
            bytes@.len() <= 64,
        ensures
            r.value() == be_nat(bytes@) % modulus(),
    {
        let mut wide: [u8; 64] = [0u8; 64];
        let n = bytes.len();
        let mut i: usize = 0;
        while i < n
            invariant
                i <= n,
                n == bytes@.len(),
                n <= 64,
                forall|k: int| 0 <= k < i ==> wide@[k] == bytes@[n - 1 - k],
                forall|k: int| i <= k < 64 ==> wide@[k] == 0,
            decreases n - i,
        {
            wide[i] = bytes[n - 1 - i];
            i += 1;
        }
        proof {
            let zeros = wide@.skip(n as int);
            assert(wide@ =~= bytes@.reverse() + zeros);
            lemma_le_nat_padded(bytes@.reverse(), zeros);
        }
        let reduced = scalar_reduce(&wide);
        Fr::from_canonical_bytes(&reduced)
    }

    /// The product in the field.
    pub fn mul(&self, rhs: &Fr) -> (r: Fr)
        ensures
            r.value() == (self.value() * rhs.value()) % modulus(),
    {
        let bytes = scalar_mul(self, rhs);
        Fr::from_canonical_bytes(&bytes)
    }

    /// The sum in the field.
    pub fn add(&self, rhs: &Fr) -> (r: Fr)
        ensures
            r.value() == (self.value() + rhs.value()) % modulus(),
    {
        let bytes = scalar_add(self, rhs);
        Fr::from_canonical_bytes(&bytes)
    }
}

} // verus!
