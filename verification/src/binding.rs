//! What the public values of the gadget bind of an inner proof.
//!
//! The gadget makes each 48-byte coordinate of the inner proof a public
//! value by reducing it into the scalar field, whose order has 255 bits. A
//! coordinate and the same coordinate plus the order give the same value,
//! so the eight values do not determine the proof in general. They do in
//! two cases that are stated here: among proofs whose coordinates are all
//! below the order, and against the flip of any one bit.

use crate::artifact::{
    component_offset, component_value, coordinate, COMPONENTS, PROOF_BYTES,
};
use crate::field::{be_nat, le_nat, modulus};
use vstd::arithmetic::div_mod::{
    lemma_fundamental_div_mod, lemma_mod_equivalence, lemma_mod_multiples_basic, lemma_small_mod,
};
use vstd::arithmetic::power2::{lemma2_to64, lemma_pow2_adds, lemma_pow2_unfold, pow2};
use vstd::prelude::*;

verus! {

/// Two little-endian byte strings of one length that hold the same number
/// are the same string.
pub proof fn lemma_le_nat_injective(a: Seq<u8>, b: Seq<u8>)
    requires
        a.len() == b.len(),
        le_nat(a) == le_nat(b),
    ensures
        a == b,
    decreases a.len(),
{
    if a.len() > 0 {
        lemma_le_nat_injective(a.skip(1), b.skip(1));
        assert forall|i: int| 0 <= i < a.len() implies a[i] == b[i] by {
            if i > 0 {
                assert(a[i] == a.skip(1)[i - 1]);
                assert(b[i] == b.skip(1)[i - 1]);
            }
        }
    }
    assert(a =~= b);
}

/// Two big-endian byte strings of one length that hold the same number are
/// the same string.
pub proof fn lemma_be_nat_injective(a: Seq<u8>, b: Seq<u8>)
    requires
        a.len() == b.len(),
        be_nat(a) == be_nat(b),
    ensures
        a == b,
{
    lemma_le_nat_injective(a.reverse(), b.reverse());
    assert forall|i: int| 0 <= i < a.len() implies a[i] == b[i] by {
        assert(a[i] == a.reverse()[a.len() - 1 - i]);
        assert(b[i] == b.reverse()[b.len() - 1 - i]);
    }
    assert(a =~= b);
}

/// Where two little-endian byte strings differ in the byte at `i` only,
/// their numbers differ by the difference of that byte times `256^i`.
pub proof fn lemma_le_nat_one_byte(a: Seq<u8>, b: Seq<u8>, i: int)
    requires
        a.len() == b.len(),
        0 <= i < a.len(),
        forall|j: int| 0 <= j < a.len() && j != i ==> a[j] == b[j],
    ensures
        le_nat(b) - le_nat(a) == (b[i] - a[i]) * pow2((8 * i) as nat),
    decreases i,
{
    lemma2_to64();
    if i == 0 {
        assert(a.skip(1) =~= b.skip(1));
        assert((b[0] - a[0]) * 1 == b[0] - a[0]) by (nonlinear_arith);
    } else {
        assert forall|j: int| 0 <= j < a.skip(1).len() && j != i - 1 implies a.skip(1)[j]
            == b.skip(1)[j] by {
            assert(a.skip(1)[j] == a[j + 1]);
            assert(b.skip(1)[j] == b[j + 1]);
        }
        lemma_le_nat_one_byte(a.skip(1), b.skip(1), i - 1);
        assert(a.skip(1)[i - 1] == a[i]);
        assert(b.skip(1)[i - 1] == b[i]);
        lemma_pow2_adds(8, (8 * (i - 1)) as nat);
        let d = b[i] - a[i];
        let w = pow2((8 * (i - 1)) as nat) as int;
        assert(0x100 * (d * w) == d * (0x100 * w)) by (nonlinear_arith);
    }
}

/// No power of two is a multiple of the field order, which is odd.
pub proof fn lemma_power_of_two_is_no_multiple(e: nat)
    ensures
        pow2(e) % modulus() != 0,
    decreases e,
{
    let m = modulus() as int;
    if e == 0 {
        lemma2_to64();
    } else {
        lemma_power_of_two_is_no_multiple((e - 1) as nat);
        lemma_pow2_unfold(e);
        let x = pow2((e - 1) as nat) as int;
        if (2 * x) % m == 0 {
            let q = (2 * x) / m;
            let h = m / 2;
            lemma_fundamental_div_mod(2 * x, m);
            assert(m == 2 * h + 1);
            let half = x - h * q;
            assert(q == 2 * half) by (nonlinear_arith)
                requires
                    2 * x == m * q,
                    m == 2 * h + 1,
                    half == x - h * q,
            ;
            assert(x == half * m) by (nonlinear_arith)
                requires
                    2 * x == m * q,
                    q == 2 * half,
            ;
            lemma_mod_multiples_basic(half, m);
        }
    }
}

/// Two numbers that differ by a power of two are not congruent modulo the
/// field order.
pub proof fn lemma_power_of_two_apart(x: int, y: int, e: nat)
    requires
        x - y == pow2(e) || y - x == pow2(e),
    ensures
        x % (modulus() as int) != y % (modulus() as int),
{
    let m = modulus() as int;
    lemma_power_of_two_is_no_multiple(e);
    lemma_mod_equivalence(x, y, m);
    lemma_mod_equivalence(y, x, m);
}

/// Whether every coordinate of the proof, read as a number, is below the
/// order of the scalar field.
pub open spec fn coordinates_are_small(proof: Seq<u8>) -> bool {
    forall|k: int| 0 <= k < COMPONENTS ==> be_nat(#[trigger] coordinate(proof, k)) < modulus()
}

/// The bytes with one bit of the byte at `at` flipped.
pub open spec fn with_flipped_bit(bytes: Seq<u8>, at: int, bit: u8) -> Seq<u8> {
    bytes.update(at, bytes[at] ^ (1u8 << bit))
}

/// Flipping one bit of a byte moves it by a power of two, up or down.
proof fn lemma_flipped_byte(x: u8, bit: u8)
    requires
        bit < 8,
    ensures
        (x ^ (1u8 << bit)) - x == pow2(bit as nat) || x - (x ^ (1u8 << bit)) == pow2(bit as nat),
{
    lemma2_to64();
    let d = 1u8 << bit;
    let y = x ^ d;
    assert(d == 1 || d == 2 || d == 4 || d == 8 || d == 16 || d == 32 || d == 64 || d == 128) by (
    bit_vector)
        requires
            d == 1u8 << bit,
            bit < 8,
    ;
    assert((bit == 0 ==> d == 1) && (bit == 1 ==> d == 2) && (bit == 2 ==> d == 4) && (bit == 3
        ==> d == 8) && (bit == 4 ==> d == 16) && (bit == 5 ==> d == 32) && (bit == 6 ==> d == 64)
        && (bit == 7 ==> d == 128)) by (bit_vector)
        requires
            d == 1u8 << bit,
            bit < 8,
    ;
    assert(d as nat == pow2(bit as nat));
    assert((x & d == 0 ==> y == x + d) && (x & d != 0 ==> x == y + d)) by (bit_vector)
        requires
            y == x ^ d,
            d == 1 || d == 2 || d == 4 || d == 8 || d == 16 || d == 32 || d == 64 || d == 128,
    ;
}

/// The eight coordinates determine the proof: taking a proof apart into
/// its coordinates loses nothing.
pub proof fn law_coordinates_determine_the_proof(first: Seq<u8>, second: Seq<u8>)
    requires
        first.len() == PROOF_BYTES,
        second.len() == PROOF_BYTES,
        forall|k: int| 0 <= k < COMPONENTS ==> coordinate(first, k) == coordinate(second, k),
    ensures
        first == second,
{
    assert forall|j: int| 0 <= j < first.len() implies first[j] == second[j] by {
        let block = j / 48;
        let k: int = if block == 2 {
            3
        } else if block == 3 {
            2
        } else if block == 4 {
            5
        } else if block == 5 {
            4
        } else {
            block
        };
        assert(component_offset(k) == 48 * block);
        assert(coordinate(first, k) == coordinate(second, k));
        assert(first[j] == coordinate(first, k)[j - 48 * block]);
        assert(second[j] == coordinate(second, k)[j - 48 * block]);
    }
    assert(first =~= second);
}

/// Proofs whose coordinates are all below the order of the scalar field
/// and that give the same eight public values are the same proof: among
/// such proofs the public values of the gadget determine the inner proof.
pub proof fn law_small_coordinates_are_bound(first: Seq<u8>, second: Seq<u8>)
    requires
        first.len() == PROOF_BYTES,
        second.len() == PROOF_BYTES,
        coordinates_are_small(first),
        coordinates_are_small(second),
        forall|k: int|
            0 <= k < COMPONENTS ==> component_value(first, k) == component_value(second, k),
    ensures
        first == second,
{
    assert forall|k: int| 0 <= k < COMPONENTS implies coordinate(first, k) == coordinate(
        second,
        k,
    ) by {
        let a = coordinate(first, k);
        let b = coordinate(second, k);
        assert(component_value(first, k) == component_value(second, k));
        lemma_small_mod(be_nat(a), modulus());
        lemma_small_mod(be_nat(b), modulus());
        lemma_be_nat_injective(a, b);
    }
    law_coordinates_determine_the_proof(first, second);
}

/// Flipping any one bit of a coordinate changes the public value at the
/// number of that coordinate: a proof with one bit flipped never gives the
/// public values of the proof it was made from.
pub proof fn law_flipped_bit_changes_the_value(proof: Seq<u8>, k: int, at: int, bit: u8)
    requires
        proof.len() == PROOF_BYTES,
        0 <= k < COMPONENTS,
        0 <= at < 48,
        bit < 8,
    ensures
        component_value(with_flipped_bit(proof, component_offset(k) + at, bit), k)
            != component_value(proof, k),
{
    let place = component_offset(k) + at;
    let flipped = with_flipped_bit(proof, place, bit);
    let a = coordinate(proof, k).reverse();
    let b = coordinate(flipped, k).reverse();
    let i = 47 - at;
    assert(a[i] == proof[place]);
    assert(b[i] == flipped[place]);
    assert forall|j: int| 0 <= j < a.len() && j != i implies a[j] == b[j] by {
        assert(a[j] == proof[component_offset(k) + 47 - j]);
        assert(b[j] == flipped[component_offset(k) + 47 - j]);
    }
    lemma_le_nat_one_byte(a, b, i);
    lemma_flipped_byte(proof[place], bit);
    lemma_pow2_adds(bit as nat, (8 * i) as nat);
    let e = (bit + 8 * i) as nat;
    let d = b[i] - a[i];
    let w = pow2((8 * i) as nat) as int;
    assert(d * w == pow2(e) || -(d * w) == pow2(e)) by (nonlinear_arith)
        requires
            d == pow2(bit as nat) || -d == pow2(bit as nat),
            pow2(e) == pow2(bit as nat) * w,
    ;
    lemma_power_of_two_apart(le_nat(b) as int, le_nat(a) as int, e);
}

} // verus!
