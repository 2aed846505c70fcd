//! The source of randomness, handed to the functions that need it.
//!
//! Setup draws its trapdoor from it and the prover its blinding factors.
//! A source is a seed and a place in the ChaCha12 key stream of that seed;
//! every draw takes the next 64 bytes of the stream and reduces them into
//! the field. What a source gives is determined by its seed and place: two
//! sources made from one seed give the same elements. A source must
//! therefore not be used twice from the same state: two proofs made with
//! the same blinding factors under one key give the witness away. The
//! caller sees to that; a source made from a fixed seed is for tests.

use crate::field::{le_nat, modulus, Fr};
use rand::rngs::OsRng;
use rand::{RngCore, SeedableRng};
use rand_chacha::ChaCha12Rng;
use vstd::prelude::*;

verus! {

/// The number of 32-bit words of the key stream that one draw takes.
pub const WORDS_PER_DRAW: u128 = 16;

/// The number of draws after which the key stream of a seed starts over.
pub open spec fn period() -> nat {
    0x1_0000_0000_0000_0000
}

/// The 64 bytes of the ChaCha12 key stream of `seed` that begin at the
/// 32-bit word with the number `word`.
pub uninterp spec fn stream_block(seed: Seq<u8>, word: nat) -> Seq<u8>;

/// The element that the draw with the number `index` gives from the key
/// stream of `seed`.
pub open spec fn element_at(seed: Seq<u8>, index: nat) -> nat {
    le_nat(stream_block(seed, 16 * index)) % modulus()
}

/// The number of the draw that comes `steps` draws after the draw with the
/// number `index`.
pub open spec fn advance(index: nat, steps: nat) -> nat {
    (index + steps) % period()
}

/// A seed from the operating system, if it gives one.
///
/// Calls `try_fill_bytes` of `rand::rngs::OsRng`. Nothing is known of the
/// bytes.
#[verifier::external_body]
fn os_seed() -> Option<[u8; 32]> {
    let mut seed = [0u8; 32];
    OsRng.try_fill_bytes(&mut seed).ok()?;
    Some(seed)
}

/// 64 bytes of the key stream of a seed.
///
/// Makes a generator with `ChaCha12Rng::from_seed` of `rand_chacha`, moves
/// it with `set_word_pos` to the given word of its stream and takes 64
/// bytes with `fill_bytes`. The bytes are a function of the seed and the
/// word alone.
#[verifier::external_body]
fn block(seed: &[u8; 32], word: u128) -> (bytes: [u8; 64])
    ensures
        bytes@ == stream_block(seed@, word as nat),
{
    let mut rng = ChaCha12Rng::from_seed(*seed);
    rng.set_word_pos(word);
    let mut bytes = [0u8; 64];
    rng.fill_bytes(&mut bytes);
    bytes
}

/// The mathematical content of a [`RandomnessSource`].
pub struct SourceSpec {
    /// The seed of the key stream.
    pub seed: Seq<u8>,
    /// The number of the next draw.
    pub drawn: nat,
}

/// A source of random field elements.
#[derive(Debug)]
pub struct RandomnessSource {
    seed: [u8; 32],
    drawn: u64,
}

impl View for RandomnessSource {
    type V = SourceSpec;

    closed spec fn view(&self) -> SourceSpec {
        SourceSpec { seed: self.seed@, drawn: self.drawn as nat }
    }
}

impl RandomnessSource {
    /// A source seeded by the operating system, if it gives a seed. The
    /// source stands at the start of its key stream.
    pub fn from_os() -> (r: Option<RandomnessSource>)
        ensures
            r is Some ==> r->0@.drawn == 0,
    {
        match os_seed() {
            Some(seed) => Some(RandomnessSource::from_seed(seed)),
            None => None,
        }
    }

    /// The source with the given seed, at the start of its key stream. Two
    /// sources made from one seed give the same elements: use it for tests
    /// only.
    pub fn from_seed(seed: [u8; 32]) -> (r: RandomnessSource)
        ensures
            r@ == (SourceSpec { seed: seed@, drawn: 0 }),
    {
        RandomnessSource { seed, drawn: 0 }
    }

    /// The next random element of the field: the next 64 bytes of the key
    /// stream, reduced into the field. The source moves on by one draw.
    pub fn next_element(&mut self) -> (r: Fr)
        ensures
            r.value() == element_at(old(self)@.seed, old(self)@.drawn),
            final(self)@ == (SourceSpec {
                seed: old(self)@.seed,
                drawn: advance(old(self)@.drawn, 1),
            }),
    {
        let word: u128 = WORDS_PER_DRAW * (self.drawn as u128);
        let bytes = block(&self.seed, word);
        if self.drawn == u64::MAX {
            self.drawn = 0;
        } else {
            self.drawn = self.drawn + 1;
        }
        Fr::from_wide(&bytes)
    }
}

/// Moving on by some draws and then by more is moving on by all of them.
pub proof fn lemma_advance_twice(index: nat, first: nat, second: nat)
    ensures
        advance(advance(index, first), second) == advance(index, first + second),
{
    vstd::arithmetic::div_mod::lemma_add_mod_noop(
        (index + first) as int,
        second as int,
        period() as int,
    );
    vstd::arithmetic::div_mod::lemma_small_mod(second % period(), period());
    vstd::arithmetic::div_mod::lemma_add_mod_noop(
        ((index + first) % period()) as int,
        second as int,
        period() as int,
    );
    vstd::arithmetic::div_mod::lemma_mod_twice((index + first) as int, period() as int);
}

} // verus!
