//! A reproducible random generator of the xorshift family with 128 bits of
//! state, for driving the synthesiser with a known stream of noise.

use crate::noise::NoiseSource;
use vstd::prelude::*;

verus! {

/// First word of the state before seeding.
pub const SEED_X: u64 = 0x1F12_3BB5_0000_0000;

/// Multiplier of the second word of the state before seeding.
pub const SEED_Y: u64 = 362436069;

/// Bit pattern of the exponent of every double in `[1, 2)`.
pub const UNIT_EXPONENT: u64 = 0x3FF0_0000_0000_0000;

/// The new word that one round mixes out of the state `(x, y)`.
pub open spec fn scramble(x: u64, y: u64) -> u64 {
    let a = x ^ (x << 23);
    let b = a ^ (a >> 17);
    b ^ (y ^ (y >> 26))
}

/// The state that follows `s`.
pub open spec fn step(s: (u64, u64)) -> (u64, u64) {
    (s.1, scramble(s.0, s.1))
}

/// The number that a round started in state `s` hands out: the sum of the two
/// words of the following state, modulo 2^64.
pub open spec fn output(s: (u64, u64)) -> u64 {
    ((scramble(s.0, s.1) + s.1) % 0x1_0000_0000_0000_0000) as u64
}

/// The state that a generator seeded with `seed` starts in. One round is run
/// on the raw seed words, and its output is thrown away.
pub open spec fn seeded(seed: u32) -> (u64, u64) {
    step(
        (
            (SEED_X + seed) as u64,
            ((SEED_Y * (seed * 0x1_0000_0000)) % 0x1_0000_0000_0000_0000) as u64,
        ),
    )
}

/// The bits of the double `1 + (value >> 12) / 2^52`: the exponent of `[1, 2)`
/// over the top 52 bits of `value` as the fraction.
pub open spec fn unit_bits(value: u64) -> u64 {
    (value >> 12) | UNIT_EXPONENT
}

/// A xorshift generator with two 64-bit words of state.
pub struct XorShift128 {
    x: u64,
    y: u64,
}

impl View for XorShift128 {
    type V = (u64, u64);

    closed spec fn view(&self) -> (u64, u64) {
        (self.x, self.y)
    }
}

impl XorShift128 {
    #[verifier::type_invariant]
    spec fn inv(self) -> bool {
        self.x != 0 || self.y != 0
    }

    /// A generator seeded with `seed`.
    pub fn new(seed: u32) -> (r: Self)
        ensures
            r@ == seeded(seed),
    {
        let (x, y) = seed_words(seed);
        let z = mix(x, y);
        proof {
            lemma_step_keeps_nonzero((x, y));
        }
        XorShift128 { x: y, y: z }
    }

    /// Starts the stream of `seed` afresh.
    pub fn reset(&mut self, seed: u32)
        ensures
            final(self)@ == seeded(seed),
    {
        let (x, y) = seed_words(seed);
        let z = mix(x, y);
        proof {
            lemma_step_keeps_nonzero((x, y));
        }
        *self = XorShift128 { x: y, y: z };
    }

    /// The next number of the stream.
    pub fn next_u64(&mut self) -> (r: u64)
        ensures
            r == output(old(self)@),
            final(self)@ == step(old(self)@),
    {
        proof {
            use_type_invariant(&*self);
            lemma_step_keeps_nonzero(self@);
        }
        let ty = self.y;
        let tx = mix(self.x, ty);
        *self = XorShift128 { x: ty, y: tx };
        tx.wrapping_add(ty)
    }

    /// The next number of the stream as the bits of a double in `[1, 2)`.
    /// Subtracting one from that double gives a uniform value in `[0, 1)`.
    pub fn next_unit_bits(&mut self) -> (r: u64)
        ensures
            r == unit_bits(output(old(self)@)),
            UNIT_EXPONENT <= r < 0x4000_0000_0000_0000,
            final(self)@ == step(old(self)@),
    {
        let value = self.next_u64();
        to_unit_bits(value)
    }
}

impl NoiseSource<u64> for XorShift128 {
    fn noise(&mut self) -> (r: u64)
        ensures
            r == output(old(self)@),
            final(self)@ == step(old(self)@),
    {
        self.next_u64()
    }
}

/// The two raw state words for `seed`.
fn seed_words(seed: u32) -> (r: (u64, u64))
    ensures
        r.0 == SEED_X + seed,
        r.1 == (SEED_Y * (seed * 0x1_0000_0000)) % 0x1_0000_0000_0000_0000,
        r.0 != 0,
{
    let wide: u64 = seed as u64;
    (SEED_X + wide, SEED_Y.wrapping_mul(wide * 0x1_0000_0000))
}

/// One round of mixing.
fn mix(x: u64, y: u64) -> (r: u64)
    ensures
        r == scramble(x, y),
{
    let mut tx: u64 = x;
    tx ^= tx << 23;
    tx ^= tx >> 17;
    tx ^= y ^ (y >> 26);
    tx
}

/// Packs the top 52 bits of `value` as the fraction of a double in `[1, 2)`.
pub fn to_unit_bits(value: u64) -> (r: u64)
    ensures
        r == unit_bits(value),
        UNIT_EXPONENT <= r < 0x4000_0000_0000_0000,
{
    proof {
        lemma_unit_bits_range(value);
    }
    (value >> 12) | UNIT_EXPONENT
}

/// A round never leads from a state with a set bit to the all-zero state, so
/// a seeded generator cannot fall silent.
pub proof fn lemma_step_keeps_nonzero(s: (u64, u64))
    requires
        s.0 != 0 || s.1 != 0,
    ensures
        step(s).0 != 0 || step(s).1 != 0,
{
    let x = s.0;
    let y = s.1;
    if y == 0 {
        assert(scramble(x, 0) != 0) by (bit_vector)
            requires
                x != 0,
        ;
    }
}

/// The packed bits are the exponent of `[1, 2)` plus a 52-bit fraction that
/// holds the top bits of the number, so they always encode a double in
/// `[1, 2)`.
pub proof fn lemma_unit_bits_range(value: u64)
    ensures
        unit_bits(value) == UNIT_EXPONENT + value / 4096,
        UNIT_EXPONENT <= unit_bits(value) < 0x4000_0000_0000_0000,
{
    assert(unit_bits(value) == UNIT_EXPONENT + value / 4096) by (bit_vector);
    assert(value / 4096 < 0x10_0000_0000_0000) by (bit_vector);
}

} // verus!
