//! Sources of noise samples, and a buffer that replays a fixed run of them.

use vstd::prelude::*;

verus! {

/// Anything that yields one sample per call.
///
/// Nothing is promised about the samples of a source in general; a source that
/// is reproducible says so in the contract of its own `noise`.
pub trait NoiseSource<T> {
    fn noise(&mut self) -> T;
}

/// A fixed, non-empty run of samples that is replayed forever.
pub struct LoopedNoiseBuffer<T> {
    noise: Vec<T>,
    current_index: usize,
}

impl<T> LoopedNoiseBuffer<T> {
    #[verifier::type_invariant]
    spec fn inv(self) -> bool {
        0 < self.noise.len() && self.current_index <= self.noise.len()
    }

    /// The samples of one pass through the loop.
    pub closed spec fn samples(self) -> Seq<T> {
        self.noise@
    }

    /// The index into `samples()` of the sample that the next call returns.
    pub closed spec fn position(self) -> nat {
        if self.current_index >= self.noise.len() {
            0
        } else {
            self.current_index as nat
        }
    }

    /// The sample returned by the call after `k` further calls.
    pub open spec fn upcoming(self, k: nat) -> T {
        self.samples()[((self.position() + k) % self.samples().len()) as int]
    }

}

impl<T: Copy> LoopedNoiseBuffer<T> {
    /// A loop over the given samples, starting at the first.
    pub fn new(noise: Vec<T>) -> (r: Self)
        requires
            noise.len() > 0,
        ensures
            r.samples() == noise@,
            r.position() == 0,
    {
        LoopedNoiseBuffer { noise, current_index: 0 }
    }

    /// The number of samples in one pass through the loop.
    pub fn len(&self) -> (n: usize)
        ensures
            n == self.samples().len(),
            n > 0,
    {
        proof {
            use_type_invariant(self);
        }
        self.noise.len()
    }
}

impl<T: Copy> NoiseSource<T> for LoopedNoiseBuffer<T> {
    /// Returns the sample at the current position and moves on by one,
    /// wrapping from the last sample to the first.
    fn noise(&mut self) -> (r: T)
        ensures
            r == old(self).upcoming(0),
            final(self).samples() == old(self).samples(),
            final(self).position() == (old(self).position() + 1) % old(self).samples().len(),
            forall|k: nat| #[trigger] final(self).upcoming(k) == old(self).upcoming(k + 1),
    {
        proof {
            use_type_invariant(&*self);
        }
        if self.current_index >= self.noise.len() {
            self.current_index = 0;
        }
        let val = self.noise[self.current_index];
        self.current_index += 1;
        proof {
            let n = self.noise.len() as int;
            let p = old(self).position() as int;
            lemma_next_position(p, n);
            assert(self.position() == (p + 1) % n);
            assert forall|k: nat| #[trigger] self.upcoming(k) == old(self).upcoming(k + 1) by {
                lemma_shifted_position(p, k as int, n);
            }
        }
        val
    }
}

/// A loop repeats itself after as many calls as it has samples.
pub proof fn lemma_loop_repeats<T>(buffer: LoopedNoiseBuffer<T>, k: nat)
    requires
        buffer.samples().len() > 0,
    ensures
        buffer.upcoming(k + buffer.samples().len()) == buffer.upcoming(k),
{
    let n = buffer.samples().len() as int;
    vstd::arithmetic::div_mod::lemma_mod_add_multiples_vanish((buffer.position() + k) as int, n);
}

/// The position after `p` in a loop of `n` samples.
proof fn lemma_next_position(p: int, n: int)
    requires
        0 <= p < n,
    ensures
        p % n == p,
        (p + 1) % n == if p + 1 == n { 0 } else { p + 1 },
{
    vstd::arithmetic::div_mod::lemma_small_mod(p as nat, n as nat);
    if p + 1 == n {
        vstd::arithmetic::div_mod::lemma_mod_self_0(n);
    } else {
        vstd::arithmetic::div_mod::lemma_small_mod((p + 1) as nat, n as nat);
    }
}

/// Stepping the position first and then looking `k` ahead reaches the same
/// sample as looking `k + 1` ahead.
proof fn lemma_shifted_position(p: int, k: int, n: int)
    requires
        0 <= p < n,
        0 <= k,
    ensures
        (((p + 1) % n) + k) % n == (p + (k + 1)) % n,
{
    lemma_next_position(p, n);
    if p + 1 == n {
        vstd::arithmetic::div_mod::lemma_mod_add_multiples_vanish(k, n);
    }
}

} // verus!
