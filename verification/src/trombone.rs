//! Scheduling of the synthesiser: which sample rates it accepts, how a buffer
//! is cut into blocks, and where inside a block each tract step stands.

use vstd::prelude::*;

verus! {

/// The greatest number of samples that are synthesised between two updates of
/// the slowly changing parameters.
pub const MAX_BLOCK_LEN: usize = 512;

/// Why a sample rate is refused.
#[derive(Clone, Copy, Debug, PartialEq, Eq, Structural)]
pub enum SampleRateError {
    /// The rate is zero, and every period and filter divides by it.
    Zero,
    /// Twice the rate, at which the tract runs, may not fit in 32 bits.
    TooLarge,
}

/// Whether the synthesiser can run at `sample_rate`.
pub open spec fn valid_sample_rate(sample_rate: u32) -> bool {
    0 < sample_rate < u32::MAX / 2
}

/// The rate at which the tract is stepped: twice the output rate.
pub fn tract_sample_rate(sample_rate: u32) -> (r: Result<u32, SampleRateError>)
    ensures
        r is Ok <==> valid_sample_rate(sample_rate),
        r matches Ok(rate) ==> rate == 2 * sample_rate,
        r == Err::<u32, SampleRateError>(SampleRateError::TooLarge) <==> sample_rate >= u32::MAX
            / 2,
        r == Err::<u32, SampleRateError>(SampleRateError::Zero) <==> sample_rate == 0,
{
    if sample_rate >= u32::MAX / 2 {
        Err(SampleRateError::TooLarge)
    } else if sample_rate == 0 {
        Err(SampleRateError::Zero)
    } else {
        Ok(2 * sample_rate)
    }
}

/// A run of consecutive samples of a buffer.
#[derive(Clone, Copy, Debug, PartialEq, Eq, Structural)]
pub struct Block {
    /// Index of the first sample.
    pub start: usize,
    /// Number of samples.
    pub len: usize,
}

/// The number of blocks that a buffer of `total` samples is cut into.
pub open spec fn block_count(total: nat) -> nat {
    (total + MAX_BLOCK_LEN - 1) as nat / (MAX_BLOCK_LEN as nat)
}

/// Index of the first sample of block `k`.
pub open spec fn block_start(k: nat) -> nat {
    k * MAX_BLOCK_LEN as nat
}

/// Number of samples of block `k` of a buffer of `total` samples: a full block
/// unless fewer samples are left.
pub open spec fn block_len(total: nat, k: nat) -> nat {
    if total - block_start(k) >= MAX_BLOCK_LEN {
        MAX_BLOCK_LEN as nat
    } else if total >= block_start(k) {
        (total - block_start(k)) as nat
    } else {
        0
    }
}

/// Hands out the blocks of a buffer one after the other.
pub struct BlockSchedule {
    total: usize,
    done: usize,
    index: usize,
}

impl BlockSchedule {
    #[verifier::type_invariant]
    spec fn inv(self) -> bool {
        &&& self.done <= self.total
        &&& self.index <= block_count(self.total as nat)
        &&& self.done == if self.index == block_count(self.total as nat) {
            self.total as nat
        } else {
            block_start(self.index as nat)
        }
    }

    /// Length of the buffer that is being cut.
    pub closed spec fn total(self) -> nat {
        self.total as nat
    }

    /// Number of blocks handed out so far.
    pub closed spec fn index(self) -> nat {
        self.index as nat
    }

    /// The schedule for a buffer of `total` samples, before its first block.
    pub fn new(total: usize) -> (r: Self)
        ensures
            r.total() == total,
            r.index() == 0,
    {
        proof {
            lemma_block_count(total as nat);
        }
        BlockSchedule { total, done: 0, index: 0 }
    }

    /// The next block, or `None` once the whole buffer has been handed out.
    pub fn next_block(&mut self) -> (r: Option<Block>)
        ensures
            final(self).total() == old(self).total(),
            old(self).index() >= block_count(old(self).total()) ==> r is None && final(self).index()
                == old(self).index(),
            old(self).index() < block_count(old(self).total()) ==> final(self).index() == old(
                self,
            ).index() + 1 && r == Some(
                Block {
                    start: block_start(old(self).index()) as usize,
                    len: block_len(old(self).total(), old(self).index()) as usize,
                },
            ),
    {
        proof {
            use_type_invariant(&*self);
            lemma_block_count(self.total as nat);
        }
        if self.done >= self.total {
            return None;
        }
        proof {
            lemma_blocks_tile(self.total as nat, self.index as nat);
        }
        let left: usize = self.total - self.done;
        let len: usize = if left < MAX_BLOCK_LEN {
            left
        } else {
            MAX_BLOCK_LEN
        };
        let block = Block { start: self.done, len };
        *self = BlockSchedule { total: self.total, done: self.done + len, index: self.index + 1 };
        Some(block)
    }
}

/// Where the two tract steps of sample `i` stand inside a block of `len`
/// samples, as a fraction `r.0 / r.1` of the block: the first step at
/// `i / len`, the second half a sample later.
pub fn lambda(i: usize, len: usize, second: bool) -> (r: (usize, usize))
    requires
        i < len,
        2 * len <= usize::MAX,
    ensures
        r.0 == 2 * i + if second { 1int } else { 0int },
        r.1 == 2 * len,
        r.0 < r.1,
{
    if second {
        (2 * i + 1, 2 * len)
    } else {
        (2 * i, 2 * len)
    }
}

/// A buffer is cut into no blocks exactly if it is empty, and the blocks
/// before the last one do not reach its end.
pub proof fn lemma_block_count(total: nat)
    ensures
        block_count(total) == 0 <==> total == 0,
        block_count(total) * MAX_BLOCK_LEN >= total,
        total > 0 ==> (block_count(total) - 1) * MAX_BLOCK_LEN < total,
{
}

/// The blocks tile the buffer: each one starts where the one before it ended,
/// none is empty or longer than `MAX_BLOCK_LEN`, only the last one may be
/// shorter than that, and the last one ends at the end of the buffer.
pub proof fn lemma_blocks_tile(total: nat, k: nat)
    requires
        k < block_count(total),
    ensures
        block_start(0) == 0,
        1 <= block_len(total, k) <= MAX_BLOCK_LEN,
        block_start(k) + block_len(total, k) <= total,
        k + 1 < block_count(total) ==> block_len(total, k) == MAX_BLOCK_LEN && block_start(k)
            + block_len(total, k) == block_start(k + 1),
        k + 1 == block_count(total) ==> block_start(k) + block_len(total, k) == total,
{
}

} // verus!
