//! The deterministic generator of random offsets (XorShift64).
//!
//! Random tests draw their offsets from a generator with a fixed seed, so
//! that two runs against the same drive visit the same offsets in the same
//! order.

use vstd::prelude::*;

verus! {

/// One step of XorShift64 (shifts 13, 7, 17).
pub open spec fn xorshift_step(x: u64) -> u64 {
    let a = x ^ (x << 13u64);
    let b = a ^ (a >> 7u64);
    b ^ (b << 17u64)
}

/// The state after `n` steps from `x`.
pub open spec fn xorshift_iter(x: u64, n: nat) -> u64
    decreases n,
{
    if n == 0 {
        x
    } else {
        xorshift_step(xorshift_iter(x, (n - 1) as nat))
    }
}

/// The initial state for a seed: a zero seed is replaced by 1.
pub open spec fn seed_state(seed: u64) -> u64 {
    if seed == 0 { 1 } else { seed }
}

/// The seed of the random-offset tests.
pub const OFFSET_SEED: u64 = 0x4242_4242_4242_4242;

/// Deterministic pseudo-random generator.
#[derive(Clone, Copy)]
pub struct XorShift64 {
    state: u64,
}

impl View for XorShift64 {
    type V = u64;

    closed spec fn view(&self) -> u64 {
        self.state
    }
}

/// A non-zero state stays non-zero: XorShift64 never reaches its fixed point 0.
pub proof fn lemma_step_nonzero(x: u64)
    requires
        x != 0,
    ensures
        xorshift_step(x) != 0,
{
    assert(x != 0 ==> (x ^ (x << 13u64)) != 0) by (bit_vector);
    let a = x ^ (x << 13u64);
    assert(a != 0 ==> (a ^ (a >> 7u64)) != 0) by (bit_vector);
    let b = a ^ (a >> 7u64);
    assert(b != 0 ==> (b ^ (b << 17u64)) != 0) by (bit_vector);
}

impl XorShift64 {
    #[verifier::type_invariant]
    spec fn inv(self) -> bool {
        self.state != 0
    }

    pub fn new(seed: u64) -> (r: XorShift64)
        ensures
            r@ == seed_state(seed),
    {
        XorShift64 { state: if seed == 0 { 1 } else { seed } }
    }

    /// Advance the generator and return its new state.
    pub fn next(&mut self) -> (r: u64)
        ensures
            final(self)@ == xorshift_step(old(self)@),
            r == final(self)@,
    {
        proof {
            use_type_invariant(&*self);
            lemma_step_nonzero(self.state);
        }
        let x = self.state;
        let a = x ^ (x << 13u64);
        let b = a ^ (a >> 7u64);
        let c = b ^ (b << 17u64);
        self.state = c;
        c
    }
}

/// The number of whole blocks that fit in the working set after the first
/// one: random offsets are drawn from `0..max(this, 1)` blocks.
pub open spec fn spec_max_block_index(working_set: u64, block_size: u64) -> int
    recommends
        block_size > 0,
{
    (if working_set >= block_size { working_set - block_size } else { 0 }) / (block_size as int)
}

/// The offset that a random test visits when the generator is in state `x`
/// (before the step).
pub open spec fn spec_random_offset(x: u64, working_set: u64, block_size: u64) -> int
    recommends
        block_size > 0,
{
    let m = spec_max_block_index(working_set, block_size);
    let bound = if m > 1 { m } else { 1 };
    (xorshift_step(x) as int % bound) * block_size
}

/// Advance the generator and return the next random offset inside a working
/// set of `working_set` bytes, in blocks of `block_size` bytes.
pub fn random_offset(prng: &mut XorShift64, working_set: u64, block_size: u64) -> (offset: u64)
    requires
        block_size > 0,
    ensures
        final(prng)@ == xorshift_step(old(prng)@),
        offset == spec_random_offset(old(prng)@, working_set, block_size),
        offset % block_size == 0,
        working_set >= block_size ==> offset + block_size <= working_set,
{
    let max_offset = working_set.saturating_sub(block_size) / block_size;
    let bound = if max_offset > 1 { max_offset } else { 1 };
    let r = prng.next();
    let block_idx = r % bound;
    proof {
        if working_set >= block_size {
            assert(max_offset * block_size <= working_set - block_size) by (nonlinear_arith)
                requires
                    max_offset == (working_set - block_size) / (block_size as int),
                    block_size > 0,
                    working_set >= block_size,
            ;
        }
        assert(block_idx * block_size <= working_set) by (nonlinear_arith)
            requires
                block_idx < bound,
                bound == if max_offset > 1 { max_offset } else { 1 },
                working_set >= block_size ==> max_offset * block_size <= working_set - block_size,
                working_set < block_size ==> max_offset == 0,
                max_offset * block_size <= u64::MAX,
                block_size > 0,
        ;
        assert((block_idx * block_size) % (block_size as int) == 0) by (nonlinear_arith)
            requires
                block_size > 0,
        ;
        if working_set >= block_size {
            assert(block_idx * block_size + block_size <= working_set) by (nonlinear_arith)
                requires
                    block_idx < bound,
                    bound == if max_offset > 1 { max_offset } else { 1 },
                    max_offset * block_size <= working_set - block_size,
                    block_size > 0,
            ;
        }
    }
    block_idx * block_size
}

} // verus!
