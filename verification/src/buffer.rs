//! I/O buffers for the direct-I/O benchmark and their test pattern.

use vstd::prelude::*;
use crate::prng::{XorShift64, xorshift_iter, seed_state};

verus! {

/// Sector alignment for direct I/O: 4096 bytes covers 512n, 512e and 4Kn drives.
pub const SECTOR_SIZE: usize = 4096;

/// Byte `k` (0 = least significant) of the little-endian encoding of `x`.
pub open spec fn le_byte(x: u64, k: int) -> u8 {
    ((x >> (8 * k) as u64) & 0xffu64) as u8
}

/// The test pattern: the buffer is cut in 8-byte chunks, and chunk `c`
/// holds the little-endian bytes of the generator state after `c + 1`
/// steps from the seed (the last chunk may be cut short).
pub open spec fn pattern_byte(seed: u64, i: int) -> u8 {
    le_byte(xorshift_iter(seed_state(seed), (i / 8 + 1) as nat), i % 8)
}

/// A buffer for direct I/O.
pub struct AlignedBuffer {
    data: Vec<u8>,
}

impl View for AlignedBuffer {
    type V = Seq<u8>;

    closed spec fn view(&self) -> Seq<u8> {
        self.data@
    }
}

/// A zero-filled buffer of `size` bytes.
pub fn aligned_buffer(size: usize) -> (b: AlignedBuffer)
    ensures
        b@ == Seq::new(size as nat, |i: int| 0u8),
{
    let data: Vec<u8> = vec![0u8; size];
    proof {
        assert forall|i: int| 0 <= i < size implies data@[i] == 0u8 by {
            assert(cloned(0u8, data@[i]));
        }
    }
    let b = AlignedBuffer { data };
    assert(b@ =~= Seq::new(size as nat, |i: int| 0u8));
    b
}

fn le_byte_exec(x: u64, k: u64) -> (b: u8)
    requires
        k < 8,
    ensures
        b == le_byte(x, k as int),
{
    ((x >> (8 * k)) & 0xff) as u8
}

impl AlignedBuffer {
    pub fn as_slice(&self) -> (s: &[u8])
        ensures
            s@ == self@,
    {
        self.data.as_slice()
    }

    pub fn as_mut_slice(&mut self) -> (s: &mut [u8])
        ensures
            s@ == old(self)@,
            final(s)@ == final(self)@,
    {
        self.data.as_mut_slice()
    }

    pub fn len(&self) -> (n: usize)
        ensures
            n == self@.len(),
    {
        self.data.len()
    }

    /// Fill the buffer with the test pattern of `seed`.
    pub fn fill_random(&mut self, seed: u64)
        ensures
            final(self)@.len() == old(self)@.len(),
            forall|i: int| 0 <= i < final(self)@.len() ==> #[trigger] final(self)@[i] == pattern_byte(seed, i),
    {
        let n = self.data.len();
        let mut prng = XorShift64::new(seed);
        let mut start: usize = 0;
        while start < n
            invariant
                self.data@.len() == n,
                start <= n,
                start < n ==> start % 8 == 0,
                start < n ==> prng@ == xorshift_iter(seed_state(seed), (start / 8) as nat),
                forall|i: int| 0 <= i < start ==> #[trigger] self.data@[i] == pattern_byte(seed, i),
            decreases n - start,
        {
            let state = prng.next();
            let ghost c = (start / 8) as nat;
            assert(state == xorshift_iter(seed_state(seed), c + 1));
            let end: usize = if n - start >= 8 { start + 8 } else { n };
            let mut k: usize = start;
            while k < end
                invariant
                    self.data@.len() == n,
                    start <= k <= end,
                    end <= n,
                    end <= start + 8,
                    start % 8 == 0,
                    c == start / 8,
                    state == xorshift_iter(seed_state(seed), c + 1),
                    prng@ == state,
                    forall|i: int| 0 <= i < k ==> #[trigger] self.data@[i] == pattern_byte(seed, i),
                decreases end - k,
            {
                let b = le_byte_exec(state, (k - start) as u64);
                assert(k / 8 == c && k % 8 == k - start) by (nonlinear_arith)
                    requires
                        start % 8 == 0,
                        c == start / 8,
                        start <= k < start + 8,
                ;
                self.data.set(k, b);
                k = k + 1;
            }
            if end < n {
                assert(end == start + 8);
                assert(end % 8 == 0 && end / 8 == c + 1) by (nonlinear_arith)
                    requires
                        end == start + 8,
                        start % 8 == 0,
                        c == start / 8,
                ;
            }
            start = end;
        }
    }
}

} // verus!
