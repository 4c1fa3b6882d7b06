//! A deterministic source of random bytes: SHA3-256 in counter mode over a
//! seed. Equal seeds give equal streams, so it serves as a reproducible
//! source; each draw moves the counter on.

use vstd::prelude::*;
use crate::codec::{le_bytes, write_u64};
use crate::crypto::{digest, sha3_256};
use crate::header::Rng;

verus! {

/// Bytes that one digest of the stream yields.
pub const BLOCK_LEN: usize = 32;

/// Byte `i` of the draw taken at `counter`: byte `i % 32` of the digest of
/// the seed, the counter and the block number `i / 32`.
pub open spec fn stream_byte(seed: Seq<u8>, counter: u64, i: int) -> u8 {
    sha3_256(seed + le_bytes(counter) + le_bytes((i / BLOCK_LEN as int) as u64))[i
        % BLOCK_LEN as int]
}

/// A reproducible source of random bytes.
#[derive(Debug, Clone)]
pub struct SeededRng {
    pub seed: Vec<u8>,
    pub counter: u64,
}

impl SeededRng {
    /// A source at counter zero.
    pub fn new(seed: Vec<u8>) -> (r: SeededRng)
        ensures
            r.seed@ == seed@,
            r.counter == 0,
    {
        SeededRng { seed, counter: 0 }
    }
}

impl Rng for SeededRng {
    open spec fn peek(&self, n: nat) -> Seq<u8> {
        Seq::new(n, |i: int| stream_byte(self.seed@, self.counter, i))
    }

    open spec fn advanced(&self, n: nat) -> SeededRng {
        SeededRng { seed: self.seed, counter: self.counter.wrapping_add(1) }
    }

    fn random_bytes(&mut self, n: usize) -> (r: Vec<u8>) {
        let mut out: Vec<u8> = Vec::new();
        let mut block: u64 = 0;
        while out.len() < n
            invariant
                self.seed == old(self).seed,
                self.counter == old(self).counter,
                out@.len() <= n,
                out@.len() < n ==> out@.len() == BLOCK_LEN * block,
                block * BLOCK_LEN <= n + BLOCK_LEN,
                forall|i: int|
                    0 <= i < out@.len() ==> out@[i] == stream_byte(self.seed@, self.counter, i),
            decreases n - out@.len(),
        {
            let mut input = self.seed.clone();
            write_u64(&mut input, self.counter);
            write_u64(&mut input, block);
            let d = digest(&input);
            let ghost start = out@.len();
            let mut j: usize = 0;
            while j < BLOCK_LEN && out.len() < n
                invariant
                    self.seed == old(self).seed,
                    self.counter == old(self).counter,
                    start == BLOCK_LEN * block,
                    d@ == sha3_256(self.seed@ + le_bytes(self.counter) + le_bytes(block)),
                    d@.len() == BLOCK_LEN,
                    j <= BLOCK_LEN,
                    out@.len() == start + j,
                    out@.len() <= n,
                    forall|i: int|
                        0 <= i < out@.len() ==> out@[i] == stream_byte(self.seed@, self.counter, i),
                decreases BLOCK_LEN - j,
            {
                let ghost i = out@.len() as int;
                assert(i / 32 == block && i % 32 == j) by (nonlinear_arith)
                    requires
                        i == 32 * block + j,
                        0 <= j < 32,
                ;
                out.push(d[j]);
                j = j + 1;
            }
            block = block + 1;
        }
        self.counter = self.counter.wrapping_add(1);
        assert(out@ =~= old(self).peek(n as nat));
        out
    }
}

} // verus!
