//! Content addressing: a fixed-width digest over byte strings.
//!
//! Blobs, blocks, certificates and chain descriptions are identified by the
//! digest of their bytes. The digest is a deterministic fold over the input:
//! four 64-bit lanes, each mixing every byte with a multiplicative step, with
//! the input length mixed in at the end. Identical bytes always give the
//! identical digest, which is all the routing and storage layers rely on.

use vstd::prelude::*;

verus! {

/// A fixed-width content identifier: four 64-bit lanes.
#[derive(Clone, Copy, Debug, PartialEq, Eq, Structural, Hash)]
pub struct Digest {
    pub a: u64,
    pub b: u64,
    pub c: u64,
    pub d: u64,
}

pub const LANE_PRIME: u64 = 0x100000001b3;

pub const LANE_INIT_A: u64 = 0xcbf29ce484222325;

pub const LANE_INIT_B: u64 = 0x84222325cbf29ce4;

pub const LANE_INIT_C: u64 = 0x9ce484222325cbf2;

pub const LANE_INIT_D: u64 = 0x222325cbf29ce484;

/// One mixing step of a lane: xor the byte in, multiply by the lane prime.
pub open spec fn lane_step(h: u64, byte: u8) -> u64 {
    vstd::wrapping::u64_specs::wrapping_mul(h ^ (byte as u64), LANE_PRIME)
}

/// A whole lane: fold `lane_step` over the bytes, starting from `init`.
pub open spec fn lane_fold(bytes: Seq<u8>, init: u64) -> u64
    decreases bytes.len(),
{
    if bytes.len() == 0 {
        init
    } else {
        lane_step(lane_fold(bytes.drop_last(), init), bytes.last())
    }
}

/// Mix the input length into a finished lane.
pub open spec fn lane_finish(h: u64, len: nat) -> u64 {
    vstd::wrapping::u64_specs::wrapping_mul(h ^ ((len % 0x1_0000_0000_0000_0000) as u64), LANE_PRIME)
}

/// The digest of a byte string.
pub open spec fn digest_of(bytes: Seq<u8>) -> Digest {
    Digest {
        a: lane_finish(lane_fold(bytes, LANE_INIT_A), bytes.len()),
        b: lane_finish(lane_fold(bytes, LANE_INIT_B), bytes.len()),
        c: lane_finish(lane_fold(bytes, LANE_INIT_C), bytes.len()),
        d: lane_finish(lane_fold(bytes, LANE_INIT_D), bytes.len()),
    }
}

/// Folding one more byte extends the fold of the prefix by one step.
proof fn lemma_lane_fold_take_step(bytes: Seq<u8>, init: u64, i: int)
    requires
        0 <= i < bytes.len(),
    ensures
        lane_fold(bytes.take(i + 1), init) == lane_step(lane_fold(bytes.take(i), init), bytes[i]),
{
    let t = bytes.take(i + 1);
    assert(t.drop_last() =~= bytes.take(i));
    assert(t.last() == bytes[i]);
}

fn lane_step_exec(h: u64, byte: u8) -> (r: u64)
    ensures
        r == lane_step(h, byte),
{
    (h ^ (byte as u64)).wrapping_mul(LANE_PRIME)
}

fn lane_finish_exec(h: u64, len: usize) -> (r: u64)
    ensures
        r == lane_finish(h, len as nat),
{
    assert((len as nat) % 0x1_0000_0000_0000_0000 == len as nat) by {
        assert((len as nat) < 0x1_0000_0000_0000_0000);
    }
    (h ^ (len as u64)).wrapping_mul(LANE_PRIME)
}

/// Computes the digest of a byte string; the result is exactly `digest_of`.
pub fn compute_digest(bytes: &[u8]) -> (r: Digest)
    ensures
        r == digest_of(bytes@),
{
    let mut a: u64 = LANE_INIT_A;
    let mut b: u64 = LANE_INIT_B;
    let mut c: u64 = LANE_INIT_C;
    let mut d: u64 = LANE_INIT_D;
    let n: usize = bytes.len();
    let mut i: usize = 0;
    while i < n
        invariant
            0 <= i <= n,
            n == bytes@.len(),
            a == lane_fold(bytes@.take(i as int), LANE_INIT_A),
            b == lane_fold(bytes@.take(i as int), LANE_INIT_B),
            c == lane_fold(bytes@.take(i as int), LANE_INIT_C),
            d == lane_fold(bytes@.take(i as int), LANE_INIT_D),
        decreases n - i,
    {
        let byte = bytes[i];
        proof {
            lemma_lane_fold_take_step(bytes@, LANE_INIT_A, i as int);
            lemma_lane_fold_take_step(bytes@, LANE_INIT_B, i as int);
            lemma_lane_fold_take_step(bytes@, LANE_INIT_C, i as int);
            lemma_lane_fold_take_step(bytes@, LANE_INIT_D, i as int);
        }
        a = lane_step_exec(a, byte);
        b = lane_step_exec(b, byte);
        c = lane_step_exec(c, byte);
        d = lane_step_exec(d, byte);
        i = i + 1;
    }
    proof {
        assert(bytes@.take(n as int) =~= bytes@);
    }
    Digest {
        a: lane_finish_exec(a, n),
        b: lane_finish_exec(b, n),
        c: lane_finish_exec(c, n),
        d: lane_finish_exec(d, n),
    }
}

} // verus!
