//! The MD5 compression function: 64 rounds of bitwise mixing that fold one
//! 64-byte block into the running four-word state.
//!
//! All word arithmetic wraps modulo 2^32, as the algorithm demands; the
//! specification functions below describe one round, the 64-round loop, and
//! the final feed-forward addition, and `process_chunk` is proved to compute
//! exactly that.

use vstd::prelude::*;
use vstd::bytes::spec_u32_from_le_bytes;
use vstd::bytes::u32_from_le_bytes;
use vstd::slice::slice_subrange;
use crate::tables::{spec_k, spec_shift, k_at, shift_at, lemma_shift_in_range};

verus! {

/// The four 32-bit accumulators (A, B, C, D) carried between block
/// compressions.
pub type State = (u32, u32, u32, u32);

/// Left rotation of a 32-bit word by `s` places, for 0 < `s` < 32.
pub open spec fn spec_rotl(x: u32, s: u32) -> u32
    recommends
        0 < s < 32,
{
    (x << s) | (x >> ((32 - s) as u32))
}

/// Rotates `x` left by `s` places.
pub fn rotl(x: u32, s: u32) -> (r: u32)
    requires
        0 < s < 32,
    ensures
        r == spec_rotl(x, s),
{
    (x << s) | (x >> (32 - s))
}

/// The nonlinear mixing function for round `i`: one of four Boolean
/// combinations of B, C and D, chosen by 16-round group.
pub open spec fn md5_f(i: int, b: u32, c: u32, d: u32) -> u32
    recommends
        0 <= i < 64,
{
    if i < 16 {
        (b & c) | (!b & d)
    } else if i < 32 {
        (d & b) | (!d & c)
    } else if i < 48 {
        b ^ c ^ d
    } else {
        c ^ (b | !d)
    }
}

/// The index of the message word mixed in at round `i`: each 16-round group
/// walks the sixteen words in a different fixed permutation.
pub open spec fn md5_g(i: int) -> int
    recommends
        0 <= i < 64,
{
    if i < 16 {
        i
    } else if i < 32 {
        (5 * i + 1) % 16
    } else if i < 48 {
        (3 * i + 5) % 16
    } else {
        (7 * i) % 16
    }
}

/// The sixteen 32-bit words of a 64-byte block, each read little-endian.
pub open spec fn block_words(block: Seq<u8>) -> Seq<u32>
    recommends
        block.len() == 64,
{
    Seq::new(16, |i: int| spec_u32_from_le_bytes(block.subrange(4 * i, 4 * i + 4)))
}

/// One round of the compression function applied to state `s`, using the
/// message words `w`.
pub open spec fn round_step(w: Seq<u32>, i: int, s: State) -> State
    recommends
        0 <= i < 64,
        w.len() == 16,
{
    let (a, b, c, d) = s;
    let f = md5_f(i, b, c, d);
    let temp = f.wrapping_add(a).wrapping_add(spec_k(i)).wrapping_add(w[md5_g(i)]);
    (d, b.wrapping_add(spec_rotl(temp, spec_shift(i))), b, c)
}

/// The state after the first `n` rounds, starting from `s`.
pub open spec fn rounds(w: Seq<u32>, n: int, s: State) -> State
    recommends
        0 <= n <= 64,
        w.len() == 16,
    decreases n,
{
    if n <= 0 {
        s
    } else {
        round_step(w, n - 1, rounds(w, n - 1, s))
    }
}

/// The full compression of one 64-byte block into state `s`: 64 rounds
/// followed by the wrapping feed-forward addition of the incoming state.
pub open spec fn spec_compress(block: Seq<u8>, s: State) -> State
    recommends
        block.len() == 64,
{
    let r = rounds(block_words(block), 64, s);
    (s.0.wrapping_add(r.0), s.1.wrapping_add(r.1), s.2.wrapping_add(r.2), s.3.wrapping_add(r.3))
}

/// Folds one 64-byte block into the running state: the four accumulators are
/// replaced by the compression of `chunk` into their old values. The block
/// itself is only read.
pub fn process_chunk(chunk: &[u8], a0: &mut u32, b0: &mut u32, c0: &mut u32, d0: &mut u32)
    requires
        chunk@.len() == 64,
    ensures
        ({
            let s = spec_compress(chunk@, (*old(a0), *old(b0), *old(c0), *old(d0)));
            *final(a0) == s.0 && *final(b0) == s.1 && *final(c0) == s.2 && *final(d0) == s.3
        }),
{
    let ghost s0: State = (*a0, *b0, *c0, *d0);
    let mut w: Vec<u32> = Vec::new();
    let mut i: usize = 0;
    while i < 16
        invariant
            chunk@.len() == 64,
            i <= 16,
            w@.len() == i as int,
            forall|j: int| 0 <= j < i ==> w@[j] == block_words(chunk@)[j],
        decreases 16 - i,
    {
        let word = u32_from_le_bytes(slice_subrange(chunk, 4 * i, 4 * i + 4));
        w.push(word);
        i += 1;
    }
    proof {
        assert(w@ =~= block_words(chunk@));
    }

    let mut a = *a0;
    let mut b = *b0;
    let mut c = *c0;
    let mut d = *d0;
    let mut r: usize = 0;
    while r < 64
        invariant
            w@ == block_words(chunk@),
            w@.len() == 16,
            r <= 64,
            s0 == (*a0, *b0, *c0, *d0),
            (a, b, c, d) == rounds(w@, r as int, s0),
        decreases 64 - r,
    {
        let f: u32;
        let g: usize;
        if r < 16 {
            f = (b & c) | (!b & d);
            g = r;
        } else if r < 32 {
            f = (d & b) | (!d & c);
            g = (5 * r + 1) % 16;
        } else if r < 48 {
            f = b ^ c ^ d;
            g = (3 * r + 5) % 16;
        } else {
            f = c ^ (b | !d);
            g = (7 * r) % 16;
        }
        let temp = f.wrapping_add(a).wrapping_add(k_at(r)).wrapping_add(w[g]);
        proof {
            lemma_shift_in_range(r as int);
        }
        let rot = rotl(temp, shift_at(r));
        let new_b = b.wrapping_add(rot);
        a = d;
        d = c;
        c = b;
        b = new_b;
        r += 1;
    }

    *a0 = (*a0).wrapping_add(a);
    *b0 = (*b0).wrapping_add(b);
    *c0 = (*c0).wrapping_add(c);
    *d0 = (*d0).wrapping_add(d);
}

} // verus!
