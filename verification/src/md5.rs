//! The digest accumulator: the single-pass fold that drives the padder and
//! the compressor over a whole byte sequence and serializes the final state.
//!
//! `spec_digest_bytes` is the specification of the entire algorithm: compress
//! every full 64-byte block of the input in order, pad the trailing partial
//! block (always, even when it is empty), compress the one or two padded
//! blocks, and write out the four state words little-endian.

use vstd::prelude::*;
use vstd::arithmetic::div_mod::lemma_fundamental_div_mod;
use vstd::bytes::{spec_u32_to_le_bytes, lemma_auto_spec_u32_to_from_le_bytes};
use vstd::slice::slice_subrange;
use crate::compress::{spec_compress, process_chunk, State};
use crate::digest::Digest;
use crate::padding::{spec_pad, lemma_pad_properties, pre_process};

verus! {

/// The fixed initial state (A, B, C, D) of the accumulator.
pub open spec fn init_state() -> State {
    (0x67452301u32, 0xefcdab89u32, 0x98badcfeu32, 0x10325476u32)
}

/// The state after compressing the first `n` 64-byte blocks of `msg`, in
/// order, starting from `s`. Each block's compression starts from the state
/// the previous block produced.
pub open spec fn blocks_fold(msg: Seq<u8>, s: State, n: int) -> State
    recommends
        0 <= n,
        64 * n <= msg.len(),
    decreases n,
{
    if n <= 0 {
        s
    } else {
        spec_compress(msg.subrange(64 * (n - 1), 64 * n), blocks_fold(msg, s, n - 1))
    }
}

/// The final four-word state for the message `msg`: fold the full blocks,
/// pad the remainder with the total bit length, and fold the padded tail.
pub open spec fn spec_md5_words(msg: Seq<u8>) -> State {
    let nb = msg.len() as int / 64;
    let s1 = blocks_fold(msg, init_state(), nb);
    let rem = msg.subrange(64 * nb, msg.len() as int);
    let padded = spec_pad(rem, (msg.len() * 8) as u64);
    blocks_fold(padded, s1, padded.len() as int / 64)
}

/// The 16 digest bytes for the message `msg`: the four final state words,
/// each serialized low byte first, concatenated in A, B, C, D order.
pub open spec fn spec_digest_bytes(msg: Seq<u8>) -> Seq<u8> {
    let s = spec_md5_words(msg);
    spec_u32_to_le_bytes(s.0) + spec_u32_to_le_bytes(s.1) + spec_u32_to_le_bytes(s.2)
        + spec_u32_to_le_bytes(s.3)
}

/// Every message digests to exactly 16 bytes.
pub proof fn lemma_digest_len(msg: Seq<u8>)
    ensures
        spec_digest_bytes(msg).len() == 16,
{
    lemma_auto_spec_u32_to_from_le_bytes();
}

/// A message whose length is an exact multiple of 64 still receives a
/// padding-only trailing block: its digest state is one extra compression,
/// of the padding of the empty remainder, after the fold of its own blocks.
pub proof fn lemma_block_aligned_padding(msg: Seq<u8>)
    requires
        msg.len() % 64 == 0,
    ensures
        spec_md5_words(msg) == spec_compress(
            spec_pad(Seq::empty(), (msg.len() * 8) as u64),
            blocks_fold(msg, init_state(), msg.len() as int / 64),
        ),
{
    let nb = msg.len() as int / 64;
    lemma_fundamental_div_mod(msg.len() as int, 64);
    let rem = msg.subrange(64 * nb, msg.len() as int);
    assert(rem =~= Seq::<u8>::empty());
    let bits = (msg.len() * 8) as u64;
    let padded = spec_pad(Seq::empty(), bits);
    lemma_pad_properties(Seq::empty(), bits);
    vstd::bytes::lemma_auto_spec_u64_to_from_le_bytes();
    assert(crate::padding::zero_pad_len(1) == 55);
    assert(padded.len() == 64);
    assert(padded.subrange(0, 64) =~= padded);
    let s1 = blocks_fold(msg, init_state(), nb);
    assert(spec_pad(rem, bits) == padded);
    assert(padded.len() as int / 64 == 1);
    assert(blocks_fold(padded, s1, 0) == s1);
    assert(blocks_fold(padded, s1, 1) == spec_compress(padded.subrange(0, 64), s1));
    assert(spec_md5_words(msg) == blocks_fold(padded, s1, 1));
}

/// The block fold reads nothing beyond the blocks it is asked to fold: two
/// messages that agree on their first `n` blocks fold those blocks to the
/// same state, whatever follows. Together with the contract of
/// `compute_md5`, this is why how the input was gathered -- one read or many --
/// cannot affect the digest: the digest is a function of the byte content
/// alone.
pub proof fn lemma_blocks_fold_depends_on_prefix(m1: Seq<u8>, m2: Seq<u8>, s: State, n: int)
    requires
        0 <= n,
        64 * n <= m1.len(),
        64 * n <= m2.len(),
        m1.subrange(0, 64 * n) == m2.subrange(0, 64 * n),
    ensures
        blocks_fold(m1, s, n) == blocks_fold(m2, s, n),
    decreases n,
{
    if n > 0 {
        assert forall|k: int| 0 <= k < 64 * n implies #[trigger] m1[k] == #[trigger] m2[k] by {
            assert(m1.subrange(0, 64 * n)[k] == m1[k]);
            assert(m2.subrange(0, 64 * n)[k] == m2[k]);
        }
        assert(m1.subrange(0, 64 * (n - 1)) =~= m2.subrange(0, 64 * (n - 1)));
        lemma_blocks_fold_depends_on_prefix(m1, m2, s, n - 1);
        assert(m1.subrange(64 * (n - 1), 64 * n) =~= m2.subrange(64 * (n - 1), 64 * n));
    }
}

/// Computes the MD5 digest of `data`.
///
/// The digest is a pure function of the byte content alone: the result is
/// exactly `spec_digest_bytes(data@)`, however the caller came by the bytes.
pub fn compute_md5(data: &[u8]) -> (digest: Digest)
    requires
        data@.len() * 8 <= u64::MAX,
    ensures
        digest@ == spec_digest_bytes(data@),
        digest@.len() == 16,
{
    let mut a0: u32 = 0x67452301;
    let mut b0: u32 = 0xefcdab89;
    let mut c0: u32 = 0x98badcfe;
    let mut d0: u32 = 0x10325476;

    let n = data.len();
    let nb = n / 64;
    proof {
        lemma_fundamental_div_mod(n as int, 64);
    }
    let mut i: usize = 0;
    while i < nb
        invariant
            n == data@.len(),
            nb == n as int / 64,
            64 * nb <= n,
            i <= nb,
            (a0, b0, c0, d0) == blocks_fold(data@, init_state(), i as int),
        decreases nb - i,
    {
        let block = slice_subrange(data, i * 64, i * 64 + 64);
        process_chunk(block, &mut a0, &mut b0, &mut c0, &mut d0);
        i += 1;
    }
    let ghost s1: State = (a0, b0, c0, d0);

    let remainder = slice_subrange(data, nb * 64, n);
    let total_bits = (n as u64) * 8;
    let padded = pre_process(remainder, total_bits);
    proof {
        assert(padded@ == spec_pad(data@.subrange(64 * (nb as int), n as int), total_bits));
    }

    let pn = padded.len() / 64;
    proof {
        lemma_fundamental_div_mod(padded@.len() as int, 64);
    }
    let mut j: usize = 0;
    while j < pn
        invariant
            padded@.len() == 64 * pn,
            pn <= 2,
            j <= pn,
            (a0, b0, c0, d0) == blocks_fold(padded@, s1, j as int),
        decreases pn - j,
    {
        let block = slice_subrange(padded.as_slice(), j * 64, j * 64 + 64);
        process_chunk(block, &mut a0, &mut b0, &mut c0, &mut d0);
        j += 1;
    }

    proof {
        lemma_auto_spec_u32_to_from_le_bytes();
        assert((a0, b0, c0, d0) == spec_md5_words(data@));
    }
    Digest::from_words(a0, b0, c0, d0)
}

} // verus!
