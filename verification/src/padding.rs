//! The MD5 padding rule: append a single 0x80 terminator byte, zero-fill
//! until the length is congruent to 56 modulo 64, then append the total bit
//! length of the whole input as eight little-endian bytes.

use vstd::prelude::*;
use vstd::bytes::{
    spec_u64_from_le_bytes, spec_u64_to_le_bytes, u64_to_le_bytes,
    lemma_auto_spec_u64_to_from_le_bytes,
};
use vstd::slice::slice_to_vec;

verus! {

/// The number of zero bytes appended after the terminator when the remainder
/// plus the terminator has length `l`: the least count that brings the total
/// to 56 modulo 64.
pub open spec fn zero_pad_len(l: int) -> int
    recommends
        l >= 0,
{
    if l % 64 <= 56 {
        56 - l % 64
    } else {
        120 - l % 64
    }
}

/// The padded tail of a message whose final partial block is `remainder` and
/// whose entire length is `total_bit_length` bits: the remainder, one 0x80
/// byte, the zero fill, and the bit length in eight little-endian bytes.
pub open spec fn spec_pad(remainder: Seq<u8>, total_bit_length: u64) -> Seq<u8> {
    remainder + seq![0x80u8] + Seq::new(zero_pad_len(remainder.len() as int + 1) as nat, |i: int| 0u8)
        + spec_u64_to_le_bytes(total_bit_length)
}

/// The padded tail is one or two whole blocks: its length is a positive
/// multiple of 64, and its final eight bytes, read little-endian, are exactly
/// the bit length that was supplied.
pub proof fn lemma_pad_properties(remainder: Seq<u8>, total_bit_length: u64)
    requires
        remainder.len() < 64,
    ensures
        spec_pad(remainder, total_bit_length).len() % 64 == 0,
        spec_pad(remainder, total_bit_length).len() == 64 || spec_pad(
            remainder,
            total_bit_length,
        ).len() == 128,
        spec_pad(remainder, total_bit_length).len() >= remainder.len() + 9,
        spec_u64_from_le_bytes(
            spec_pad(remainder, total_bit_length).subrange(
                spec_pad(remainder, total_bit_length).len() - 8,
                spec_pad(remainder, total_bit_length).len() as int,
            ),
        ) == total_bit_length,
        spec_pad(remainder, total_bit_length).subrange(0, remainder.len() as int) == remainder,
        spec_pad(remainder, total_bit_length)[remainder.len() as int] == 0x80,
{
    lemma_auto_spec_u64_to_from_le_bytes();
    let p = spec_pad(remainder, total_bit_length);
    assert(p.subrange(p.len() - 8, p.len() as int) =~= spec_u64_to_le_bytes(total_bit_length));
    assert(p.subrange(0, remainder.len() as int) =~= remainder);
}

/// Pads the final partial block. `last_chunk` is the sub-64-byte tail of the
/// input and `original_bit_length` the bit count of the entire input; the
/// result is the remainder extended by the 0x80 terminator, the zero fill,
/// and the little-endian bit length, one or two whole 64-byte blocks in all.
pub fn pre_process(last_chunk: &[u8], original_bit_length: u64) -> (padded: Vec<u8>)
    requires
        last_chunk@.len() < 64,
    ensures
        padded@ == spec_pad(last_chunk@, original_bit_length),
        padded@.len() % 64 == 0,
        padded@.len() == 64 || padded@.len() == 128,
{
    let ghost target: int = if last_chunk@.len() + 1 <= 56 { 56int } else { 120int };
    let mut padded = slice_to_vec(last_chunk);
    padded.push(0x80);
    proof {
        assert(padded@ =~= last_chunk@ + seq![0x80u8] + Seq::new(
            (padded@.len() - last_chunk@.len() - 1) as nat,
            |i: int| 0u8,
        ));
    }
    while padded.len() % 64 != 56
        invariant
            last_chunk@.len() < 64,
            target == if last_chunk@.len() + 1 <= 56 { 56int } else { 120int },
            padded@.len() >= last_chunk@.len() + 1,
            padded@.len() <= target,
            padded@ == last_chunk@ + seq![0x80u8] + Seq::new(
                (padded@.len() - last_chunk@.len() - 1) as nat,
                |i: int| 0u8,
            ),
        decreases target - padded@.len(),
    {
        padded.push(0x00);
        proof {
            assert(padded@ =~= last_chunk@ + seq![0x80u8] + Seq::new(
                (padded@.len() - last_chunk@.len() - 1) as nat,
                |i: int| 0u8,
            ));
        }
    }
    proof {
        assert(padded@.len() == target);
        assert(padded@.len() - last_chunk@.len() - 1 == zero_pad_len(last_chunk@.len() as int + 1));
    }
    let mut tail = u64_to_le_bytes(original_bit_length);
    padded.append(&mut tail);
    proof {
        lemma_pad_properties(last_chunk@, original_bit_length);
        assert(padded@ =~= spec_pad(last_chunk@, original_bit_length));
    }
    padded
}

} // verus!
