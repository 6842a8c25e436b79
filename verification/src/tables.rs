//! The two fixed lookup tables of the MD5 round function: the 64 sine-derived
//! additive constants and the 64 left-rotation amounts, one of each per round.

use vstd::prelude::*;

verus! {

/// The additive round constant for round `i`: the integer part of
/// `|sin(i + 1)| * 2^32`, as fixed by the MD5 specification.
pub open spec fn spec_k(i: int) -> u32 {
    if i == 0 {
        0xd76aa478
    } else if i == 1 {
        0xe8c7b756
    } else if i == 2 {
        0x242070db
    } else if i == 3 {
        0xc1bdceee
    } else if i == 4 {
        0xf57c0faf
    } else if i == 5 {
        0x4787c62a
    } else if i == 6 {
        0xa8304613
    } else if i == 7 {
        0xfd469501
    } else if i == 8 {
        0x698098d8
    } else if i == 9 {
        0x8b44f7af
    } else if i == 10 {
        0xffff5bb1
    } else if i == 11 {
        0x895cd7be
    } else if i == 12 {
        0x6b901122
    } else if i == 13 {
        0xfd987193
    } else if i == 14 {
        0xa679438e
    } else if i == 15 {
        0x49b40821
    } else if i == 16 {
        0xf61e2562
    } else if i == 17 {
        0xc040b340
    } else if i == 18 {
        0x265e5a51
    } else if i == 19 {
        0xe9b6c7aa
    } else if i == 20 {
        0xd62f105d
    } else if i == 21 {
        0x02441453
    } else if i == 22 {
        0xd8a1e681
    } else if i == 23 {
        0xe7d3fbc8
    } else if i == 24 {
        0x21e1cde6
    } else if i == 25 {
        0xc33707d6
    } else if i == 26 {
        0xf4d50d87
    } else if i == 27 {
        0x455a14ed
    } else if i == 28 {
        0xa9e3e905
    } else if i == 29 {
        0xfcefa3f8
    } else if i == 30 {
        0x676f02d9
    } else if i == 31 {
        0x8d2a4c8a
    } else if i == 32 {
        0xfffa3942
    } else if i == 33 {
        0x8771f681
    } else if i == 34 {
        0x6d9d6122
    } else if i == 35 {
        0xfde5380c
    } else if i == 36 {
        0xa4beea44
    } else if i == 37 {
        0x4bdecfa9
    } else if i == 38 {
        0xf6bb4b60
    } else if i == 39 {
        0xbebfbc70
    } else if i == 40 {
        0x289b7ec6
    } else if i == 41 {
        0xeaa127fa
    } else if i == 42 {
        0xd4ef3085
    } else if i == 43 {
        0x04881d05
    } else if i == 44 {
        0xd9d4d039
    } else if i == 45 {
        0xe6db99e5
    } else if i == 46 {
        0x1fa27cf8
    } else if i == 47 {
        0xc4ac5665
    } else if i == 48 {
        0xf4292244
    } else if i == 49 {
        0x432aff97
    } else if i == 50 {
        0xab9423a7
    } else if i == 51 {
        0xfc93a039
    } else if i == 52 {
        0x655b59c3
    } else if i == 53 {
        0x8f0ccc92
    } else if i == 54 {
        0xffeff47d
    } else if i == 55 {
        0x85845dd1
    } else if i == 56 {
        0x6fa87e4f
    } else if i == 57 {
        0xfe2ce6e0
    } else if i == 58 {
        0xa3014314
    } else if i == 59 {
        0x4e0811a1
    } else if i == 60 {
        0xf7537e82
    } else if i == 61 {
        0xbd3af235
    } else if i == 62 {
        0x2ad7d2bb
    } else {
        0xeb86d391
    }
}

/// The left-rotation amount for round `i`. Within each 16-round group the
/// four amounts repeat in a cycle of four.
pub open spec fn spec_shift(i: int) -> u32 {
    let r = i % 4;
    if 0 <= i < 16 {
        if r == 0 { 7 } else if r == 1 { 12 } else if r == 2 { 17 } else { 22 }
    } else if 16 <= i < 32 {
        if r == 0 { 5 } else if r == 1 { 9 } else if r == 2 { 14 } else { 20 }
    } else if 32 <= i < 48 {
        if r == 0 { 4 } else if r == 1 { 11 } else if r == 2 { 16 } else { 23 }
    } else {
        if r == 0 { 6 } else if r == 1 { 10 } else if r == 2 { 15 } else { 21 }
    }
}

/// Looks up the additive constant for round `i`.
pub fn k_at(i: usize) -> (r: u32)
    requires
        i < 64,
    ensures
        r == spec_k(i as int),
{
    if i == 0 {
        0xd76aa478
    } else if i == 1 {
        0xe8c7b756
    } else if i == 2 {
        0x242070db
    } else if i == 3 {
        0xc1bdceee
    } else if i == 4 {
        0xf57c0faf
    } else if i == 5 {
        0x4787c62a
    } else if i == 6 {
        0xa8304613
    } else if i == 7 {
        0xfd469501
    } else if i == 8 {
        0x698098d8
    } else if i == 9 {
        0x8b44f7af
    } else if i == 10 {
        0xffff5bb1
    } else if i == 11 {
        0x895cd7be
    } else if i == 12 {
        0x6b901122
    } else if i == 13 {
        0xfd987193
    } else if i == 14 {
        0xa679438e
    } else if i == 15 {
        0x49b40821
    } else if i == 16 {
        0xf61e2562
    } else if i == 17 {
        0xc040b340
    } else if i == 18 {
        0x265e5a51
    } else if i == 19 {
        0xe9b6c7aa
    } else if i == 20 {
        0xd62f105d
    } else if i == 21 {
        0x02441453
    } else if i == 22 {
        0xd8a1e681
    } else if i == 23 {
        0xe7d3fbc8
    } else if i == 24 {
        0x21e1cde6
    } else if i == 25 {
        0xc33707d6
    } else if i == 26 {
        0xf4d50d87
    } else if i == 27 {
        0x455a14ed
    } else if i == 28 {
        0xa9e3e905
    } else if i == 29 {
        0xfcefa3f8
    } else if i == 30 {
        0x676f02d9
    } else if i == 31 {
        0x8d2a4c8a
    } else if i == 32 {
        0xfffa3942
    } else if i == 33 {
        0x8771f681
    } else if i == 34 {
        0x6d9d6122
    } else if i == 35 {
        0xfde5380c
    } else if i == 36 {
        0xa4beea44
    } else if i == 37 {
        0x4bdecfa9
    } else if i == 38 {
        0xf6bb4b60
    } else if i == 39 {
        0xbebfbc70
    } else if i == 40 {
        0x289b7ec6
    } else if i == 41 {
        0xeaa127fa
    } else if i == 42 {
        0xd4ef3085
    } else if i == 43 {
        0x04881d05
    } else if i == 44 {
        0xd9d4d039
    } else if i == 45 {
        0xe6db99e5
    } else if i == 46 {
        0x1fa27cf8
    } else if i == 47 {
        0xc4ac5665
    } else if i == 48 {
        0xf4292244
    } else if i == 49 {
        0x432aff97
    } else if i == 50 {
        0xab9423a7
    } else if i == 51 {
        0xfc93a039
    } else if i == 52 {
        0x655b59c3
    } else if i == 53 {
        0x8f0ccc92
    } else if i == 54 {
        0xffeff47d
    } else if i == 55 {
        0x85845dd1
    } else if i == 56 {
        0x6fa87e4f
    } else if i == 57 {
        0xfe2ce6e0
    } else if i == 58 {
        0xa3014314
    } else if i == 59 {
        0x4e0811a1
    } else if i == 60 {
        0xf7537e82
    } else if i == 61 {
        0xbd3af235
    } else if i == 62 {
        0x2ad7d2bb
    } else {
        0xeb86d391
    }
}

/// Looks up the rotation amount for round `i`.
pub fn shift_at(i: usize) -> (r: u32)
    requires
        i < 64,
    ensures
        r == spec_shift(i as int),
{
    let r: usize = i % 4;
    if i < 16 {
        if r == 0 { 7 } else if r == 1 { 12 } else if r == 2 { 17 } else { 22 }
    } else if i < 32 {
        if r == 0 { 5 } else if r == 1 { 9 } else if r == 2 { 14 } else { 20 }
    } else if i < 48 {
        if r == 0 { 4 } else if r == 1 { 11 } else if r == 2 { 16 } else { 23 }
    } else {
        if r == 0 { 6 } else if r == 1 { 10 } else if r == 2 { 15 } else { 21 }
    }
}

/// Every rotation amount is strictly between 0 and 32, so each round's
/// rotation is a genuine circular shift of a 32-bit word.
pub proof fn lemma_shift_in_range(i: int)
    requires
        0 <= i < 64,
    ensures
        0 < spec_shift(i) < 32,
{
}

} // verus!
