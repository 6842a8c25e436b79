//! The 16-byte digest value and its serialization: the four final state
//! words, each written low byte first, in A, B, C, D order, rendered on
//! demand as a 32-character lowercase hexadecimal string.

use vstd::prelude::*;
use vstd::bytes::{spec_u32_to_le_bytes, u32_to_le_bytes, lemma_auto_spec_u32_to_from_le_bytes};
use vstd::string::StringExecFns;

verus! {

/// The lowercase hexadecimal digit for a value below 16.
pub open spec fn hex_digit(n: u8) -> char
    recommends
        n < 16,
{
    if n == 0 {
        '0'
    } else if n == 1 {
        '1'
    } else if n == 2 {
        '2'
    } else if n == 3 {
        '3'
    } else if n == 4 {
        '4'
    } else if n == 5 {
        '5'
    } else if n == 6 {
        '6'
    } else if n == 7 {
        '7'
    } else if n == 8 {
        '8'
    } else if n == 9 {
        '9'
    } else if n == 10 {
        'a'
    } else if n == 11 {
        'b'
    } else if n == 12 {
        'c'
    } else if n == 13 {
        'd'
    } else if n == 14 {
        'e'
    } else {
        'f'
    }
}

/// The two hexadecimal digits of one byte, most significant nibble first.
pub open spec fn byte_hex(b: u8) -> Seq<char> {
    seq![hex_digit(b / 16), hex_digit(b % 16)]
}

/// The lowercase hexadecimal rendering of a byte sequence, two digits per
/// byte, in order.
pub open spec fn hex_of_bytes(bytes: Seq<u8>) -> Seq<char>
    decreases bytes.len(),
{
    if bytes.len() == 0 {
        Seq::empty()
    } else {
        hex_of_bytes(bytes.drop_last()) + byte_hex(bytes.last())
    }
}

/// Appends the single lowercase hexadecimal digit for `n` to `s`.
fn push_hex_digit(s: &mut String, n: u8)
    requires
        n < 16,
    ensures
        final(s)@ == old(s)@ + seq![hex_digit(n)],
{
    proof {
        reveal_strlit("0");
        reveal_strlit("1");
        reveal_strlit("2");
        reveal_strlit("3");
        reveal_strlit("4");
        reveal_strlit("5");
        reveal_strlit("6");
        reveal_strlit("7");
        reveal_strlit("8");
        reveal_strlit("9");
        reveal_strlit("a");
        reveal_strlit("b");
        reveal_strlit("c");
        reveal_strlit("d");
        reveal_strlit("e");
        reveal_strlit("f");
    }
    if n == 0 {
        s.append("0");
    } else if n == 1 {
        s.append("1");
    } else if n == 2 {
        s.append("2");
    } else if n == 3 {
        s.append("3");
    } else if n == 4 {
        s.append("4");
    } else if n == 5 {
        s.append("5");
    } else if n == 6 {
        s.append("6");
    } else if n == 7 {
        s.append("7");
    } else if n == 8 {
        s.append("8");
    } else if n == 9 {
        s.append("9");
    } else if n == 10 {
        s.append("a");
    } else if n == 11 {
        s.append("b");
    } else if n == 12 {
        s.append("c");
    } else if n == 13 {
        s.append("d");
    } else if n == 14 {
        s.append("e");
    } else {
        s.append("f");
    }
    proof {
        assert(s@ =~= old(s)@ + seq![hex_digit(n)]);
    }
}

/// A finished 16-byte MD5 digest, owned by the caller for rendering.
pub struct Digest {
    bytes: Vec<u8>,
}

impl View for Digest {
    type V = Seq<u8>;

    closed spec fn view(&self) -> Seq<u8> {
        self.bytes@
    }
}

impl Digest {
    /// Serializes the four final state words: each is written as four bytes,
    /// low byte first, and the words are concatenated in A, B, C, D order.
    pub fn from_words(a: u32, b: u32, c: u32, d: u32) -> (digest: Digest)
        ensures
            digest@ == spec_u32_to_le_bytes(a) + spec_u32_to_le_bytes(b) + spec_u32_to_le_bytes(c)
                + spec_u32_to_le_bytes(d),
            digest@.len() == 16,
    {
        proof {
            lemma_auto_spec_u32_to_from_le_bytes();
        }
        let mut bytes = u32_to_le_bytes(a);
        let mut tail_b = u32_to_le_bytes(b);
        let mut tail_c = u32_to_le_bytes(c);
        let mut tail_d = u32_to_le_bytes(d);
        bytes.append(&mut tail_b);
        bytes.append(&mut tail_c);
        bytes.append(&mut tail_d);
        Digest { bytes }
    }

    /// The sixteen digest bytes.
    pub fn as_bytes(&self) -> (r: &[u8])
        ensures
            r@ == self@,
    {
        self.bytes.as_slice()
    }

    /// Renders the digest as its 32-character lowercase hexadecimal string,
    /// two digits per byte, most significant nibble of each byte first.
    pub fn to_hex(&self) -> (r: String)
        ensures
            r@ == hex_of_bytes(self@),
            r@.len() == 2 * self@.len(),
    {
        let mut r = String::new();
        let mut i: usize = 0;
        while i < self.bytes.len()
            invariant
                i <= self.bytes@.len(),
                r@ == hex_of_bytes(self.bytes@.take(i as int)),
                r@.len() == 2 * i,
            decreases self.bytes@.len() - i,
        {
            let b = self.bytes[i];
            push_hex_digit(&mut r, b / 16);
            push_hex_digit(&mut r, b % 16);
            proof {
                let t = self.bytes@.take(i + 1);
                assert(t.drop_last() =~= self.bytes@.take(i as int));
                assert(t.last() == self.bytes@[i as int]);
                assert(r@ =~= hex_of_bytes(t));
            }
            i += 1;
        }
        proof {
            assert(self.bytes@.take(self.bytes@.len() as int) =~= self.bytes@);
        }
        r
    }
}

} // verus!
