use md5_digest::{compute_md5, pre_process, process_chunk, Digest};

fn digest_hex(data: &[u8]) -> String {
    compute_md5(data).to_hex()
}

fn le64(bytes: &[u8]) -> u64 {
    let mut x: u64 = 0;
    for i in (0..8).rev() {
        x = (x << 8) | bytes[i] as u64;
    }
    x
}

#[test]
fn known_vector_empty() {
    assert_eq!(digest_hex(b""), "d41d8cd98f00b204e9800998ecf8427e");
}

#[test]
fn known_vector_abc() {
    assert_eq!(digest_hex(b"abc"), "900150983cd24fb0d6963f7d28e17f72");
}

#[test]
fn known_vector_quick_brown_fox() {
    assert_eq!(
        digest_hex(b"The quick brown fox jumps over the lazy dog"),
        "9e107d9d372bb6826bd81d3542a419d6"
    );
}

#[test]
fn digest_bytes_of_abc() {
    let expected: Vec<u8> = vec![
        0x90, 0x01, 0x50, 0x98, 0x3c, 0xd2, 0x4f, 0xb0, 0xd6, 0x96, 0x3f, 0x7d, 0x28, 0xe1, 0x7f,
        0x72,
    ];
    assert_eq!(compute_md5(b"abc").as_bytes(), expected.as_slice());
}

#[test]
fn digest_length_is_sixteen_for_many_input_lengths() {
    for len in [0usize, 1, 55, 56, 63, 64, 65, 128, 1_000_000] {
        let data = vec![0xa5u8; len];
        let digest = compute_md5(&data);
        assert_eq!(digest.as_bytes().len(), 16);
        assert_eq!(digest.to_hex().len(), 32);
    }
}

#[test]
fn digest_depends_on_content_not_on_assembly() {
    let text: &[u8] = b"The quick brown fox jumps over the lazy dog";
    let at_once = text.to_vec();
    let mut piecewise: Vec<u8> = Vec::new();
    for piece in text.chunks(7) {
        piecewise.extend_from_slice(piece);
    }
    assert_eq!(
        compute_md5(&at_once).as_bytes(),
        compute_md5(&piecewise).as_bytes()
    );
}

#[test]
fn padding_length_and_trailer_for_every_remainder_length() {
    for rem_len in 0usize..64 {
        for bits in [0u64, 8, 440, 512, 1 << 33, u64::MAX] {
            let remainder = vec![0x11u8; rem_len];
            let padded = pre_process(&remainder, bits);
            assert_eq!(padded.len() % 64, 0);
            assert!(padded.len() >= 64);
            assert!(padded.len() >= rem_len + 9);
            assert_eq!(&padded[..rem_len], &remainder[..]);
            assert_eq!(padded[rem_len], 0x80);
            for &z in &padded[rem_len + 1..padded.len() - 8] {
                assert_eq!(z, 0x00);
            }
            assert_eq!(le64(&padded[padded.len() - 8..]), bits);
        }
    }
}

#[test]
fn padding_of_empty_remainder_is_one_whole_block() {
    let padded = pre_process(&[], 512);
    assert_eq!(padded.len(), 64);
    assert_eq!(padded[0], 0x80);
    for &z in &padded[1..56] {
        assert_eq!(z, 0x00);
    }
    assert_eq!(le64(&padded[56..]), 512);
}

#[test]
fn padding_overflows_into_second_block_when_remainder_is_long() {
    let padded = pre_process(&[0x22u8; 56], 448);
    assert_eq!(padded.len(), 128);
    let padded = pre_process(&[0x22u8; 63], 504);
    assert_eq!(padded.len(), 128);
    let padded = pre_process(&[0x22u8; 55], 440);
    assert_eq!(padded.len(), 64);
}

#[test]
fn length_field_encodes_bit_counts_beyond_thirty_two_bits() {
    let bits: u64 = (1u64 << 33) + 5;
    let padded = pre_process(b"tail", bits);
    let trailer = &padded[padded.len() - 8..];
    assert_eq!(trailer, &[0x05, 0x00, 0x00, 0x00, 0x02, 0x00, 0x00, 0x00]);
    assert_eq!(le64(trailer), bits);

    let padded = pre_process(b"", u64::MAX);
    assert_eq!(&padded[56..], &[0xff; 8]);
}

#[test]
fn process_chunk_and_padder_compose_to_the_known_abc_digest() {
    let mut a: u32 = 0x67452301;
    let mut b: u32 = 0xefcdab89;
    let mut c: u32 = 0x98badcfe;
    let mut d: u32 = 0x10325476;
    let padded = pre_process(b"abc", 24);
    assert_eq!(padded.len(), 64);
    process_chunk(&padded, &mut a, &mut b, &mut c, &mut d);
    let digest = Digest::from_words(a, b, c, d);
    assert_eq!(digest.to_hex(), "900150983cd24fb0d6963f7d28e17f72");
}

#[test]
fn process_chunk_changes_the_state() {
    let mut a: u32 = 0x67452301;
    let mut b: u32 = 0xefcdab89;
    let mut c: u32 = 0x98badcfe;
    let mut d: u32 = 0x10325476;
    let block = vec![0u8; 64];
    process_chunk(&block, &mut a, &mut b, &mut c, &mut d);
    assert_ne!((a, b, c, d), (0x67452301, 0xefcdab89, 0x98badcfe, 0x10325476));
}

#[test]
fn serialization_is_little_endian_per_word() {
    let digest = Digest::from_words(1, 2, 3, 4);
    assert_eq!(
        digest.as_bytes(),
        &[1, 0, 0, 0, 2, 0, 0, 0, 3, 0, 0, 0, 4, 0, 0, 0]
    );
    assert_eq!(digest.to_hex(), "01000000020000000300000004000000");
}

#[test]
fn hex_rendering_is_lowercase_and_exact() {
    let digest = Digest::from_words(0x67452301, 0xefcdab89, 0x98badcfe, 0x10325476);
    assert_eq!(digest.to_hex(), "0123456789abcdeffedcba9876543210");
}

#[test]
fn block_aligned_input_still_gets_a_padding_block() {
    // A 64-byte input is one full block; the digest must still differ from
    // the digest of its first block alone under a shorter length field,
    // because the padding-only trailing block is always compressed.
    let data = vec![b'x'; 64];
    let digest = compute_md5(&data);
    assert_eq!(digest.as_bytes().len(), 16);
    // The same bytes fed as a 63-byte prefix plus one more byte give the
    // same digest: content, not read layout, decides.
    let mut rebuilt = data[..63].to_vec();
    rebuilt.push(data[63]);
    assert_eq!(compute_md5(&rebuilt).as_bytes(), digest.as_bytes());
}

#[test]
fn one_million_bytes_digest() {
    let data = vec![b'a'; 1_000_000];
    let digest = compute_md5(&data);
    assert_eq!(digest.as_bytes().len(), 16);
}
