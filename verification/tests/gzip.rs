use std::io::Read;

use wasm_sdk_util::gzip_compress;
use wasm_sdk_util::gzip_round_trip;

/// Decodes a gzip stream with flate2's standard decoder.
fn gunzip(bytes: &[u8]) -> Vec<u8> {
    let mut dec = flate2::read::GzDecoder::new(bytes);
    let mut out = Vec::new();
    dec.read_to_end(&mut out).expect("valid gzip stream");
    out
}

/// A simple deterministic xorshift generator for high-entropy test data.
fn pseudo_random_bytes(len: usize) -> Vec<u8> {
    let mut state: u64 = 0x9e37_79b9_7f4a_7c15;
    let mut out = Vec::with_capacity(len);
    while out.len() < len {
        state ^= state << 13;
        state ^= state >> 7;
        state ^= state << 17;
        out.push((state >> 32) as u8);
    }
    out
}

#[test]
fn empty_input_round_trips() {
    let out = gzip_compress(&[]);
    assert_eq!(gunzip(&out), Vec::<u8>::new());
    // CRC-32 of no bytes is 0 and the length is 0, so the trailer is all zero.
    assert_eq!(&out[out.len() - 8..], &[0u8; 8]);
}

#[test]
fn four_a_bytes_round_trip() {
    let input = [0x41u8, 0x41, 0x41, 0x41];
    let out = gzip_compress(&input);
    assert_eq!(gunzip(&out), input.to_vec());
}

#[test]
fn repetitive_input_compresses() {
    let input = vec![0x61u8; 1_000_000];
    let out = gzip_compress(&input);
    assert!(out.len() < 100_000, "output length {} is not substantially smaller", out.len());
    assert_eq!(gunzip(&out), input);
}

#[test]
fn high_entropy_input_round_trips() {
    let input = pseudo_random_bytes(4096);
    let out = gzip_compress(&input);
    assert_eq!(gunzip(&out), input);
}

#[test]
fn output_begins_with_gzip_magic() {
    for input in [&b""[..], &b"a"[..], &b"hello world"[..], &[0u8; 300][..]] {
        let out = gzip_compress(input);
        assert_eq!(out[0], 0x1f);
        assert_eq!(out[1], 0x8b);
        // Compression method 8 is DEFLATE; no optional header fields follow.
        assert_eq!(out[2], 8);
        assert_eq!(out[3], 0);
    }
}

#[test]
fn trailer_crc_has_known_check_value() {
    // The CRC-32 check value: the checksum of "123456789" is 0xCBF43926.
    let out = gzip_compress(b"123456789");
    let n = out.len();
    assert_eq!(&out[n - 8..n - 4], &[0x26, 0x39, 0xf4, 0xcb]);
    assert_eq!(&out[n - 4..], &[9, 0, 0, 0]);
}

#[test]
fn trailer_matches_crc_and_length() {
    for input in [&b"gzip trailer"[..], &pseudo_random_bytes(513)[..]] {
        let out = gzip_compress(input);
        let n = out.len();
        let mut crc = flate2::Crc::new();
        crc.update(input);
        assert_eq!(&out[n - 8..n - 4], &crc.sum().to_le_bytes());
        assert_eq!(&out[n - 4..], &(input.len() as u32).to_le_bytes());
    }
}

#[test]
fn round_trip_returns_input() {
    for input in [&b""[..], &b"AAAA"[..], &pseudo_random_bytes(2048)[..]] {
        assert_eq!(gzip_round_trip(input), input.to_vec());
    }
}

#[test]
fn repeated_compression_decodes_to_same_data() {
    let input = pseudo_random_bytes(777);
    let first = gzip_compress(&input);
    let second = gzip_compress(&input);
    assert_eq!(gunzip(&first), input);
    assert_eq!(gunzip(&second), input);
}
