use vstd::prelude::*;

use crate::bytes::le32_val;
use crate::bytes::lemma_le32_val;
use crate::bytes::push_le32;
use crate::bytes::spec_le32;
use crate::flate::crc32_bytes;
use crate::flate::crc32_of;
use crate::flate::deflate_bytes;
use crate::flate::deflate_of;
use crate::flate::gunzip_bytes;

verus! {

/// The fixed ten-byte gzip member header this library writes: the magic bytes
/// 0x1f 0x8b, compression method 8 (DEFLATE), no flags, a zero modification
/// time, no extra flags, and operating system 255 (unknown).
pub open spec fn spec_gzip_header() -> Seq<u8> {
    seq![0x1fu8, 0x8bu8, 8u8, 0u8, 0u8, 0u8, 0u8, 0u8, 0u8, 255u8]
}

/// The gzip trailer's size field: the input length modulo 2^32.
pub open spec fn spec_gzip_size(data: Seq<u8>) -> u32 {
    (data.len() % 0x1_0000_0000) as u32
}

/// The complete gzip stream for the given data: header, DEFLATE payload,
/// then the trailer's CRC-32 and size fields, each little-endian.
pub open spec fn spec_gzip_stream(data: Seq<u8>) -> Seq<u8> {
    spec_gzip_header() + deflate_of(data) + spec_le32(crc32_of(data)) + spec_le32(
        spec_gzip_size(data),
    )
}

/// What a conformant gzip decoder owes on `bytes`: whenever `bytes` is the
/// complete gzip stream this library builds for some data, decoding succeeds
/// and yields exactly that data.
pub open spec fn gunzip_yields(bytes: Seq<u8>, r: Option<Vec<u8>>) -> bool {
    forall|b: Seq<u8>|
        bytes == #[trigger] spec_gzip_stream(b) ==> (r matches Some(v) && v@ == b)
}

/// Builds the ten-byte gzip member header.
fn gzip_header() -> (r: Vec<u8>)
    ensures
        r@ == spec_gzip_header(),
{
    let mut h: Vec<u8> = Vec::new();
    h.push(0x1f);
    h.push(0x8b);
    h.push(8);
    h.push(0);
    h.push(0);
    h.push(0);
    h.push(0);
    h.push(0);
    h.push(0);
    h.push(255);
    proof {
        assert(h@ =~= spec_gzip_header());
    }
    h
}

/// Compresses `data` into a complete, self-contained gzip stream: the fixed
/// header, the DEFLATE encoding of `data`, and a trailer holding the CRC-32
/// of `data` and the length of `data` modulo 2^32, both little-endian.
pub fn gzip_compress(data: &[u8]) -> (r: Vec<u8>)
    ensures
        r@ == spec_gzip_stream(data@),
        r@.len() >= 18,
        r@[0] == 0x1f,
        r@[1] == 0x8b,
        le32_val(r@.subrange(r@.len() - 8, r@.len() - 4)) == crc32_of(data@),
        le32_val(r@.subrange(r@.len() - 4, r@.len() as int)) == data@.len() % 0x1_0000_0000,
{
    let mut out = gzip_header();
    let mut payload = deflate_bytes(data);
    out.append(&mut payload);
    let crc = crc32_bytes(data);
    push_le32(&mut out, crc);
    let len64: u64 = data.len() as u64;
    proof {
        assert(len64 % 0x1_0000_0000 < 0x1_0000_0000) by (bit_vector);
    }
    let size: u32 = (len64 % 0x1_0000_0000) as u32;
    push_le32(&mut out, size);
    proof {
        let s = out@;
        assert(size == spec_gzip_size(data@));
        assert(s == spec_gzip_stream(data@));
        assert(s[0] == 0x1f);
        assert(s[1] == 0x8b);
        assert(s.subrange(s.len() - 8, s.len() - 4) =~= spec_le32(crc));
        assert(s.subrange(s.len() - 4, s.len() as int) =~= spec_le32(size));
        lemma_le32_val(crc);
        lemma_le32_val(size);
    }
    out
}

/// Compresses `data` and feeds the stream straight back through a conformant
/// gzip decoder: for every input, including the empty one, what comes back is
/// exactly the input, so repeated compressions always decode to the same data.
pub fn gzip_round_trip(data: &[u8]) -> (r: Vec<u8>)
    ensures
        r@ == data@,
{
    let compressed = gzip_compress(data);
    let decoded = gunzip_bytes(compressed.as_slice());
    proof {
        assert(compressed@ == spec_gzip_stream(data@));
    }
    decoded.unwrap()
}

} // verus!
