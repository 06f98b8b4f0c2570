use vstd::prelude::*;

verus! {

/// The DEFLATE stream that flate2's encoder produces, at the default
/// compression level, for the given input bytes.
pub uninterp spec fn deflate_of(data: Seq<u8>) -> Seq<u8>;

/// The CRC-32 checksum of the given bytes.
pub uninterp spec fn crc32_of(data: Seq<u8>) -> u32;

/// Relies on flate2::write::DeflateEncoder (raw DEFLATE, no container):
/// at a fixed compression level its output is a function of the input bytes
/// alone, and writing to an in-memory buffer cannot fail.
#[verifier::external_body]
pub(crate) fn deflate_bytes(data: &[u8]) -> (r: Vec<u8>)
    ensures
        r@ == deflate_of(data@),
{
    let mut enc = flate2::write::DeflateEncoder::new(Vec::new(), flate2::Compression::default());
    std::io::Write::write_all(&mut enc, data).unwrap();
    enc.finish().unwrap()
}

/// Relies on flate2::Crc (new, update, sum): the CRC-32 of the bytes fed in,
/// a function of those bytes alone.
#[verifier::external_body]
pub(crate) fn crc32_bytes(data: &[u8]) -> (r: u32)
    ensures
        r == crc32_of(data@),
{
    let mut crc = flate2::Crc::new();
    crc.update(data);
    crc.sum()
}

/// Relies on flate2::bufread::GzDecoder with std::io::Read::read_to_end:
/// a complete single-member gzip stream whose payload is flate2's own DEFLATE
/// encoding of some data, and whose trailer carries that data's CRC-32 and
/// length modulo 2^32, decodes to exactly that data.
#[verifier::external_body]
pub(crate) fn gunzip_bytes(bytes: &[u8]) -> (r: Option<Vec<u8>>)
    ensures
        crate::gzip::gunzip_yields(bytes@, r),
{
    let mut dec = flate2::bufread::GzDecoder::new(bytes);
    let mut out = Vec::new();
    match std::io::Read::read_to_end(&mut dec, &mut out) {
        Ok(_) => Some(out),
        Err(_) => None,
    }
}

} // verus!
