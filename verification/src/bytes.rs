use vstd::prelude::*;

verus! {

/// Little-endian encoding of a 32-bit value, as gzip's trailer stores it.
pub open spec fn spec_le32(x: u32) -> Seq<u8> {
    seq![
        (x & 0xff) as u8,
        ((x >> 8) & 0xff) as u8,
        ((x >> 16) & 0xff) as u8,
        ((x >> 24) & 0xff) as u8,
    ]
}

/// The value that a four-byte little-endian field denotes.
pub open spec fn le32_val(s: Seq<u8>) -> int
    recommends
        s.len() == 4,
{
    s[0] + 0x100 * s[1] + 0x10000 * s[2] + 0x1000000 * s[3]
}

/// A four-byte little-endian field denotes exactly the value it was encoded from.
pub proof fn lemma_le32_val(x: u32)
    ensures
        le32_val(spec_le32(x)) == x,
{
    assert(x & 0xff < 256 && (x >> 8) & 0xff < 256 && (x >> 16) & 0xff < 256
        && (x >> 24) & 0xff < 256) by (bit_vector);
    assert((x & 0xff) + 0x100 * ((x >> 8) & 0xff) + 0x10000 * ((x >> 16) & 0xff)
        + 0x1000000 * ((x >> 24) & 0xff) == x) by (bit_vector);
}

/// Appends the four little-endian bytes of `x` to `out`.
pub fn push_le32(out: &mut Vec<u8>, x: u32)
    ensures
        final(out)@ == old(out)@ + spec_le32(x),
{
    proof {
        assert(x & 0xff < 256 && (x >> 8) & 0xff < 256 && (x >> 16) & 0xff < 256
            && (x >> 24) & 0xff < 256) by (bit_vector);
    }
    out.push((x & 0xff) as u8);
    out.push(((x >> 8) & 0xff) as u8);
    out.push(((x >> 16) & 0xff) as u8);
    out.push(((x >> 24) & 0xff) as u8);
    proof {
        assert(out@ =~= old(out)@ + spec_le32(x));
    }
}

} // verus!
