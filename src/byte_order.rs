use vstd::prelude::*;

verus! {

/// Byte order of the multi-byte integers in a TIFF block.
#[derive(Clone, Copy, Debug, PartialEq, Eq, Structural)]
pub enum Endian {
    LittleEndian,
    BigEndian,
}

/// The unsigned integer held by `s` (one, two or four bytes) under byte order `e`.
pub open spec fn uint_value(s: Seq<u8>, e: Endian) -> nat {
    if s.len() == 1 {
        s[0] as nat
    } else if s.len() == 2 {
        match e {
            Endian::LittleEndian => s[0] as nat + 256 * (s[1] as nat),
            Endian::BigEndian => 256 * (s[0] as nat) + s[1] as nat,
        }
    } else if s.len() == 4 {
        match e {
            Endian::LittleEndian => s[0] as nat + 256 * (s[1] as nat) + 65536 * (s[2] as nat)
                + 16777216 * (s[3] as nat),
            Endian::BigEndian => 16777216 * (s[0] as nat) + 65536 * (s[1] as nat) + 256 * (
            s[2] as nat) + s[3] as nat,
        }
    } else {
        0
    }
}

/// The integer of `len` bytes that starts at `start` in `b`.
pub open spec fn uint_at(b: Seq<u8>, start: int, len: int, e: Endian) -> nat {
    uint_value(b.subrange(start, start + len), e)
}

/// Reads the `len`-byte integer at `start` without taking a sub-slice.
pub fn read_uint_at(bytes: &[u8], start: usize, len: usize, e: Endian) -> (r: u32)
    requires
        len == 1 || len == 2 || len == 4,
        start + len <= bytes@.len(),
    ensures
        r as nat == uint_at(bytes@, start as int, len as int, e),
{
    let b0 = bytes[start] as u32;
    if len == 1 {
        return b0;
    }
    let b1 = bytes[start + 1] as u32;
    if len == 2 {
        return match e {
            Endian::LittleEndian => b0 + 256 * b1,
            Endian::BigEndian => 256 * b0 + b1,
        };
    }
    let b2 = bytes[start + 2] as u32;
    let b3 = bytes[start + 3] as u32;
    match e {
        Endian::LittleEndian => b0 + 256 * b1 + 65536 * b2 + 16777216 * b3,
        Endian::BigEndian => 16777216 * b0 + 65536 * b1 + 256 * b2 + b3,
    }
}

/// Decodes the whole of `slice`, which holds one, two or four bytes, under byte order `e`.
pub fn read_uint(slice: &[u8], e: Endian) -> (r: u32)
    requires
        slice@.len() == 1 || slice@.len() == 2 || slice@.len() == 4,
    ensures
        r as nat == uint_value(slice@, e),
{
    let r = read_uint_at(slice, 0, slice.len(), e);
    assert(slice@.subrange(0, slice@.len() as int) =~= slice@);
    r
}

} // verus!
