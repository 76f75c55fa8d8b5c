use vstd::prelude::*;
use crate::byte_order::{Endian, read_uint_at, uint_at};

verus! {

/// Tag number of the Orientation entry.
pub const ORIENTATION_TAG: u16 = 0x0112;

/// Field type number of a SHORT (16-bit unsigned) entry.
pub const SHORT_TYPE: u16 = 3;

/// The marker that precedes the TIFF block of an EXIF segment: "Exif" and two zero bytes.
pub open spec fn exif_marker() -> Seq<u8> {
    seq![0x45u8, 0x78u8, 0x69u8, 0x66u8, 0u8, 0u8]
}

/// `needle` occurs in `hay` at position `i`.
pub open spec fn occurs_at(hay: Seq<u8>, needle: Seq<u8>, i: int) -> bool {
    0 <= i && i + needle.len() <= hay.len() && hay.subrange(i, i + needle.len()) == needle
}

/// Why a TIFF block that follows the EXIF marker could not be read.
#[derive(Clone, Copy, Debug, PartialEq, Eq, Structural)]
pub enum ParseError {
    /// The two byte-order bytes are neither "II" nor "MM".
    BadByteOrder,
    /// The 16-bit value after the byte order is not 42.
    BadMagic,
    /// A header, count or entry lies past the end of the bytes.
    Truncated,
}

/// One 12-byte Image File Directory entry.
#[derive(Clone, Copy, Debug, PartialEq, Eq, Structural)]
pub struct IFDEntry {
    pub tag: u16,
    pub field_type: u16,
    pub count: u32,
    /// The four value bytes read as one integer.
    pub value_offset: u32,
    /// The first two value bytes read as one integer: the value of a single SHORT.
    pub short_value: u16,
}

/// The entry whose 12 bytes start at `base` in `t`.
pub open spec fn entry_at(t: Seq<u8>, base: int, e: Endian) -> IFDEntry {
    IFDEntry {
        tag: uint_at(t, base, 2, e) as u16,
        field_type: uint_at(t, base + 2, 2, e) as u16,
        count: uint_at(t, base + 4, 4, e) as u32,
        value_offset: uint_at(t, base + 8, 4, e) as u32,
        short_value: uint_at(t, base + 8, 2, e) as u16,
    }
}

/// The entry is the orientation: tag Orientation, type SHORT, one value.
pub open spec fn is_orientation(en: IFDEntry) -> bool {
    en.tag == ORIENTATION_TAG && en.field_type == SHORT_TYPE && en.count == 1
}

/// The value of the first orientation entry among the `n` entries from `base` on.
pub open spec fn first_orientation(t: Seq<u8>, base: int, n: nat, e: Endian) -> Option<u16>
    decreases n,
{
    if n == 0 {
        None
    } else if is_orientation(entry_at(t, base, e)) {
        Some(entry_at(t, base, e).short_value)
    } else {
        first_orientation(t, base + 12, (n - 1) as nat, e)
    }
}

/// The byte order that the two bytes at `ti` name: "II" little, "MM" big.
pub open spec fn byte_order_of(b: Seq<u8>, ti: int) -> Option<Endian> {
    if b[ti] == 0x49 && b[ti + 1] == 0x49 {
        Some(Endian::LittleEndian)
    } else if b[ti] == 0x4d && b[ti + 1] == 0x4d {
        Some(Endian::BigEndian)
    } else {
        None
    }
}

/// What reading the orientation out of the TIFF block that starts at `ti` in `b` gives.
/// Offsets inside the block count from `ti`.
pub open spec fn tiff_orientation(b: Seq<u8>, ti: int) -> Result<Option<u16>, ParseError> {
    if ti + 8 > b.len() {
        Err(ParseError::Truncated)
    } else if byte_order_of(b, ti) is None {
        Err(ParseError::BadByteOrder)
    } else {
        let e = byte_order_of(b, ti)->Some_0;
        if uint_at(b, ti + 2, 2, e) != 42 {
            Err(ParseError::BadMagic)
        } else {
            let ifd = ti + uint_at(b, ti + 4, 4, e);
            if ifd + 2 > b.len() {
                Err(ParseError::Truncated)
            } else {
                let n = uint_at(b, ifd, 2, e);
                if ifd + 2 + 12 * n > b.len() {
                    Err(ParseError::Truncated)
                } else {
                    Ok(first_orientation(b, ifd + 2, n, e))
                }
            }
        }
    }
}

/// `i` is the first position of the EXIF marker in `b`.
pub open spec fn first_marker_at(b: Seq<u8>, i: int) -> bool {
    occurs_at(b, exif_marker(), i) && forall|j: int| 0 <= j < i ==> !occurs_at(b, exif_marker(), j)
}

/// What reading the orientation out of a whole file gives: no marker means no orientation;
/// otherwise the TIFF block right after the first marker decides.
pub open spec fn orientation_of(b: Seq<u8>) -> Result<Option<u16>, ParseError> {
    if exists|i: int| occurs_at(b, exif_marker(), i) {
        tiff_orientation(b, (choose|i: int| first_marker_at(b, i)) + 6)
    } else {
        Ok(None)
    }
}

/// Position of the first occurrence of `needle` in `hay`.
pub fn find_bytes(hay: &[u8], needle: &[u8]) -> (r: Option<usize>)
    ensures
        match r {
            Some(i) => occurs_at(hay@, needle@, i as int) && forall|j: int|
                0 <= j < i ==> !occurs_at(hay@, needle@, j),
            None => forall|j: int| !occurs_at(hay@, needle@, j),
        },
{
    if needle.len() > hay.len() {
        return None;
    }
    let last = hay.len() - needle.len();
    let mut i: usize = 0;
    while i <= last
        invariant
            last + needle@.len() == hay@.len(),
            hay@.len() <= usize::MAX,
            forall|j: int| 0 <= j < i ==> !occurs_at(hay@, needle@, j),
        decreases last + 1 - i,
    {
        let mut k: usize = 0;
        let mut same = true;
        while k < needle.len()
            invariant
                i <= last,
                i + needle@.len() <= hay@.len(),
                hay@.len() <= usize::MAX,
                k <= needle@.len(),
                same <==> forall|m: int| 0 <= m < k ==> hay@[i + m] == needle@[m],
            decreases needle@.len() - k,
        {
            if hay[i + k] != needle[k] {
                same = false;
            }
            k += 1;
        }
        if same {
            assert(hay@.subrange(i as int, i + needle@.len()) =~= needle@);
            return Some(i);
        }
        assert(!occurs_at(hay@, needle@, i as int)) by {
            if occurs_at(hay@, needle@, i as int) {
                let m = choose|m: int| 0 <= m < needle@.len() && hay@[i + m] != needle@[m];
                assert(hay@.subrange(i as int, i + needle@.len())[m] == hay@[i + m]);
            }
        }
        if i == last {
            return None;
        }
        i += 1;
    }
    None
}

} // verus!

verus! {

impl IFDEntry {
    /// Decodes the 12-byte entry that starts at `start` in `bytes`.
    pub fn from_slice(bytes: &[u8], start: usize, e: Endian) -> (r: IFDEntry)
        requires
            start + 12 <= bytes@.len(),
        ensures
            r == entry_at(bytes@, start as int, e),
    {
        let _len = bytes.len();
        IFDEntry {
            tag: read_uint_at(bytes, start, 2, e) as u16,
            field_type: read_uint_at(bytes, start + 2, 2, e) as u16,
            count: read_uint_at(bytes, start + 4, 4, e),
            value_offset: read_uint_at(bytes, start + 8, 4, e),
            short_value: read_uint_at(bytes, start + 8, 2, e) as u16,
        }
    }
}

/// Reads the orientation out of the TIFF block that starts at `ti` in `bytes`.
pub fn tiff_block_orientation(bytes: &[u8], ti: usize) -> (r: Result<Option<u16>, ParseError>)
    requires
        ti <= bytes@.len(),
    ensures
        r == tiff_orientation(bytes@, ti as int),
{
    let len = bytes.len();
    if len - ti < 8 {
        return Err(ParseError::Truncated);
    }
    let e = if bytes[ti] == 0x49 && bytes[ti + 1] == 0x49 {
        Endian::LittleEndian
    } else if bytes[ti] == 0x4d && bytes[ti + 1] == 0x4d {
        Endian::BigEndian
    } else {
        return Err(ParseError::BadByteOrder);
    };
    if read_uint_at(bytes, ti + 2, 2, e) != 42 {
        return Err(ParseError::BadMagic);
    }
    let rel = read_uint_at(bytes, ti + 4, 4, e) as u64;
    let rest = (len - ti) as u64;
    if rel + 2 > rest {
        return Err(ParseError::Truncated);
    }
    let ifd = ti + rel as usize;
    let n = read_uint_at(bytes, ifd, 2, e) as u64;
    if rel + 2 + 12 * n > rest {
        return Err(ParseError::Truncated);
    }
    let first = ifd + 2;
    let n = n as usize;
    let mut k: usize = 0;
    while k < n
        invariant
            k <= n,
            first + 12 * n <= bytes@.len(),
            bytes@.len() == len,
            tiff_orientation(bytes@, ti as int) == Ok::<Option<u16>, ParseError>(
                first_orientation(bytes@, first as int, n as nat, e),
            ),
            first_orientation(bytes@, first as int, n as nat, e) == first_orientation(
                bytes@,
                first + 12 * k,
                (n - k) as nat,
                e,
            ),
        decreases n - k,
    {
        let entry = IFDEntry::from_slice(bytes, first + 12 * k, e);
        if entry.tag == ORIENTATION_TAG && entry.field_type == SHORT_TYPE && entry.count == 1 {
            return Ok(Some(entry.short_value));
        }
        assert((first + 12 * k) + 12 == first + 12 * (k + 1));
        k += 1;
    }
    Ok(None)
}

/// Finds the EXIF marker in a file's bytes and reads the orientation out of the TIFF block
/// that follows it. A file without the marker has no orientation.
pub fn find_orientation(file_bytes: &[u8]) -> (r: Result<Option<u16>, ParseError>)
    ensures
        r == orientation_of(file_bytes@),
        (forall|i: int| !occurs_at(file_bytes@, exif_marker(), i)) ==> r == Ok::<Option<u16>, ParseError>(None),
{
    let marker: [u8; 6] = [0x45u8, 0x78u8, 0x69u8, 0x66u8, 0u8, 0u8];
    assert(marker@ =~= exif_marker());
    match find_bytes(file_bytes, marker.as_slice()) {
        None => Ok(None),
        Some(i) => {
            let _len = file_bytes.len();
            proof {
                let b = file_bytes@;
                assert(first_marker_at(b, i as int));
                let c = choose|j: int| first_marker_at(b, j);
                assert(c == i as int) by {
                    if c < i as int {
                        assert(!occurs_at(b, exif_marker(), c));
                    } else if c > i as int {
                        assert(!occurs_at(b, exif_marker(), i as int));
                    }
                }
            }
            tiff_block_orientation(file_bytes, i + 6)
        },
    }
}

} // verus!
