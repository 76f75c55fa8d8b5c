use rolf_preview::byte_order::{read_uint, read_uint_at, Endian};
use rolf_preview::exif::{find_bytes, find_orientation, tiff_block_orientation, IFDEntry, ParseError};

fn tiff_block(big_endian: bool, entries: &[(u16, u16, u32, u32)]) -> Vec<u8> {
    let mut t: Vec<u8> = Vec::new();
    let put16 = |t: &mut Vec<u8>, v: u16| {
        if big_endian {
            t.extend_from_slice(&v.to_be_bytes())
        } else {
            t.extend_from_slice(&v.to_le_bytes())
        }
    };
    let put32 = |t: &mut Vec<u8>, v: u32| {
        if big_endian {
            t.extend_from_slice(&v.to_be_bytes())
        } else {
            t.extend_from_slice(&v.to_le_bytes())
        }
    };
    t.extend_from_slice(if big_endian { b"MM" } else { b"II" });
    put16(&mut t, 42);
    put32(&mut t, 8);
    put16(&mut t, entries.len() as u16);
    for &(tag, ty, count, value) in entries {
        put16(&mut t, tag);
        put16(&mut t, ty);
        put32(&mut t, count);
        if ty == 3 && count == 1 {
            put16(&mut t, value as u16);
            put16(&mut t, 0);
        } else {
            put32(&mut t, value);
        }
    }
    put32(&mut t, 0);
    t
}

fn with_exif(tiff: &[u8]) -> Vec<u8> {
    let mut b = vec![0xFF, 0xD8, 0xFF, 0xE1, 0x00, 0x10];
    b.extend_from_slice(b"Exif\0\0");
    b.extend_from_slice(tiff);
    b
}

#[test]
fn read_uint_single_byte() {
    assert_eq!(read_uint(&[0xAB], Endian::LittleEndian), 0xAB);
    assert_eq!(read_uint(&[0xAB], Endian::BigEndian), 0xAB);
}

#[test]
fn read_uint_two_bytes_both_orders() {
    assert_eq!(read_uint(&[0x12, 0x34], Endian::LittleEndian), 0x3412);
    assert_eq!(read_uint(&[0x12, 0x34], Endian::BigEndian), 0x1234);
}

#[test]
fn read_uint_four_bytes_both_orders() {
    assert_eq!(read_uint(&[0x01, 0x02, 0x03, 0x04], Endian::LittleEndian), 0x04030201);
    assert_eq!(read_uint(&[0x01, 0x02, 0x03, 0x04], Endian::BigEndian), 0x01020304);
    assert_eq!(read_uint(&[0xFF, 0xFF, 0xFF, 0xFF], Endian::BigEndian), u32::MAX);
}

#[test]
fn read_uint_at_offset() {
    let b = [9u8, 9, 0x00, 0x2A, 9];
    assert_eq!(read_uint_at(&b, 2, 2, Endian::BigEndian), 42);
    assert_eq!(read_uint_at(&b, 2, 2, Endian::LittleEndian), 0x2A00);
}

#[test]
fn find_bytes_first_occurrence() {
    assert_eq!(find_bytes(b"abcabc", b"bc"), Some(1));
    assert_eq!(find_bytes(b"abcabc", b"cb"), None);
    assert_eq!(find_bytes(b"ab", b"abc"), None);
    assert_eq!(find_bytes(b"abc", b""), Some(0));
    assert_eq!(find_bytes(b"", b""), Some(0));
}

#[test]
fn ifd_entry_decodes_fields() {
    let b = [0x01, 0x12, 0x00, 0x03, 0x00, 0x00, 0x00, 0x01, 0x00, 0x06, 0x00, 0x00];
    let e = IFDEntry::from_slice(&b, 0, Endian::BigEndian);
    assert_eq!(e.tag, 0x0112);
    assert_eq!(e.field_type, 3);
    assert_eq!(e.count, 1);
    assert_eq!(e.value_offset, 0x0006_0000);
    assert_eq!(e.short_value, 6);
}

#[test]
fn no_marker_means_no_orientation() {
    assert_eq!(find_orientation(b""), Ok(None));
    assert_eq!(find_orientation(b"plain bytes without metadata"), Ok(None));
    assert_eq!(find_orientation(b"Exif\0"), Ok(None));
    assert_eq!(find_orientation(&[0u8; 64]), Ok(None));
}

#[test]
fn orientation_six_little_endian() {
    let t = tiff_block(false, &[(0x010F, 2, 4, 100), (0x0112, 3, 1, 6)]);
    assert_eq!(find_orientation(&with_exif(&t)), Ok(Some(6)));
}

#[test]
fn orientation_six_big_endian() {
    let t = tiff_block(true, &[(0x0112, 3, 1, 6), (0x0110, 2, 4, 200)]);
    assert_eq!(find_orientation(&with_exif(&t)), Ok(Some(6)));
}

#[test]
fn orientation_entry_needs_short_type_and_single_count() {
    let t = tiff_block(false, &[(0x0112, 4, 1, 6), (0x0112, 3, 2, 7)]);
    assert_eq!(find_orientation(&with_exif(&t)), Ok(None));
    let t = tiff_block(false, &[(0x0112, 4, 1, 6), (0x0112, 3, 1, 8)]);
    assert_eq!(find_orientation(&with_exif(&t)), Ok(Some(8)));
}

#[test]
fn first_orientation_entry_wins() {
    let t = tiff_block(true, &[(0x0112, 3, 1, 3), (0x0112, 3, 1, 5)]);
    assert_eq!(find_orientation(&with_exif(&t)), Ok(Some(3)));
}

#[test]
fn bad_byte_order_is_an_error() {
    let mut t = tiff_block(false, &[(0x0112, 3, 1, 6)]);
    t[0] = b'I';
    t[1] = b'M';
    assert_eq!(find_orientation(&with_exif(&t)), Err(ParseError::BadByteOrder));
}

#[test]
fn missing_magic_is_an_error() {
    let mut t = tiff_block(true, &[(0x0112, 3, 1, 6)]);
    t[3] = 41;
    assert_eq!(find_orientation(&with_exif(&t)), Err(ParseError::BadMagic));
}

#[test]
fn truncated_blocks_are_errors() {
    let t = tiff_block(false, &[(0x0112, 3, 1, 6)]);
    assert_eq!(find_orientation(&with_exif(&t[..5])), Err(ParseError::Truncated));
    assert_eq!(find_orientation(&with_exif(&t[..9])), Err(ParseError::Truncated));
    assert_eq!(find_orientation(&with_exif(&t[..20])), Err(ParseError::Truncated));
    let mut far = t.clone();
    far[4] = 0xF0;
    assert_eq!(find_orientation(&with_exif(&far)), Err(ParseError::Truncated));
}

#[test]
fn tiff_block_at_offset() {
    let t = tiff_block(true, &[(0x0112, 3, 1, 2)]);
    let mut b = vec![7u8; 3];
    b.extend_from_slice(&t);
    assert_eq!(tiff_block_orientation(&b, 3), Ok(Some(2)));
    assert_eq!(tiff_block_orientation(&b, b.len()), Err(ParseError::Truncated));
}
