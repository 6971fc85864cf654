use winmd::bytes::{read_compressed, read_le, to_signed};
use winmd::error::{invalid_data, Error};
use winmd::heap::{blob, decode, run, same_bytes, same_text, string};

#[test]
fn words_are_little_endian() {
    let bytes: [u8; 6] = [0x01, 0x02, 0x03, 0x04, 0xFF, 0xFF];
    assert_eq!(read_le(&bytes, 0, 1), Some(0x01));
    assert_eq!(read_le(&bytes, 0, 2), Some(0x0201));
    assert_eq!(read_le(&bytes, 0, 4), Some(0x0403_0201));
    assert_eq!(read_le(&bytes, 1, 4), Some(0xFF04_0302));
    assert_eq!(read_le(&bytes, 2, 4), Some(0xFFFF_0403));
    assert_eq!(read_le(&bytes, 5, 1), Some(0xFF));
    assert_eq!(read_le(&bytes, 4, 2), Some(0xFFFF));
    // past the end
    assert_eq!(read_le(&bytes, 3, 4), None);
    assert_eq!(read_le(&bytes, 5, 2), None);
    assert_eq!(read_le(&bytes, 6, 1), None);
    assert_eq!(read_le(&bytes, usize::MAX, 1), None);
    assert_eq!(read_le(&[], 0, 1), None);
    // widths that the format does not have
    assert_eq!(read_le(&bytes, 0, 0), None);
    assert_eq!(read_le(&bytes, 0, 3), None);
    assert_eq!(read_le(&bytes, 0, 8), None);
}

#[test]
fn words_are_signed_by_their_top_bit() {
    assert_eq!(to_signed(0), 0);
    assert_eq!(to_signed(321), 321);
    assert_eq!(to_signed(0x7FFF_FFFF), i32::MAX);
    assert_eq!(to_signed(0x8000_0000), i32::MIN);
    assert_eq!(to_signed(0xFFFF_FFFF), -1);
    assert_eq!(to_signed(0xFFFF_FFFE), -2);
}

#[test]
fn compressed_integers_take_one_two_or_four_bytes() {
    assert_eq!(read_compressed(&[0x00], 0), Some((0, 1)));
    assert_eq!(read_compressed(&[0x03], 0), Some((0x03, 1)));
    assert_eq!(read_compressed(&[0x7F], 0), Some((0x7F, 1)));
    assert_eq!(read_compressed(&[0x80, 0x80], 0), Some((0x80, 2)));
    assert_eq!(read_compressed(&[0xAE, 0x57], 0), Some((0x2E57, 2)));
    assert_eq!(read_compressed(&[0xBF, 0xFF], 0), Some((0x3FFF, 2)));
    assert_eq!(read_compressed(&[0xC0, 0x00, 0x40, 0x00], 0), Some((0x4000, 4)));
    assert_eq!(read_compressed(&[0xDF, 0xFF, 0xFF, 0xFF], 0), Some((0x1FFF_FFFF, 4)));
    assert_eq!(read_compressed(&[0xFF, 0x03], 1), Some((3, 1)));
    // a first byte that starts no integer
    assert_eq!(read_compressed(&[0xE0, 0, 0, 0], 0), None);
    assert_eq!(read_compressed(&[0xFF, 0, 0, 0], 0), None);
    // cut short
    assert_eq!(read_compressed(&[], 0), None);
    assert_eq!(read_compressed(&[0x01], 1), None);
    assert_eq!(read_compressed(&[0x80], 0), None);
    assert_eq!(read_compressed(&[0xC0, 0x00, 0x40], 0), None);
    assert_eq!(read_compressed(&[0x00, 0xC0, 0x00, 0x40], 1), None);
}

#[test]
fn strings_end_at_the_first_zero() {
    let heap: &[u8] = b"\0alpha\0be\0\0tail";
    assert_eq!(string(heap, 0).unwrap(), "");
    assert_eq!(string(heap, 1).unwrap(), "alpha");
    assert_eq!(string(heap, 3).unwrap(), "pha");
    assert_eq!(string(heap, 6).unwrap(), "");
    assert_eq!(string(heap, 7).unwrap(), "be");
    assert_eq!(string(heap, 10).unwrap(), "");
    assert_eq!(run(heap, 1).unwrap(), b"alpha");
    // no terminator before the end of the heap
    assert!(matches!(string(heap, 11), Err(Error::InvalidData(_))));
    assert!(string(heap, 14).is_err());
    assert!(string(heap, 15).is_err());
    assert!(string(heap, 16).is_err());
    assert!(string(heap, usize::MAX).is_err());
    assert!(string(&[], 0).is_err());
    assert!(run(heap, 11).is_none());
}

#[test]
fn strings_are_utf8() {
    let heap: &[u8] = &[0xC3, 0xA9, 0x00, 0xFF, 0x00, 0xC3, 0x00, 0xE2, 0x82, 0xAC, 0x00];
    assert_eq!(string(heap, 0).unwrap(), "é");
    assert_eq!(string(heap, 7).unwrap(), "€");
    assert!(matches!(string(heap, 3), Err(Error::InvalidData(_))));
    assert!(string(heap, 5).is_err());
    // the middle of a character
    assert!(string(heap, 1).is_err());
    assert!(string(heap, 8).is_err());
    // the bytes are there all the same
    assert_eq!(run(heap, 3).unwrap(), [0xFF]);
    assert_eq!(decode(&[0xE2, 0x82, 0xAC]), Some("€"));
    assert_eq!(decode(&[0xE2, 0x82]), None);
    assert_eq!(decode(&[0xED, 0xA0, 0x80]), None);
    assert_eq!(decode(&[0xC0, 0x80]), None);
    assert_eq!(decode(&[]), Some(""));
}

#[test]
fn blobs_carry_their_length() {
    let mut heap: Vec<u8> = vec![0x00, 0x03, 1, 2, 3, 0x80, 0x82];
    heap.extend_from_slice(&[7; 0x82]);
    heap.extend_from_slice(&[0xC0, 0x00, 0x00, 0x02, 8, 9]);
    heap.extend_from_slice(&[0x02, 5]);
    assert_eq!(blob(&heap, 0).unwrap(), []);
    assert_eq!(blob(&heap, 1).unwrap(), [1, 2, 3]);
    assert_eq!(blob(&heap, 2).unwrap(), [2]);
    assert_eq!(blob(&heap, 5).unwrap(), vec![7; 0x82]);
    assert_eq!(blob(&heap, 7 + 0x82).unwrap(), [8, 9]);
    // the blob runs past the end
    assert!(matches!(blob(&heap, heap.len() - 2), Err(Error::InvalidData(_))));
    // the length is cut short or malformed
    assert!(blob(&heap, heap.len()).is_err());
    assert!(blob(&heap, heap.len() + 1).is_err());
    assert!(blob(&[0x80], 0).is_err());
    assert!(blob(&[0xE0, 0, 0, 0, 0], 0).is_err());
    assert!(blob(&[0xDF, 0xFF, 0xFF, 0xFF], 0).is_err());
}

#[test]
fn texts_and_bytes_compare_by_content() {
    assert!(same_text("Enum", "Enum"));
    assert!(!same_text("Enum", "Enums"));
    assert!(!same_text("Enum", "enum"));
    assert!(!same_text("", "a"));
    assert!(same_text("", ""));
    assert!(same_text("é€", "é€"));
    assert!(!same_text("é", "e"));
    assert!(same_bytes(&[1, 2, 3], &[1, 2, 3]));
    assert!(!same_bytes(&[1, 2, 3], &[1, 2, 4]));
    assert!(!same_bytes(&[1, 2, 3], &[1, 2]));
    assert!(same_bytes(&[], &[]));
}

#[test]
fn errors_carry_their_message() {
    let e: Error = invalid_data("row is out of range");
    assert_eq!(e.message(), "row is out of range");
    assert!(matches!(e, Error::InvalidData(ref text) if text == "row is out of range"));
    assert_eq!(invalid_data("").message(), "");
    assert_eq!(format!("{:?}", invalid_data("x")), "InvalidData(\"x\")");
}
