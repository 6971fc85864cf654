//! Integers as the format stores them: little-endian words of one, two or
//! four bytes, and the compressed unsigned integer that prefixes blobs.

use vstd::prelude::*;

verus! {

/// The little-endian value of the `width` bytes that start at `at`.
/// Widths other than 1, 2 and 4 have the value 0.
pub open spec fn le_value(bytes: Seq<u8>, at: int, width: int) -> int {
    if width == 1 {
        bytes[at] as int
    } else if width == 2 {
        bytes[at] + 256 * bytes[at + 1]
    } else if width == 4 {
        bytes[at] + 256 * bytes[at + 1] + 65536 * bytes[at + 2] + 16777216 * bytes[at + 3]
    } else {
        0
    }
}

/// Whether a word of `width` bytes at `at` lies inside `bytes`.
pub open spec fn le_fits(bytes: Seq<u8>, at: int, width: int) -> bool {
    (width == 1 || width == 2 || width == 4) && 0 <= at && at + width <= bytes.len()
}

/// The two's-complement reading of a 32-bit word.
pub open spec fn signed32(value: int) -> int {
    if value < 0x8000_0000 {
        value
    } else {
        value - 0x1_0000_0000
    }
}

/// How many bytes a compressed integer occupies, judged by its first byte;
/// 0 where the first byte starts no compressed integer.
pub open spec fn compressed_width(first: u8) -> int {
    if first < 0x80 {
        1
    } else if first < 0xC0 {
        2
    } else if first < 0xE0 {
        4
    } else {
        0
    }
}

/// The compressed unsigned integer at `at`: its value and its width in
/// bytes, or `None` where it is malformed or runs past the end.
pub open spec fn compressed(bytes: Seq<u8>, at: int) -> Option<(int, int)> {
    if !(0 <= at < bytes.len()) {
        None
    } else {
        let width = compressed_width(bytes[at]);
        if width == 0 || at + width > bytes.len() {
            None
        } else if width == 1 {
            Some((bytes[at] as int, 1))
        } else if width == 2 {
            Some(((bytes[at] - 0x80) * 256 + bytes[at + 1], 2))
        } else {
            Some(
                (
                    (bytes[at] - 0xC0) * 16777216 + bytes[at + 1] * 65536 + bytes[at + 2] * 256
                        + bytes[at + 3],
                    4,
                ),
            )
        }
    }
}

/// Reads the little-endian word of `width` bytes at `at`, zero-extended.
pub fn read_le(bytes: &[u8], at: usize, width: usize) -> (r: Option<u32>)
    ensures
        r is Some <==> le_fits(bytes@, at as int, width as int),
        r matches Some(v) ==> v == le_value(bytes@, at as int, width as int),
{
    if width > bytes.len() || at > bytes.len() - width {
        return None;
    }
    if width == 1 {
        Some(bytes[at] as u32)
    } else if width == 2 {
        let b0: u32 = bytes[at] as u32;
        let b1: u32 = bytes[at + 1] as u32;
        Some(b0 + 256 * b1)
    } else if width == 4 {
        let b0: u32 = bytes[at] as u32;
        let b1: u32 = bytes[at + 1] as u32;
        let b2: u32 = bytes[at + 2] as u32;
        let b3: u32 = bytes[at + 3] as u32;
        Some(b0 + 256 * b1 + 65536 * b2 + 16777216 * b3)
    } else {
        None
    }
}

/// Reads a 32-bit word as a signed integer.
pub fn to_signed(value: u32) -> (r: i32)
    ensures
        r == signed32(value as int),
{
    if value < 0x8000_0000 {
        value as i32
    } else {
        let wide: i64 = value as i64 - 0x1_0000_0000;
        wide as i32
    }
}

/// Reads the compressed unsigned integer at `at`: its value and its width.
pub fn read_compressed(bytes: &[u8], at: usize) -> (r: Option<(u32, usize)>)
    ensures
        match r {
            Some((value, width)) => compressed(bytes@, at as int) == Some(
                (value as int, width as int),
            ),
            None => compressed(bytes@, at as int) is None,
        },
        r is Some ==> 1 <= r.unwrap().1 <= 4 && at + r.unwrap().1 <= bytes@.len(),
{
    if at >= bytes.len() {
        return None;
    }
    let first: u8 = bytes[at];
    if first < 0x80 {
        Some((first as u32, 1))
    } else if first < 0xC0 {
        if bytes.len() - at < 2 {
            return None;
        }
        let b0: u32 = (first - 0x80) as u32;
        let b1: u32 = bytes[at + 1] as u32;
        Some((b0 * 256 + b1, 2))
    } else if first < 0xE0 {
        if bytes.len() - at < 4 {
            return None;
        }
        let b0: u32 = (first - 0xC0) as u32;
        let b1: u32 = bytes[at + 1] as u32;
        let b2: u32 = bytes[at + 2] as u32;
        let b3: u32 = bytes[at + 3] as u32;
        Some((b0 * 16777216 + b1 * 65536 + b2 * 256 + b3, 4))
    } else {
        None
    }
}

} // verus!
