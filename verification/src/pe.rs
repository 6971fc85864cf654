//! Where the metadata lies inside a portable executable file: the headers
//! lead to the CLI header, and the CLI header to the metadata root.

use crate::bytes::{le_fits, le_value, read_le};
use crate::database::Region;
use crate::error::{invalid_data, Error};
use vstd::prelude::*;

verus! {

/// The two bytes that a DOS header starts with, `MZ`.
pub const DOS_SIGNATURE: u32 = 0x5A4D;

/// The four bytes that the PE header starts with, `PE` and two zero bytes.
pub const PE_SIGNATURE: u32 = 0x0000_4550;

/// The magic number of a 32-bit optional header.
pub const MAGIC_PE32: u32 = 0x10B;

/// The magic number of a 64-bit optional header.
pub const MAGIC_PE32_PLUS: u32 = 0x20B;

/// The size of a CLI header, which is its first field.
pub const CLI_HEADER_SIZE: u32 = 72;

/// The 32-bit word at `at`, or `None` where it does not lie inside the
/// file.
pub open spec fn word(file: Seq<u8>, at: int, width: int) -> Option<int> {
    if le_fits(file, at, width) {
        Some(le_value(file, at, width))
    } else {
        None
    }
}

/// Where the PE header starts: where the DOS header says, if both carry
/// their signatures.
pub open spec fn pe_header(file: Seq<u8>) -> Option<int> {
    if word(file, 0, 2) == Some(DOS_SIGNATURE as int) {
        match word(file, 0x3C, 4) {
            Some(at) => if word(file, at, 4) == Some(PE_SIGNATURE as int) {
                Some(at)
            } else {
                None
            },
            None => None,
        }
    } else {
        None
    }
}

/// How far the data directories lie from the start of the optional
/// header, which depends on its magic number.
pub open spec fn directories_offset(magic: int) -> Option<int> {
    if magic == MAGIC_PE32 {
        Some(96)
    } else if magic == MAGIC_PE32_PLUS {
        Some(112)
    } else {
        None
    }
}

/// The file offset of the address `rva`, looked up in the `count`
/// sections whose headers start at `table`, from section `from` on: the
/// first section that the address lies in maps it to its raw data.
pub open spec fn section_offset(file: Seq<u8>, table: int, count: int, rva: int, from: int)
    -> Option<int>
    decreases count - from,
{
    if from < 0 || from >= count {
        None
    } else {
        let at = table + 40 * from;
        match (word(file, at + 8, 4), word(file, at + 12, 4), word(file, at + 20, 4)) {
            (Some(size), Some(address), Some(raw)) => if address <= rva < address + size {
                Some(raw + (rva - address))
            } else {
                section_offset(file, table, count, rva, from + 1)
            },
            _ => None,
        }
    }
}

/// Where the metadata root lies in a portable executable file, and how
/// long the metadata is. `None` where a header is missing, carries a wrong
/// signature or lies outside the file, or the metadata does.
pub open spec fn metadata_region(file: Seq<u8>) -> Option<Region> {
    match pe_header(file) {
        Some(pe) => match (word(file, pe + 6, 2), word(file, pe + 20, 2), word(file, pe + 24, 2)) {
            (Some(sections), Some(optional), Some(magic)) => match directories_offset(magic) {
                Some(directories) => {
                    let table = pe + 24 + optional;
                    match word(file, pe + 24 + directories + 14 * 8, 4) {
                        Some(cli_rva) => match section_offset(file, table, sections, cli_rva, 0) {
                            Some(cli) => if word(file, cli, 4) == Some(CLI_HEADER_SIZE as int) {
                                match (word(file, cli + 8, 4), word(file, cli + 12, 4)) {
                                    (Some(rva), Some(size)) => match section_offset(
                                        file,
                                        table,
                                        sections,
                                        rva,
                                        0,
                                    ) {
                                        Some(offset) => if offset + size <= file.len() {
                                            Some(
                                                Region {
                                                    offset: offset as usize,
                                                    len: size as usize,
                                                },
                                            )
                                        } else {
                                            None
                                        },
                                        None => None,
                                    },
                                    _ => None,
                                }
                            } else {
                                None
                            },
                            None => None,
                        },
                        None => None,
                    }
                },
                None => None,
            },
            _ => None,
        },
        None => None,
    }
}

/// Reads the word of `width` bytes at `at`, where it lies inside the file.
fn read_word(file: &[u8], at: u64, width: usize) -> (r: Option<u64>)
    ensures
        match r {
            Some(value) => word(file@, at as int, width as int) == Some(value as int),
            None => word(file@, at as int, width as int) is None,
        },
        r matches Some(value) ==> value <= 0xFFFF_FFFF && at + width <= file@.len(),
{
    let len: usize = file.len();
    if at > len as u64 {
        return None;
    }
    match read_le(file, at as usize, width) {
        Some(value) => Some(value as u64),
        None => None,
    }
}

/// Looks the address `rva` up in the section headers.
fn find_section(file: &[u8], table: u64, count: u64, rva: u64) -> (r: Option<u64>)
    requires
        table <= 0x3_0000_0000,
        count <= 0xFFFF,
        rva <= 0xFFFF_FFFF,
    ensures
        match r {
            Some(offset) => section_offset(file@, table as int, count as int, rva as int, 0)
                == Some(offset as int),
            None => section_offset(file@, table as int, count as int, rva as int, 0) is None,
        },
        r matches Some(offset) ==> offset <= 0x2_0000_0000,
{
    let mut from: u64 = 0;
    while from < count
        invariant
            from <= count <= 0xFFFF,
            table <= 0x3_0000_0000,
            rva <= 0xFFFF_FFFF,
            section_offset(file@, table as int, count as int, rva as int, 0) == section_offset(
                file@,
                table as int,
                count as int,
                rva as int,
                from as int,
            ),
        decreases count - from,
    {
        let at: u64 = table + 40 * from;
        let size = match read_word(file, at + 8, 4) {
            Some(value) => value,
            None => {
                return None;
            },
        };
        let address = match read_word(file, at + 12, 4) {
            Some(value) => value,
            None => {
                return None;
            },
        };
        let raw = match read_word(file, at + 20, 4) {
            Some(value) => value,
            None => {
                return None;
            },
        };
        if address <= rva && rva < address + size {
            return Some(raw + (rva - address));
        }
        from = from + 1;
    }
    None
}

/// Finds the metadata in a portable executable file: where the metadata
/// root lies and how long the metadata is. Fails where the file is no
/// portable executable with a CLI header, or a header or the metadata lies
/// outside the file.
pub fn locate(file: &[u8]) -> (r: Result<Region, Error>)
    ensures
        match r {
            Ok(region) => metadata_region(file@) == Some(region) && region.inside(
                file@.len() as int,
            ),
            Err(e) => metadata_region(file@) is None && e is InvalidData,
        },
{
    let len: usize = file.len();
    match read_word(file, 0, 2) {
        Some(value) => {
            if value != DOS_SIGNATURE as u64 {
                return Err(invalid_data("file is no executable"));
            }
        },
        None => {
            return Err(invalid_data("file is no executable"));
        },
    }
    let pe: u64 = match read_word(file, 0x3C, 4) {
        Some(value) => value,
        None => {
            return Err(invalid_data("file is too short for its headers"));
        },
    };
    match read_word(file, pe, 4) {
        Some(value) => {
            if value != PE_SIGNATURE as u64 {
                return Err(invalid_data("file is no portable executable"));
            }
        },
        None => {
            return Err(invalid_data("file is too short for its headers"));
        },
    }
    let sections: u64 = match read_word(file, pe + 6, 2) {
        Some(value) => value,
        None => {
            return Err(invalid_data("file is too short for its headers"));
        },
    };
    let optional: u64 = match read_word(file, pe + 20, 2) {
        Some(value) => value,
        None => {
            return Err(invalid_data("file is too short for its headers"));
        },
    };
    let magic: u64 = match read_word(file, pe + 24, 2) {
        Some(value) => value,
        None => {
            return Err(invalid_data("file is too short for its headers"));
        },
    };
    let directories: u64 = if magic == MAGIC_PE32 as u64 {
        96
    } else if magic == MAGIC_PE32_PLUS as u64 {
        112
    } else {
        return Err(invalid_data("optional header is of no known kind"));
    };
    let table: u64 = pe + 24 + optional;
    let cli_rva: u64 = match read_word(file, pe + 24 + directories + 14 * 8, 4) {
        Some(value) => value,
        None => {
            return Err(invalid_data("file is too short for its headers"));
        },
    };
    let cli: u64 = match find_section(file, table, sections, cli_rva) {
        Some(offset) => offset,
        None => {
            return Err(invalid_data("file has no CLI header"));
        },
    };
    match read_word(file, cli, 4) {
        Some(value) => {
            if value != CLI_HEADER_SIZE as u64 {
                return Err(invalid_data("CLI header is malformed"));
            }
        },
        None => {
            return Err(invalid_data("CLI header lies outside the file"));
        },
    }
    let rva: u64 = match read_word(file, cli + 8, 4) {
        Some(value) => value,
        None => {
            return Err(invalid_data("CLI header lies outside the file"));
        },
    };
    let size: u64 = match read_word(file, cli + 12, 4) {
        Some(value) => value,
        None => {
            return Err(invalid_data("CLI header lies outside the file"));
        },
    };
    let offset: u64 = match find_section(file, table, sections, rva) {
        Some(offset) => offset,
        None => {
            return Err(invalid_data("metadata lies in no section"));
        },
    };
    if offset + size > len as u64 {
        return Err(invalid_data("metadata lies outside the file"));
    }
    Ok(Region { offset: offset as usize, len: size as usize })
}

} // verus!
