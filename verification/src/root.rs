//! Opening a buffer: the metadata root, its directory of streams, and the
//! header of the table stream, from which the row counts, the heap flags
//! and the places of tables and heaps are read.

use crate::bytes::{le_value, read_le};
use crate::database::{fits, Database, Region};
use crate::error::{invalid_data, Error};
use crate::heap::{run, run_at, same_bytes};
use crate::layout::Sizes;
use crate::lists::{lemma_prepend_empty, lemma_prepend_one, prepend};
use crate::schema::{TableKind, TABLE_NUMBERS};
use vstd::prelude::*;

verus! {

/// The signature that a metadata root starts with.
pub const ROOT_SIGNATURE: u32 = 0x424A_5342;

/// An entry of the stream directory: the name of a stream and where it
/// lies.
pub struct Stream<'a> {
    pub name: &'a [u8],
    pub region: Region,
}

/// The name of the table stream, `#~`.
pub open spec fn tables_name() -> Seq<u8> {
    seq![0x23u8, 0x7Eu8]
}

/// The name of the string heap, `#Strings`.
pub open spec fn strings_name() -> Seq<u8> {
    seq![0x23u8, 0x53u8, 0x74u8, 0x72u8, 0x69u8, 0x6Eu8, 0x67u8, 0x73u8]
}

/// The name of the blob heap, `#Blob`.
pub open spec fn blobs_name() -> Seq<u8> {
    seq![0x23u8, 0x42u8, 0x6Cu8, 0x6Fu8, 0x62u8]
}

/// The name of the GUID heap, `#GUID`.
pub open spec fn guids_name() -> Seq<u8> {
    seq![0x23u8, 0x47u8, 0x55u8, 0x49u8, 0x44u8]
}

/// Whether the buffer starts with a metadata root whose fixed part, its
/// version string and its stream count lie inside the buffer.
pub open spec fn root_fits(bytes: Seq<u8>) -> bool {
    &&& bytes.len() >= 20
    &&& le_value(bytes, 0, 4) == ROOT_SIGNATURE
    &&& le_value(bytes, 12, 4) <= bytes.len() - 20
}

/// Where the stream directory starts: after the version string, the flags
/// and the stream count.
pub open spec fn directory_start(bytes: Seq<u8>) -> int {
    20 + le_value(bytes, 12, 4)
}

/// How many streams the directory lists.
pub open spec fn stream_count(bytes: Seq<u8>) -> int {
    le_value(bytes, directory_start(bytes) - 2, 2)
}

/// The directory entry at `at`: the name of the stream, where it lies, and
/// where the next entry starts. An entry is an offset, a size and a
/// zero-terminated name, padded to a multiple of four bytes. `None` where
/// the entry does not lie inside the buffer.
pub open spec fn stream_at(bytes: Seq<u8>, at: int) -> Option<(Seq<u8>, Region, int)> {
    if 0 <= at && at + 8 <= bytes.len() {
        match run_at(bytes, at + 8) {
            Some(name) => {
                let next = at + 8 + name.len() + 4 - name.len() % 4;
                if next <= bytes.len() {
                    Some(
                        (
                            name,
                            Region {
                                offset: le_value(bytes, at, 4) as usize,
                                len: le_value(bytes, at + 4, 4) as usize,
                            },
                            next,
                        ),
                    )
                } else {
                    None
                }
            },
            None => None,
        }
    } else {
        None
    }
}

/// The `count` directory entries from `at` on, or `None` where one of them
/// does not lie inside the buffer.
pub open spec fn directory(bytes: Seq<u8>, at: int, count: int) -> Option<
    Seq<(Seq<u8>, Region)>,
>
    decreases count,
{
    if count <= 0 {
        Some(Seq::empty())
    } else {
        match stream_at(bytes, at) {
            Some((name, region, next)) => prepend(
                seq![(name, region)],
                directory(bytes, next, count - 1),
            ),
            None => None,
        }
    }
}

/// The names and places that a list of entries holds.
pub open spec fn entries(streams: Seq<Stream>) -> Seq<(Seq<u8>, Region)> {
    Seq::new(streams.len(), |i: int| (streams[i].name@, streams[i].region))
}

/// Where the first stream called `name` lies, looking from entry `from`
/// on; `None` where there is none.
pub open spec fn stream_named(streams: Seq<(Seq<u8>, Region)>, name: Seq<u8>, from: int)
    -> Option<Region>
    decreases streams.len() - from,
{
    if from < 0 || from >= streams.len() {
        None
    } else if streams[from].0 == name {
        Some(streams[from].1)
    } else {
        stream_named(streams, name, from + 1)
    }
}

/// The place of a heap: that of the stream called `name`, or an empty
/// region where the directory lists no such stream.
pub open spec fn heap_named(streams: Seq<(Seq<u8>, Region)>, name: Seq<u8>) -> Region {
    match stream_named(streams, name, 0) {
        Some(region) => region,
        None => Region { offset: 0, len: 0 },
    }
}

/// Whether bit `bit` of a byte is set.
pub open spec fn bit_set(byte: u8, bit: u8) -> bool {
    (byte >> bit) & 1 == 1
}

/// Whether the header of the table stream at `at` says that the table
/// with the given number is present: bit `number` of the 64-bit mask that
/// starts at byte 8 of the header.
pub open spec fn present(bytes: Seq<u8>, at: int, number: int) -> bool {
    bit_set(bytes[at + 8 + number / 8], (number % 8) as u8)
}

/// How many tables with a number below `number` are present.
pub open spec fn present_before(bytes: Seq<u8>, at: int, number: int) -> int
    decreases number,
{
    if number <= 0 {
        0
    } else {
        present_before(bytes, at, number - 1) + if present(bytes, at, number - 1) {
            1int
        } else {
            0int
        }
    }
}

/// The row count of the table with the given number: the 32-bit word that
/// the header holds for it, after those of the present tables before it;
/// 0 for a table that is not present.
pub open spec fn row_count_at(bytes: Seq<u8>, at: int, number: int) -> int {
    if present(bytes, at, number) {
        le_value(bytes, at + 24 + 4 * present_before(bytes, at, number), 4)
    } else {
        0
    }
}

/// Where the rows start: after the header and the row counts.
pub open spec fn rows_start(bytes: Seq<u8>, at: int) -> int {
    at + 24 + 4 * present_before(bytes, at, 64)
}

/// Whether the header of the table stream at `at` lies inside the buffer
/// with its row counts, and marks only tables that the format has.
pub open spec fn header_fits(bytes: Seq<u8>, at: int) -> bool {
    &&& 0 <= at
    &&& at + 24 <= bytes.len()
    &&& rows_start(bytes, at) <= bytes.len()
    &&& forall|number: int|
        0 <= number < 64 && #[trigger] present(bytes, at, number) ==> TableKind::of(number)
            is Some
}

/// What `sizes` must hold to be what the header at `at` says.
pub open spec fn sizes_match(bytes: Seq<u8>, at: int, sizes: &Sizes) -> bool {
    &&& sizes.rows@.len() == TABLE_NUMBERS
    &&& forall|number: int|
        0 <= number < TABLE_NUMBERS ==> #[trigger] sizes.rows@[number] == row_count_at(
            bytes,
            at,
            number,
        )
    &&& sizes.wide_strings == bit_set(bytes[at + 6], 0)
    &&& sizes.wide_guids == bit_set(bytes[at + 6], 1)
    &&& sizes.wide_blobs == bit_set(bytes[at + 6], 2)
}

/// `db` is what `bytes` describe: the table stream gives the row counts,
/// the heap flags and the start of the rows, and the directory gives the
/// places of the heaps.
pub open spec fn opened(bytes: Seq<u8>, db: &Database) -> bool {
    &&& root_fits(bytes)
    &&& directory(bytes, directory_start(bytes), stream_count(bytes)) matches Some(streams)
    &&& stream_named(streams, tables_name(), 0) matches Some(tables)
    &&& header_fits(bytes, tables.offset as int)
    &&& db.wf()
    &&& db.bytes() == bytes
    &&& sizes_match(bytes, tables.offset as int, &db.sizes())
    &&& db.start() == rows_start(bytes, tables.offset as int)
    &&& db.strings() == heap_named(streams, strings_name())
    &&& db.blobs() == heap_named(streams, blobs_name())
    &&& db.guids() == heap_named(streams, guids_name())
}

/// Whether `bytes` can be opened: the root, the directory and the header of
/// the table stream lie inside the buffer, and so do the tables and heaps
/// that they describe.
pub open spec fn openable(bytes: Seq<u8>) -> bool {
    &&& root_fits(bytes)
    &&& directory(bytes, directory_start(bytes), stream_count(bytes)) matches Some(streams)
    &&& stream_named(streams, tables_name(), 0) matches Some(tables)
    &&& header_fits(bytes, tables.offset as int)
    &&& forall|sizes: Sizes| #[trigger]
        sizes_match(bytes, tables.offset as int, &sizes) ==> fits(
            bytes,
            &sizes,
            rows_start(bytes, tables.offset as int),
            heap_named(streams, strings_name()),
            heap_named(streams, blobs_name()),
            heap_named(streams, guids_name()),
        )
}

/// Reads the directory entry at `at`.
fn read_stream<'a>(bytes: &'a [u8], at: usize) -> (r: Option<(Stream<'a>, usize)>)
    ensures
        match r {
            Some((stream, next)) => stream_at(bytes@, at as int) == Some(
                (stream.name@, stream.region, next as int),
            ),
            None => stream_at(bytes@, at as int) is None,
        },
{
    let len: usize = bytes.len();
    if len < 8 || at > len - 8 {
        return None;
    }
    let name = match run(bytes, at + 8) {
        Some(name) => name,
        None => {
            return None;
        },
    };
    let size: usize = name.len();
    let pad: usize = 4 - size % 4;
    if size > len - (at + 8) || pad > len - (at + 8) - size {
        return None;
    }
    let offset = match read_le(bytes, at, 4) {
        Some(value) => value,
        None => {
            return None;
        },
    };
    let length = match read_le(bytes, at + 4, 4) {
        Some(value) => value,
        None => {
            return None;
        },
    };
    Some(
        (
            Stream { name, region: Region { offset: offset as usize, len: length as usize } },
            at + 8 + size + pad,
        ),
    )
}

/// Reads the `count` directory entries from `at` on.
fn read_directory<'a>(bytes: &'a [u8], at: usize, count: u32) -> (r: Option<Vec<Stream<'a>>>)
    ensures
        match r {
            Some(streams) => directory(bytes@, at as int, count as int) == Some(
                entries(streams@),
            ),
            None => directory(bytes@, at as int, count as int) is None,
        },
{
    let mut streams: Vec<Stream<'a>> = Vec::new();
    let mut pos: usize = at;
    let mut done: u32 = 0;
    proof {
        assert(entries(streams@) =~= Seq::empty());
        lemma_prepend_empty(entries(streams@), directory(bytes@, at as int, count as int));
    }
    while done < count
        invariant
            done <= count,
            directory(bytes@, at as int, count as int) == prepend(
                entries(streams@),
                directory(bytes@, pos as int, count - done),
            ),
        decreases count - done,
    {
        let ghost before = streams@;
        match read_stream(bytes, pos) {
            Some((stream, next)) => {
                proof {
                    assert(entries(before.push(stream)) =~= entries(before).push(
                        (stream.name@, stream.region),
                    ));
                    lemma_prepend_one(
                        entries(before),
                        (stream.name@, stream.region),
                        directory(bytes@, next as int, count - done - 1),
                    );
                }
                streams.push(stream);
                pos = next;
                done = done + 1;
            },
            None => {
                return None;
            },
        }
    }
    proof {
        lemma_prepend_empty(entries(streams@), None);
    }
    Some(streams)
}

/// Where the first stream called `name` lies.
fn lookup<'a>(streams: &Vec<Stream<'a>>, name: &[u8]) -> (r: Option<Region>)
    ensures
        r == stream_named(entries(streams@), name@, 0),
{
    let mut i: usize = 0;
    while i < streams.len()
        invariant
            i <= streams.len(),
            stream_named(entries(streams@), name@, 0) == stream_named(
                entries(streams@),
                name@,
                i as int,
            ),
        decreases streams.len() - i,
    {
        if same_bytes(streams[i].name, name) {
            return Some(streams[i].region);
        }
        i = i + 1;
    }
    None
}

/// Where the heap called `name` lies.
fn heap<'a>(streams: &Vec<Stream<'a>>, name: &[u8]) -> (r: Region)
    ensures
        r == heap_named(entries(streams@), name@),
{
    match lookup(streams, name) {
        Some(region) => region,
        None => Region { offset: 0, len: 0 },
    }
}

/// Whether bit `bit` of a byte is set.
fn test_bit(byte: u8, bit: u8) -> (r: bool)
    requires
        bit < 8,
    ensures
        r == bit_set(byte, bit),
{
    (byte >> bit) & 1 == 1
}

/// Reads the row counts and heap flags from the header of the table
/// stream at `at`, and where the rows start.
fn read_header(bytes: &[u8], at: usize) -> (r: Option<(Sizes, usize)>)
    ensures
        match r {
            Some((sizes, start)) => header_fits(bytes@, at as int) && sizes_match(
                bytes@,
                at as int,
                &sizes,
            ) && start == rows_start(bytes@, at as int),
            None => !header_fits(bytes@, at as int),
        },
{
    let len: usize = bytes.len();
    if len < 24 || at > len - 24 {
        return None;
    }
    let flags: u8 = bytes[at + 6];
    let mut rows: Vec<u32> = Vec::new();
    let mut pos: usize = at + 24;
    let mut number: usize = 0;
    while number < 64
        invariant
            number <= 64,
            at + 24 <= len,
            len == bytes@.len(),
            pos == at + 24 + 4 * present_before(bytes@, at as int, number as int),
            pos <= len,
            rows@.len() == if number < TABLE_NUMBERS {
                number
            } else {
                TABLE_NUMBERS
            },
            forall|n: int|
                0 <= n < rows@.len() ==> #[trigger] rows@[n] == row_count_at(bytes@, at as int, n),
            forall|n: int|
                0 <= n < number && #[trigger] present(bytes@, at as int, n) ==> TableKind::of(n)
                    is Some,
        decreases 64 - number,
    {
        let byte: u8 = bytes[at + 8 + number / 8];
        let marked: bool = test_bit(byte, (number % 8) as u8);
        assert(marked == present(bytes@, at as int, number as int));
        if marked {
            if TableKind::from_number(number).is_none() {
                return None;
            }
            match read_le(bytes, pos, 4) {
                Some(count) => {
                    rows.push(count);
                    pos = pos + 4;
                },
                None => {
                    proof {
                        lemma_present_monotone(bytes@, at as int, number as int + 1, 64);
                    }
                    return None;
                },
            }
        } else if number < TABLE_NUMBERS {
            rows.push(0);
        }
        number = number + 1;
    }
    let sizes = Sizes {
        rows,
        wide_strings: test_bit(flags, 0),
        wide_guids: test_bit(flags, 1),
        wide_blobs: test_bit(flags, 2),
    };
    Some((sizes, pos))
}

/// The more table numbers are looked at, the more present tables are
/// counted.
pub proof fn lemma_present_monotone(bytes: Seq<u8>, at: int, a: int, b: int)
    requires
        0 <= a <= b,
    ensures
        0 <= present_before(bytes, at, a) <= present_before(bytes, at, b),
    decreases b,
{
    if a < b {
        lemma_present_monotone(bytes, at, a, b - 1);
    } else if 0 < b {
        lemma_present_monotone(bytes, at, 0, b - 1);
    }
}

impl Database {
    /// Opens a buffer that starts at the metadata root. Fails where the
    /// root, the stream directory or the header of the table stream does
    /// not lie inside the buffer, the directory lists no table stream, the
    /// header marks a table that the format does not have, or a table or a
    /// heap would end outside the buffer.
    pub fn open(bytes: Vec<u8>) -> (r: Result<Database, Error>)
        ensures
            match r {
                Ok(db) => opened(bytes@, &db),
                Err(e) => !openable(bytes@) && e is InvalidData,
            },
    {
        let len: usize = bytes.len();
        let view = bytes.as_slice();
        if len < 20 {
            return Err(invalid_data("buffer is too short for a metadata root"));
        }
        match read_le(view, 0, 4) {
            Some(ROOT_SIGNATURE) => {},
            _ => {
                return Err(invalid_data("buffer does not start with a metadata root"));
            },
        }
        let version: usize = match read_le(view, 12, 4) {
            Some(value) => value as usize,
            None => {
                return Err(invalid_data("buffer is too short for a metadata root"));
            },
        };
        if version > len - 20 {
            return Err(invalid_data("version string lies outside the buffer"));
        }
        let count: u32 = match read_le(view, 18 + version, 2) {
            Some(value) => value,
            None => {
                return Err(invalid_data("stream count lies outside the buffer"));
            },
        };
        let streams = match read_directory(view, 20 + version, count) {
            Some(streams) => streams,
            None => {
                return Err(invalid_data("stream directory lies outside the buffer"));
            },
        };
        let tables = match lookup(&streams, vec![0x23u8, 0x7Eu8].as_slice()) {
            Some(region) => region,
            None => {
                return Err(invalid_data("there is no table stream"));
            },
        };
        let strings = heap(
            &streams,
            vec![0x23u8, 0x53u8, 0x74u8, 0x72u8, 0x69u8, 0x6Eu8, 0x67u8, 0x73u8].as_slice(),
        );
        let blobs = heap(&streams, vec![0x23u8, 0x42u8, 0x6Cu8, 0x6Fu8, 0x62u8].as_slice());
        let guids = heap(&streams, vec![0x23u8, 0x47u8, 0x55u8, 0x49u8, 0x44u8].as_slice());
        let (sizes, start) = match read_header(view, tables.offset) {
            Some(header) => header,
            None => {
                return Err(invalid_data("table stream header is malformed"));
            },
        };
        Database::new(bytes, sizes, start, strings, blobs, guids)
    }
}

} // verus!
