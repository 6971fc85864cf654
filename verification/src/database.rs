//! The database: the bytes of the metadata, the layout of its tables, and
//! the readers and searches over columns.

use crate::bytes::{le_value, read_le};
use crate::error::{invalid_data, Error};
use crate::heap::{blob_at, run_at, string_at};
use crate::layout::{cell_at, laid_out, lemma_cell_inside, table_matches, Sizes, Table};
use crate::schema::{lemma_fixed_columns, TableKind, TABLE_NUMBERS};
use vstd::prelude::*;
use vstd::slice::slice_subrange;

verus! {

/// A run of bytes inside the buffer: one of the heaps.
#[derive(Clone, Copy, Debug)]
pub struct Region {
    pub offset: usize,
    pub len: usize,
}

impl Region {
    /// The region lies inside a buffer of `len` bytes.
    pub open spec fn inside(self, len: int) -> bool {
        self.offset + self.len <= len
    }

    /// The bytes of the region.
    pub open spec fn of(self, bytes: Seq<u8>) -> Seq<u8> {
        bytes.subrange(self.offset as int, self.offset + self.len)
    }
}

/// The decoded metadata. It owns the bytes; every view borrows from it.
pub struct Database {
    bytes: Vec<u8>,
    sizes: Sizes,
    start: usize,
    tables: Vec<Table>,
    strings: Region,
    blobs: Region,
    guids: Region,
}

/// What a buffer and its parameters must satisfy to be a database: the row
/// counts are well-formed, the tables laid out from `start` end inside the
/// buffer, and so do the heaps.
pub open spec fn fits(
    bytes: Seq<u8>,
    sizes: &Sizes,
    start: int,
    strings: Region,
    blobs: Region,
    guids: Region,
) -> bool {
    &&& sizes.wf()
    &&& start + sizes.span_before(TABLE_NUMBERS as int) <= bytes.len()
    &&& strings.inside(bytes.len() as int)
    &&& blobs.inside(bytes.len() as int)
    &&& guids.inside(bytes.len() as int)
}

impl Database {
    /// The bytes that the database owns.
    pub closed spec fn bytes(&self) -> Seq<u8> {
        self.bytes@
    }

    /// The row counts and heap flags.
    pub closed spec fn sizes(&self) -> Sizes {
        self.sizes
    }

    /// Where the first table starts.
    pub closed spec fn start(&self) -> int {
        self.start as int
    }

    /// Where the string heap lies.
    pub closed spec fn strings(&self) -> Region {
        self.strings
    }

    /// Where the blob heap lies.
    pub closed spec fn blobs(&self) -> Region {
        self.blobs
    }

    /// Where the GUID heap lies.
    pub closed spec fn guids(&self) -> Region {
        self.guids
    }

    /// The database is consistent: tables and heaps lie inside the bytes,
    /// and the stored layout is the one that the row counts give.
    #[verifier::type_invariant]
    pub closed spec fn wf(&self) -> bool {
        &&& fits(self.bytes@, &self.sizes, self.start as int, self.strings, self.blobs, self.guids)
        &&& laid_out(&self.sizes, self.start as int, self.tables@, self.bytes@.len() as int)
    }

    /// The row count of a table.
    pub open spec fn rows(&self, kind: TableKind) -> int {
        self.sizes().count(kind)
    }

    /// Whether the table has such a row and such a column.
    pub open spec fn has_cell(&self, kind: TableKind, row: int, column: int) -> bool {
        0 <= row < self.rows(kind) && 0 <= column < kind.schema().len()
    }

    /// The value of a cell: the little-endian word at its place.
    pub open spec fn cell(&self, kind: TableKind, row: int, column: int) -> int {
        le_value(
            self.bytes(),
            cell_at(&self.sizes(), self.start(), kind, row, column),
            self.sizes().column_width(kind.schema()[column]),
        )
    }

    /// The bytes of the string heap.
    pub open spec fn string_heap(&self) -> Seq<u8> {
        self.strings().of(self.bytes())
    }

    /// The bytes of the blob heap.
    pub open spec fn blob_heap(&self) -> Seq<u8> {
        self.blobs().of(self.bytes())
    }

    /// The string that a cell points to, or `None` where there is no such
    /// cell or no string at that offset.
    pub open spec fn text(&self, kind: TableKind, row: int, column: int) -> Option<Seq<char>> {
        if self.has_cell(kind, row, column) {
            string_at(self.string_heap(), self.cell(kind, row, column))
        } else {
            None
        }
    }

    /// The bytes of the string that a cell points to, before they are
    /// decoded, or `None` where there is no such cell or no terminator.
    pub open spec fn run_of(&self, kind: TableKind, row: int, column: int) -> Option<Seq<u8>> {
        if self.has_cell(kind, row, column) {
            run_at(self.string_heap(), self.cell(kind, row, column))
        } else {
            None
        }
    }

    /// The blob that a cell points to, or `None` where there is no such
    /// cell or no blob at that offset.
    pub open spec fn blob_of(&self, kind: TableKind, row: int, column: int) -> Option<Seq<u8>> {
        if self.has_cell(kind, row, column) {
            blob_at(self.blob_heap(), self.cell(kind, row, column))
        } else {
            None
        }
    }

    /// Whether rows `low` to `high` of a column can be searched: the range
    /// lies inside the table and the column exists.
    pub open spec fn searchable(&self, kind: TableKind, low: int, high: int, column: int) -> bool {
        0 <= low <= high <= self.rows(kind) && 0 <= column < kind.schema().len()
    }

    /// The column does not decrease over rows `low` to `high`.
    pub open spec fn sorted(&self, kind: TableKind, low: int, high: int, column: int) -> bool {
        forall|i: int, j: int|
            low <= i <= j < high ==> self.cell(kind, i, column) <= self.cell(kind, j, column)
    }

    /// `row` splits rows `low` to `high`: before it the column is below
    /// `value`, from it on the column is `value` or more.
    pub open spec fn is_lower_bound(
        &self,
        kind: TableKind,
        low: int,
        high: int,
        column: int,
        value: int,
        row: int,
    ) -> bool {
        &&& low <= row <= high
        &&& forall|i: int| low <= i < row ==> self.cell(kind, i, column) < value
        &&& forall|i: int| row <= i < high ==> self.cell(kind, i, column) >= value
    }

    /// `row` is the first row from `low` to `high` whose column exceeds
    /// `value`, or `high` where none does.
    pub open spec fn is_upper_bound(
        &self,
        kind: TableKind,
        low: int,
        high: int,
        column: int,
        value: int,
        row: int,
    ) -> bool {
        &&& low <= row <= high
        &&& forall|i: int| low <= i < row ==> self.cell(kind, i, column) <= value
        &&& forall|i: int| row <= i < high ==> self.cell(kind, i, column) > value
    }

    /// Rows `first` to `last` are all the rows from `low` to `high` whose
    /// column equals `value`.
    pub open spec fn is_equal_range(
        &self,
        kind: TableKind,
        low: int,
        high: int,
        column: int,
        value: int,
        first: int,
        last: int,
    ) -> bool {
        &&& low <= first <= last <= high
        &&& forall|i: int| low <= i < first ==> self.cell(kind, i, column) < value
        &&& forall|i: int| first <= i < last ==> self.cell(kind, i, column) == value
        &&& forall|i: int| last <= i < high ==> self.cell(kind, i, column) > value
    }

    /// Whether a region lies inside a buffer of `len` bytes.
    fn check_region(region: &Region, len: usize) -> (r: bool)
        ensures
            r == region.inside(len as int),
    {
        region.offset <= len && region.len <= len - region.offset
    }

    /// Makes a database of `bytes`, given the row counts, the heap flags,
    /// the offset of the first table and the places of the heaps. Fails
    /// where a table or a heap would end outside the bytes.
    pub fn new(
        bytes: Vec<u8>,
        sizes: Sizes,
        start: usize,
        strings: Region,
        blobs: Region,
        guids: Region,
    ) -> (r: Result<Database, Error>)
        ensures
            match r {
                Ok(db) => {
                    &&& db.wf()
                    &&& db.bytes() == bytes@
                    &&& db.sizes() == sizes
                    &&& db.start() == start
                    &&& db.strings() == strings
                    &&& db.blobs() == blobs
                    &&& db.guids() == guids
                },
                Err(e) => e is InvalidData && !fits(
                    bytes@,
                    &sizes,
                    start as int,
                    strings,
                    blobs,
                    guids,
                ),
            },
    {
        let len: usize = bytes.len();
        if !sizes.check() {
            return Err(invalid_data("row counts are malformed"));
        }
        if !Self::check_region(&strings, len) || !Self::check_region(&blobs, len)
            || !Self::check_region(&guids, len) {
            return Err(invalid_data("heap lies outside the buffer"));
        }
        match sizes.layout(start, len) {
            Some(tables) => Ok(Database { bytes, sizes, start, tables, strings, blobs, guids }),
            None => Err(invalid_data("tables lie outside the buffer")),
        }
    }

    /// The row count of a table.
    pub fn row_count(&self, kind: TableKind) -> (r: u32)
        ensures
            r == self.rows(kind),
    {
        proof {
            use_type_invariant(self);
        }
        self.tables[kind.index()].rows
    }

    /// Reads a cell, zero-extended. Fails where the table has no such row
    /// or no such column.
    pub fn u32(&self, kind: TableKind, row: u32, column: u32) -> (r: Result<u32, Error>)
        ensures
            match r {
                Ok(value) => self.has_cell(kind, row as int, column as int) && value == self.cell(
                    kind,
                    row as int,
                    column as int,
                ),
                Err(e) => !self.has_cell(kind, row as int, column as int) && e is InvalidData,
            },
    {
        proof {
            use_type_invariant(self);
        }
        let len: usize = self.bytes.len();
        let table = &self.tables[kind.index()];
        assert(table_matches(&self.sizes, self.start as int, kind, self.tables@[kind.number()]));
        if row >= table.rows {
            return Err(invalid_data("row is out of range"));
        }
        if column as usize >= table.columns.len() {
            return Err(invalid_data("column is out of range"));
        }
        let span = &table.columns[column as usize];
        proof {
            lemma_cell_inside(&self.sizes, self.start as int, kind, row as int, column as int);
            lemma_fixed_columns(kind, column as int);
            assert(table.data + row * table.row_width + span.offset + span.width <= len);
        }
        let at: usize = table.data + (row as usize) * (table.row_width as usize)
            + span.offset as usize;
        match read_le(self.bytes.as_slice(), at, span.width as usize) {
            Some(value) => Ok(value),
            None => Err(invalid_data("cell lies outside the buffer")),
        }
    }

    /// Reads the string that a cell points to. Fails where the cell does
    /// not exist, the string has no terminator inside the heap, or its
    /// bytes are not UTF-8.
    pub fn str<'a>(&'a self, kind: TableKind, row: u32, column: u32) -> (r: Result<&'a str, Error>)
        ensures
            match r {
                Ok(text) => self.text(kind, row as int, column as int) == Some(text@),
                Err(e) => self.text(kind, row as int, column as int) is None && e is InvalidData,
            },
    {
        proof {
            use_type_invariant(self);
        }
        match self.u32(kind, row, column) {
            Ok(offset) => crate::heap::string(self.string_bytes(), offset as usize),
            Err(e) => Err(e),
        }
    }

    /// Reads the bytes of the string that a cell points to, without
    /// decoding them. Fails where the cell does not exist or the string has
    /// no terminator inside the heap.
    pub fn run<'a>(&'a self, kind: TableKind, row: u32, column: u32) -> (r: Result<&'a [u8], Error>)
        ensures
            match r {
                Ok(found) => self.run_of(kind, row as int, column as int) == Some(found@),
                Err(e) => self.run_of(kind, row as int, column as int) is None && e is InvalidData,
            },
    {
        match self.u32(kind, row, column) {
            Ok(offset) => match crate::heap::run(self.string_bytes(), offset as usize) {
                Some(found) => Ok(found),
                None => Err(invalid_data("string without terminator")),
            },
            Err(e) => Err(e),
        }
    }

    /// Reads the blob that a cell points to. Fails where the cell does not
    /// exist or the blob does not lie inside the heap.
    pub fn blob<'a>(&'a self, kind: TableKind, row: u32, column: u32) -> (r: Result<
        &'a [u8],
        Error,
    >)
        ensures
            match r {
                Ok(found) => self.blob_of(kind, row as int, column as int) == Some(found@),
                Err(e) => self.blob_of(kind, row as int, column as int) is None
                    && e is InvalidData,
            },
    {
        match self.u32(kind, row, column) {
            Ok(offset) => crate::heap::blob(self.blob_bytes(), offset as usize),
            Err(e) => Err(e),
        }
    }

    /// The string heap.
    pub fn string_bytes<'a>(&'a self) -> (r: &'a [u8])
        ensures
            r@ == self.string_heap(),
    {
        proof {
            use_type_invariant(self);
        }
        let len: usize = self.bytes.len();
        slice_subrange(
            self.bytes.as_slice(),
            self.strings.offset,
            self.strings.offset + self.strings.len,
        )
    }

    /// The blob heap.
    pub fn blob_bytes<'a>(&'a self) -> (r: &'a [u8])
        ensures
            r@ == self.blob_heap(),
    {
        proof {
            use_type_invariant(self);
        }
        let len: usize = self.bytes.len();
        slice_subrange(self.bytes.as_slice(), self.blobs.offset, self.blobs.offset + self.blobs.len)
    }

    /// Whether rows `low` to `high` of a column can be searched.
    fn check_search(&self, kind: TableKind, low: u32, high: u32, column: u32) -> (r: bool)
        ensures
            r == self.searchable(kind, low as int, high as int, column as int),
    {
        proof {
            use_type_invariant(self);
        }
        let table = &self.tables[kind.index()];
        low <= high && high <= table.rows && (column as usize) < table.columns.len()
    }

    /// Binary search for the first row from `low` to `high` whose column
    /// is `value` or more. Fails where the range or the column lies outside
    /// the table. Where the column is not sorted over the range, the result
    /// is some row of the range or `high`.
    pub fn lower_bound(&self, kind: TableKind, low: u32, high: u32, column: u32, value: u32) -> (r:
        Result<u32, Error>)
        ensures
            match r {
                Ok(row) => {
                    &&& self.searchable(kind, low as int, high as int, column as int)
                    &&& low <= row <= high
                    &&& self.sorted(kind, low as int, high as int, column as int)
                        ==> self.is_lower_bound(
                        kind,
                        low as int,
                        high as int,
                        column as int,
                        value as int,
                        row as int,
                    )
                },
                Err(e) => !self.searchable(kind, low as int, high as int, column as int)
                    && e is InvalidData,
            },
    {
        if !self.check_search(kind, low, high, column) {
            return Err(invalid_data("search range is out of range"));
        }
        let mut lo: u32 = low;
        let mut hi: u32 = high;
        while lo < hi
            invariant
                self.searchable(kind, low as int, high as int, column as int),
                low <= lo <= hi <= high,
                self.sorted(kind, low as int, high as int, column as int) ==> {
                    &&& forall|i: int| low <= i < lo ==> self.cell(kind, i, column as int) < value
                    &&& forall|i: int| hi <= i < high ==> self.cell(kind, i, column as int) >= value
                },
            decreases hi - lo,
        {
            let mid: u32 = lo + (hi - lo) / 2;
            match self.u32(kind, mid, column) {
                Ok(found) => {
                    if found < value {
                        lo = mid + 1;
                    } else {
                        hi = mid;
                    }
                },
                Err(e) => {
                    return Err(e);
                },
            }
        }
        Ok(lo)
    }

    /// Binary search for the first row from `low` to `high` whose column
    /// exceeds `value`; `high` where none does. Fails where the range or
    /// the column lies outside the table. Where the column is not sorted
    /// over the range, the result is some row of the range or `high`.
    pub fn upper_bound(&self, kind: TableKind, low: u32, high: u32, column: u32, value: u32) -> (r:
        Result<u32, Error>)
        ensures
            match r {
                Ok(row) => {
                    &&& self.searchable(kind, low as int, high as int, column as int)
                    &&& low <= row <= high
                    &&& self.sorted(kind, low as int, high as int, column as int)
                        ==> self.is_upper_bound(
                        kind,
                        low as int,
                        high as int,
                        column as int,
                        value as int,
                        row as int,
                    )
                },
                Err(e) => !self.searchable(kind, low as int, high as int, column as int)
                    && e is InvalidData,
            },
    {
        if !self.check_search(kind, low, high, column) {
            return Err(invalid_data("search range is out of range"));
        }
        let mut lo: u32 = low;
        let mut hi: u32 = high;
        while lo < hi
            invariant
                self.searchable(kind, low as int, high as int, column as int),
                low <= lo <= hi <= high,
                self.sorted(kind, low as int, high as int, column as int) ==> {
                    &&& forall|i: int| low <= i < lo ==> self.cell(kind, i, column as int) <= value
                    &&& forall|i: int| hi <= i < high ==> self.cell(kind, i, column as int) > value
                },
            decreases hi - lo,
        {
            let mid: u32 = lo + (hi - lo) / 2;
            match self.u32(kind, mid, column) {
                Ok(found) => {
                    if found <= value {
                        lo = mid + 1;
                    } else {
                        hi = mid;
                    }
                },
                Err(e) => {
                    return Err(e);
                },
            }
        }
        Ok(lo)
    }

    /// Binary search for the rows from `low` to `high` whose column equals
    /// `value`. Fails where the range or the column lies outside the table.
    /// Where the column is not sorted over the range, the result is some
    /// range inside it.
    pub fn equal_range(&self, kind: TableKind, low: u32, high: u32, column: u32, value: u32) -> (r:
        Result<(u32, u32), Error>)
        ensures
            match r {
                Ok((first, last)) => {
                    &&& self.searchable(kind, low as int, high as int, column as int)
                    &&& low <= first <= last <= high
                    &&& self.sorted(kind, low as int, high as int, column as int)
                        ==> self.is_equal_range(
                        kind,
                        low as int,
                        high as int,
                        column as int,
                        value as int,
                        first as int,
                        last as int,
                    )
                },
                Err(e) => !self.searchable(kind, low as int, high as int, column as int)
                    && e is InvalidData,
            },
    {
        let first: u32 = match self.lower_bound(kind, low, high, column, value) {
            Ok(row) => row,
            Err(e) => {
                return Err(e);
            },
        };
        match self.upper_bound(kind, first, high, column, value) {
            Ok(last) => Ok((first, last)),
            Err(e) => Err(e),
        }
    }
}

} // verus!
