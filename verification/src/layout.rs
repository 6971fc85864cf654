//! Where every table, row and column lies. The widths of index columns
//! follow from the row counts and the heap flags; rows are packed without
//! gaps, and tables follow one another in the order of their numbers.

use crate::codes::holds;
use crate::schema::{
    lemma_fixed_columns, lemma_table_numbers, CodedIndex, Column, TableKind, TABLE_NUMBERS,
};
use vstd::prelude::*;

verus! {

/// What decides the layout: the row count of each table, by table number,
/// and whether the heaps need four-byte offsets.
pub struct Sizes {
    pub rows: Vec<u32>,
    pub wide_strings: bool,
    pub wide_guids: bool,
    pub wide_blobs: bool,
}

/// Where a column lies inside its row.
pub struct Span {
    pub offset: u32,
    pub width: u32,
}

/// Where a table lies: its first byte, its row count and its row width.
pub struct Table {
    pub rows: u32,
    pub row_width: u32,
    pub data: usize,
    pub columns: Vec<Span>,
}

impl Sizes {
    /// There is one count for each table number, and numbers that name no
    /// table have none.
    pub open spec fn wf(&self) -> bool {
        &&& self.rows@.len() == TABLE_NUMBERS
        &&& forall|number: int|
            0 <= number < TABLE_NUMBERS && TableKind::of(number) is None
                ==> #[trigger] self.rows@[number] == 0
    }

    /// The row count of a table.
    pub open spec fn count(&self, kind: TableKind) -> int {
        self.rows@[kind.number()] as int
    }

    /// Whether two bytes are enough for a coded index of this kind: every
    /// candidate table has fewer rows than the tag leaves room for.
    pub open spec fn coded_small(&self, kind: CodedIndex) -> bool {
        forall|tag: int, table: TableKind| #[trigger]
            holds(kind, tag, table) ==> self.count(table) < kind.small_limit()
    }

    /// The width of a column in bytes.
    pub open spec fn column_width(&self, column: Column) -> int {
        match column {
            Column::Fixed(width) => width as int,
            Column::Strings => if self.wide_strings {
                4
            } else {
                2
            },
            Column::Guids => if self.wide_guids {
                4
            } else {
                2
            },
            Column::Blobs => if self.wide_blobs {
                4
            } else {
                2
            },
            Column::Row(table) => if self.count(table) > 65535 {
                4
            } else {
                2
            },
            Column::Coded(kind) => if self.coded_small(kind) {
                2
            } else {
                4
            },
        }
    }

    /// The offset of column `column` from the start of a row of `kind`: the
    /// widths of the columns before it, added up.
    pub open spec fn offset(&self, kind: TableKind, column: int) -> int
        decreases column,
    {
        if column <= 0 {
            0
        } else {
            self.offset(kind, column - 1) + self.column_width(kind.schema()[column - 1])
        }
    }

    /// The width of a row of `kind`.
    pub open spec fn row_width(&self, kind: TableKind) -> int {
        self.offset(kind, kind.schema().len() as int)
    }

    /// How many bytes the table with the given number takes.
    pub open spec fn table_bytes(&self, number: int) -> int {
        match TableKind::of(number) {
            Some(kind) => self.count(kind) * self.row_width(kind),
            None => 0,
        }
    }

    /// How many bytes the tables with a smaller number take together.
    pub open spec fn span_before(&self, number: int) -> int
        decreases number,
    {
        if number <= 0 {
            0
        } else {
            self.span_before(number - 1) + self.table_bytes(number - 1)
        }
    }

    /// Whether there is one count for each table number, and none for the
    /// numbers that name no table.
    pub fn check(&self) -> (r: bool)
        ensures
            r == self.wf(),
    {
        if self.rows.len() != TABLE_NUMBERS {
            return false;
        }
        let mut number: usize = 0;
        while number < TABLE_NUMBERS
            invariant
                number <= TABLE_NUMBERS,
                self.rows@.len() == TABLE_NUMBERS,
                forall|n: int|
                    0 <= n < number && TableKind::of(n) is None ==> #[trigger] self.rows@[n] == 0,
            decreases TABLE_NUMBERS - number,
        {
            if TableKind::from_number(number).is_none() && self.rows[number] != 0 {
                return false;
            }
            number = number + 1;
        }
        true
    }

    /// The width of a coded index of the given kind.
    pub fn coded_width(&self, kind: CodedIndex) -> (r: u32)
        requires
            self.wf(),
        ensures
            r == self.column_width(Column::Coded(kind)),
    {
        let tables = kind.tables();
        let limit: u32 = kind.limit();
        let mut tag: usize = 0;
        while tag < tables.len()
            invariant
                self.wf(),
                tag <= tables.len(),
                tables@ == kind.candidates(),
                limit == kind.small_limit(),
                forall|t: int, table: TableKind|
                    0 <= t < tag && #[trigger] holds(kind, t, table) ==> self.count(table) < limit,
            decreases tables.len() - tag,
        {
            if let Some(table) = tables[tag] {
                if self.rows[table.index()] >= limit {
                    assert(holds(kind, tag as int, table));
                    return 4;
                }
            }
            tag = tag + 1;
        }
        2
    }

    /// The width of a column.
    pub fn width_of(&self, column: Column) -> (r: u32)
        requires
            self.wf(),
        ensures
            r == self.column_width(column),
            r <= 255,
    {
        match column {
            Column::Fixed(width) => width as u32,
            Column::Strings => if self.wide_strings {
                4
            } else {
                2
            },
            Column::Guids => if self.wide_guids {
                4
            } else {
                2
            },
            Column::Blobs => if self.wide_blobs {
                4
            } else {
                2
            },
            Column::Row(table) => if self.rows[table.index()] > 65535 {
                4
            } else {
                2
            },
            Column::Coded(kind) => self.coded_width(kind),
        }
    }

    /// The columns of a row of `kind`, and the width of the row.
    pub fn spans(&self, kind: TableKind) -> (r: (Vec<Span>, u32))
        requires
            self.wf(),
        ensures
            spans_match(self, kind, r.0@),
            r.1 == self.row_width(kind),
            r.1 <= 2295,
    {
        let columns = kind.columns();
        proof {
            lemma_fixed_columns(kind, 0);
        }
        let mut spans: Vec<Span> = Vec::new();
        let mut offset: u32 = 0;
        let mut c: usize = 0;
        while c < columns.len()
            invariant
                self.wf(),
                columns@ == kind.schema(),
                columns.len() <= 9,
                c <= columns.len(),
                spans@.len() == c,
                offset == self.offset(kind, c as int),
                offset <= 255 * c,
                forall|i: int|
                    0 <= i < c ==> (#[trigger] spans@[i]).offset == self.offset(kind, i)
                        && spans@[i].width == self.column_width(kind.schema()[i]),
            decreases columns.len() - c,
        {
            let width: u32 = self.width_of(columns[c]);
            spans.push(Span { offset, width });
            offset = offset + width;
            c = c + 1;
        }
        (spans, offset)
    }

    /// Lays the tables out from `start`, one after the other, inside a
    /// buffer of `len` bytes. `None` where they do not fit.
    pub fn layout(&self, start: usize, len: usize) -> (r: Option<Vec<Table>>)
        requires
            self.wf(),
        ensures
            match r {
                Some(tables) => laid_out(self, start as int, tables@, len as int),
                None => start + self.span_before(TABLE_NUMBERS as int) > len,
            },
    {
        proof {
            lemma_span_monotone(self, 0, TABLE_NUMBERS as int);
        }
        if start > len {
            return None;
        }
        let mut tables: Vec<Table> = Vec::new();
        let mut pos: usize = start;
        let mut number: usize = 0;
        while number < TABLE_NUMBERS
            invariant
                self.wf(),
                number <= TABLE_NUMBERS,
                tables@.len() == number,
                start <= pos <= len,
                pos == start + self.span_before(number as int),
                forall|kind: TableKind|
                    kind.number() < number ==> table_matches(
                        self,
                        start as int,
                        kind,
                        #[trigger] tables@[kind.number()],
                    ),
            decreases TABLE_NUMBERS - number,
        {
            let ghost before = tables@;
            match TableKind::from_number(number) {
                Some(kind) => {
                    let (columns, row_width) = self.spans(kind);
                    let rows: u32 = self.rows[number];
                    assert(rows as int * row_width as int <= 0xFFFF_FFFF * 2295) by (
                        nonlinear_arith
                    )
                        requires
                            0 <= rows <= 0xFFFF_FFFF,
                            0 <= row_width <= 2295,
                    ;
                    let bytes: u64 = rows as u64 * row_width as u64;
                    if bytes > (len - pos) as u64 {
                        proof {
                            lemma_span_monotone(self, number as int + 1, TABLE_NUMBERS as int);
                        }
                        return None;
                    }
                    tables.push(Table { rows, row_width, data: pos, columns });
                    pos = pos + bytes as usize;
                },
                None => {
                    tables.push(Table { rows: 0, row_width: 0, data: pos, columns: Vec::new() });
                },
            }
            assert forall|kind: TableKind| kind.number() < number + 1 implies table_matches(
                self,
                start as int,
                kind,
                #[trigger] tables@[kind.number()],
            ) by {
                lemma_table_numbers(kind);
                if kind.number() < number {
                    assert(tables@[kind.number()] == before[kind.number()]);
                }
            }
            number = number + 1;
        }
        assert forall|kind: TableKind|
            table_matches(self, start as int, kind, #[trigger] tables@[kind.number()]) by {
            lemma_table_numbers(kind);
        }
        Some(tables)
    }
}

/// `spans` are the columns of a row of `kind`.
pub open spec fn spans_match(sizes: &Sizes, kind: TableKind, spans: Seq<Span>) -> bool {
    &&& spans.len() == kind.schema().len()
    &&& forall|c: int|
        0 <= c < spans.len() ==> (#[trigger] spans[c]).offset == sizes.offset(kind, c)
            && spans[c].width == sizes.column_width(kind.schema()[c])
}

/// `table` is where the layout puts the table `kind`.
pub open spec fn table_matches(sizes: &Sizes, start: int, kind: TableKind, table: Table) -> bool {
    &&& table.rows == sizes.count(kind)
    &&& table.row_width == sizes.row_width(kind)
    &&& table.data == start + sizes.span_before(kind.number())
    &&& spans_match(sizes, kind, table.columns@)
}

/// `tables` is the layout of all tables from `start`, and it ends inside a
/// buffer of `len` bytes.
pub open spec fn laid_out(sizes: &Sizes, start: int, tables: Seq<Table>, len: int) -> bool {
    &&& tables.len() == TABLE_NUMBERS
    &&& forall|kind: TableKind|
        table_matches(sizes, start, kind, #[trigger] tables[kind.number()])
    &&& 0 <= start
    &&& start + sizes.span_before(TABLE_NUMBERS as int) <= len
}

/// A column is never wider than a byte can say, and never empty of bytes
/// below zero.
pub proof fn lemma_width_bounds(sizes: &Sizes, column: Column)
    ensures
        0 <= sizes.column_width(column) <= 255,
{
}

/// Columns lie one after the other: a later column starts where the one
/// before it ends, or further on.
pub proof fn lemma_offset_monotone(sizes: &Sizes, kind: TableKind, a: int, b: int)
    requires
        0 <= a <= b,
    ensures
        0 <= sizes.offset(kind, a) <= sizes.offset(kind, b),
    decreases b,
{
    if a < b {
        lemma_offset_monotone(sizes, kind, a, b - 1);
        lemma_width_bounds(sizes, kind.schema()[b - 1]);
    } else if 0 < b {
        lemma_offset_monotone(sizes, kind, 0, b - 1);
        lemma_width_bounds(sizes, kind.schema()[b - 1]);
    }
}

/// No table takes a negative number of bytes.
pub proof fn lemma_table_bytes_nonnegative(sizes: &Sizes, number: int)
    ensures
        0 <= sizes.table_bytes(number),
{
    if let Some(kind) = TableKind::of(number) {
        lemma_offset_monotone(sizes, kind, 0, kind.schema().len() as int);
        let count = sizes.count(kind);
        let width = sizes.row_width(kind);
        assert(0 <= count * width) by (nonlinear_arith)
            requires
                0 <= count,
                0 <= width,
        ;
    }
}

/// Tables lie one after the other in the order of their numbers.
pub proof fn lemma_span_monotone(sizes: &Sizes, a: int, b: int)
    requires
        0 <= a <= b,
    ensures
        0 <= sizes.span_before(a) <= sizes.span_before(b),
    decreases b,
{
    if a < b {
        lemma_span_monotone(sizes, a, b - 1);
        lemma_table_bytes_nonnegative(sizes, b - 1);
    } else if 0 < b {
        lemma_span_monotone(sizes, 0, b - 1);
        lemma_table_bytes_nonnegative(sizes, b - 1);
    }
}

/// Where the cell of row `row` and column `column` of `kind` starts, given
/// that the tables start at `start`.
pub open spec fn cell_at(sizes: &Sizes, start: int, kind: TableKind, row: int, column: int) -> int {
    start + sizes.span_before(kind.number()) + row * sizes.row_width(kind) + sizes.offset(
        kind,
        column,
    )
}

/// Every cell of every row lies inside its table, and every table inside
/// the bytes that the layout ends in.
pub proof fn lemma_cell_inside(sizes: &Sizes, start: int, kind: TableKind, row: int, column: int)
    requires
        0 <= start,
        0 <= row < sizes.count(kind),
        0 <= column < kind.schema().len(),
    ensures
        start <= cell_at(sizes, start, kind, row, column),
        0 <= row * sizes.row_width(kind) <= sizes.count(kind) * sizes.row_width(kind),
        cell_at(sizes, start, kind, row, column) + sizes.column_width(kind.schema()[column])
            <= start + sizes.span_before(TABLE_NUMBERS as int),
{
    let width = sizes.row_width(kind);
    let count = sizes.count(kind);
    let number = kind.number();
    lemma_table_numbers(kind);
    lemma_offset_monotone(sizes, kind, column + 1, kind.schema().len() as int);
    lemma_offset_monotone(sizes, kind, 0, column);
    lemma_span_monotone(sizes, 0, number);
    lemma_span_monotone(sizes, number + 1, TABLE_NUMBERS as int);
    assert(0 <= row * width && row * width + width <= count * width) by (nonlinear_arith)
        requires
            0 <= row < count,
            0 <= width,
    ;
}

} // verus!
