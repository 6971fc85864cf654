//! Row views: a range of rows of one table, borrowed from the database.
//! A view of one row stands for that row; a longer view is a list, such as
//! the methods that a type owns.

use crate::database::Database;
use crate::error::{invalid_data, Error};
use crate::schema::TableKind;
use vstd::prelude::*;

verus! {

/// Rows `start` to `end` of one table. A view never reaches past the end
/// of its table.
#[derive(Clone, Copy)]
pub struct Rows<'a> {
    db: &'a Database,
    table: TableKind,
    first: u32,
    last: u32,
}

/// What a read of a cell gives, held against what the database holds.
pub open spec fn is_value(r: Result<u32, Error>, expected: Option<int>) -> bool {
    match r {
        Ok(value) => expected == Some(value as int),
        Err(e) => expected is None && e is InvalidData,
    }
}

/// What a read of a string gives, held against what the database holds.
pub open spec fn is_text(r: Result<&str, Error>, expected: Option<Seq<char>>) -> bool {
    match r {
        Ok(text) => expected == Some(text@),
        Err(e) => expected is None && e is InvalidData,
    }
}

/// What a read of a blob gives, held against what the database holds.
pub open spec fn is_blob(r: Result<&[u8], Error>, expected: Option<Seq<u8>>) -> bool {
    match r {
        Ok(found) => expected == Some(found@),
        Err(e) => expected is None && e is InvalidData,
    }
}

/// What making a view gives, held against the range that was asked for.
pub open spec fn is_rows(
    r: Result<Rows, Error>,
    db: &Database,
    table: TableKind,
    expected: Option<(int, int)>,
) -> bool {
    match r {
        Ok(rows) => expected == Some((rows.start(), rows.end())) && rows.database() == db
            && rows.kind() == table && rows.wf(),
        Err(e) => expected is None && e is InvalidData,
    }
}

impl Database {
    /// The value of a cell, or `None` where there is no such cell.
    pub open spec fn value(&self, kind: TableKind, row: int, column: int) -> Option<int> {
        if self.has_cell(kind, row, column) {
            Some(self.cell(kind, row, column))
        } else {
            None
        }
    }

    /// The rows of `child` that row `row` of `kind` owns by its list column
    /// `column`: from the row that the column names to the row that the
    /// next row's column names, or to the end of `child` for the last row.
    /// `None` where there is no such cell or the range is not inside
    /// `child`.
    pub open spec fn list_of(&self, kind: TableKind, row: int, column: int, child: TableKind)
        -> Option<(int, int)> {
        if !self.has_cell(kind, row, column) {
            None
        } else {
            let first = self.cell(kind, row, column) - 1;
            let last = if row + 1 < self.rows(kind) {
                self.cell(kind, row + 1, column) - 1
            } else {
                self.rows(child)
            };
            if 0 <= first <= last <= self.rows(child) {
                Some((first, last))
            } else {
                None
            }
        }
    }

    /// All rows of a table.
    pub fn table<'a>(&'a self, kind: TableKind) -> (r: Rows<'a>)
        ensures
            r.wf(),
            r.database() == self,
            r.kind() == kind,
            r.start() == 0,
            r.end() == self.rows(kind),
    {
        Rows { db: self, table: kind, first: 0, last: self.row_count(kind) }
    }
}

impl<'a> Rows<'a> {
    /// The database that the view borrows.
    pub closed spec fn database(&self) -> &'a Database {
        self.db
    }

    /// The table that the rows belong to.
    pub closed spec fn kind(&self) -> TableKind {
        self.table
    }

    /// The first row of the view.
    pub closed spec fn start(&self) -> int {
        self.first as int
    }

    /// The row after the last row of the view.
    pub closed spec fn end(&self) -> int {
        self.last as int
    }

    /// The view lies inside its table.
    #[verifier::type_invariant]
    pub open spec fn wf(&self) -> bool {
        0 <= self.start() <= self.end() <= self.database().rows(self.kind())
    }

    /// The view is row `row` of `table` in `db`, and nothing more.
    pub open spec fn is_row(&self, db: &Database, table: TableKind, row: int) -> bool {
        &&& self.database() == db
        &&& self.kind() == table
        &&& self.start() == row
        &&& self.end() == row + 1
        &&& self.wf()
    }

    /// Row `index` of `table`. Fails where the table has no such row.
    pub fn new(db: &'a Database, table: TableKind, index: u32) -> (r: Result<Rows<'a>, Error>)
        ensures
            is_rows(
                r,
                db,
                table,
                if index < db.rows(table) {
                    Some((index as int, index + 1))
                } else {
                    None
                },
            ),
    {
        if index < db.row_count(table) {
            Ok(Rows { db, table, first: index, last: index + 1 })
        } else {
            Err(invalid_data("row is out of range"))
        }
    }

    /// Rows `first` to `last` of `table`. Fails where that is no range of
    /// rows of the table.
    pub fn range(db: &'a Database, table: TableKind, first: u32, last: u32) -> (r: Result<
        Rows<'a>,
        Error,
    >)
        ensures
            is_rows(
                r,
                db,
                table,
                if first <= last <= db.rows(table) {
                    Some((first as int, last as int))
                } else {
                    None
                },
            ),
    {
        if first <= last && last <= db.row_count(table) {
            Ok(Rows { db, table, first, last })
        } else {
            Err(invalid_data("rows are out of range"))
        }
    }

    /// The rows of `table` from `first` to the end of the table. Fails
    /// where `first` lies past the end.
    pub fn rest(db: &'a Database, table: TableKind, first: u32) -> (r: Result<Rows<'a>, Error>)
        ensures
            is_rows(
                r,
                db,
                table,
                if first <= db.rows(table) {
                    Some((first as int, db.rows(table)))
                } else {
                    None
                },
            ),
    {
        let last: u32 = db.row_count(table);
        if first <= last {
            Ok(Rows { db, table, first, last })
        } else {
            Err(invalid_data("rows are out of range"))
        }
    }

    /// The database that the view borrows.
    pub fn db(&self) -> (r: &'a Database)
        ensures
            r == self.database(),
    {
        self.db
    }

    /// The table that the rows belong to.
    pub fn table(&self) -> (r: TableKind)
        ensures
            r == self.kind(),
    {
        self.table
    }

    /// The first row of the view.
    pub fn first(&self) -> (r: u32)
        ensures
            r == self.start(),
            self.wf(),
    {
        proof {
            use_type_invariant(self);
        }
        self.first
    }

    /// The row after the last row of the view.
    pub fn last(&self) -> (r: u32)
        ensures
            r == self.end(),
            self.wf(),
    {
        proof {
            use_type_invariant(self);
        }
        self.last
    }

    /// How many rows the view holds.
    pub fn len(&self) -> (r: u32)
        ensures
            r == self.end() - self.start(),
    {
        proof {
            use_type_invariant(self);
        }
        self.last - self.first
    }

    /// Steps forward: gives the first row as a view of its own and drops it
    /// from this view, or gives `None` where the view is empty.
    pub fn next(&mut self) -> (r: Option<Rows<'a>>)
        ensures
            final(self).database() == old(self).database(),
            final(self).kind() == old(self).kind(),
            final(self).end() == old(self).end(),
            final(self).wf(),
            match r {
                Some(row) => {
                    &&& old(self).start() < old(self).end()
                    &&& row.is_row(old(self).database(), old(self).kind(), old(self).start())
                    &&& final(self).start() == old(self).start() + 1
                },
                None => old(self).start() == old(self).end() && final(self).start() == old(
                    self,
                ).start(),
            },
    {
        proof {
            use_type_invariant(&*self);
        }
        if self.first >= self.last {
            return None;
        }
        let row = Rows { db: self.db, table: self.table, first: self.first, last: self.first + 1 };
        self.first = self.first + 1;
        Some(row)
    }

    /// Reads a column of the first row.
    pub fn u32(&self, column: u32) -> (r: Result<u32, Error>)
        ensures
            is_value(r, self.database().value(self.kind(), self.start(), column as int)),
    {
        self.db.u32(self.table, self.first, column)
    }

    /// Reads the string that a column of the first row points to.
    pub fn str(&self, column: u32) -> (r: Result<&'a str, Error>)
        ensures
            is_text(r, self.database().text(self.kind(), self.start(), column as int)),
    {
        self.db.str(self.table, self.first, column)
    }

    /// Reads the blob that a column of the first row points to.
    pub fn blob(&self, column: u32) -> (r: Result<&'a [u8], Error>)
        ensures
            is_blob(r, self.database().blob_of(self.kind(), self.start(), column as int)),
    {
        self.db.blob(self.table, self.first, column)
    }

    /// The rows of `child` that the first row owns by its list column
    /// `column`. Fails where the column cannot be read or names rows that
    /// `child` does not have.
    pub fn list(&self, column: u32, child: TableKind) -> (r: Result<Rows<'a>, Error>)
        ensures
            is_rows(
                r,
                self.database(),
                child,
                self.database().list_of(self.kind(), self.start(), column as int, child),
            ),
    {
        let start: u32 = match self.db.u32(self.table, self.first, column) {
            Ok(value) => value,
            Err(e) => {
                return Err(e);
            },
        };
        if start == 0 {
            return Err(invalid_data("list starts at no row"));
        }
        if self.first + 1 < self.db.row_count(self.table) {
            match self.db.u32(self.table, self.first + 1, column) {
                Ok(end) => {
                    if end == 0 {
                        return Err(invalid_data("list ends at no row"));
                    }
                    Rows::range(self.db, child, start - 1, end - 1)
                },
                Err(e) => Err(e),
            }
        } else {
            Rows::rest(self.db, child, start - 1)
        }
    }
}

} // verus!
