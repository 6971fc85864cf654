//! The typed views: a row view whose table is fixed by its type. Each one
//! wraps a [`Rows`] of its table; the columns of each are read in
//! `tables`.

use crate::database::Database;
use crate::error::Error;
use crate::rows::{is_rows, Rows};
use crate::schema::TableKind;
use vstd::prelude::*;

verus! {

/// What making a typed view gives, held against the range that was asked
/// for.
pub open spec fn is_view<'a, T: View<V = Rows<'a>>>(
    r: Result<T, Error>,
    db: &Database,
    table: TableKind,
    expected: Option<(int, int)>,
) -> bool {
    match r {
        Ok(view) => is_rows(Ok(view@), db, table, expected),
        Err(e) => expected is None && e is InvalidData,
    }
}

/// A reference to a type that is defined elsewhere.
#[derive(Clone, Copy)]
pub struct TypeRef<'a> {
    rows: Rows<'a>,
}

impl<'a> View for TypeRef<'a> {
    type V = Rows<'a>;

    closed spec fn view(&self) -> Rows<'a> {
        self.rows
    }
}

impl<'a> TypeRef<'a> {
    /// The rows are rows of the `TypeRef` table, and lie inside it.
    #[verifier::type_invariant]
    pub open spec fn wf(&self) -> bool {
        self@.kind() == TableKind::TypeRef && self@.wf()
    }

    /// Row `index` of the table. Fails where the table has no such row.
    pub fn new(db: &'a Database, index: u32) -> (r: Result<TypeRef<'a>, Error>)
        ensures
            is_view(
                r,
                db,
                TableKind::TypeRef,
                if index < db.rows(TableKind::TypeRef) {
                    Some((index as int, index + 1))
                } else {
                    None
                },
            ),
    {
        match Rows::new(db, TableKind::TypeRef, index) {
            Ok(rows) => Ok(TypeRef { rows }),
            Err(e) => Err(e),
        }
    }

    /// Rows `first` to `last` of the table. Fails where that is no range
    /// of its rows.
    pub fn range(db: &'a Database, first: u32, last: u32) -> (r: Result<TypeRef<'a>, Error>)
        ensures
            is_view(
                r,
                db,
                TableKind::TypeRef,
                if first <= last <= db.rows(TableKind::TypeRef) {
                    Some((first as int, last as int))
                } else {
                    None
                },
            ),
    {
        match Rows::range(db, TableKind::TypeRef, first, last) {
            Ok(rows) => Ok(TypeRef { rows }),
            Err(e) => Err(e),
        }
    }

    /// The rows from `first` to the end of the table. Fails where `first`
    /// lies past the end.
    pub fn rest(db: &'a Database, first: u32) -> (r: Result<TypeRef<'a>, Error>)
        ensures
            is_view(
                r,
                db,
                TableKind::TypeRef,
                if first <= db.rows(TableKind::TypeRef) {
                    Some((first as int, db.rows(TableKind::TypeRef)))
                } else {
                    None
                },
            ),
    {
        match Rows::rest(db, TableKind::TypeRef, first) {
            Ok(rows) => Ok(TypeRef { rows }),
            Err(e) => Err(e),
        }
    }

    /// The typed view of `rows`, where they are rows of this table.
    pub fn from_rows(rows: Rows<'a>) -> (r: Option<TypeRef<'a>>)
        ensures
            match r {
                Some(view) => view@ == rows && rows.kind() == TableKind::TypeRef,
                None => rows.kind() != TableKind::TypeRef,
            },
    {
        proof {
            use_type_invariant(&rows);
        }
        match rows.table() {
            TableKind::TypeRef => Some(TypeRef { rows }),
            _ => None,
        }
    }

    /// The rows of the view.
    pub fn rows(&self) -> (r: Rows<'a>)
        ensures
            r == self@,
            self.wf(),
    {
        proof {
            use_type_invariant(self);
        }
        self.rows
    }

    /// Steps forward: gives the first row as a view of its own and drops
    /// it from this view, or gives `None` where the view is empty.
    pub fn next(&mut self) -> (r: Option<TypeRef<'a>>)
        ensures
            final(self)@.database() == old(self)@.database(),
            final(self)@.end() == old(self)@.end(),
            final(self).wf(),
            match r {
                Some(row) => {
                    &&& old(self)@.start() < old(self)@.end()
                    &&& row@.is_row(old(self)@.database(), TableKind::TypeRef, old(self)@.start())
                    &&& final(self)@.start() == old(self)@.start() + 1
                },
                None => old(self)@.start() == old(self)@.end() && final(self)@.start() == old(
                    self,
                )@.start(),
            },
    {
        proof {
            use_type_invariant(&*self);
        }
        let mut rows = self.rows;
        let row = rows.next();
        self.rows = rows;
        match row {
            Some(row) => Some(TypeRef { rows: row }),
            None => None,
        }
    }
}

/// A type that the file defines.
#[derive(Clone, Copy)]
pub struct TypeDef<'a> {
    rows: Rows<'a>,
}

impl<'a> View for TypeDef<'a> {
    type V = Rows<'a>;

    closed spec fn view(&self) -> Rows<'a> {
        self.rows
    }
}

impl<'a> TypeDef<'a> {
    /// The rows are rows of the `TypeDef` table, and lie inside it.
    #[verifier::type_invariant]
    pub open spec fn wf(&self) -> bool {
        self@.kind() == TableKind::TypeDef && self@.wf()
    }

    /// Row `index` of the table. Fails where the table has no such row.
    pub fn new(db: &'a Database, index: u32) -> (r: Result<TypeDef<'a>, Error>)
        ensures
            is_view(
                r,
                db,
                TableKind::TypeDef,
                if index < db.rows(TableKind::TypeDef) {
                    Some((index as int, index + 1))
                } else {
                    None
                },
            ),
    {
        match Rows::new(db, TableKind::TypeDef, index) {
            Ok(rows) => Ok(TypeDef { rows }),
            Err(e) => Err(e),
        }
    }

    /// Rows `first` to `last` of the table. Fails where that is no range
    /// of its rows.
    pub fn range(db: &'a Database, first: u32, last: u32) -> (r: Result<TypeDef<'a>, Error>)
        ensures
            is_view(
                r,
                db,
                TableKind::TypeDef,
                if first <= last <= db.rows(TableKind::TypeDef) {
                    Some((first as int, last as int))
                } else {
                    None
                },
            ),
    {
        match Rows::range(db, TableKind::TypeDef, first, last) {
            Ok(rows) => Ok(TypeDef { rows }),
            Err(e) => Err(e),
        }
    }

    /// The rows from `first` to the end of the table. Fails where `first`
    /// lies past the end.
    pub fn rest(db: &'a Database, first: u32) -> (r: Result<TypeDef<'a>, Error>)
        ensures
            is_view(
                r,
                db,
                TableKind::TypeDef,
                if first <= db.rows(TableKind::TypeDef) {
                    Some((first as int, db.rows(TableKind::TypeDef)))
                } else {
                    None
                },
            ),
    {
        match Rows::rest(db, TableKind::TypeDef, first) {
            Ok(rows) => Ok(TypeDef { rows }),
            Err(e) => Err(e),
        }
    }

    /// The typed view of `rows`, where they are rows of this table.
    pub fn from_rows(rows: Rows<'a>) -> (r: Option<TypeDef<'a>>)
        ensures
            match r {
                Some(view) => view@ == rows && rows.kind() == TableKind::TypeDef,
                None => rows.kind() != TableKind::TypeDef,
            },
    {
        proof {
            use_type_invariant(&rows);
        }
        match rows.table() {
            TableKind::TypeDef => Some(TypeDef { rows }),
            _ => None,
        }
    }

    /// The rows of the view.
    pub fn rows(&self) -> (r: Rows<'a>)
        ensures
            r == self@,
            self.wf(),
    {
        proof {
            use_type_invariant(self);
        }
        self.rows
    }

    /// Steps forward: gives the first row as a view of its own and drops
    /// it from this view, or gives `None` where the view is empty.
    pub fn next(&mut self) -> (r: Option<TypeDef<'a>>)
        ensures
            final(self)@.database() == old(self)@.database(),
            final(self)@.end() == old(self)@.end(),
            final(self).wf(),
            match r {
                Some(row) => {
                    &&& old(self)@.start() < old(self)@.end()
                    &&& row@.is_row(old(self)@.database(), TableKind::TypeDef, old(self)@.start())
                    &&& final(self)@.start() == old(self)@.start() + 1
                },
                None => old(self)@.start() == old(self)@.end() && final(self)@.start() == old(
                    self,
                )@.start(),
            },
    {
        proof {
            use_type_invariant(&*self);
        }
        let mut rows = self.rows;
        let row = rows.next();
        self.rows = rows;
        match row {
            Some(row) => Some(TypeDef { rows: row }),
            None => None,
        }
    }
}

/// An attribute attached to another row.
#[derive(Clone, Copy)]
pub struct CustomAttribute<'a> {
    rows: Rows<'a>,
}

impl<'a> View for CustomAttribute<'a> {
    type V = Rows<'a>;

    closed spec fn view(&self) -> Rows<'a> {
        self.rows
    }
}

impl<'a> CustomAttribute<'a> {
    /// The rows are rows of the `CustomAttribute` table, and lie inside it.
    #[verifier::type_invariant]
    pub open spec fn wf(&self) -> bool {
        self@.kind() == TableKind::CustomAttribute && self@.wf()
    }

    /// Row `index` of the table. Fails where the table has no such row.
    pub fn new(db: &'a Database, index: u32) -> (r: Result<CustomAttribute<'a>, Error>)
        ensures
            is_view(
                r,
                db,
                TableKind::CustomAttribute,
                if index < db.rows(TableKind::CustomAttribute) {
                    Some((index as int, index + 1))
                } else {
                    None
                },
            ),
    {
        match Rows::new(db, TableKind::CustomAttribute, index) {
            Ok(rows) => Ok(CustomAttribute { rows }),
            Err(e) => Err(e),
        }
    }

    /// Rows `first` to `last` of the table. Fails where that is no range
    /// of its rows.
    pub fn range(db: &'a Database, first: u32, last: u32) -> (r: Result<CustomAttribute<'a>, Error>)
        ensures
            is_view(
                r,
                db,
                TableKind::CustomAttribute,
                if first <= last <= db.rows(TableKind::CustomAttribute) {
                    Some((first as int, last as int))
                } else {
                    None
                },
            ),
    {
        match Rows::range(db, TableKind::CustomAttribute, first, last) {
            Ok(rows) => Ok(CustomAttribute { rows }),
            Err(e) => Err(e),
        }
    }

    /// The rows from `first` to the end of the table. Fails where `first`
    /// lies past the end.
    pub fn rest(db: &'a Database, first: u32) -> (r: Result<CustomAttribute<'a>, Error>)
        ensures
            is_view(
                r,
                db,
                TableKind::CustomAttribute,
                if first <= db.rows(TableKind::CustomAttribute) {
                    Some((first as int, db.rows(TableKind::CustomAttribute)))
                } else {
                    None
                },
            ),
    {
        match Rows::rest(db, TableKind::CustomAttribute, first) {
            Ok(rows) => Ok(CustomAttribute { rows }),
            Err(e) => Err(e),
        }
    }

    /// The typed view of `rows`, where they are rows of this table.
    pub fn from_rows(rows: Rows<'a>) -> (r: Option<CustomAttribute<'a>>)
        ensures
            match r {
                Some(view) => view@ == rows && rows.kind() == TableKind::CustomAttribute,
                None => rows.kind() != TableKind::CustomAttribute,
            },
    {
        proof {
            use_type_invariant(&rows);
        }
        match rows.table() {
            TableKind::CustomAttribute => Some(CustomAttribute { rows }),
            _ => None,
        }
    }

    /// The rows of the view.
    pub fn rows(&self) -> (r: Rows<'a>)
        ensures
            r == self@,
            self.wf(),
    {
        proof {
            use_type_invariant(self);
        }
        self.rows
    }

    /// Steps forward: gives the first row as a view of its own and drops
    /// it from this view, or gives `None` where the view is empty.
    pub fn next(&mut self) -> (r: Option<CustomAttribute<'a>>)
        ensures
            final(self)@.database() == old(self)@.database(),
            final(self)@.end() == old(self)@.end(),
            final(self).wf(),
            match r {
                Some(row) => {
                    &&& old(self)@.start() < old(self)@.end()
                    &&& row@.is_row(
                        old(self)@.database(),
                        TableKind::CustomAttribute,
                        old(self)@.start(),
                    )
                    &&& final(self)@.start() == old(self)@.start() + 1
                },
                None => old(self)@.start() == old(self)@.end() && final(self)@.start() == old(
                    self,
                )@.start(),
            },
    {
        proof {
            use_type_invariant(&*self);
        }
        let mut rows = self.rows;
        let row = rows.next();
        self.rows = rows;
        match row {
            Some(row) => Some(CustomAttribute { rows: row }),
            None => None,
        }
    }
}

/// A method of a defined type.
#[derive(Clone, Copy)]
pub struct MethodDef<'a> {
    rows: Rows<'a>,
}

impl<'a> View for MethodDef<'a> {
    type V = Rows<'a>;

    closed spec fn view(&self) -> Rows<'a> {
        self.rows
    }
}

impl<'a> MethodDef<'a> {
    /// The rows are rows of the `MethodDef` table, and lie inside it.
    #[verifier::type_invariant]
    pub open spec fn wf(&self) -> bool {
        self@.kind() == TableKind::MethodDef && self@.wf()
    }

    /// Row `index` of the table. Fails where the table has no such row.
    pub fn new(db: &'a Database, index: u32) -> (r: Result<MethodDef<'a>, Error>)
        ensures
            is_view(
                r,
                db,
                TableKind::MethodDef,
                if index < db.rows(TableKind::MethodDef) {
                    Some((index as int, index + 1))
                } else {
                    None
                },
            ),
    {
        match Rows::new(db, TableKind::MethodDef, index) {
            Ok(rows) => Ok(MethodDef { rows }),
            Err(e) => Err(e),
        }
    }

    /// Rows `first` to `last` of the table. Fails where that is no range
    /// of its rows.
    pub fn range(db: &'a Database, first: u32, last: u32) -> (r: Result<MethodDef<'a>, Error>)
        ensures
            is_view(
                r,
                db,
                TableKind::MethodDef,
                if first <= last <= db.rows(TableKind::MethodDef) {
                    Some((first as int, last as int))
                } else {
                    None
                },
            ),
    {
        match Rows::range(db, TableKind::MethodDef, first, last) {
            Ok(rows) => Ok(MethodDef { rows }),
            Err(e) => Err(e),
        }
    }

    /// The rows from `first` to the end of the table. Fails where `first`
    /// lies past the end.
    pub fn rest(db: &'a Database, first: u32) -> (r: Result<MethodDef<'a>, Error>)
        ensures
            is_view(
                r,
                db,
                TableKind::MethodDef,
                if first <= db.rows(TableKind::MethodDef) {
                    Some((first as int, db.rows(TableKind::MethodDef)))
                } else {
                    None
                },
            ),
    {
        match Rows::rest(db, TableKind::MethodDef, first) {
            Ok(rows) => Ok(MethodDef { rows }),
            Err(e) => Err(e),
        }
    }

    /// The typed view of `rows`, where they are rows of this table.
    pub fn from_rows(rows: Rows<'a>) -> (r: Option<MethodDef<'a>>)
        ensures
            match r {
                Some(view) => view@ == rows && rows.kind() == TableKind::MethodDef,
                None => rows.kind() != TableKind::MethodDef,
            },
    {
        proof {
            use_type_invariant(&rows);
        }
        match rows.table() {
            TableKind::MethodDef => Some(MethodDef { rows }),
            _ => None,
        }
    }

    /// The rows of the view.
    pub fn rows(&self) -> (r: Rows<'a>)
        ensures
            r == self@,
            self.wf(),
    {
        proof {
            use_type_invariant(self);
        }
        self.rows
    }

    /// Steps forward: gives the first row as a view of its own and drops
    /// it from this view, or gives `None` where the view is empty.
    pub fn next(&mut self) -> (r: Option<MethodDef<'a>>)
        ensures
            final(self)@.database() == old(self)@.database(),
            final(self)@.end() == old(self)@.end(),
            final(self).wf(),
            match r {
                Some(row) => {
                    &&& old(self)@.start() < old(self)@.end()
                    &&& row@.is_row(old(self)@.database(), TableKind::MethodDef, old(self)@.start())
                    &&& final(self)@.start() == old(self)@.start() + 1
                },
                None => old(self)@.start() == old(self)@.end() && final(self)@.start() == old(
                    self,
                )@.start(),
            },
    {
        proof {
            use_type_invariant(&*self);
        }
        let mut rows = self.rows;
        let row = rows.next();
        self.rows = rows;
        match row {
            Some(row) => Some(MethodDef { rows: row }),
            None => None,
        }
    }
}

/// A reference to a member of another type.
#[derive(Clone, Copy)]
pub struct MemberRef<'a> {
    rows: Rows<'a>,
}

impl<'a> View for MemberRef<'a> {
    type V = Rows<'a>;

    closed spec fn view(&self) -> Rows<'a> {
        self.rows
    }
}

impl<'a> MemberRef<'a> {
    /// The rows are rows of the `MemberRef` table, and lie inside it.
    #[verifier::type_invariant]
    pub open spec fn wf(&self) -> bool {
        self@.kind() == TableKind::MemberRef && self@.wf()
    }

    /// Row `index` of the table. Fails where the table has no such row.
    pub fn new(db: &'a Database, index: u32) -> (r: Result<MemberRef<'a>, Error>)
        ensures
            is_view(
                r,
                db,
                TableKind::MemberRef,
                if index < db.rows(TableKind::MemberRef) {
                    Some((index as int, index + 1))
                } else {
                    None
                },
            ),
    {
        match Rows::new(db, TableKind::MemberRef, index) {
            Ok(rows) => Ok(MemberRef { rows }),
            Err(e) => Err(e),
        }
    }

    /// Rows `first` to `last` of the table. Fails where that is no range
    /// of its rows.
    pub fn range(db: &'a Database, first: u32, last: u32) -> (r: Result<MemberRef<'a>, Error>)
        ensures
            is_view(
                r,
                db,
                TableKind::MemberRef,
                if first <= last <= db.rows(TableKind::MemberRef) {
                    Some((first as int, last as int))
                } else {
                    None
                },
            ),
    {
        match Rows::range(db, TableKind::MemberRef, first, last) {
            Ok(rows) => Ok(MemberRef { rows }),
            Err(e) => Err(e),
        }
    }

    /// The rows from `first` to the end of the table. Fails where `first`
    /// lies past the end.
    pub fn rest(db: &'a Database, first: u32) -> (r: Result<MemberRef<'a>, Error>)
        ensures
            is_view(
                r,
                db,
                TableKind::MemberRef,
                if first <= db.rows(TableKind::MemberRef) {
                    Some((first as int, db.rows(TableKind::MemberRef)))
                } else {
                    None
                },
            ),
    {
        match Rows::rest(db, TableKind::MemberRef, first) {
            Ok(rows) => Ok(MemberRef { rows }),
            Err(e) => Err(e),
        }
    }

    /// The typed view of `rows`, where they are rows of this table.
    pub fn from_rows(rows: Rows<'a>) -> (r: Option<MemberRef<'a>>)
        ensures
            match r {
                Some(view) => view@ == rows && rows.kind() == TableKind::MemberRef,
                None => rows.kind() != TableKind::MemberRef,
            },
    {
        proof {
            use_type_invariant(&rows);
        }
        match rows.table() {
            TableKind::MemberRef => Some(MemberRef { rows }),
            _ => None,
        }
    }

    /// The rows of the view.
    pub fn rows(&self) -> (r: Rows<'a>)
        ensures
            r == self@,
            self.wf(),
    {
        proof {
            use_type_invariant(self);
        }
        self.rows
    }

    /// Steps forward: gives the first row as a view of its own and drops
    /// it from this view, or gives `None` where the view is empty.
    pub fn next(&mut self) -> (r: Option<MemberRef<'a>>)
        ensures
            final(self)@.database() == old(self)@.database(),
            final(self)@.end() == old(self)@.end(),
            final(self).wf(),
            match r {
                Some(row) => {
                    &&& old(self)@.start() < old(self)@.end()
                    &&& row@.is_row(old(self)@.database(), TableKind::MemberRef, old(self)@.start())
                    &&& final(self)@.start() == old(self)@.start() + 1
                },
                None => old(self)@.start() == old(self)@.end() && final(self)@.start() == old(
                    self,
                )@.start(),
            },
    {
        proof {
            use_type_invariant(&*self);
        }
        let mut rows = self.rows;
        let row = rows.next();
        self.rows = rows;
        match row {
            Some(row) => Some(MemberRef { rows: row }),
            None => None,
        }
    }
}

} // verus!
