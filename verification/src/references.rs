//! Decoded coded indices: for each kind that the typed views use, the
//! closed set of rows that a value of the kind can name.

use crate::codes::{decoded, encoded, holds};
use crate::database::Database;
use crate::error::{invalid_data, Error};
use crate::rows::Rows;
use crate::schema::{CodedIndex, TableKind};
use crate::views::{MemberRef, MethodDef, TypeDef, TypeRef};
use vstd::prelude::*;

verus! {

impl Database {
    /// What a raw coded index names in this database. The outer `None` is
    /// a value that names nothing: its tag is no candidate, or its row lies
    /// past the end of the table. `Some(None)` is the null reference.
    pub open spec fn resolved(&self, kind: CodedIndex, raw: int) -> Option<
        Option<(TableKind, int)>,
    > {
        match decoded(kind, raw) {
            Some(Some((table, row))) => if row < self.rows(table) {
                Some(Some((table, row)))
            } else {
                None
            },
            other => other,
        }
    }

    /// What the coded index in a cell names, or `None` where there is no
    /// such cell or its value names nothing.
    pub open spec fn reference(&self, kind: CodedIndex, table: TableKind, row: int, column: int)
        -> Option<Option<(TableKind, int)>> {
        match self.value(table, row, column) {
            Some(raw) => self.resolved(kind, raw),
            None => None,
        }
    }

    /// Decodes a raw coded index to the row that it names; `None` for the
    /// null reference. Fails where the tag is no candidate or the row lies
    /// past the end of its table.
    pub fn resolve<'a>(&'a self, kind: CodedIndex, raw: u32) -> (r: Result<Option<Rows<'a>>, Error>)
        ensures
            match r {
                Ok(Some(rows)) => self.resolved(kind, raw as int) == Some(
                    Some((rows.kind(), rows.start())),
                ) && rows.is_row(self, rows.kind(), rows.start()),
                Ok(None) => self.resolved(kind, raw as int) == Some(None::<(TableKind, int)>),
                Err(e) => self.resolved(kind, raw as int) is None && e is InvalidData,
            },
    {
        match kind.decode(raw) {
            Ok(Some((table, row))) => match Rows::new(self, table, row) {
                Ok(rows) => Ok(Some(rows)),
                Err(e) => Err(e),
            },
            Ok(None) => Ok(None),
            Err(e) => Err(e),
        }
    }
}

/// A type: defined here, referenced, or given by signature.
#[derive(Clone, Copy)]
pub enum TypeDefOrRef<'a> {
    /// A row of the `TypeDef` table.
    TypeDef(TypeDef<'a>),
    /// A row of the `TypeRef` table.
    TypeRef(TypeRef<'a>),
    /// A row of the `TypeSpec` table.
    TypeSpec(Rows<'a>),
}

impl<'a> TypeDefOrRef<'a> {
    /// The tag that stands for the variant.
    pub open spec fn tag(&self) -> int {
        match self {
            TypeDefOrRef::TypeDef(_) => 0,
            TypeDefOrRef::TypeRef(_) => 1,
            TypeDefOrRef::TypeSpec(_) => 2,
        }
    }

    /// The table that the variant names.
    pub open spec fn table(&self) -> TableKind {
        match self {
            TypeDefOrRef::TypeDef(_) => TableKind::TypeDef,
            TypeDefOrRef::TypeRef(_) => TableKind::TypeRef,
            TypeDefOrRef::TypeSpec(_) => TableKind::TypeSpec,
        }
    }

    /// The rows that the value carries.
    pub open spec fn rows(&self) -> Rows<'a> {
        match self {
            TypeDefOrRef::TypeDef(rows) => rows@,
            TypeDefOrRef::TypeRef(rows) => rows@,
            TypeDefOrRef::TypeSpec(rows) => *rows,
        }
    }

    /// Decodes `raw` in `db`; `None` for the null reference. Fails where
    /// the tag is no candidate or the row lies past the end of its table.
    pub fn decode(db: &'a Database, raw: u32) -> (r: Result<Option<TypeDefOrRef<'a>>, Error>)
        ensures
            match r {
                Ok(Some(code)) => db.resolved(CodedIndex::TypeDefOrRef, raw as int) == Some(
                    Some((code.table(), code.rows().start())),
                ) && code.rows().is_row(db, code.table(), code.rows().start()),
                Ok(None) => db.resolved(CodedIndex::TypeDefOrRef, raw as int) == Some(
                    None::<(TableKind, int)>,
                ),
                Err(e) => db.resolved(CodedIndex::TypeDefOrRef, raw as int) is None
                    && e is InvalidData,
            },
    {
        match db.resolve(CodedIndex::TypeDefOrRef, raw) {
            Ok(Some(rows)) => match rows.table() {
                TableKind::TypeDef => match TypeDef::from_rows(rows) {
                    Some(view) => Ok(Some(TypeDefOrRef::TypeDef(view))),
                    None => Err(invalid_data("coded index names no candidate")),
                },
                TableKind::TypeRef => match TypeRef::from_rows(rows) {
                    Some(view) => Ok(Some(TypeDefOrRef::TypeRef(view))),
                    None => Err(invalid_data("coded index names no candidate")),
                },
                TableKind::TypeSpec => Ok(Some(TypeDefOrRef::TypeSpec(rows))),
                _ => Err(invalid_data("coded index names no candidate")),
            },
            Ok(None) => Ok(None),
            Err(e) => Err(e),
        }
    }

    /// The raw value that stands for the first row that the value carries.
    /// It may need more than 32 bits, in which case no cell equals it.
    pub fn encode(&self) -> (r: u64)
        ensures
            r == encoded(CodedIndex::TypeDefOrRef, self.tag(), self.rows().start()),
            holds(CodedIndex::TypeDefOrRef, self.tag(), self.table()),
    {
        let (row, tag): (u32, u64) = match self {
            TypeDefOrRef::TypeDef(rows) => (rows.rows().first(), 0),
            TypeDefOrRef::TypeRef(rows) => (rows.rows().first(), 1),
            TypeDefOrRef::TypeSpec(rows) => (rows.first(), 2),
        };
        (row as u64 + 1) * 4 + tag
    }
}

/// What an attribute is attached to.
#[derive(Clone, Copy)]
pub enum HasCustomAttribute<'a> {
    /// A row of the `MethodDef` table.
    MethodDef(MethodDef<'a>),
    /// A row of the `Field` table.
    Field(Rows<'a>),
    /// A row of the `TypeRef` table.
    TypeRef(TypeRef<'a>),
    /// A row of the `TypeDef` table.
    TypeDef(TypeDef<'a>),
    /// A row of the `Param` table.
    Param(Rows<'a>),
    /// A row of the `InterfaceImpl` table.
    InterfaceImpl(Rows<'a>),
    /// A row of the `MemberRef` table.
    MemberRef(MemberRef<'a>),
    /// A row of the `Module` table.
    Module(Rows<'a>),
    /// A row of the `DeclSecurity` table.
    DeclSecurity(Rows<'a>),
    /// A row of the `Property` table.
    Property(Rows<'a>),
    /// A row of the `Event` table.
    Event(Rows<'a>),
    /// A row of the `StandaloneSig` table.
    StandaloneSig(Rows<'a>),
    /// A row of the `ModuleRef` table.
    ModuleRef(Rows<'a>),
    /// A row of the `TypeSpec` table.
    TypeSpec(Rows<'a>),
    /// A row of the `Assembly` table.
    Assembly(Rows<'a>),
    /// A row of the `AssemblyRef` table.
    AssemblyRef(Rows<'a>),
    /// A row of the `File` table.
    File(Rows<'a>),
    /// A row of the `ExportedType` table.
    ExportedType(Rows<'a>),
    /// A row of the `ManifestResource` table.
    ManifestResource(Rows<'a>),
    /// A row of the `GenericParam` table.
    GenericParam(Rows<'a>),
    /// A row of the `GenericParamConstraint` table.
    GenericParamConstraint(Rows<'a>),
    /// A row of the `MethodSpec` table.
    MethodSpec(Rows<'a>),
}

impl<'a> HasCustomAttribute<'a> {
    /// The tag that stands for the variant.
    pub open spec fn tag(&self) -> int {
        match self {
            HasCustomAttribute::MethodDef(_) => 0,
            HasCustomAttribute::Field(_) => 1,
            HasCustomAttribute::TypeRef(_) => 2,
            HasCustomAttribute::TypeDef(_) => 3,
            HasCustomAttribute::Param(_) => 4,
            HasCustomAttribute::InterfaceImpl(_) => 5,
            HasCustomAttribute::MemberRef(_) => 6,
            HasCustomAttribute::Module(_) => 7,
            HasCustomAttribute::DeclSecurity(_) => 8,
            HasCustomAttribute::Property(_) => 9,
            HasCustomAttribute::Event(_) => 10,
            HasCustomAttribute::StandaloneSig(_) => 11,
            HasCustomAttribute::ModuleRef(_) => 12,
            HasCustomAttribute::TypeSpec(_) => 13,
            HasCustomAttribute::Assembly(_) => 14,
            HasCustomAttribute::AssemblyRef(_) => 15,
            HasCustomAttribute::File(_) => 16,
            HasCustomAttribute::ExportedType(_) => 17,
            HasCustomAttribute::ManifestResource(_) => 18,
            HasCustomAttribute::GenericParam(_) => 19,
            HasCustomAttribute::GenericParamConstraint(_) => 20,
            HasCustomAttribute::MethodSpec(_) => 21,
        }
    }

    /// The table that the variant names.
    pub open spec fn table(&self) -> TableKind {
        match self {
            HasCustomAttribute::MethodDef(_) => TableKind::MethodDef,
            HasCustomAttribute::Field(_) => TableKind::Field,
            HasCustomAttribute::TypeRef(_) => TableKind::TypeRef,
            HasCustomAttribute::TypeDef(_) => TableKind::TypeDef,
            HasCustomAttribute::Param(_) => TableKind::Param,
            HasCustomAttribute::InterfaceImpl(_) => TableKind::InterfaceImpl,
            HasCustomAttribute::MemberRef(_) => TableKind::MemberRef,
            HasCustomAttribute::Module(_) => TableKind::Module,
            HasCustomAttribute::DeclSecurity(_) => TableKind::DeclSecurity,
            HasCustomAttribute::Property(_) => TableKind::Property,
            HasCustomAttribute::Event(_) => TableKind::Event,
            HasCustomAttribute::StandaloneSig(_) => TableKind::StandaloneSig,
            HasCustomAttribute::ModuleRef(_) => TableKind::ModuleRef,
            HasCustomAttribute::TypeSpec(_) => TableKind::TypeSpec,
            HasCustomAttribute::Assembly(_) => TableKind::Assembly,
            HasCustomAttribute::AssemblyRef(_) => TableKind::AssemblyRef,
            HasCustomAttribute::File(_) => TableKind::File,
            HasCustomAttribute::ExportedType(_) => TableKind::ExportedType,
            HasCustomAttribute::ManifestResource(_) => TableKind::ManifestResource,
            HasCustomAttribute::GenericParam(_) => TableKind::GenericParam,
            HasCustomAttribute::GenericParamConstraint(_) => TableKind::GenericParamConstraint,
            HasCustomAttribute::MethodSpec(_) => TableKind::MethodSpec,
        }
    }

    /// The rows that the value carries.
    pub open spec fn rows(&self) -> Rows<'a> {
        match self {
            HasCustomAttribute::MethodDef(rows) => rows@,
            HasCustomAttribute::Field(rows) => *rows,
            HasCustomAttribute::TypeRef(rows) => rows@,
            HasCustomAttribute::TypeDef(rows) => rows@,
            HasCustomAttribute::Param(rows) => *rows,
            HasCustomAttribute::InterfaceImpl(rows) => *rows,
            HasCustomAttribute::MemberRef(rows) => rows@,
            HasCustomAttribute::Module(rows) => *rows,
            HasCustomAttribute::DeclSecurity(rows) => *rows,
            HasCustomAttribute::Property(rows) => *rows,
            HasCustomAttribute::Event(rows) => *rows,
            HasCustomAttribute::StandaloneSig(rows) => *rows,
            HasCustomAttribute::ModuleRef(rows) => *rows,
            HasCustomAttribute::TypeSpec(rows) => *rows,
            HasCustomAttribute::Assembly(rows) => *rows,
            HasCustomAttribute::AssemblyRef(rows) => *rows,
            HasCustomAttribute::File(rows) => *rows,
            HasCustomAttribute::ExportedType(rows) => *rows,
            HasCustomAttribute::ManifestResource(rows) => *rows,
            HasCustomAttribute::GenericParam(rows) => *rows,
            HasCustomAttribute::GenericParamConstraint(rows) => *rows,
            HasCustomAttribute::MethodSpec(rows) => *rows,
        }
    }

    /// Decodes `raw` in `db`; `None` for the null reference. Fails where
    /// the tag is no candidate or the row lies past the end of its table.
    pub fn decode(db: &'a Database, raw: u32) -> (r: Result<Option<HasCustomAttribute<'a>>, Error>)
        ensures
            match r {
                Ok(Some(code)) => db.resolved(CodedIndex::HasCustomAttribute, raw as int) == Some(
                    Some((code.table(), code.rows().start())),
                ) && code.rows().is_row(db, code.table(), code.rows().start()),
                Ok(None) => db.resolved(CodedIndex::HasCustomAttribute, raw as int) == Some(
                    None::<(TableKind, int)>,
                ),
                Err(e) => db.resolved(CodedIndex::HasCustomAttribute, raw as int) is None
                    && e is InvalidData,
            },
    {
        match db.resolve(CodedIndex::HasCustomAttribute, raw) {
            Ok(Some(rows)) => match rows.table() {
                TableKind::MethodDef => match MethodDef::from_rows(rows) {
                    Some(view) => Ok(Some(HasCustomAttribute::MethodDef(view))),
                    None => Err(invalid_data("coded index names no candidate")),
                },
                TableKind::Field => Ok(Some(HasCustomAttribute::Field(rows))),
                TableKind::TypeRef => match TypeRef::from_rows(rows) {
                    Some(view) => Ok(Some(HasCustomAttribute::TypeRef(view))),
                    None => Err(invalid_data("coded index names no candidate")),
                },
                TableKind::TypeDef => match TypeDef::from_rows(rows) {
                    Some(view) => Ok(Some(HasCustomAttribute::TypeDef(view))),
                    None => Err(invalid_data("coded index names no candidate")),
                },
                TableKind::Param => Ok(Some(HasCustomAttribute::Param(rows))),
                TableKind::InterfaceImpl => Ok(Some(HasCustomAttribute::InterfaceImpl(rows))),
                TableKind::MemberRef => match MemberRef::from_rows(rows) {
                    Some(view) => Ok(Some(HasCustomAttribute::MemberRef(view))),
                    None => Err(invalid_data("coded index names no candidate")),
                },
                TableKind::Module => Ok(Some(HasCustomAttribute::Module(rows))),
                TableKind::DeclSecurity => Ok(Some(HasCustomAttribute::DeclSecurity(rows))),
                TableKind::Property => Ok(Some(HasCustomAttribute::Property(rows))),
                TableKind::Event => Ok(Some(HasCustomAttribute::Event(rows))),
                TableKind::StandaloneSig => Ok(Some(HasCustomAttribute::StandaloneSig(rows))),
                TableKind::ModuleRef => Ok(Some(HasCustomAttribute::ModuleRef(rows))),
                TableKind::TypeSpec => Ok(Some(HasCustomAttribute::TypeSpec(rows))),
                TableKind::Assembly => Ok(Some(HasCustomAttribute::Assembly(rows))),
                TableKind::AssemblyRef => Ok(Some(HasCustomAttribute::AssemblyRef(rows))),
                TableKind::File => Ok(Some(HasCustomAttribute::File(rows))),
                TableKind::ExportedType => Ok(Some(HasCustomAttribute::ExportedType(rows))),
                TableKind::ManifestResource => Ok(Some(HasCustomAttribute::ManifestResource(rows))),
                TableKind::GenericParam => Ok(Some(HasCustomAttribute::GenericParam(rows))),
                TableKind::GenericParamConstraint => Ok(
                    Some(HasCustomAttribute::GenericParamConstraint(rows)),
                ),
                TableKind::MethodSpec => Ok(Some(HasCustomAttribute::MethodSpec(rows))),
                _ => Err(invalid_data("coded index names no candidate")),
            },
            Ok(None) => Ok(None),
            Err(e) => Err(e),
        }
    }

    /// The raw value that stands for the first row that the value carries.
    /// It may need more than 32 bits, in which case no cell equals it.
    pub fn encode(&self) -> (r: u64)
        ensures
            r == encoded(CodedIndex::HasCustomAttribute, self.tag(), self.rows().start()),
            holds(CodedIndex::HasCustomAttribute, self.tag(), self.table()),
    {
        let (row, tag): (u32, u64) = match self {
            HasCustomAttribute::MethodDef(rows) => (rows.rows().first(), 0),
            HasCustomAttribute::Field(rows) => (rows.first(), 1),
            HasCustomAttribute::TypeRef(rows) => (rows.rows().first(), 2),
            HasCustomAttribute::TypeDef(rows) => (rows.rows().first(), 3),
            HasCustomAttribute::Param(rows) => (rows.first(), 4),
            HasCustomAttribute::InterfaceImpl(rows) => (rows.first(), 5),
            HasCustomAttribute::MemberRef(rows) => (rows.rows().first(), 6),
            HasCustomAttribute::Module(rows) => (rows.first(), 7),
            HasCustomAttribute::DeclSecurity(rows) => (rows.first(), 8),
            HasCustomAttribute::Property(rows) => (rows.first(), 9),
            HasCustomAttribute::Event(rows) => (rows.first(), 10),
            HasCustomAttribute::StandaloneSig(rows) => (rows.first(), 11),
            HasCustomAttribute::ModuleRef(rows) => (rows.first(), 12),
            HasCustomAttribute::TypeSpec(rows) => (rows.first(), 13),
            HasCustomAttribute::Assembly(rows) => (rows.first(), 14),
            HasCustomAttribute::AssemblyRef(rows) => (rows.first(), 15),
            HasCustomAttribute::File(rows) => (rows.first(), 16),
            HasCustomAttribute::ExportedType(rows) => (rows.first(), 17),
            HasCustomAttribute::ManifestResource(rows) => (rows.first(), 18),
            HasCustomAttribute::GenericParam(rows) => (rows.first(), 19),
            HasCustomAttribute::GenericParamConstraint(rows) => (rows.first(), 20),
            HasCustomAttribute::MethodSpec(rows) => (rows.first(), 21),
        };
        (row as u64 + 1) * 32 + tag
    }
}

/// The constructor that applies an attribute.
#[derive(Clone, Copy)]
pub enum CustomAttributeType<'a> {
    /// A row of the `MethodDef` table.
    MethodDef(MethodDef<'a>),
    /// A row of the `MemberRef` table.
    MemberRef(MemberRef<'a>),
}

impl<'a> CustomAttributeType<'a> {
    /// The tag that stands for the variant.
    pub open spec fn tag(&self) -> int {
        match self {
            CustomAttributeType::MethodDef(_) => 2,
            CustomAttributeType::MemberRef(_) => 3,
        }
    }

    /// The table that the variant names.
    pub open spec fn table(&self) -> TableKind {
        match self {
            CustomAttributeType::MethodDef(_) => TableKind::MethodDef,
            CustomAttributeType::MemberRef(_) => TableKind::MemberRef,
        }
    }

    /// The rows that the value carries.
    pub open spec fn rows(&self) -> Rows<'a> {
        match self {
            CustomAttributeType::MethodDef(rows) => rows@,
            CustomAttributeType::MemberRef(rows) => rows@,
        }
    }

    /// Decodes `raw` in `db`; `None` for the null reference. Fails where
    /// the tag is no candidate or the row lies past the end of its table.
    pub fn decode(db: &'a Database, raw: u32) -> (r: Result<Option<CustomAttributeType<'a>>, Error>)
        ensures
            match r {
                Ok(Some(code)) => db.resolved(CodedIndex::CustomAttributeType, raw as int) == Some(
                    Some((code.table(), code.rows().start())),
                ) && code.rows().is_row(db, code.table(), code.rows().start()),
                Ok(None) => db.resolved(CodedIndex::CustomAttributeType, raw as int) == Some(
                    None::<(TableKind, int)>,
                ),
                Err(e) => db.resolved(CodedIndex::CustomAttributeType, raw as int) is None
                    && e is InvalidData,
            },
    {
        match db.resolve(CodedIndex::CustomAttributeType, raw) {
            Ok(Some(rows)) => match rows.table() {
                TableKind::MethodDef => match MethodDef::from_rows(rows) {
                    Some(view) => Ok(Some(CustomAttributeType::MethodDef(view))),
                    None => Err(invalid_data("coded index names no candidate")),
                },
                TableKind::MemberRef => match MemberRef::from_rows(rows) {
                    Some(view) => Ok(Some(CustomAttributeType::MemberRef(view))),
                    None => Err(invalid_data("coded index names no candidate")),
                },
                _ => Err(invalid_data("coded index names no candidate")),
            },
            Ok(None) => Ok(None),
            Err(e) => Err(e),
        }
    }

    /// The raw value that stands for the first row that the value carries.
    /// It may need more than 32 bits, in which case no cell equals it.
    pub fn encode(&self) -> (r: u64)
        ensures
            r == encoded(CodedIndex::CustomAttributeType, self.tag(), self.rows().start()),
            holds(CodedIndex::CustomAttributeType, self.tag(), self.table()),
    {
        let (row, tag): (u32, u64) = match self {
            CustomAttributeType::MethodDef(rows) => (rows.rows().first(), 2),
            CustomAttributeType::MemberRef(rows) => (rows.rows().first(), 3),
        };
        (row as u64 + 1) * 8 + tag
    }
}

/// Where a referenced member lives.
#[derive(Clone, Copy)]
pub enum MemberRefParent<'a> {
    /// A row of the `TypeDef` table.
    TypeDef(TypeDef<'a>),
    /// A row of the `TypeRef` table.
    TypeRef(TypeRef<'a>),
    /// A row of the `ModuleRef` table.
    ModuleRef(Rows<'a>),
    /// A row of the `MethodDef` table.
    MethodDef(MethodDef<'a>),
    /// A row of the `TypeSpec` table.
    TypeSpec(Rows<'a>),
}

impl<'a> MemberRefParent<'a> {
    /// The tag that stands for the variant.
    pub open spec fn tag(&self) -> int {
        match self {
            MemberRefParent::TypeDef(_) => 0,
            MemberRefParent::TypeRef(_) => 1,
            MemberRefParent::ModuleRef(_) => 2,
            MemberRefParent::MethodDef(_) => 3,
            MemberRefParent::TypeSpec(_) => 4,
        }
    }

    /// The table that the variant names.
    pub open spec fn table(&self) -> TableKind {
        match self {
            MemberRefParent::TypeDef(_) => TableKind::TypeDef,
            MemberRefParent::TypeRef(_) => TableKind::TypeRef,
            MemberRefParent::ModuleRef(_) => TableKind::ModuleRef,
            MemberRefParent::MethodDef(_) => TableKind::MethodDef,
            MemberRefParent::TypeSpec(_) => TableKind::TypeSpec,
        }
    }

    /// The rows that the value carries.
    pub open spec fn rows(&self) -> Rows<'a> {
        match self {
            MemberRefParent::TypeDef(rows) => rows@,
            MemberRefParent::TypeRef(rows) => rows@,
            MemberRefParent::ModuleRef(rows) => *rows,
            MemberRefParent::MethodDef(rows) => rows@,
            MemberRefParent::TypeSpec(rows) => *rows,
        }
    }

    /// Decodes `raw` in `db`; `None` for the null reference. Fails where
    /// the tag is no candidate or the row lies past the end of its table.
    pub fn decode(db: &'a Database, raw: u32) -> (r: Result<Option<MemberRefParent<'a>>, Error>)
        ensures
            match r {
                Ok(Some(code)) => db.resolved(CodedIndex::MemberRefParent, raw as int) == Some(
                    Some((code.table(), code.rows().start())),
                ) && code.rows().is_row(db, code.table(), code.rows().start()),
                Ok(None) => db.resolved(CodedIndex::MemberRefParent, raw as int) == Some(
                    None::<(TableKind, int)>,
                ),
                Err(e) => db.resolved(CodedIndex::MemberRefParent, raw as int) is None
                    && e is InvalidData,
            },
    {
        match db.resolve(CodedIndex::MemberRefParent, raw) {
            Ok(Some(rows)) => match rows.table() {
                TableKind::TypeDef => match TypeDef::from_rows(rows) {
                    Some(view) => Ok(Some(MemberRefParent::TypeDef(view))),
                    None => Err(invalid_data("coded index names no candidate")),
                },
                TableKind::TypeRef => match TypeRef::from_rows(rows) {
                    Some(view) => Ok(Some(MemberRefParent::TypeRef(view))),
                    None => Err(invalid_data("coded index names no candidate")),
                },
                TableKind::ModuleRef => Ok(Some(MemberRefParent::ModuleRef(rows))),
                TableKind::MethodDef => match MethodDef::from_rows(rows) {
                    Some(view) => Ok(Some(MemberRefParent::MethodDef(view))),
                    None => Err(invalid_data("coded index names no candidate")),
                },
                TableKind::TypeSpec => Ok(Some(MemberRefParent::TypeSpec(rows))),
                _ => Err(invalid_data("coded index names no candidate")),
            },
            Ok(None) => Ok(None),
            Err(e) => Err(e),
        }
    }

    /// The raw value that stands for the first row that the value carries.
    /// It may need more than 32 bits, in which case no cell equals it.
    pub fn encode(&self) -> (r: u64)
        ensures
            r == encoded(CodedIndex::MemberRefParent, self.tag(), self.rows().start()),
            holds(CodedIndex::MemberRefParent, self.tag(), self.table()),
    {
        let (row, tag): (u32, u64) = match self {
            MemberRefParent::TypeDef(rows) => (rows.rows().first(), 0),
            MemberRefParent::TypeRef(rows) => (rows.rows().first(), 1),
            MemberRefParent::ModuleRef(rows) => (rows.first(), 2),
            MemberRefParent::MethodDef(rows) => (rows.rows().first(), 3),
            MemberRefParent::TypeSpec(rows) => (rows.first(), 4),
        };
        (row as u64 + 1) * 8 + tag
    }
}

} // verus!
