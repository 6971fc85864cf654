//! The shape of the format: the table kinds, the columns of each table,
//! and the coded-index kinds with their candidate tables.

use vstd::prelude::*;

verus! {

/// How many table numbers the format has room for in this reader: the
/// numbers run from 0 to 44, and seven of them name no table.
pub const TABLE_NUMBERS: usize = 45;

/// The tables of the format.
#[derive(Clone, Copy, Debug, PartialEq, Eq, Structural)]
pub enum TableKind {
    /// The module that the file holds.
    Module,
    /// References to types defined elsewhere.
    TypeRef,
    /// The types that the file defines.
    TypeDef,
    /// Fields of the defined types.
    Field,
    /// Methods of the defined types.
    MethodDef,
    /// Parameters of the defined methods.
    Param,
    /// Which type implements which interface.
    InterfaceImpl,
    /// References to members of other types.
    MemberRef,
    /// Compile-time constant values.
    Constant,
    /// Attributes attached to other rows.
    CustomAttribute,
    /// Marshalling of fields and parameters.
    FieldMarshal,
    /// Declarative security.
    DeclSecurity,
    /// Explicit size and packing of types.
    ClassLayout,
    /// Explicit offsets of fields.
    FieldLayout,
    /// Signatures that stand alone.
    StandaloneSig,
    /// Which type owns which events.
    EventMap,
    /// Events.
    Event,
    /// Which type owns which properties.
    PropertyMap,
    /// Properties.
    Property,
    /// Which method serves which event or property.
    MethodSemantics,
    /// Explicit method overrides.
    MethodImpl,
    /// References to other modules.
    ModuleRef,
    /// Types given by signature.
    TypeSpec,
    /// Platform-invoke mappings.
    ImplMap,
    /// Initial data of fields.
    FieldRva,
    /// The assembly that the file holds.
    Assembly,
    /// Unused by the format, kept for layout.
    AssemblyProcessor,
    /// Unused by the format, kept for layout.
    AssemblyOs,
    /// References to other assemblies.
    AssemblyRef,
    /// Unused by the format, kept for layout.
    AssemblyRefProcessor,
    /// Unused by the format, kept for layout.
    AssemblyRefOs,
    /// Other files of the assembly.
    File,
    /// Types forwarded or exported.
    ExportedType,
    /// Resources of the assembly.
    ManifestResource,
    /// Which type is nested in which.
    NestedClass,
    /// Generic parameters.
    GenericParam,
    /// Instantiated generic methods.
    MethodSpec,
    /// Constraints on generic parameters.
    GenericParamConstraint,
}

/// The kinds of coded index: references that may point into one of several
/// tables, told apart by a tag in the low bits.
#[derive(Clone, Copy, Debug, PartialEq, Eq, Structural)]
pub enum CodedIndex {
    /// A type: defined here, referenced, or given by signature.
    TypeDefOrRef,
    /// What a constant belongs to.
    HasConstant,
    /// What an attribute is attached to.
    HasCustomAttribute,
    /// What a marshalling rule belongs to.
    HasFieldMarshal,
    /// What a security declaration belongs to.
    HasDeclSecurity,
    /// Where a referenced member lives.
    MemberRefParent,
    /// What a method serves: an event or a property.
    HasSemantics,
    /// A method: defined here or referenced.
    MethodDefOrRef,
    /// What a platform-invoke mapping forwards.
    MemberForwarded,
    /// Where an exported type or a resource lives.
    Implementation,
    /// The constructor that applies an attribute.
    CustomAttributeType,
    /// Where a referenced type is resolved.
    ResolutionScope,
    /// What a generic parameter belongs to.
    TypeOrMethodDef,
}

/// What a column holds, which decides how wide it is.
#[derive(Clone, Copy, Debug, PartialEq, Eq, Structural)]
pub enum Column {
    /// An integer of the given number of bytes.
    Fixed(u8),
    /// An offset into the string heap.
    Strings,
    /// An index into the GUID heap.
    Guids,
    /// An offset into the blob heap.
    Blobs,
    /// A row number of the given table, counted from 1, with 0 for none.
    Row(TableKind),
    /// A coded index of the given kind.
    Coded(CodedIndex),
}

impl TableKind {
    /// The number that the format gives the table.
    pub open spec fn number(self) -> int {
        match self {
            TableKind::Module => 0x00,
            TableKind::TypeRef => 0x01,
            TableKind::TypeDef => 0x02,
            TableKind::Field => 0x04,
            TableKind::MethodDef => 0x06,
            TableKind::Param => 0x08,
            TableKind::InterfaceImpl => 0x09,
            TableKind::MemberRef => 0x0A,
            TableKind::Constant => 0x0B,
            TableKind::CustomAttribute => 0x0C,
            TableKind::FieldMarshal => 0x0D,
            TableKind::DeclSecurity => 0x0E,
            TableKind::ClassLayout => 0x0F,
            TableKind::FieldLayout => 0x10,
            TableKind::StandaloneSig => 0x11,
            TableKind::EventMap => 0x12,
            TableKind::Event => 0x14,
            TableKind::PropertyMap => 0x15,
            TableKind::Property => 0x17,
            TableKind::MethodSemantics => 0x18,
            TableKind::MethodImpl => 0x19,
            TableKind::ModuleRef => 0x1A,
            TableKind::TypeSpec => 0x1B,
            TableKind::ImplMap => 0x1C,
            TableKind::FieldRva => 0x1D,
            TableKind::Assembly => 0x20,
            TableKind::AssemblyProcessor => 0x21,
            TableKind::AssemblyOs => 0x22,
            TableKind::AssemblyRef => 0x23,
            TableKind::AssemblyRefProcessor => 0x24,
            TableKind::AssemblyRefOs => 0x25,
            TableKind::File => 0x26,
            TableKind::ExportedType => 0x27,
            TableKind::ManifestResource => 0x28,
            TableKind::NestedClass => 0x29,
            TableKind::GenericParam => 0x2A,
            TableKind::MethodSpec => 0x2B,
            TableKind::GenericParamConstraint => 0x2C,
        }
    }

    /// The columns of the table, in storage order.
    pub open spec fn schema(self) -> Seq<Column> {
        match self {
            TableKind::Module => seq![
                Column::Fixed(2),
                Column::Strings,
                Column::Guids,
                Column::Guids,
                Column::Guids,
            ],
            TableKind::TypeRef => seq![
                Column::Coded(CodedIndex::ResolutionScope),
                Column::Strings,
                Column::Strings,
            ],
            TableKind::TypeDef => seq![
                Column::Fixed(4),
                Column::Strings,
                Column::Strings,
                Column::Coded(CodedIndex::TypeDefOrRef),
                Column::Row(TableKind::Field),
                Column::Row(TableKind::MethodDef),
            ],
            TableKind::Field => seq![Column::Fixed(2), Column::Strings, Column::Blobs],
            TableKind::MethodDef => seq![
                Column::Fixed(4),
                Column::Fixed(2),
                Column::Fixed(2),
                Column::Strings,
                Column::Blobs,
                Column::Row(TableKind::Param),
            ],
            TableKind::Param => seq![Column::Fixed(2), Column::Fixed(2), Column::Strings],
            TableKind::InterfaceImpl => seq![
                Column::Row(TableKind::TypeDef),
                Column::Coded(CodedIndex::TypeDefOrRef),
            ],
            TableKind::MemberRef => seq![
                Column::Coded(CodedIndex::MemberRefParent),
                Column::Strings,
                Column::Blobs,
            ],
            TableKind::Constant => seq![
                Column::Fixed(2),
                Column::Coded(CodedIndex::HasConstant),
                Column::Blobs,
            ],
            TableKind::CustomAttribute => seq![
                Column::Coded(CodedIndex::HasCustomAttribute),
                Column::Coded(CodedIndex::CustomAttributeType),
                Column::Blobs,
            ],
            TableKind::FieldMarshal => seq![
                Column::Coded(CodedIndex::HasFieldMarshal),
                Column::Blobs,
            ],
            TableKind::DeclSecurity => seq![
                Column::Fixed(2),
                Column::Coded(CodedIndex::HasDeclSecurity),
                Column::Blobs,
            ],
            TableKind::ClassLayout => seq![
                Column::Fixed(2),
                Column::Fixed(4),
                Column::Row(TableKind::TypeDef),
            ],
            TableKind::FieldLayout => seq![Column::Fixed(4), Column::Row(TableKind::Field)],
            TableKind::StandaloneSig => seq![Column::Blobs],
            TableKind::EventMap => seq![
                Column::Row(TableKind::TypeDef),
                Column::Row(TableKind::Event),
            ],
            TableKind::Event => seq![
                Column::Fixed(2),
                Column::Strings,
                Column::Coded(CodedIndex::TypeDefOrRef),
            ],
            TableKind::PropertyMap => seq![
                Column::Row(TableKind::TypeDef),
                Column::Row(TableKind::Property),
            ],
            TableKind::Property => seq![Column::Fixed(2), Column::Strings, Column::Blobs],
            TableKind::MethodSemantics => seq![
                Column::Fixed(2),
                Column::Row(TableKind::MethodDef),
                Column::Coded(CodedIndex::HasSemantics),
            ],
            TableKind::MethodImpl => seq![
                Column::Row(TableKind::TypeDef),
                Column::Coded(CodedIndex::MethodDefOrRef),
                Column::Coded(CodedIndex::MethodDefOrRef),
            ],
            TableKind::ModuleRef => seq![Column::Strings],
            TableKind::TypeSpec => seq![Column::Blobs],
            TableKind::ImplMap => seq![
                Column::Fixed(2),
                Column::Coded(CodedIndex::MemberForwarded),
                Column::Strings,
                Column::Row(TableKind::ModuleRef),
            ],
            TableKind::FieldRva => seq![Column::Fixed(4), Column::Row(TableKind::Field)],
            TableKind::Assembly => seq![
                Column::Fixed(4),
                Column::Fixed(2),
                Column::Fixed(2),
                Column::Fixed(2),
                Column::Fixed(2),
                Column::Fixed(4),
                Column::Blobs,
                Column::Strings,
                Column::Strings,
            ],
            TableKind::AssemblyProcessor => seq![Column::Fixed(4)],
            TableKind::AssemblyOs => seq![Column::Fixed(4), Column::Fixed(4), Column::Fixed(4)],
            TableKind::AssemblyRef => seq![
                Column::Fixed(2),
                Column::Fixed(2),
                Column::Fixed(2),
                Column::Fixed(2),
                Column::Fixed(4),
                Column::Blobs,
                Column::Strings,
                Column::Strings,
                Column::Blobs,
            ],
            TableKind::AssemblyRefProcessor => seq![
                Column::Fixed(4),
                Column::Row(TableKind::AssemblyRef),
            ],
            TableKind::AssemblyRefOs => seq![
                Column::Fixed(4),
                Column::Fixed(4),
                Column::Fixed(4),
                Column::Row(TableKind::AssemblyRef),
            ],
            TableKind::File => seq![Column::Fixed(4), Column::Strings, Column::Blobs],
            TableKind::ExportedType => seq![
                Column::Fixed(4),
                Column::Fixed(4),
                Column::Strings,
                Column::Strings,
                Column::Coded(CodedIndex::Implementation),
            ],
            TableKind::ManifestResource => seq![
                Column::Fixed(4),
                Column::Fixed(4),
                Column::Strings,
                Column::Coded(CodedIndex::Implementation),
            ],
            TableKind::NestedClass => seq![
                Column::Row(TableKind::TypeDef),
                Column::Row(TableKind::TypeDef),
            ],
            TableKind::GenericParam => seq![
                Column::Fixed(2),
                Column::Fixed(2),
                Column::Coded(CodedIndex::TypeOrMethodDef),
                Column::Strings,
            ],
            TableKind::MethodSpec => seq![Column::Coded(CodedIndex::MethodDefOrRef), Column::Blobs],
            TableKind::GenericParamConstraint => seq![
                Column::Row(TableKind::GenericParam),
                Column::Coded(CodedIndex::TypeDefOrRef),
            ],
        }
    }

    /// The number that the format gives the table.
    pub fn index(self) -> (r: usize)
        ensures
            r == self.number(),
            r < TABLE_NUMBERS,
    {
        match self {
            TableKind::Module => 0x00,
            TableKind::TypeRef => 0x01,
            TableKind::TypeDef => 0x02,
            TableKind::Field => 0x04,
            TableKind::MethodDef => 0x06,
            TableKind::Param => 0x08,
            TableKind::InterfaceImpl => 0x09,
            TableKind::MemberRef => 0x0A,
            TableKind::Constant => 0x0B,
            TableKind::CustomAttribute => 0x0C,
            TableKind::FieldMarshal => 0x0D,
            TableKind::DeclSecurity => 0x0E,
            TableKind::ClassLayout => 0x0F,
            TableKind::FieldLayout => 0x10,
            TableKind::StandaloneSig => 0x11,
            TableKind::EventMap => 0x12,
            TableKind::Event => 0x14,
            TableKind::PropertyMap => 0x15,
            TableKind::Property => 0x17,
            TableKind::MethodSemantics => 0x18,
            TableKind::MethodImpl => 0x19,
            TableKind::ModuleRef => 0x1A,
            TableKind::TypeSpec => 0x1B,
            TableKind::ImplMap => 0x1C,
            TableKind::FieldRva => 0x1D,
            TableKind::Assembly => 0x20,
            TableKind::AssemblyProcessor => 0x21,
            TableKind::AssemblyOs => 0x22,
            TableKind::AssemblyRef => 0x23,
            TableKind::AssemblyRefProcessor => 0x24,
            TableKind::AssemblyRefOs => 0x25,
            TableKind::File => 0x26,
            TableKind::ExportedType => 0x27,
            TableKind::ManifestResource => 0x28,
            TableKind::NestedClass => 0x29,
            TableKind::GenericParam => 0x2A,
            TableKind::MethodSpec => 0x2B,
            TableKind::GenericParamConstraint => 0x2C,
        }
    }

    /// The table with the given number, if the number names one.
    pub fn from_number(number: usize) -> (r: Option<TableKind>)
        ensures
            r == TableKind::of(number as int),
    {
        match number {
            0x00 => Some(TableKind::Module),
            0x01 => Some(TableKind::TypeRef),
            0x02 => Some(TableKind::TypeDef),
            0x04 => Some(TableKind::Field),
            0x06 => Some(TableKind::MethodDef),
            0x08 => Some(TableKind::Param),
            0x09 => Some(TableKind::InterfaceImpl),
            0x0A => Some(TableKind::MemberRef),
            0x0B => Some(TableKind::Constant),
            0x0C => Some(TableKind::CustomAttribute),
            0x0D => Some(TableKind::FieldMarshal),
            0x0E => Some(TableKind::DeclSecurity),
            0x0F => Some(TableKind::ClassLayout),
            0x10 => Some(TableKind::FieldLayout),
            0x11 => Some(TableKind::StandaloneSig),
            0x12 => Some(TableKind::EventMap),
            0x14 => Some(TableKind::Event),
            0x15 => Some(TableKind::PropertyMap),
            0x17 => Some(TableKind::Property),
            0x18 => Some(TableKind::MethodSemantics),
            0x19 => Some(TableKind::MethodImpl),
            0x1A => Some(TableKind::ModuleRef),
            0x1B => Some(TableKind::TypeSpec),
            0x1C => Some(TableKind::ImplMap),
            0x1D => Some(TableKind::FieldRva),
            0x20 => Some(TableKind::Assembly),
            0x21 => Some(TableKind::AssemblyProcessor),
            0x22 => Some(TableKind::AssemblyOs),
            0x23 => Some(TableKind::AssemblyRef),
            0x24 => Some(TableKind::AssemblyRefProcessor),
            0x25 => Some(TableKind::AssemblyRefOs),
            0x26 => Some(TableKind::File),
            0x27 => Some(TableKind::ExportedType),
            0x28 => Some(TableKind::ManifestResource),
            0x29 => Some(TableKind::NestedClass),
            0x2A => Some(TableKind::GenericParam),
            0x2B => Some(TableKind::MethodSpec),
            0x2C => Some(TableKind::GenericParamConstraint),
            _ => None,
        }
    }

    /// The columns of the table, in storage order.
    pub fn columns(self) -> (r: Vec<Column>)
        ensures
            r@ == self.schema(),
    {
        let r = match self {
            TableKind::Module => vec![
                Column::Fixed(2),
                Column::Strings,
                Column::Guids,
                Column::Guids,
                Column::Guids,
            ],
            TableKind::TypeRef => vec![
                Column::Coded(CodedIndex::ResolutionScope),
                Column::Strings,
                Column::Strings,
            ],
            TableKind::TypeDef => vec![
                Column::Fixed(4),
                Column::Strings,
                Column::Strings,
                Column::Coded(CodedIndex::TypeDefOrRef),
                Column::Row(TableKind::Field),
                Column::Row(TableKind::MethodDef),
            ],
            TableKind::Field => vec![Column::Fixed(2), Column::Strings, Column::Blobs],
            TableKind::MethodDef => vec![
                Column::Fixed(4),
                Column::Fixed(2),
                Column::Fixed(2),
                Column::Strings,
                Column::Blobs,
                Column::Row(TableKind::Param),
            ],
            TableKind::Param => vec![Column::Fixed(2), Column::Fixed(2), Column::Strings],
            TableKind::InterfaceImpl => vec![
                Column::Row(TableKind::TypeDef),
                Column::Coded(CodedIndex::TypeDefOrRef),
            ],
            TableKind::MemberRef => vec![
                Column::Coded(CodedIndex::MemberRefParent),
                Column::Strings,
                Column::Blobs,
            ],
            TableKind::Constant => vec![
                Column::Fixed(2),
                Column::Coded(CodedIndex::HasConstant),
                Column::Blobs,
            ],
            TableKind::CustomAttribute => vec![
                Column::Coded(CodedIndex::HasCustomAttribute),
                Column::Coded(CodedIndex::CustomAttributeType),
                Column::Blobs,
            ],
            TableKind::FieldMarshal => vec![
                Column::Coded(CodedIndex::HasFieldMarshal),
                Column::Blobs,
            ],
            TableKind::DeclSecurity => vec![
                Column::Fixed(2),
                Column::Coded(CodedIndex::HasDeclSecurity),
                Column::Blobs,
            ],
            TableKind::ClassLayout => vec![
                Column::Fixed(2),
                Column::Fixed(4),
                Column::Row(TableKind::TypeDef),
            ],
            TableKind::FieldLayout => vec![Column::Fixed(4), Column::Row(TableKind::Field)],
            TableKind::StandaloneSig => vec![Column::Blobs],
            TableKind::EventMap => vec![
                Column::Row(TableKind::TypeDef),
                Column::Row(TableKind::Event),
            ],
            TableKind::Event => vec![
                Column::Fixed(2),
                Column::Strings,
                Column::Coded(CodedIndex::TypeDefOrRef),
            ],
            TableKind::PropertyMap => vec![
                Column::Row(TableKind::TypeDef),
                Column::Row(TableKind::Property),
            ],
            TableKind::Property => vec![Column::Fixed(2), Column::Strings, Column::Blobs],
            TableKind::MethodSemantics => vec![
                Column::Fixed(2),
                Column::Row(TableKind::MethodDef),
                Column::Coded(CodedIndex::HasSemantics),
            ],
            TableKind::MethodImpl => vec![
                Column::Row(TableKind::TypeDef),
                Column::Coded(CodedIndex::MethodDefOrRef),
                Column::Coded(CodedIndex::MethodDefOrRef),
            ],
            TableKind::ModuleRef => vec![Column::Strings],
            TableKind::TypeSpec => vec![Column::Blobs],
            TableKind::ImplMap => vec![
                Column::Fixed(2),
                Column::Coded(CodedIndex::MemberForwarded),
                Column::Strings,
                Column::Row(TableKind::ModuleRef),
            ],
            TableKind::FieldRva => vec![Column::Fixed(4), Column::Row(TableKind::Field)],
            TableKind::Assembly => vec![
                Column::Fixed(4),
                Column::Fixed(2),
                Column::Fixed(2),
                Column::Fixed(2),
                Column::Fixed(2),
                Column::Fixed(4),
                Column::Blobs,
                Column::Strings,
                Column::Strings,
            ],
            TableKind::AssemblyProcessor => vec![Column::Fixed(4)],
            TableKind::AssemblyOs => vec![Column::Fixed(4), Column::Fixed(4), Column::Fixed(4)],
            TableKind::AssemblyRef => vec![
                Column::Fixed(2),
                Column::Fixed(2),
                Column::Fixed(2),
                Column::Fixed(2),
                Column::Fixed(4),
                Column::Blobs,
                Column::Strings,
                Column::Strings,
                Column::Blobs,
            ],
            TableKind::AssemblyRefProcessor => vec![
                Column::Fixed(4),
                Column::Row(TableKind::AssemblyRef),
            ],
            TableKind::AssemblyRefOs => vec![
                Column::Fixed(4),
                Column::Fixed(4),
                Column::Fixed(4),
                Column::Row(TableKind::AssemblyRef),
            ],
            TableKind::File => vec![Column::Fixed(4), Column::Strings, Column::Blobs],
            TableKind::ExportedType => vec![
                Column::Fixed(4),
                Column::Fixed(4),
                Column::Strings,
                Column::Strings,
                Column::Coded(CodedIndex::Implementation),
            ],
            TableKind::ManifestResource => vec![
                Column::Fixed(4),
                Column::Fixed(4),
                Column::Strings,
                Column::Coded(CodedIndex::Implementation),
            ],
            TableKind::NestedClass => vec![
                Column::Row(TableKind::TypeDef),
                Column::Row(TableKind::TypeDef),
            ],
            TableKind::GenericParam => vec![
                Column::Fixed(2),
                Column::Fixed(2),
                Column::Coded(CodedIndex::TypeOrMethodDef),
                Column::Strings,
            ],
            TableKind::MethodSpec => vec![Column::Coded(CodedIndex::MethodDefOrRef), Column::Blobs],
            TableKind::GenericParamConstraint => vec![
                Column::Row(TableKind::GenericParam),
                Column::Coded(CodedIndex::TypeDefOrRef),
            ],
        };
        assert(r@ =~= self.schema());
        r
    }
}

impl CodedIndex {
    /// The candidate tables in tag order; `None` marks a tag that the
    /// format reserves and never uses.
    pub open spec fn candidates(self) -> Seq<Option<TableKind>> {
        match self {
            CodedIndex::TypeDefOrRef => seq![
                Some(TableKind::TypeDef),
                Some(TableKind::TypeRef),
                Some(TableKind::TypeSpec),
            ],
            CodedIndex::HasConstant => seq![
                Some(TableKind::Field),
                Some(TableKind::Param),
                Some(TableKind::Property),
            ],
            CodedIndex::HasCustomAttribute => seq![
                Some(TableKind::MethodDef),
                Some(TableKind::Field),
                Some(TableKind::TypeRef),
                Some(TableKind::TypeDef),
                Some(TableKind::Param),
                Some(TableKind::InterfaceImpl),
                Some(TableKind::MemberRef),
                Some(TableKind::Module),
                Some(TableKind::DeclSecurity),
                Some(TableKind::Property),
                Some(TableKind::Event),
                Some(TableKind::StandaloneSig),
                Some(TableKind::ModuleRef),
                Some(TableKind::TypeSpec),
                Some(TableKind::Assembly),
                Some(TableKind::AssemblyRef),
                Some(TableKind::File),
                Some(TableKind::ExportedType),
                Some(TableKind::ManifestResource),
                Some(TableKind::GenericParam),
                Some(TableKind::GenericParamConstraint),
                Some(TableKind::MethodSpec),
            ],
            CodedIndex::HasFieldMarshal => seq![Some(TableKind::Field), Some(TableKind::Param)],
            CodedIndex::HasDeclSecurity => seq![
                Some(TableKind::TypeDef),
                Some(TableKind::MethodDef),
                Some(TableKind::Assembly),
            ],
            CodedIndex::MemberRefParent => seq![
                Some(TableKind::TypeDef),
                Some(TableKind::TypeRef),
                Some(TableKind::ModuleRef),
                Some(TableKind::MethodDef),
                Some(TableKind::TypeSpec),
            ],
            CodedIndex::HasSemantics => seq![Some(TableKind::Event), Some(TableKind::Property)],
            CodedIndex::MethodDefOrRef => seq![
                Some(TableKind::MethodDef),
                Some(TableKind::MemberRef),
            ],
            CodedIndex::MemberForwarded => seq![Some(TableKind::Field), Some(TableKind::MethodDef)],
            CodedIndex::Implementation => seq![
                Some(TableKind::File),
                Some(TableKind::AssemblyRef),
                Some(TableKind::ExportedType),
            ],
            CodedIndex::CustomAttributeType => seq![
                None,
                None,
                Some(TableKind::MethodDef),
                Some(TableKind::MemberRef),
                None,
            ],
            CodedIndex::ResolutionScope => seq![
                Some(TableKind::Module),
                Some(TableKind::ModuleRef),
                Some(TableKind::AssemblyRef),
                Some(TableKind::TypeRef),
            ],
            CodedIndex::TypeOrMethodDef => seq![
                Some(TableKind::TypeDef),
                Some(TableKind::MethodDef),
            ],
        }
    }

    /// How many low bits hold the tag: the least number of bits that can
    /// tell the candidates apart.
    pub open spec fn tag_bits(self) -> int {
        match self {
            CodedIndex::TypeDefOrRef => 2,
            CodedIndex::HasConstant => 2,
            CodedIndex::HasCustomAttribute => 5,
            CodedIndex::HasFieldMarshal => 1,
            CodedIndex::HasDeclSecurity => 2,
            CodedIndex::MemberRefParent => 3,
            CodedIndex::HasSemantics => 1,
            CodedIndex::MethodDefOrRef => 1,
            CodedIndex::MemberForwarded => 1,
            CodedIndex::Implementation => 2,
            CodedIndex::CustomAttributeType => 3,
            CodedIndex::ResolutionScope => 2,
            CodedIndex::TypeOrMethodDef => 1,
        }
    }

    /// Two to the power of `tag_bits`: what the row part of a coded index
    /// is multiplied by.
    pub open spec fn radix(self) -> int {
        match self {
            CodedIndex::TypeDefOrRef => 4,
            CodedIndex::HasConstant => 4,
            CodedIndex::HasCustomAttribute => 32,
            CodedIndex::HasFieldMarshal => 2,
            CodedIndex::HasDeclSecurity => 4,
            CodedIndex::MemberRefParent => 8,
            CodedIndex::HasSemantics => 2,
            CodedIndex::MethodDefOrRef => 2,
            CodedIndex::MemberForwarded => 2,
            CodedIndex::Implementation => 4,
            CodedIndex::CustomAttributeType => 8,
            CodedIndex::ResolutionScope => 4,
            CodedIndex::TypeOrMethodDef => 2,
        }
    }

    /// The candidate tables in tag order.
    pub fn tables(self) -> (r: Vec<Option<TableKind>>)
        ensures
            r@ == self.candidates(),
    {
        let r = match self {
            CodedIndex::TypeDefOrRef => vec![
                Some(TableKind::TypeDef),
                Some(TableKind::TypeRef),
                Some(TableKind::TypeSpec),
            ],
            CodedIndex::HasConstant => vec![
                Some(TableKind::Field),
                Some(TableKind::Param),
                Some(TableKind::Property),
            ],
            CodedIndex::HasCustomAttribute => vec![
                Some(TableKind::MethodDef),
                Some(TableKind::Field),
                Some(TableKind::TypeRef),
                Some(TableKind::TypeDef),
                Some(TableKind::Param),
                Some(TableKind::InterfaceImpl),
                Some(TableKind::MemberRef),
                Some(TableKind::Module),
                Some(TableKind::DeclSecurity),
                Some(TableKind::Property),
                Some(TableKind::Event),
                Some(TableKind::StandaloneSig),
                Some(TableKind::ModuleRef),
                Some(TableKind::TypeSpec),
                Some(TableKind::Assembly),
                Some(TableKind::AssemblyRef),
                Some(TableKind::File),
                Some(TableKind::ExportedType),
                Some(TableKind::ManifestResource),
                Some(TableKind::GenericParam),
                Some(TableKind::GenericParamConstraint),
                Some(TableKind::MethodSpec),
            ],
            CodedIndex::HasFieldMarshal => vec![Some(TableKind::Field), Some(TableKind::Param)],
            CodedIndex::HasDeclSecurity => vec![
                Some(TableKind::TypeDef),
                Some(TableKind::MethodDef),
                Some(TableKind::Assembly),
            ],
            CodedIndex::MemberRefParent => vec![
                Some(TableKind::TypeDef),
                Some(TableKind::TypeRef),
                Some(TableKind::ModuleRef),
                Some(TableKind::MethodDef),
                Some(TableKind::TypeSpec),
            ],
            CodedIndex::HasSemantics => vec![Some(TableKind::Event), Some(TableKind::Property)],
            CodedIndex::MethodDefOrRef => vec![
                Some(TableKind::MethodDef),
                Some(TableKind::MemberRef),
            ],
            CodedIndex::MemberForwarded => vec![Some(TableKind::Field), Some(TableKind::MethodDef)],
            CodedIndex::Implementation => vec![
                Some(TableKind::File),
                Some(TableKind::AssemblyRef),
                Some(TableKind::ExportedType),
            ],
            CodedIndex::CustomAttributeType => vec![
                None,
                None,
                Some(TableKind::MethodDef),
                Some(TableKind::MemberRef),
                None,
            ],
            CodedIndex::ResolutionScope => vec![
                Some(TableKind::Module),
                Some(TableKind::ModuleRef),
                Some(TableKind::AssemblyRef),
                Some(TableKind::TypeRef),
            ],
            CodedIndex::TypeOrMethodDef => vec![
                Some(TableKind::TypeDef),
                Some(TableKind::MethodDef),
            ],
        };
        assert(r@ =~= self.candidates());
        r
    }

    /// Two to the power of `tag_bits`.
    pub fn base(self) -> (r: u32)
        ensures
            r == self.radix(),
    {
        match self {
            CodedIndex::TypeDefOrRef => 4,
            CodedIndex::HasConstant => 4,
            CodedIndex::HasCustomAttribute => 32,
            CodedIndex::HasFieldMarshal => 2,
            CodedIndex::HasDeclSecurity => 4,
            CodedIndex::MemberRefParent => 8,
            CodedIndex::HasSemantics => 2,
            CodedIndex::MethodDefOrRef => 2,
            CodedIndex::MemberForwarded => 2,
            CodedIndex::Implementation => 4,
            CodedIndex::CustomAttributeType => 8,
            CodedIndex::ResolutionScope => 4,
            CodedIndex::TypeOrMethodDef => 2,
        }
    }
}

impl TableKind {
    /// The table with the given number, if the number names one.
    pub open spec fn of(number: int) -> Option<TableKind> {
        if number == 0x00 {
            Some(TableKind::Module)
        } else if number == 0x01 {
            Some(TableKind::TypeRef)
        } else if number == 0x02 {
            Some(TableKind::TypeDef)
        } else if number == 0x04 {
            Some(TableKind::Field)
        } else if number == 0x06 {
            Some(TableKind::MethodDef)
        } else if number == 0x08 {
            Some(TableKind::Param)
        } else if number == 0x09 {
            Some(TableKind::InterfaceImpl)
        } else if number == 0x0A {
            Some(TableKind::MemberRef)
        } else if number == 0x0B {
            Some(TableKind::Constant)
        } else if number == 0x0C {
            Some(TableKind::CustomAttribute)
        } else if number == 0x0D {
            Some(TableKind::FieldMarshal)
        } else if number == 0x0E {
            Some(TableKind::DeclSecurity)
        } else if number == 0x0F {
            Some(TableKind::ClassLayout)
        } else if number == 0x10 {
            Some(TableKind::FieldLayout)
        } else if number == 0x11 {
            Some(TableKind::StandaloneSig)
        } else if number == 0x12 {
            Some(TableKind::EventMap)
        } else if number == 0x14 {
            Some(TableKind::Event)
        } else if number == 0x15 {
            Some(TableKind::PropertyMap)
        } else if number == 0x17 {
            Some(TableKind::Property)
        } else if number == 0x18 {
            Some(TableKind::MethodSemantics)
        } else if number == 0x19 {
            Some(TableKind::MethodImpl)
        } else if number == 0x1A {
            Some(TableKind::ModuleRef)
        } else if number == 0x1B {
            Some(TableKind::TypeSpec)
        } else if number == 0x1C {
            Some(TableKind::ImplMap)
        } else if number == 0x1D {
            Some(TableKind::FieldRva)
        } else if number == 0x20 {
            Some(TableKind::Assembly)
        } else if number == 0x21 {
            Some(TableKind::AssemblyProcessor)
        } else if number == 0x22 {
            Some(TableKind::AssemblyOs)
        } else if number == 0x23 {
            Some(TableKind::AssemblyRef)
        } else if number == 0x24 {
            Some(TableKind::AssemblyRefProcessor)
        } else if number == 0x25 {
            Some(TableKind::AssemblyRefOs)
        } else if number == 0x26 {
            Some(TableKind::File)
        } else if number == 0x27 {
            Some(TableKind::ExportedType)
        } else if number == 0x28 {
            Some(TableKind::ManifestResource)
        } else if number == 0x29 {
            Some(TableKind::NestedClass)
        } else if number == 0x2A {
            Some(TableKind::GenericParam)
        } else if number == 0x2B {
            Some(TableKind::MethodSpec)
        } else if number == 0x2C {
            Some(TableKind::GenericParamConstraint)
        } else {
            None
        }
    }
}

impl CodedIndex {
    /// The row count from which a table no longer fits a two-byte coded
    /// index of this kind: two to the power of 16 less `tag_bits`.
    pub open spec fn small_limit(self) -> int {
        65536int / self.radix()
    }

    /// The row count from which a table no longer fits a two-byte coded
    /// index of this kind.
    pub fn limit(self) -> (r: u32)
        ensures
            r == self.small_limit(),
    {
        65536 / self.base()
    }
}

/// A table's number names that table, and no number names two tables.
pub proof fn lemma_table_numbers(kind: TableKind)
    ensures
        TableKind::of(kind.number()) == Some(kind),
        0 <= kind.number() < TABLE_NUMBERS,
{
}

/// The tag width of each kind is the least that enumerates its candidates:
/// the radix covers the list, and half of it would not.
pub proof fn lemma_tag_bits_minimal(kind: CodedIndex)
    ensures
        kind.radix() == vstd::arithmetic::power2::pow2(kind.tag_bits() as nat),
        kind.radix() / 2 < kind.candidates().len() <= kind.radix(),
{
    vstd::arithmetic::power2::lemma2_to64();
}

/// Every table has between one and nine columns, and a column of fixed
/// width is two or four bytes wide.
pub proof fn lemma_fixed_columns(kind: TableKind, i: int)
    requires
        0 <= i < kind.schema().len(),
    ensures
        kind.schema()[i] matches Column::Fixed(width) ==> width == 2 || width == 4,
        1 <= kind.schema().len() <= 9,
{
}

} // verus!
