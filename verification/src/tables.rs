//! The columns of the typed views, and the queries built on them: what
//! kind of type a row defines, which attributes it carries, which type owns
//! a method, and which type has a given name.

use crate::codes::encoded;
use crate::database::Database;
use crate::error::{invalid_data, Error};
use crate::flags::TypeAttributes;
use crate::heap::{lemma_string_at_bytes, same_bytes, same_text};
use crate::references::{CustomAttributeType, HasCustomAttribute, MemberRefParent, TypeDefOrRef};
use crate::rows::is_text;
use crate::schema::{CodedIndex, TableKind};
use crate::views::{is_view, CustomAttribute, MemberRef, MethodDef, TypeDef, TypeRef};
use vstd::prelude::*;
use vstd::string::StringSliceAdditionalSpecFns;

verus! {

/// What kind of type a row of the `TypeDef` table defines.
#[derive(Clone, Copy, Debug, PartialEq, Eq, Structural)]
pub enum Category {
    Interface,
    Class,
    Enum,
    Struct,
    Delegate,
    Attribute,
}

/// The category that the name of the base type stands for.
pub open spec fn category_named(name: Seq<char>) -> Category {
    if name == "Enum"@ {
        Category::Enum
    } else if name == "ValueType"@ {
        Category::Struct
    } else if name == "MulticastDelegate"@ {
        Category::Delegate
    } else if name == "Attribute"@ {
        Category::Attribute
    } else {
        Category::Class
    }
}

/// What a query with a yes-or-no answer gives, held against what the
/// database holds.
pub open spec fn is_flag(r: Result<bool, Error>, expected: Option<bool>) -> bool {
    match r {
        Ok(flag) => expected == Some(flag),
        Err(e) => expected is None && e is InvalidData,
    }
}

/// What a lookup of an attribute gives, held against the first attribute
/// of the given name among those looked at.
pub open spec fn is_first_named(r: Result<CustomAttribute, Error>, expected: Option<Option<int>>)
    -> bool {
    match r {
        Ok(found) => expected == Some(Some(found@.start())),
        Err(_) => expected is None || expected == Some(None::<int>),
    }
}

impl Database {
    /// The name of a type: column 1 of a `TypeDef` or `TypeRef` row. Rows
    /// of other tables have no name.
    pub open spec fn name_of_type(&self, target: (TableKind, int)) -> Option<Seq<char>> {
        if target.0 == TableKind::TypeDef || target.0 == TableKind::TypeRef {
            self.text(target.0, target.1, 1)
        } else {
            None
        }
    }

    /// The namespace of a type: column 2 of a `TypeDef` or `TypeRef` row.
    pub open spec fn namespace_of_type(&self, target: (TableKind, int)) -> Option<Seq<char>> {
        if target.0 == TableKind::TypeDef || target.0 == TableKind::TypeRef {
            self.text(target.0, target.1, 2)
        } else {
            None
        }
    }

    /// Whether a type has the given name and namespace. The name is read
    /// first; the namespace only where the name agrees. `None` where what
    /// has to be read cannot be read.
    pub open spec fn named(&self, target: (TableKind, int), namespace: Seq<char>, name: Seq<char>)
        -> Option<bool> {
        match self.name_of_type(target) {
            None => None,
            Some(found) => if found != name {
                Some(false)
            } else {
                match self.namespace_of_type(target) {
                    None => None,
                    Some(found) => Some(found == namespace),
                }
            },
        }
    }

    /// The category of the type in row `row`: an interface where the flags
    /// say so, whatever the type extends; else what the name of the base
    /// type stands for. `None` where the flags or the base type's name
    /// cannot be read.
    pub open spec fn category_of(&self, row: int) -> Option<Category> {
        match self.value(TableKind::TypeDef, row, 0) {
            None => None,
            Some(flags) => if (flags as u32) & 0x20 != 0 {
                Some(Category::Interface)
            } else {
                match self.reference(CodedIndex::TypeDefOrRef, TableKind::TypeDef, row, 3) {
                    Some(Some(base)) => match self.name_of_type(base) {
                        Some(name) => Some(category_named(name)),
                        None => None,
                    },
                    _ => None,
                }
            },
        }
    }

    /// The `TypeDef` table is ordered by the start of the method lists, as
    /// the format requires.
    pub open spec fn owners_sorted(&self) -> bool {
        self.sorted(TableKind::TypeDef, 0, self.rows(TableKind::TypeDef), 5)
    }

    /// The `CustomAttribute` table is ordered by parent, as the format
    /// requires.
    pub open spec fn attributes_sorted(&self) -> bool {
        self.sorted(TableKind::CustomAttribute, 0, self.rows(TableKind::CustomAttribute), 0)
    }

    /// The type that owns method `method`: the last row of `TypeDef` whose
    /// method list starts at or before the method. `None` where there is no
    /// such method or no such type.
    pub open spec fn owner_of(&self, method: int) -> Option<int> {
        let key = method + 1;
        let bound = choose|bound: int| #[trigger]
            self.is_upper_bound(
                TableKind::TypeDef,
                0,
                self.rows(TableKind::TypeDef),
                5,
                key,
                bound,
            );
        if 0 <= method < self.rows(TableKind::MethodDef) && 0 < bound {
            Some(bound - 1)
        } else {
            None
        }
    }

    /// Whether the attribute in row `row` is of the type with the given
    /// name. The type is the owner of the constructor that the row names:
    /// for a method defined here, the type that owns it; for a referenced
    /// member, the type or type reference that it belongs to. Any other
    /// shape is not of that type.
    pub open spec fn attribute_named(&self, row: int, namespace: Seq<char>, name: Seq<char>)
        -> Option<bool> {
        match self.reference(CodedIndex::CustomAttributeType, TableKind::CustomAttribute, row, 1) {
            None => None,
            Some(None) => Some(false),
            Some(Some((table, target))) => if table == TableKind::MethodDef {
                match self.owner_of(target) {
                    Some(owner) => self.named((TableKind::TypeDef, owner), namespace, name),
                    None => None,
                }
            } else {
                match self.reference(CodedIndex::MemberRefParent, TableKind::MemberRef, target, 0) {
                    None => None,
                    Some(None) => Some(false),
                    Some(Some(parent)) => if parent.0 == TableKind::TypeDef || parent.0
                        == TableKind::TypeRef {
                        self.named(parent, namespace, name)
                    } else {
                        Some(false)
                    },
                }
            },
        }
    }

    /// Whether the attribute in row `row` names a constructor defined in
    /// this database, whose owner is found by search.
    pub open spec fn attribute_by_method(&self, row: int) -> bool {
        self.reference(CodedIndex::CustomAttributeType, TableKind::CustomAttribute, row, 1)
            matches Some(Some((table, _))) && table == TableKind::MethodDef
    }

    /// Whether the type in row `row` has the given name and namespace.
    pub open spec fn type_matches(&self, row: int, namespace: Seq<char>, name: Seq<char>) -> bool {
        self.text(TableKind::TypeDef, row, 1) == Some(name) && self.text(
            TableKind::TypeDef,
            row,
            2,
        ) == Some(namespace)
    }

    /// Whether the name and the namespace of the type in row `row` are
    /// stored as the given bytes.
    pub open spec fn type_matches_bytes(&self, row: int, namespace: Seq<u8>, name: Seq<u8>)
        -> bool {
        self.run_of(TableKind::TypeDef, row, 1) == Some(name) && self.run_of(
            TableKind::TypeDef,
            row,
            2,
        ) == Some(namespace)
    }

    /// The first row of `TypeDef` whose name and namespace are stored as
    /// the given bytes.
    pub open spec fn is_found(&self, r: Option<TypeDef>, namespace: Seq<u8>, name: Seq<u8>)
        -> bool {
        match r {
            Some(found) => {
                &&& found@.is_row(self, TableKind::TypeDef, found@.start())
                &&& self.type_matches_bytes(found@.start(), namespace, name)
                &&& forall|i: int|
                    0 <= i < found@.start() ==> !#[trigger] self.type_matches_bytes(
                        i,
                        namespace,
                        name,
                    )
            },
            None => forall|i: int|
                0 <= i < self.rows(TableKind::TypeDef) ==> !#[trigger] self.type_matches_bytes(
                    i,
                    namespace,
                    name,
                ),
        }
    }

    /// A type has a name exactly when the name is stored as its encoding.
    pub proof fn lemma_type_matches(&self, row: int, namespace: Seq<char>, name: Seq<char>)
        ensures
            self.type_matches(row, namespace, name) <==> self.type_matches_bytes(
                row,
                vstd::utf8::encode_utf8(namespace),
                vstd::utf8::encode_utf8(name),
            ),
    {
        lemma_string_at_bytes(self.string_heap(), self.cell(TableKind::TypeDef, row, 1), name);
        lemma_string_at_bytes(self.string_heap(), self.cell(TableKind::TypeDef, row, 2), namespace);
    }

    /// The first type whose name and namespace are stored as the given
    /// bytes, if there is one.
    pub fn find_bytes<'a>(&'a self, namespace: &[u8], name: &[u8]) -> (r: Option<TypeDef<'a>>)
        ensures
            self.is_found(r, namespace@, name@),
    {
        let count: u32 = self.row_count(TableKind::TypeDef);
        let mut row: u32 = 0;
        while row < count
            invariant
                count == self.rows(TableKind::TypeDef),
                row <= count,
                forall|i: int|
                    0 <= i < row ==> !#[trigger] self.type_matches_bytes(i, namespace@, name@),
            decreases count - row,
        {
            if self.stored_as(row, 1, name) && self.stored_as(row, 2, namespace) {
                return match TypeDef::new(self, row) {
                    Ok(found) => Some(found),
                    Err(_) => None,
                };
            }
            row = row + 1;
        }
        None
    }

    /// Whether a string column of a type row is stored as the given bytes.
    fn stored_as(&self, row: u32, column: u32, bytes: &[u8]) -> (r: bool)
        ensures
            r == (self.run_of(TableKind::TypeDef, row as int, column as int) == Some(bytes@)),
    {
        match self.run(TableKind::TypeDef, row, column) {
            Ok(found) => same_bytes(found, bytes),
            Err(_) => false,
        }
    }

    /// The first type with the given namespace and name, if there is one.
    pub fn find<'a>(&'a self, namespace: &str, name: &str) -> (r: Option<TypeDef<'a>>)
        ensures
            match r {
                Some(found) => {
                    &&& found@.is_row(self, TableKind::TypeDef, found@.start())
                    &&& self.type_matches(found@.start(), namespace@, name@)
                    &&& forall|i: int|
                        0 <= i < found@.start() ==> !#[trigger] self.type_matches(
                            i,
                            namespace@,
                            name@,
                        )
                },
                None => forall|i: int|
                    0 <= i < self.rows(TableKind::TypeDef) ==> !#[trigger] self.type_matches(
                        i,
                        namespace@,
                        name@,
                    ),
            },
    {
        let r = self.find_bytes(namespace.as_bytes(), name.as_bytes());
        proof {
            assert forall|i: int|
                self.type_matches(i, namespace@, name@) == self.type_matches_bytes(
                    i,
                    namespace.spec_bytes(),
                    name.spec_bytes(),
                ) by {
                self.lemma_type_matches(i, namespace@, name@);
            }
        }
        r
    }

    /// The first attribute from row `from` to row `to` that is of the type
    /// with the given name. The outer `None` is a row before it whose type
    /// cannot be read; `Some(None)` is no such attribute.
    pub open spec fn first_named(&self, from: int, to: int, namespace: Seq<char>, name: Seq<char>)
        -> Option<Option<int>>
        decreases to - from,
    {
        if from >= to {
            Some(None)
        } else {
            match self.attribute_named(from, namespace, name) {
                None => None,
                Some(flag) => if flag {
                    Some(Some(from))
                } else {
                    self.first_named(from + 1, to, namespace, name)
                },
            }
        }
    }

    /// The rows whose column equals a value are one range only.
    pub proof fn lemma_equal_range_unique(
        &self,
        kind: TableKind,
        low: int,
        high: int,
        column: int,
        value: int,
        a: (int, int),
        b: (int, int),
    )
        requires
            self.is_equal_range(kind, low, high, column, value, a.0, a.1),
            self.is_equal_range(kind, low, high, column, value, b.0, b.1),
        ensures
            a == b,
    {
        if a.0 < b.0 {
            assert(self.cell(kind, a.0, column) < value);
        } else if b.0 < a.0 {
            assert(self.cell(kind, b.0, column) < value);
        }
        if a.1 < b.1 {
            assert(self.cell(kind, a.1, column) > value);
        } else if b.1 < a.1 {
            assert(self.cell(kind, b.1, column) > value);
        }
    }

    /// An upper bound is the only one.
    pub proof fn lemma_upper_bound_unique(
        &self,
        kind: TableKind,
        low: int,
        high: int,
        column: int,
        value: int,
        a: int,
        b: int,
    )
        requires
            self.is_upper_bound(kind, low, high, column, value, a),
            self.is_upper_bound(kind, low, high, column, value, b),
        ensures
            a == b,
    {
        if a < b {
            assert(self.cell(kind, a, column) <= value);
        } else if b < a {
            assert(self.cell(kind, b, column) <= value);
        }
    }
}

impl<'a> TypeRef<'a> {
    /// The name of the type.
    pub fn name(&self) -> (r: Result<&'a str, Error>)
        ensures
            is_text(r, self@.database().text(TableKind::TypeRef, self@.start(), 1)),
    {
        self.rows().str(1)
    }

    /// The namespace of the type.
    pub fn namespace(&self) -> (r: Result<&'a str, Error>)
        ensures
            is_text(r, self@.database().text(TableKind::TypeRef, self@.start(), 2)),
    {
        self.rows().str(2)
    }
}

impl<'a> TypeDefOrRef<'a> {
    /// The name of the type. Fails for a type given by signature, which
    /// has none.
    pub fn name(&self) -> (r: Result<&'a str, Error>)
        ensures
            is_text(r, self.rows().database().name_of_type((self.table(), self.rows().start()))),
    {
        match self {
            TypeDefOrRef::TypeDef(rows) => rows.name(),
            TypeDefOrRef::TypeRef(rows) => rows.name(),
            TypeDefOrRef::TypeSpec(_) => Err(invalid_data("type has no name")),
        }
    }

    /// The namespace of the type. Fails for a type given by signature,
    /// which has none.
    pub fn namespace(&self) -> (r: Result<&'a str, Error>)
        ensures
            is_text(
                r,
                self.rows().database().namespace_of_type((self.table(), self.rows().start())),
            ),
    {
        match self {
            TypeDefOrRef::TypeDef(rows) => rows.namespace(),
            TypeDefOrRef::TypeRef(rows) => rows.namespace(),
            TypeDefOrRef::TypeSpec(_) => Err(invalid_data("type has no namespace")),
        }
    }
}

impl<'a> TypeDef<'a> {
    /// The flags of the type.
    pub fn flags(&self) -> (r: Result<TypeAttributes, Error>)
        ensures
            match r {
                Ok(flags) => self@.database().value(TableKind::TypeDef, self@.start(), 0) == Some(
                    flags.0 as int,
                ),
                Err(e) => self@.database().value(TableKind::TypeDef, self@.start(), 0) is None
                    && e is InvalidData,
            },
    {
        match self.rows().u32(0) {
            Ok(value) => Ok(TypeAttributes(value)),
            Err(e) => Err(e),
        }
    }

    /// The name of the type.
    pub fn name(&self) -> (r: Result<&'a str, Error>)
        ensures
            is_text(r, self@.database().text(TableKind::TypeDef, self@.start(), 1)),
    {
        self.rows().str(1)
    }

    /// The namespace of the type.
    pub fn namespace(&self) -> (r: Result<&'a str, Error>)
        ensures
            is_text(r, self@.database().text(TableKind::TypeDef, self@.start(), 2)),
    {
        self.rows().str(2)
    }

    /// The type that this type extends; `None` where it extends none.
    pub fn extends(&self) -> (r: Result<Option<TypeDefOrRef<'a>>, Error>)
        ensures
            match r {
                Ok(Some(base)) => self@.database().reference(
                    CodedIndex::TypeDefOrRef,
                    TableKind::TypeDef,
                    self@.start(),
                    3,
                ) == Some(Some((base.table(), base.rows().start()))) && base.rows().is_row(
                    self@.database(),
                    base.table(),
                    base.rows().start(),
                ),
                Ok(None) => self@.database().reference(
                    CodedIndex::TypeDefOrRef,
                    TableKind::TypeDef,
                    self@.start(),
                    3,
                ) == Some(None::<(TableKind, int)>),
                Err(e) => self@.database().reference(
                    CodedIndex::TypeDefOrRef,
                    TableKind::TypeDef,
                    self@.start(),
                    3,
                ) is None && e is InvalidData,
            },
    {
        let rows = self.rows();
        match rows.u32(3) {
            Ok(raw) => TypeDefOrRef::decode(rows.db(), raw),
            Err(e) => Err(e),
        }
    }

    /// The methods that the type owns.
    pub fn methods(&self) -> (r: Result<MethodDef<'a>, Error>)
        ensures
            is_view(
                r,
                self@.database(),
                TableKind::MethodDef,
                self@.database().list_of(
                    TableKind::TypeDef,
                    self@.start(),
                    5,
                    TableKind::MethodDef,
                ),
            ),
    {
        match self.rows().list(5, TableKind::MethodDef) {
            Ok(rows) => match MethodDef::from_rows(rows) {
                Some(methods) => Ok(methods),
                None => Err(invalid_data("list is of another table")),
            },
            Err(e) => Err(e),
        }
    }

    /// The attributes attached to the type: the rows of `CustomAttribute`
    /// whose parent is this type, found by binary search. Where that table
    /// is not ordered by parent, the result is some range of its rows.
    pub fn attributes(&self) -> (r: Result<CustomAttribute<'a>, Error>)
        ensures
            match r {
                Ok(found) => {
                    &&& found.wf()
                    &&& found@.database() == self@.database()
                    &&& self@.database().attributes_sorted() ==> self@.database().is_equal_range(
                        TableKind::CustomAttribute,
                        0,
                        self@.database().rows(TableKind::CustomAttribute),
                        0,
                        encoded(CodedIndex::HasCustomAttribute, 3, self@.start()),
                        found@.start(),
                        found@.end(),
                    )
                },
                Err(_) => false,
            },
    {
        let db = self.rows().db();
        let count: u32 = db.row_count(TableKind::CustomAttribute);
        let parent: u64 = HasCustomAttribute::TypeDef(*self).encode();
        if parent > 0xFFFF_FFFF {
            return match CustomAttribute::range(db, count, count) {
                Ok(found) => Ok(found),
                Err(e) => Err(e),
            };
        }
        match db.equal_range(TableKind::CustomAttribute, 0, count, 0, parent as u32) {
            Ok((first, last)) => CustomAttribute::range(db, first, last),
            Err(e) => Err(e),
        }
    }

    /// The first attribute of the type that is of the attribute type with
    /// the given namespace and name. Fails where the type carries no such
    /// attribute, or the type of an attribute before it cannot be read. The
    /// result is as stated where the tables are ordered as the format
    /// requires.
    pub fn find_attribute(&self, namespace: &str, name: &str) -> (r: Result<
        CustomAttribute<'a>,
        Error,
    >)
        ensures
            match r {
                Ok(found) => found@.is_row(
                    self@.database(),
                    TableKind::CustomAttribute,
                    found@.start(),
                ),
                Err(e) => e is InvalidData,
            },
            self@.database().attributes_sorted() && self@.database().owners_sorted()
                ==> forall|first: int, last: int| #[trigger]
                self@.database().is_equal_range(
                    TableKind::CustomAttribute,
                    0,
                    self@.database().rows(TableKind::CustomAttribute),
                    0,
                    encoded(CodedIndex::HasCustomAttribute, 3, self@.start()),
                    first,
                    last,
                ) ==> is_first_named(
                    r,
                    self@.database().first_named(first, last, namespace@, name@),
                ),
    {
        let mut rest = match self.attributes() {
            Ok(found) => found,
            Err(e) => {
                return Err(e);
            },
        };
        let ghost db = self@.database();
        let ghost first = rest@.start();
        let ghost last = rest@.end();
        proof {
            if db.attributes_sorted() {
                assert forall|f: int, l: int| #[trigger]
                    db.is_equal_range(
                        TableKind::CustomAttribute,
                        0,
                        db.rows(TableKind::CustomAttribute),
                        0,
                        encoded(CodedIndex::HasCustomAttribute, 3, self@.start()),
                        f,
                        l,
                    ) implies f == first && l == last by {
                    db.lemma_equal_range_unique(
                        TableKind::CustomAttribute,
                        0,
                        db.rows(TableKind::CustomAttribute),
                        0,
                        encoded(CodedIndex::HasCustomAttribute, 3, self@.start()),
                        (f, l),
                        (first, last),
                    );
                }
            }
        }
        loop
            invariant
                rest.wf(),
                db == self@.database(),
                rest@.database() == db,
                rest@.end() == last,
                db.attributes_sorted() ==> forall|f: int, l: int| #[trigger]
                    db.is_equal_range(
                        TableKind::CustomAttribute,
                        0,
                        db.rows(TableKind::CustomAttribute),
                        0,
                        encoded(CodedIndex::HasCustomAttribute, 3, self@.start()),
                        f,
                        l,
                    ) ==> f == first && l == last,
                first <= rest@.start() <= last,
                db.owners_sorted() ==> db.first_named(first, last, namespace@, name@)
                    == db.first_named(rest@.start(), last, namespace@, name@),
            decreases rest@.end() - rest@.start(),
        {
            match rest.next() {
                Some(row) => match row.has_name(namespace, name) {
                    Ok(flag) => {
                        if flag {
                            return Ok(row);
                        }
                    },
                    Err(e) => {
                        return Err(e);
                    },
                },
                None => {
                    return Err(invalid_data("type carries no such attribute"));
                },
            }
        }
    }

    /// What kind of type this is.
    pub fn category(&self) -> (r: Result<Category, Error>)
        ensures
            match r {
                Ok(category) => self@.database().category_of(self@.start()) == Some(category),
                Err(e) => self@.database().category_of(self@.start()) is None && e is InvalidData,
            },
    {
        let flags = match self.flags() {
            Ok(flags) => flags,
            Err(e) => {
                return Err(e);
            },
        };
        if flags.interface() {
            return Ok(Category::Interface);
        }
        let base = match self.extends() {
            Ok(Some(base)) => base,
            Ok(None) => {
                return Err(invalid_data("type extends nothing"));
            },
            Err(e) => {
                return Err(e);
            },
        };
        let name = match base.name() {
            Ok(name) => name,
            Err(e) => {
                return Err(e);
            },
        };
        if same_text(name, "Enum") {
            Ok(Category::Enum)
        } else if same_text(name, "ValueType") {
            Ok(Category::Struct)
        } else if same_text(name, "MulticastDelegate") {
            Ok(Category::Delegate)
        } else if same_text(name, "Attribute") {
            Ok(Category::Attribute)
        } else {
            Ok(Category::Class)
        }
    }
}

impl<'a> MethodDef<'a> {
    /// The name of the method.
    pub fn name(&self) -> (r: Result<&'a str, Error>)
        ensures
            is_text(r, self@.database().text(TableKind::MethodDef, self@.start(), 3)),
    {
        self.rows().str(3)
    }

    /// The type that owns the method, found by binary search over the
    /// starts of the method lists. Where the `TypeDef` table is not ordered
    /// by them, the result is some type or a failure.
    pub fn parent(&self) -> (r: Result<TypeDef<'a>, Error>)
        ensures
            r matches Ok(owner) ==> owner@.is_row(
                self@.database(),
                TableKind::TypeDef,
                owner@.start(),
            ),
            r matches Err(e) ==> e is InvalidData,
            self@.database().owners_sorted() ==> match r {
                Ok(owner) => self@.database().owner_of(self@.start()) == Some(owner@.start()),
                Err(_) => self@.database().owner_of(self@.start()) is None,
            },
    {
        let rows = self.rows();
        let db = rows.db();
        let method: u32 = rows.first();
        if method >= db.row_count(TableKind::MethodDef) {
            return Err(invalid_data("row is out of range"));
        }
        let count: u32 = db.row_count(TableKind::TypeDef);
        match db.upper_bound(TableKind::TypeDef, 0, count, 5, method + 1) {
            Ok(bound) => {
                proof {
                    if db.owners_sorted() {
                        let key = method + 1;
                        let chosen = choose|b: int| #[trigger]
                            db.is_upper_bound(TableKind::TypeDef, 0, count as int, 5, key, b);
                        db.lemma_upper_bound_unique(
                            TableKind::TypeDef,
                            0,
                            count as int,
                            5,
                            method + 1,
                            bound as int,
                            chosen,
                        );
                    }
                }
                if bound == 0 {
                    Err(invalid_data("method has no owner"))
                } else {
                    TypeDef::new(db, bound - 1)
                }
            },
            Err(e) => Err(e),
        }
    }
}

impl<'a> MemberRef<'a> {
    /// Where the member lives; `None` for the null reference.
    pub fn class(&self) -> (r: Result<Option<MemberRefParent<'a>>, Error>)
        ensures
            match r {
                Ok(Some(parent)) => self@.database().reference(
                    CodedIndex::MemberRefParent,
                    TableKind::MemberRef,
                    self@.start(),
                    0,
                ) == Some(Some((parent.table(), parent.rows().start()))) && parent.rows().is_row(
                    self@.database(),
                    parent.table(),
                    parent.rows().start(),
                ),
                Ok(None) => self@.database().reference(
                    CodedIndex::MemberRefParent,
                    TableKind::MemberRef,
                    self@.start(),
                    0,
                ) == Some(None::<(TableKind, int)>),
                Err(e) => self@.database().reference(
                    CodedIndex::MemberRefParent,
                    TableKind::MemberRef,
                    self@.start(),
                    0,
                ) is None && e is InvalidData,
            },
    {
        let rows = self.rows();
        match rows.u32(0) {
            Ok(raw) => MemberRefParent::decode(rows.db(), raw),
            Err(e) => Err(e),
        }
    }

    /// The name of the member.
    pub fn name(&self) -> (r: Result<&'a str, Error>)
        ensures
            is_text(r, self@.database().text(TableKind::MemberRef, self@.start(), 1)),
    {
        self.rows().str(1)
    }
}

impl<'a> CustomAttribute<'a> {
    /// What the attribute is attached to; `None` for the null reference.
    pub fn parent(&self) -> (r: Result<Option<HasCustomAttribute<'a>>, Error>)
        ensures
            match r {
                Ok(Some(parent)) => self@.database().reference(
                    CodedIndex::HasCustomAttribute,
                    TableKind::CustomAttribute,
                    self@.start(),
                    0,
                ) == Some(Some((parent.table(), parent.rows().start()))) && parent.rows().is_row(
                    self@.database(),
                    parent.table(),
                    parent.rows().start(),
                ),
                Ok(None) => self@.database().reference(
                    CodedIndex::HasCustomAttribute,
                    TableKind::CustomAttribute,
                    self@.start(),
                    0,
                ) == Some(None::<(TableKind, int)>),
                Err(e) => self@.database().reference(
                    CodedIndex::HasCustomAttribute,
                    TableKind::CustomAttribute,
                    self@.start(),
                    0,
                ) is None && e is InvalidData,
            },
    {
        let rows = self.rows();
        match rows.u32(0) {
            Ok(raw) => HasCustomAttribute::decode(rows.db(), raw),
            Err(e) => Err(e),
        }
    }

    /// The constructor that applies the attribute; `None` for the null
    /// reference.
    pub fn class(&self) -> (r: Result<Option<CustomAttributeType<'a>>, Error>)
        ensures
            match r {
                Ok(Some(class)) => self@.database().reference(
                    CodedIndex::CustomAttributeType,
                    TableKind::CustomAttribute,
                    self@.start(),
                    1,
                ) == Some(Some((class.table(), class.rows().start()))) && class.rows().is_row(
                    self@.database(),
                    class.table(),
                    class.rows().start(),
                ),
                Ok(None) => self@.database().reference(
                    CodedIndex::CustomAttributeType,
                    TableKind::CustomAttribute,
                    self@.start(),
                    1,
                ) == Some(None::<(TableKind, int)>),
                Err(e) => self@.database().reference(
                    CodedIndex::CustomAttributeType,
                    TableKind::CustomAttribute,
                    self@.start(),
                    1,
                ) is None && e is InvalidData,
            },
    {
        let rows = self.rows();
        match rows.u32(1) {
            Ok(raw) => CustomAttributeType::decode(rows.db(), raw),
            Err(e) => Err(e),
        }
    }

    /// Whether the attribute is of the type with the given namespace and
    /// name. Where the constructor is a method defined here, its owner is
    /// found by search, and the answer is as stated where the `TypeDef`
    /// table is ordered by the starts of the method lists.
    pub fn has_name(&self, namespace: &str, name: &str) -> (r: Result<bool, Error>)
        ensures
            r matches Err(e) ==> e is InvalidData,
            (self@.database().attribute_by_method(self@.start())
                ==> self@.database().owners_sorted()) ==> is_flag(
                r,
                self@.database().attribute_named(self@.start(), namespace@, name@),
            ),
    {
        let class = match self.class() {
            Ok(Some(class)) => class,
            Ok(None) => {
                return Ok(false);
            },
            Err(e) => {
                return Err(e);
            },
        };
        match class {
            CustomAttributeType::MethodDef(method) => {
                let owner = match method.parent() {
                    Ok(owner) => owner,
                    Err(e) => {
                        return Err(e);
                    },
                };
                let found = match owner.name() {
                    Ok(found) => found,
                    Err(e) => {
                        return Err(e);
                    },
                };
                if !same_text(found, name) {
                    return Ok(false);
                }
                match owner.namespace() {
                    Ok(found) => Ok(same_text(found, namespace)),
                    Err(e) => Err(e),
                }
            },
            CustomAttributeType::MemberRef(member) => {
                let parent = match member.class() {
                    Ok(Some(parent)) => parent,
                    Ok(None) => {
                        return Ok(false);
                    },
                    Err(e) => {
                        return Err(e);
                    },
                };
                match parent {
                    MemberRefParent::TypeDef(found) => {
                        let text = match found.name() {
                            Ok(text) => text,
                            Err(e) => {
                                return Err(e);
                            },
                        };
                        if !same_text(text, name) {
                            return Ok(false);
                        }
                        match found.namespace() {
                            Ok(text) => Ok(same_text(text, namespace)),
                            Err(e) => Err(e),
                        }
                    },
                    MemberRefParent::TypeRef(found) => {
                        let text = match found.name() {
                            Ok(text) => text,
                            Err(e) => {
                                return Err(e);
                            },
                        };
                        if !same_text(text, name) {
                            return Ok(false);
                        }
                        match found.namespace() {
                            Ok(text) => Ok(same_text(text, namespace)),
                            Err(e) => Err(e),
                        }
                    },
                    _ => Ok(false),
                }
            },
        }
    }
}

} // verus!
