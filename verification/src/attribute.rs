//! The arguments of a custom attribute, decoded from its value blob: first
//! the positional arguments, whose types the constructor's signature
//! gives, then the named arguments, each with its own type and name.

use crate::bytes::{compressed, le_fits, le_value, read_compressed, read_le, signed32, to_signed};
use crate::database::Database;
use crate::error::{invalid_data, Error};
use crate::heap::decode;
use crate::lists::{
    lemma_prepend_empty, lemma_prepend_one, lemma_prepend_to_empty, lemma_prepend_to_one, prepend,
    prepend_to,
};
use crate::references::CustomAttributeType;
use crate::schema::{CodedIndex, TableKind};
use crate::views::{CustomAttribute, TypeDef};
use vstd::prelude::*;
use vstd::slice::slice_subrange;
use vstd::utf8::{decode_utf8, valid_utf8};

verus! {

/// A decoded argument.
#[derive(Clone, Copy)]
pub enum ArgumentSig<'a> {
    /// A boolean.
    Bool(bool),
    /// A 32-bit signed integer, or a value of an enum.
    I32(i32),
    /// A string.
    String(&'a str),
    /// A type, looked up by name in the database.
    Type(TypeDef<'a>),
}

/// What a decoded argument holds: the value, the text, or the row of the
/// type.
pub enum Argument {
    Bool(bool),
    I32(int),
    String(Seq<char>),
    Type(int),
}

impl<'a> View for ArgumentSig<'a> {
    type V = Argument;

    open spec fn view(&self) -> Argument {
        match self {
            ArgumentSig::Bool(value) => Argument::Bool(*value),
            ArgumentSig::I32(value) => Argument::I32(*value as int),
            ArgumentSig::String(text) => Argument::String(text@),
            ArgumentSig::Type(found) => Argument::Type(found@.start()),
        }
    }
}

/// The element type of a boolean.
pub const ELEMENT_BOOLEAN: u8 = 0x02;

/// The element type of a 32-bit signed integer.
pub const ELEMENT_I4: u8 = 0x08;

/// The element type of a string.
pub const ELEMENT_STRING: u8 = 0x0E;

/// The element type of a value type given by a token.
pub const ELEMENT_VALUETYPE: u8 = 0x11;

/// The element type of a class given by a token.
pub const ELEMENT_CLASS: u8 = 0x12;

/// The element type of a type, in a named argument.
pub const ELEMENT_TYPE: u8 = 0x50;

/// The element type of an enum, in a named argument.
pub const ELEMENT_ENUM: u8 = 0x55;

/// The element type of nothing: what a constructor returns.
pub const ELEMENT_VOID: u8 = 0x01;

/// The byte that marks a named argument as a field.
pub const NAMED_FIELD: u8 = 0x53;

/// The byte that marks a named argument as a property.
pub const NAMED_PROPERTY: u8 = 0x54;

/// The first byte of the signature of an instance method.
pub const SIGNATURE_HASTHIS: u8 = 0x20;

/// What a list of decoded arguments holds.
pub open spec fn arguments_view<'a>(arguments: Seq<(&'a str, ArgumentSig<'a>)>) -> Seq<
    (Seq<char>, Argument),
> {
    Seq::new(arguments.len(), |i: int| (arguments[i].0@, arguments[i].1@))
}

/// The length-prefixed bytes at `at`, and where they end.
pub open spec fn ser_string(data: Seq<u8>, at: int) -> Option<(Seq<u8>, int)> {
    match compressed(data, at) {
        Some((len, width)) => if at + width + len <= data.len() {
            Some((data.subrange(at + width, at + width + len), at + width + len))
        } else {
            None
        },
        None => None,
    }
}

/// The length-prefixed string at `at`, and where it ends.
pub open spec fn text_at(data: Seq<u8>, at: int) -> Option<(Seq<char>, int)> {
    match ser_string(data, at) {
        Some((bytes, next)) => if valid_utf8(bytes) {
            Some((decode_utf8(bytes), next))
        } else {
            None
        },
        None => None,
    }
}

/// The position of the last dot in `name`, or -1 where it has none.
pub open spec fn last_dot(name: Seq<u8>) -> int
    decreases name.len(),
{
    if name.len() == 0 {
        -1
    } else if name.last() == 0x2E {
        name.len() - 1
    } else {
        last_dot(name.drop_last())
    }
}

/// The namespace and the name that a qualified name holds: what stands
/// before its last dot, and what stands after it. A name without a dot has
/// the empty namespace.
pub open spec fn split_name(name: Seq<u8>) -> (Seq<u8>, Seq<u8>) {
    let dot = last_dot(name);
    if dot < 0 {
        (Seq::empty(), name)
    } else {
        (name.subrange(0, dot), name.subrange(dot + 1, name.len() as int))
    }
}

impl Database {
    /// The first row of `TypeDef` from `from` on whose namespace and name
    /// are stored as the given bytes.
    pub open spec fn first_type(&self, namespace: Seq<u8>, name: Seq<u8>, from: int) -> Option<int>
        decreases self.rows(TableKind::TypeDef) - from,
    {
        if from < 0 || from >= self.rows(TableKind::TypeDef) {
            None
        } else if self.type_matches_bytes(from, namespace, name) {
            Some(from)
        } else {
            self.first_type(namespace, name, from + 1)
        }
    }

    /// The type that a qualified name stands for.
    pub open spec fn type_called(&self, name: Seq<u8>) -> Option<int> {
        self.first_type(split_name(name).0, split_name(name).1, 0)
    }

    /// A row that matches, with none before it from `from` on, is the
    /// first type from `from` on; and where no row matches, there is none.
    pub proof fn lemma_first_type(
        &self,
        namespace: Seq<u8>,
        name: Seq<u8>,
        from: int,
        found: Option<int>,
    )
        requires
            0 <= from,
            match found {
                Some(row) => from <= row < self.rows(TableKind::TypeDef)
                    && self.type_matches_bytes(row, namespace, name),
                None => true,
            },
            forall|i: int|
                from <= i < (match found {
                    Some(row) => row,
                    None => self.rows(TableKind::TypeDef),
                }) ==> !#[trigger] self.type_matches_bytes(i, namespace, name),
        ensures
            self.first_type(namespace, name, from) == found,
        decreases self.rows(TableKind::TypeDef) - from,
    {
        if from < self.rows(TableKind::TypeDef) && found != Some(from) {
            self.lemma_first_type(namespace, name, from + 1, found);
        }
    }

    /// The value of an argument of element type `kind` at `at`, and where
    /// it ends: a boolean is one byte, an integer or a value of an enum four
    /// bytes, a string is length-prefixed, and a type is a length-prefixed
    /// qualified name that is looked up in the database.
    pub open spec fn argument_value(&self, data: Seq<u8>, at: int, kind: u8) -> Option<
        (Argument, int),
    > {
        if kind == ELEMENT_BOOLEAN {
            if le_fits(data, at, 1) {
                Some((Argument::Bool(data[at] != 0), at + 1))
            } else {
                None
            }
        } else if kind == ELEMENT_I4 || kind == ELEMENT_ENUM {
            if le_fits(data, at, 4) {
                Some((Argument::I32(signed32(le_value(data, at, 4))), at + 4))
            } else {
                None
            }
        } else if kind == ELEMENT_STRING {
            match text_at(data, at) {
                Some((text, next)) => Some((Argument::String(text), next)),
                None => None,
            }
        } else if kind == ELEMENT_TYPE {
            match ser_string(data, at) {
                Some((name, next)) => if valid_utf8(name) {
                    match self.type_called(name) {
                        Some(row) => Some((Argument::Type(row), next)),
                        None => None,
                    }
                } else {
                    None
                },
                None => None,
            }
        } else {
            None
        }
    }

    /// The named argument at `at`, and where it ends: a byte that says
    /// field or property, the element type, for an enum the name of its
    /// type, then the name of the argument and its value.
    pub open spec fn named_argument(&self, data: Seq<u8>, at: int) -> Option<
        ((Seq<char>, Argument), int),
    > {
        if !(0 <= at && at + 2 <= data.len()) {
            None
        } else if data[at] != NAMED_FIELD && data[at] != NAMED_PROPERTY {
            None
        } else {
            let kind = data[at + 1];
            let name_at = if kind == ELEMENT_ENUM {
                match ser_string(data, at + 2) {
                    Some((_, next)) => Some(next),
                    None => None,
                }
            } else {
                Some(at + 2)
            };
            match name_at {
                Some(name_at) => match text_at(data, name_at) {
                    Some((name, value_at)) => match self.argument_value(data, value_at, kind) {
                        Some((value, next)) => Some(((name, value), next)),
                        None => None,
                    },
                    None => None,
                },
                None => None,
            }
        }
    }

    /// The `count` named arguments from `at` on.
    pub open spec fn named_arguments(&self, data: Seq<u8>, at: int, count: int) -> Option<
        Seq<(Seq<char>, Argument)>,
    >
        decreases count,
    {
        if count <= 0 {
            Some(Seq::empty())
        } else {
            match self.named_argument(data, at) {
                Some((argument, next)) => prepend(
                    seq![argument],
                    self.named_arguments(data, next, count - 1),
                ),
                None => None,
            }
        }
    }

    /// The `count` positional arguments from `at` on, whose types the
    /// signature gives from `sig_at` on, and where they end. A positional
    /// argument has the empty name.
    pub open spec fn fixed_arguments(
        &self,
        sig: Seq<u8>,
        sig_at: int,
        data: Seq<u8>,
        at: int,
        count: int,
    ) -> Option<(Seq<(Seq<char>, Argument)>, int)>
        decreases count,
    {
        if count <= 0 {
            Some((Seq::empty(), at))
        } else {
            match parameter(sig, sig_at) {
                Some((kind, sig_next)) => match self.argument_value(data, at, kind) {
                    Some((value, next)) => prepend_to(
                        seq![(""@, value)],
                        self.fixed_arguments(sig, sig_next, data, next, count - 1),
                    ),
                    None => None,
                },
                None => None,
            }
        }
    }

    /// The arguments that the value blob `data` holds for a constructor
    /// with the signature `sig`: after the prolog, the positional
    /// arguments, then a 16-bit count and that many named arguments.
    pub open spec fn arguments_of(&self, sig: Seq<u8>, data: Seq<u8>) -> Option<
        Seq<(Seq<char>, Argument)>,
    > {
        match signature_start(sig) {
            Some((count, sig_at)) => if le_fits(data, 0, 2) && le_value(data, 0, 2) == 1 {
                match self.fixed_arguments(sig, sig_at, data, 2, count) {
                    Some((fixed, at)) => if le_fits(data, at, 2) {
                        prepend(fixed, self.named_arguments(data, at + 2, le_value(data, at, 2)))
                    } else {
                        None
                    },
                    None => None,
                }
            } else {
                None
            },
            None => None,
        }
    }

    /// The signature of the constructor that the attribute in row `row`
    /// names: column 4 of a method defined here, column 2 of a referenced
    /// member.
    pub open spec fn constructor_signature(&self, row: int) -> Option<Seq<u8>> {
        match self.reference(CodedIndex::CustomAttributeType, TableKind::CustomAttribute, row, 1) {
            Some(Some((table, target))) => if table == TableKind::MethodDef {
                self.blob_of(TableKind::MethodDef, target, 4)
            } else {
                self.blob_of(TableKind::MemberRef, target, 2)
            },
            _ => None,
        }
    }

    /// The arguments of the attribute in row `row`.
    pub open spec fn attribute_arguments(&self, row: int) -> Option<Seq<(Seq<char>, Argument)>> {
        match self.constructor_signature(row) {
            Some(sig) => match self.blob_of(TableKind::CustomAttribute, row, 2) {
                Some(data) => self.arguments_of(sig, data),
                None => None,
            },
            None => None,
        }
    }
}

/// What a constructor's signature starts with: the byte of an instance
/// method, the number of parameters, and nothing as the return type. Gives
/// the number of parameters and where their types start.
pub open spec fn signature_start(sig: Seq<u8>) -> Option<(int, int)> {
    if sig.len() >= 1 && sig[0] == SIGNATURE_HASTHIS {
        match compressed(sig, 1) {
            Some((count, width)) => if 1 + width < sig.len() && sig[1 + width] == ELEMENT_VOID {
                Some((count, 2 + width))
            } else {
                None
            },
            None => None,
        }
    } else {
        None
    }
}

/// The type of the parameter at `at` of a signature, as the element type
/// that its value is stored with, and where the next parameter starts. A
/// value type stands for an enum and a class for a type; both are followed
/// by a token.
pub open spec fn parameter(sig: Seq<u8>, at: int) -> Option<(u8, int)> {
    if !(0 <= at < sig.len()) {
        None
    } else if sig[at] == ELEMENT_BOOLEAN || sig[at] == ELEMENT_I4 || sig[at] == ELEMENT_STRING {
        Some((sig[at], at + 1))
    } else if sig[at] == ELEMENT_VALUETYPE || sig[at] == ELEMENT_CLASS {
        match compressed(sig, at + 1) {
            Some((_, width)) => Some(
                (
                    if sig[at] == ELEMENT_VALUETYPE {
                        ELEMENT_ENUM
                    } else {
                        ELEMENT_TYPE
                    },
                    at + 1 + width,
                ),
            ),
            None => None,
        }
    } else {
        None
    }
}

/// Reads the length-prefixed bytes at `at`.
fn read_ser_string<'a>(data: &'a [u8], at: usize) -> (r: Option<(&'a [u8], usize)>)
    ensures
        match r {
            Some((bytes, next)) => ser_string(data@, at as int) == Some((bytes@, next as int)),
            None => ser_string(data@, at as int) is None,
        },
{
    let total: usize = data.len();
    match read_compressed(data, at) {
        Some((len, width)) => {
            let start: usize = at + width;
            if len as usize > total - start {
                None
            } else {
                Some((slice_subrange(data, start, start + len as usize), start + len as usize))
            }
        },
        None => None,
    }
}

/// Reads the length-prefixed string at `at`.
fn read_text<'a>(data: &'a [u8], at: usize) -> (r: Option<(&'a str, usize)>)
    ensures
        match r {
            Some((text, next)) => text_at(data@, at as int) == Some((text@, next as int)),
            None => text_at(data@, at as int) is None,
        },
{
    match read_ser_string(data, at) {
        Some((bytes, next)) => match decode(bytes) {
            Some(text) => Some((text, next)),
            None => None,
        },
        None => None,
    }
}

/// Splits a qualified name at its last dot.
fn split<'a>(name: &'a [u8]) -> (r: (&'a [u8], &'a [u8]))
    ensures
        (r.0@, r.1@) == split_name(name@),
{
    let total: usize = name.len();
    let mut end: usize = total;
    assert(name@.subrange(0, end as int) =~= name@);
    while end > 0
        invariant
            end <= total,
            total == name@.len(),
            last_dot(name@) == last_dot(name@.subrange(0, end as int)),
        decreases end,
    {
        if name[end - 1] == 0x2E {
            let front = slice_subrange(name, 0, end - 1);
            let back = slice_subrange(name, end, total);
            return (front, back);
        }
        assert(name@.subrange(0, end as int).drop_last() =~= name@.subrange(0, end - 1));
        end = end - 1;
    }
    (slice_subrange(name, 0, 0), name)
}

/// Reads the value of an argument of element type `kind` at `at`.
fn read_value<'a>(db: &'a Database, data: &'a [u8], at: usize, kind: u8) -> (r: Option<
    (ArgumentSig<'a>, usize),
>)
    ensures
        match r {
            Some((value, next)) => db.argument_value(data@, at as int, kind) == Some(
                (value@, next as int),
            ),
            None => db.argument_value(data@, at as int, kind) is None,
        },
{
    let total: usize = data.len();
    if kind == ELEMENT_BOOLEAN {
        match read_le(data, at, 1) {
            Some(value) => Some((ArgumentSig::Bool(value != 0), at + 1)),
            None => None,
        }
    } else if kind == ELEMENT_I4 || kind == ELEMENT_ENUM {
        match read_le(data, at, 4) {
            Some(value) => Some((ArgumentSig::I32(to_signed(value)), at + 4)),
            None => None,
        }
    } else if kind == ELEMENT_STRING {
        match read_text(data, at) {
            Some((text, next)) => Some((ArgumentSig::String(text), next)),
            None => None,
        }
    } else if kind == ELEMENT_TYPE {
        match read_ser_string(data, at) {
            Some((name, next)) => {
                if decode(name).is_none() {
                    return None;
                }
                let (namespace, short) = split(name);
                let found = db.find_bytes(namespace, short);
                proof {
                    db.lemma_first_type(
                        namespace@,
                        short@,
                        0,
                        match found {
                            Some(found) => Some(found@.start()),
                            None => None,
                        },
                    );
                }
                match found {
                    Some(found) => Some((ArgumentSig::Type(found), next)),
                    None => None,
                }
            },
            None => None,
        }
    } else {
        None
    }
}

/// Reads the type of the parameter at `at` of a signature.
fn read_parameter(sig: &[u8], at: usize) -> (r: Option<(u8, usize)>)
    ensures
        match r {
            Some((kind, next)) => parameter(sig@, at as int) == Some((kind, next as int)),
            None => parameter(sig@, at as int) is None,
        },
{
    if at >= sig.len() {
        return None;
    }
    let kind: u8 = sig[at];
    if kind == ELEMENT_BOOLEAN || kind == ELEMENT_I4 || kind == ELEMENT_STRING {
        Some((kind, at + 1))
    } else if kind == ELEMENT_VALUETYPE || kind == ELEMENT_CLASS {
        match read_compressed(sig, at + 1) {
            Some((_, width)) => Some(
                (
                    if kind == ELEMENT_VALUETYPE {
                        ELEMENT_ENUM
                    } else {
                        ELEMENT_TYPE
                    },
                    at + 1 + width,
                ),
            ),
            None => None,
        }
    } else {
        None
    }
}

/// Reads the start of a constructor's signature.
fn read_signature_start(sig: &[u8]) -> (r: Option<(u32, usize)>)
    ensures
        match r {
            Some((count, at)) => signature_start(sig@) == Some((count as int, at as int)),
            None => signature_start(sig@) is None,
        },
{
    if sig.len() < 1 || sig[0] != SIGNATURE_HASTHIS {
        return None;
    }
    match read_compressed(sig, 1) {
        Some((count, width)) => {
            if 1 + width < sig.len() && sig[1 + width] == ELEMENT_VOID {
                Some((count, 2 + width))
            } else {
                None
            }
        },
        None => None,
    }
}

/// Reads the named argument at `at`.
fn read_named<'a>(db: &'a Database, data: &'a [u8], at: usize) -> (r: Option<
    ((&'a str, ArgumentSig<'a>), usize),
>)
    ensures
        match r {
            Some((argument, next)) => db.named_argument(data@, at as int) == Some(
                ((argument.0@, argument.1@), next as int),
            ),
            None => db.named_argument(data@, at as int) is None,
        },
{
    let total: usize = data.len();
    if total < 2 || at > total - 2 {
        return None;
    }
    if data[at] != NAMED_FIELD && data[at] != NAMED_PROPERTY {
        return None;
    }
    let kind: u8 = data[at + 1];
    let name_at: usize = if kind == ELEMENT_ENUM {
        match read_ser_string(data, at + 2) {
            Some((_, next)) => next,
            None => {
                return None;
            },
        }
    } else {
        at + 2
    };
    let (name, value_at) = match read_text(data, name_at) {
        Some(found) => found,
        None => {
            return None;
        },
    };
    match read_value(db, data, value_at, kind) {
        Some((value, next)) => Some(((name, value), next)),
        None => None,
    }
}

/// Decodes the arguments that `data` holds for a constructor with the
/// signature `sig`.
pub fn decode_arguments<'a>(db: &'a Database, sig: &[u8], data: &'a [u8]) -> (r: Result<
    Vec<(&'a str, ArgumentSig<'a>)>,
    Error,
>)
    ensures
        match r {
            Ok(arguments) => db.arguments_of(sig@, data@) == Some(arguments_view(arguments@)),
            Err(e) => db.arguments_of(sig@, data@) is None && e is InvalidData,
        },
{
    let total: usize = data.len();
    let (count, sig_start) = match read_signature_start(sig) {
        Some(start) => start,
        None => {
            return Err(invalid_data("constructor signature is malformed"));
        },
    };
    match read_le(data, 0, 2) {
        Some(1) => {},
        _ => {
            return Err(invalid_data("attribute value has no prolog"));
        },
    }
    let mut arguments: Vec<(&'a str, ArgumentSig<'a>)> = Vec::new();
    let mut sig_at: usize = sig_start;
    let mut at: usize = 2;
    let mut done: u32 = 0;
    proof {
        assert(arguments_view(arguments@) =~= Seq::empty());
        lemma_prepend_to_empty(
            arguments_view(arguments@),
            db.fixed_arguments(sig@, sig_at as int, data@, at as int, count as int),
            0,
        );
    }
    while done < count
        invariant
            done <= count,
            signature_start(sig@) == Some((count as int, sig_start as int)),
            le_fits(data@, 0, 2) && le_value(data@, 0, 2) == 1,
            db.fixed_arguments(sig@, sig_start as int, data@, 2, count as int) == prepend_to(
                arguments_view(arguments@),
                db.fixed_arguments(sig@, sig_at as int, data@, at as int, count - done),
            ),
        decreases count - done,
    {
        let ghost before = arguments@;
        let (kind, sig_next) = match read_parameter(sig, sig_at) {
            Some(found) => found,
            None => {
                return Err(invalid_data("parameter type is not supported"));
            },
        };
        let (value, next) = match read_value(db, data, at, kind) {
            Some(found) => found,
            None => {
                return Err(invalid_data("positional argument is malformed"));
            },
        };
        proof {
            let left = count - done - 1;
            assert(arguments_view(before.push(("", value))) =~= arguments_view(before).push(
                (""@, value@),
            ));
            lemma_prepend_to_one(
                arguments_view(before),
                (""@, value@),
                db.fixed_arguments(sig@, sig_next as int, data@, next as int, left),
            );
        }
        arguments.push(("", value));
        sig_at = sig_next;
        at = next;
        done = done + 1;
    }
    let ghost fixed = arguments_view(arguments@);
    proof {
        lemma_prepend_to_empty(fixed, None, at as int);
    }
    let named: u32 = match read_le(data, at, 2) {
        Some(named) => named,
        None => {
            return Err(invalid_data("attribute value ends before its named arguments"));
        },
    };
    let named_start: usize = at + 2;
    at = named_start;
    done = 0;
    while done < named
        invariant
            done <= named,
            signature_start(sig@) == Some((count as int, sig_start as int)),
            le_fits(data@, 0, 2) && le_value(data@, 0, 2) == 1,
            db.fixed_arguments(sig@, sig_start as int, data@, 2, count as int) == Some(
                (fixed, named_start - 2),
            ),
            le_fits(data@, named_start - 2, 2),
            named == le_value(data@, named_start - 2, 2),
            prepend(fixed, db.named_arguments(data@, named_start as int, named as int)) == prepend(
                arguments_view(arguments@),
                db.named_arguments(data@, at as int, named - done),
            ),
        decreases named - done,
    {
        let ghost before = arguments@;
        let (argument, next) = match read_named(db, data, at) {
            Some(found) => found,
            None => {
                return Err(invalid_data("named argument is malformed"));
            },
        };
        proof {
            assert(arguments_view(before.push(argument)) =~= arguments_view(before).push(
                (argument.0@, argument.1@),
            ));
            lemma_prepend_one(
                arguments_view(before),
                (argument.0@, argument.1@),
                db.named_arguments(data@, next as int, named - done - 1),
            );
        }
        arguments.push(argument);
        at = next;
        done = done + 1;
    }
    proof {
        lemma_prepend_empty(arguments_view(arguments@), None);
    }
    Ok(arguments)
}

impl<'a> CustomAttribute<'a> {
    /// The signature of the constructor that applies the attribute.
    fn signature(&self) -> (r: Result<&'a [u8], Error>)
        ensures
            match r {
                Ok(sig) => self@.database().constructor_signature(self@.start()) == Some(sig@),
                Err(e) => self@.database().constructor_signature(self@.start()) is None
                    && e is InvalidData,
            },
    {
        match self.class() {
            Ok(Some(CustomAttributeType::MethodDef(method))) => method.rows().blob(4),
            Ok(Some(CustomAttributeType::MemberRef(member))) => member.rows().blob(2),
            Ok(None) => Err(invalid_data("attribute has no constructor")),
            Err(e) => Err(e),
        }
    }

    /// The arguments of the attribute: the positional ones, in the order
    /// of the constructor's parameters and with the empty name, then the
    /// named ones in stored order. Fails where the signature or the value
    /// blob cannot be read or ends early, an element type is not one of
    /// boolean, 32-bit integer, string, type and enum, or a type's name is
    /// not found in the database.
    pub fn arguments(&self) -> (r: Result<Vec<(&'a str, ArgumentSig<'a>)>, Error>)
        ensures
            match r {
                Ok(arguments) => self@.database().attribute_arguments(self@.start()) == Some(
                    arguments_view(arguments@),
                ),
                Err(e) => self@.database().attribute_arguments(self@.start()) is None
                    && e is InvalidData,
            },
    {
        let sig = match self.signature() {
            Ok(sig) => sig,
            Err(e) => {
                return Err(e);
            },
        };
        let rows = self.rows();
        match rows.blob(2) {
            Ok(data) => decode_arguments(rows.db(), sig, data),
            Err(e) => Err(e),
        }
    }
}

} // verus!
