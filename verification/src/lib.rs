//! Reader for ECMA-335 metadata as stored in Windows Runtime `.winmd` files.
//!
//! A [`Database`] owns the bytes of one metadata stream set and the layout
//! of its tables. Row views borrow the database and expose typed columns;
//! every decoding step is specified against the bytes themselves.

pub mod attribute;
pub mod bytes;
pub mod codes;
pub mod database;
pub mod equal;
pub mod error;
pub mod flags;
pub mod heap;
pub mod laws;
pub mod layout;
pub mod lists;
pub mod pe;
pub mod references;
pub mod root;
pub mod rows;
pub mod schema;
pub mod tables;
pub mod views;

pub use crate::attribute::ArgumentSig;
pub use crate::database::{Database, Region};
pub use crate::error::{invalid_data, Error};
pub use crate::flags::{MethodAttributes, TypeAttributes};
pub use crate::layout::Sizes;
pub use crate::references::{CustomAttributeType, HasCustomAttribute, MemberRefParent, TypeDefOrRef};
pub use crate::rows::Rows;
pub use crate::schema::{CodedIndex, Column, TableKind};
pub use crate::tables::Category;
pub use crate::views::{CustomAttribute, MemberRef, MethodDef, TypeDef, TypeRef};
