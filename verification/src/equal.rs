//! Equality of decoded arguments: two arguments are equal where they hold
//! the same value, the same text, or the same row of the type table.

use crate::attribute::ArgumentSig;
use crate::heap::same_text;
use vstd::prelude::*;
use vstd::std_specs::cmp::PartialEqSpecImpl;

verus! {

impl<'a> PartialEq for ArgumentSig<'a> {
    fn eq(&self, other: &ArgumentSig<'a>) -> (r: bool) {
        match (self, other) {
            (ArgumentSig::Bool(a), ArgumentSig::Bool(b)) => *a == *b,
            (ArgumentSig::I32(a), ArgumentSig::I32(b)) => *a == *b,
            (ArgumentSig::String(a), ArgumentSig::String(b)) => same_text(a, b),
            (ArgumentSig::Type(a), ArgumentSig::Type(b)) => a.rows().first() == b.rows().first(),
            _ => false,
        }
    }
}

impl<'a> PartialEqSpecImpl for ArgumentSig<'a> {
    open spec fn obeys_eq_spec() -> bool {
        true
    }

    open spec fn eq_spec(&self, other: &ArgumentSig<'a>) -> bool {
        self@ == other@
    }
}

} // verus!
