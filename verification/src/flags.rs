//! Attribute words of type and method rows.

use vstd::prelude::*;

verus! {

/// The flags column of a method row.
#[derive(Debug, Copy, Clone, PartialEq, Eq)]
pub struct MethodAttributes(pub u32);

/// The flags column of a type row.
#[derive(Debug, Copy, Clone, PartialEq, Eq)]
pub struct TypeAttributes(pub u32);

impl MethodAttributes {
    /// Whether the name of the method has a special meaning (bit 11).
    pub fn special(&self) -> (r: bool)
        ensures
            r == (self.0 & 0x800 != 0),
    {
        self.0 & 0b1000_0000_0000 != 0
    }
}

impl TypeAttributes {
    /// Whether the type is a Windows Runtime type (bit 14).
    pub fn windows_runtime(&self) -> (r: bool)
        ensures
            r == (self.0 & 0x4000 != 0),
    {
        self.0 & 0b100_0000_0000_0000 != 0
    }

    /// Whether the type is an interface (bit 5).
    pub fn interface(&self) -> (r: bool)
        ensures
            r == (self.0 & 0x20 != 0),
    {
        self.0 & 0b10_0000 != 0
    }
}

} // verus!
