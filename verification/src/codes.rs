//! Coded indices: one integer that packs a table tag into its low bits and
//! a row number, counted from 1, into the rest.

use crate::error::{invalid_data, Error};
use crate::schema::{CodedIndex, TableKind};
use vstd::prelude::*;

verus! {

/// The candidate list of `kind` has `table` at position `tag`.
pub open spec fn holds(kind: CodedIndex, tag: int, table: TableKind) -> bool {
    0 <= tag < kind.candidates().len() && kind.candidates()[tag] == Some(table)
}

/// The raw value that stands for row `row` (counted from 0) of the
/// candidate at position `tag`.
pub open spec fn encoded(kind: CodedIndex, tag: int, row: int) -> int {
    (row + 1) * kind.radix() + tag
}

/// What a raw value stands for. The outer `None` is a value that decodes to
/// nothing: its tag lies past the candidate list, or names a reserved
/// position. `Some(None)` is the null reference, whose row part is 0.
/// Otherwise the table and the row, counted from 0.
pub open spec fn decoded(kind: CodedIndex, raw: int) -> Option<Option<(TableKind, int)>> {
    let tag = raw % kind.radix();
    let row = raw / kind.radix();
    if tag >= kind.candidates().len() {
        None
    } else if row == 0 {
        Some(None)
    } else {
        match kind.candidates()[tag] {
            Some(table) => Some(Some((table, row - 1))),
            None => None,
        }
    }
}

/// Encoding a row of a candidate table and decoding the result gives the
/// table and the row back.
pub proof fn lemma_round_trip(kind: CodedIndex, tag: int, table: TableKind, row: int)
    requires
        holds(kind, tag, table),
        0 <= row,
    ensures
        decoded(kind, encoded(kind, tag, row)) == Some(Some((table, row))),
{
    let radix = kind.radix();
    let raw = encoded(kind, tag, row);
    crate::schema::lemma_tag_bits_minimal(kind);
    assert(raw % radix == tag && raw / radix == row + 1) by (nonlinear_arith)
        requires
            raw == (row + 1) * radix + tag,
            0 <= tag < radix,
            0 <= row,
    {
        vstd::arithmetic::div_mod::lemma_fundamental_div_mod_converse(raw, radix, row + 1, tag);
    }
}

/// A raw value whose tag lies past the candidate list decodes to nothing.
pub proof fn lemma_tag_past_list(kind: CodedIndex, raw: int)
    requires
        0 <= raw,
        raw % kind.radix() >= kind.candidates().len(),
    ensures
        decoded(kind, raw) is None,
{
}

impl CodedIndex {
    /// Decodes `raw`: `None` for the null reference, else the table and the
    /// row, counted from 0. Fails where the tag names no candidate.
    pub fn decode(self, raw: u32) -> (r: Result<Option<(TableKind, u32)>, Error>)
        ensures
            match r {
                Ok(Some((table, row))) => decoded(self, raw as int) == Some(
                    Some((table, row as int)),
                ),
                Ok(None) => decoded(self, raw as int) == Some(None::<(TableKind, int)>),
                Err(e) => decoded(self, raw as int) is None && e is InvalidData,
            },
    {
        let base: u32 = self.base();
        let tag: usize = (raw % base) as usize;
        let row: u32 = raw / base;
        let tables = self.tables();
        if tag >= tables.len() {
            return Err(invalid_data("coded index tag is out of range"));
        }
        if row == 0 {
            return Ok(None);
        }
        match tables[tag] {
            Some(table) => Ok(Some((table, row - 1))),
            None => Err(invalid_data("coded index tag is reserved")),
        }
    }

    /// The tag of `table` in this kind, if it is a candidate.
    pub fn tag_of(self, table: TableKind) -> (r: Option<u32>)
        ensures
            match r {
                Some(tag) => holds(self, tag as int, table),
                None => forall|tag: int| !holds(self, tag, table),
            },
    {
        let tables = self.tables();
        let mut tag: usize = 0;
        while tag < tables.len()
            invariant
                tag <= tables.len(),
                tables@ == self.candidates(),
                tables.len() <= 32,
                forall|t: int| 0 <= t < tag ==> !holds(self, t, table),
            decreases tables.len() - tag,
        {
            if let Some(found) = tables[tag] {
                if found == table {
                    return Some(tag as u32);
                }
            }
            tag = tag + 1;
        }
        None
    }

    /// Encodes row `row` (counted from 0) of `table`; `None` where `table`
    /// is no candidate of this kind. The result may need more than 32 bits,
    /// in which case no stored coded index equals it.
    pub fn encode(self, table: TableKind, row: u32) -> (r: Option<u64>)
        ensures
            match r {
                Some(raw) => exists|tag: int|
                    holds(self, tag, table) && raw == #[trigger] encoded(self, tag, row as int),
                None => forall|tag: int| !holds(self, tag, table),
            },
    {
        let base: u64 = self.base() as u64;
        match self.tag_of(table) {
            Some(tag) => {
                proof {
                    crate::schema::lemma_tag_bits_minimal(self);
                }
                assert((row + 1) * base <= 0x1_0000_0000 * 32) by (nonlinear_arith)
                    requires
                        0 <= row <= 0xFFFF_FFFF,
                        0 <= base <= 32,
                ;
                let raw: u64 = (row as u64 + 1) * base + tag as u64;
                assert(raw == encoded(self, tag as int, row as int));
                Some(raw)
            },
            None => None,
        }
    }
}

} // verus!
