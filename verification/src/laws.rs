//! What holds of every database: how the lists that rows own fit together,
//! and that the search for the owner of a method finds the type whose list
//! the method is in.

use crate::database::Database;
use crate::schema::TableKind;
use vstd::prelude::*;

verus! {

impl Database {
    /// Every row of `kind` owns a list of rows of `child` by `column`, and
    /// the list of the first row starts at the first row of `child`.
    pub open spec fn lists_from_start(&self, kind: TableKind, column: int, child: TableKind)
        -> bool {
        &&& forall|row: int|
            0 <= row < self.rows(kind) ==> (#[trigger] self.list_of(kind, row, column, child))
                is Some
        &&& 0 < self.rows(kind)
        &&& self.list_of(kind, 0, column, child).unwrap().0 == 0
    }

    /// The lists of two rows that follow one another are contiguous: the
    /// second starts where the first ends, so no row of the child table is
    /// in both.
    pub proof fn lemma_lists_adjoin(&self, kind: TableKind, row: int, column: int, child: TableKind)
        requires
            self.list_of(kind, row, column, child) is Some,
            self.list_of(kind, row + 1, column, child) is Some,
        ensures
            self.list_of(kind, row, column, child).unwrap().1 == self.list_of(
                kind,
                row + 1,
                column,
                child,
            ).unwrap().0,
    {
    }

    /// The list of the last row ends where the child table ends.
    pub proof fn lemma_last_list_ends(&self, kind: TableKind, column: int, child: TableKind)
        requires
            self.list_of(kind, self.rows(kind) - 1, column, child) is Some,
        ensures
            self.list_of(kind, self.rows(kind) - 1, column, child).unwrap().1 == self.rows(child),
    {
    }

    /// Where every row owns a list and the first list starts at the first
    /// row of the child table, every row of the child table is in the list
    /// of some row: together the lists are the whole child table.
    pub proof fn lemma_lists_cover(
        &self,
        kind: TableKind,
        column: int,
        child: TableKind,
        target: int,
    ) -> (owner: int)
        requires
            self.lists_from_start(kind, column, child),
            0 <= target < self.rows(child),
        ensures
            0 <= owner < self.rows(kind),
            self.list_of(kind, owner, column, child) matches Some(list) && list.0 <= target
                < list.1,
    {
        self.lemma_lists_cover_from(kind, column, child, target, 0)
    }

    /// A row of the child table that lies at or after the start of the
    /// list of `from` is in the list of `from` or of a later row.
    proof fn lemma_lists_cover_from(
        &self,
        kind: TableKind,
        column: int,
        child: TableKind,
        target: int,
        from: int,
    ) -> (owner: int)
        requires
            self.lists_from_start(kind, column, child),
            0 <= from < self.rows(kind),
            self.list_of(kind, from, column, child).unwrap().0 <= target < self.rows(child),
        ensures
            from <= owner < self.rows(kind),
            self.list_of(kind, owner, column, child) matches Some(list) && list.0 <= target
                < list.1,
        decreases self.rows(kind) - from,
    {
        let list = self.list_of(kind, from, column, child).unwrap();
        if target < list.1 {
            from
        } else {
            assert(self.list_of(kind, from + 1, column, child) is Some);
            self.lemma_lists_cover_from(kind, column, child, target, from + 1)
        }
    }

    /// Where the `TypeDef` table is ordered by the starts of the method
    /// lists, the owner of a method that is in the method list of a type is
    /// that type.
    pub proof fn lemma_owner_of_listed(&self, owner: int, method: int)
        requires
            self.owners_sorted(),
            self.list_of(TableKind::TypeDef, owner, 5, TableKind::MethodDef) matches Some(list)
                && list.0 <= method < list.1,
        ensures
            self.owner_of(method) == Some(owner),
    {
        let count = self.rows(TableKind::TypeDef);
        let key = method + 1;
        let bound = owner + 1;
        assert(self.is_upper_bound(TableKind::TypeDef, 0, count, 5, key, bound)) by {
            assert forall|i: int| 0 <= i < bound implies self.cell(TableKind::TypeDef, i, 5)
                <= key by {
                assert(self.cell(TableKind::TypeDef, i, 5) <= self.cell(
                    TableKind::TypeDef,
                    owner,
                    5,
                ));
            }
            assert forall|i: int| bound <= i < count implies self.cell(TableKind::TypeDef, i, 5)
                > key by {
                assert(self.cell(TableKind::TypeDef, bound, 5) <= self.cell(
                    TableKind::TypeDef,
                    i,
                    5,
                ));
            }
        }
        let chosen = choose|b: int| #[trigger]
            self.is_upper_bound(TableKind::TypeDef, 0, count, 5, key, b);
        self.lemma_upper_bound_unique(TableKind::TypeDef, 0, count, 5, key, bound, chosen);
    }
}

} // verus!
