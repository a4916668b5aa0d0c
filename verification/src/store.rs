//! The shared mutable cell layer.
//!
//! Every property's current value lives in one cell of a [`CellStore`].
//! A [`CellRef`] is a freely copyable handle that addresses one such cell,
//! so the owning structure and every property handle derived from it can
//! address the same logical value. Reading goes through a shared borrow of
//! the store and writing through an exclusive one, so at most one mutation
//! of a cell's contents can ever be in flight.

use vstd::prelude::*;

verus! {

/// A handle to one cell inside a [`CellStore<TProp>`].
///
/// Copies of a handle all address the same cell: a value written through
/// one copy is observed through every other. A handle never dangles once
/// its cell exists, because a store only ever grows.
pub struct CellRef<TProp> {
    id: usize,
    marker: core::marker::PhantomData<TProp>,
}

impl<TProp> Clone for CellRef<TProp> {
    fn clone(&self) -> (r: Self)
        ensures
            r == *self,
    {
        CellRef { id: self.id, marker: core::marker::PhantomData }
    }
}

impl<TProp> Copy for CellRef<TProp> {}

impl<TProp> CellRef<TProp> {
    /// The position of the addressed cell among the store's contents.
    pub closed spec fn id(&self) -> int {
        self.id as int
    }

    /// True exactly when the two handles address the same cell.
    pub fn same_cell(&self, other: &CellRef<TProp>) -> (r: bool)
        ensures
            r == (self.id() == other.id()),
            r == (*self == *other),
    {
        self.id == other.id
    }
}

/// The container for every shared mutable cell of one value type.
///
/// The store owns the cells; handles only address them. Mutating a cell
/// therefore needs an exclusive borrow of the store, which is how
/// overlapping mutations are ruled out, while any number of handles may
/// exist at once and observe each write.
pub struct CellStore<TProp> {
    cells: Vec<TProp>,
}

impl<TProp> CellStore<TProp> {
    /// The current value of every cell, in order of allocation.
    pub closed spec fn contents(&self) -> Seq<TProp> {
        self.cells@
    }

    /// The handle addresses a cell that this store holds.
    pub open spec fn holds(&self, r: CellRef<TProp>) -> bool {
        0 <= r.id() < self.contents().len()
    }

    /// A store with no cells yet.
    pub fn new() -> (s: Self)
        ensures
            s.contents() == Seq::<TProp>::empty(),
    {
        CellStore { cells: Vec::new() }
    }

    /// Makes a fresh cell holding `value` and hands back its handle.
    ///
    /// The handle is distinct from every handle the store gave out before,
    /// and existing cells keep their values.
    pub fn allocate(&mut self, value: TProp) -> (r: CellRef<TProp>)
        ensures
            final(self).contents() == old(self).contents().push(value),
            r.id() == old(self).contents().len(),
            final(self).holds(r),
    {
        let r = CellRef { id: self.cells.len(), marker: core::marker::PhantomData };
        self.cells.push(value);
        r
    }

    /// Borrows the current value of the addressed cell.
    pub fn read(&self, r: CellRef<TProp>) -> (v: &TProp)
        requires
            self.holds(r),
        ensures
            *v == self.contents()[r.id()],
    {
        &self.cells[r.id]
    }

    /// Replaces the value of the addressed cell; every other cell is untouched.
    pub fn replace(&mut self, r: CellRef<TProp>, value: TProp)
        requires
            old(self).holds(r),
        ensures
            final(self).contents() == old(self).contents().update(r.id(), value),
    {
        self.cells[r.id] = value;
    }
}

} // verus!
