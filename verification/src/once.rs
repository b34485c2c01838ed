//! A cell that is written once and read many times.

use vstd::prelude::*;

verus! {

/// A slot for state that a domain sets up in its first call and only reads
/// afterwards. It is empty until the first `call_once` and keeps the value of
/// that call for good.
pub struct Once<T> {
    slot: Option<T>,
}

/// The content of a cell after a `call_once` whose initializer would produce
/// `produced`: a full cell keeps what it has, an empty one takes the value.
pub open spec fn settled<T>(cell: Option<T>, produced: T) -> Option<T> {
    match cell {
        Some(kept) => Some(kept),
        None => Some(produced),
    }
}

/// The content of a cell after one `call_once` for each value of `produced`,
/// in order.
pub open spec fn settled_all<T>(cell: Option<T>, produced: Seq<T>) -> Option<T>
    decreases produced.len(),
{
    if produced.len() == 0 {
        cell
    } else {
        settled_all(settled(cell, produced[0]), produced.skip(1))
    }
}

impl<T> Once<T> {
    /// What the cell holds: `None` while it is empty.
    pub closed spec fn view(&self) -> Option<T> {
        self.slot
    }

    /// An empty cell.
    pub fn new() -> (cell: Self)
        ensures
            cell@ is None,
    {
        Once { slot: None }
    }

    /// Whether the cell has been written.
    pub fn is_completed(&self) -> (done: bool)
        ensures
            done == (self@ is Some),
    {
        self.slot.is_some()
    }

    /// Runs `init` and stores its result if the cell is still empty, and does
    /// nothing otherwise: the initializer of a later call is dropped unrun.
    pub fn call_once<F: FnOnce() -> T>(&mut self, init: F)
        requires
            old(self)@ is None ==> init.requires(()),
        ensures
            final(self)@ is Some,
            final(self)@ == settled(old(self)@, final(self)@->Some_0),
            old(self)@ is None ==> init.ensures((), final(self)@->Some_0),
    {
        if self.slot.is_none() {
            let value = init();
            self.slot = Some(value);
        }
    }

    /// The stored value, if there is one.
    pub fn get(&self) -> (value: Option<&T>)
        ensures
            value is Some == (self@ is Some),
            value is Some ==> *value->Some_0 == self@->Some_0,
    {
        self.slot.as_ref()
    }

    /// The stored value. To read an empty cell is a bug of the caller, so the
    /// cell must have been written.
    pub fn get_must(&self) -> (value: &T)
        requires
            self@ is Some,
        ensures
            *value == self@->Some_0,
    {
        self.slot.as_ref().unwrap()
    }

    /// The stored value, for a caller that owns the cell and works on what it
    /// holds. The cell stays written.
    pub fn get_must_mut(&mut self) -> (value: &mut T)
        requires
            old(self)@ is Some,
        ensures
            *value == old(self)@->Some_0,
            final(self)@ == Some(*final(value)),
    {
        self.slot.as_mut().unwrap()
    }
}

/// A written cell keeps its value through any number of further calls of
/// `call_once`, whatever their initializers would produce.
pub proof fn lemma_written_cell_is_kept<T>(kept: T, produced: Seq<T>)
    ensures
        settled_all(Some(kept), produced) == Some(kept),
    decreases produced.len(),
{
    if produced.len() > 0 {
        lemma_written_cell_is_kept(kept, produced.skip(1));
    }
}

/// Of any number of calls of `call_once` on an empty cell, one or more, only
/// the first stores what its initializer produced.
pub proof fn lemma_first_call_wins<T>(produced: Seq<T>)
    requires
        produced.len() > 0,
    ensures
        settled_all(None, produced) == Some(produced[0]),
{
    lemma_written_cell_is_kept(produced[0], produced.skip(1));
}

} // verus!
