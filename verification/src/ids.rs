//! The id counter: one durable number, shared by every entity type, that
//! only ever grows.

use vstd::prelude::*;
use ic_stable_structures::cell::{InitError, ValueError};
use crate::durable::{cell_get, cell_init, cell_set, cell_value, DurableCell, Region};
use crate::message::{ErrorKind, Fault, Message};

verus! {

/// The error of an allocation from a counter that stands at `u64::MAX`.
pub open spec fn exhausted() -> Fault {
    (ErrorKind::Fatal, "ID counter exhausted"@)
}

/// The error of an allocation whose write to the cell failed.
pub open spec fn unwritten() -> Fault {
    (ErrorKind::Fatal, "Cannot increment ID counter"@)
}

/// What an allocation returns, given the last id handed out and the outcome
/// of writing its successor to the cell.
pub fn settle(last: u64, written: Result<u64, ValueError>) -> (r: Result<u64, Message>)
    requires
        last < u64::MAX,
    ensures
        written is Ok ==> r == Ok::<u64, Message>((last + 1) as u64),
        written is Err ==> (r matches Err(e) && e@ == unwritten()),
{
    match written {
        Ok(_) => Ok(last + 1),
        Err(_) => Err(Message::new(ErrorKind::Fatal, "Cannot increment ID counter")),
    }
}

/// The counter of ids, in its cell.
pub struct IdAllocator {
    cell: DurableCell,
}

impl IdAllocator {
    /// The last id handed out; 0 before the first.
    pub closed spec fn last(&self) -> u64 {
        cell_value(self.cell)
    }

    /// Takes a cell as the counter: the number it holds is the last id.
    pub fn over(cell: DurableCell) -> (r: IdAllocator)
        ensures
            r.last() == cell_value(cell),
    {
        IdAllocator { cell }
    }

    /// Opens the counter that a region holds. A region that holds none gets
    /// a counter at 0; one whose cell is of another layout gives none.
    pub fn open(region: Region) -> (r: Option<IdAllocator>) {
        IdAllocator::adopt(cell_init(region))
    }

    /// What opening a counter returns, given the outcome of opening its
    /// cell: the counter over the cell, or none where the cell did not open.
    pub fn adopt(outcome: Result<DurableCell, InitError>) -> (r: Option<IdAllocator>)
        ensures
            outcome matches Ok(cell) ==> (r matches Some(a) && a.last() == cell_value(cell)),
            outcome is Err ==> r is None,
    {
        match outcome {
            Ok(cell) => Some(IdAllocator::over(cell)),
            Err(_) => None,
        }
    }

    /// The last id handed out.
    pub fn last_id(&self) -> (v: u64)
        ensures
            v == self.last(),
    {
        cell_get(&self.cell)
    }

    /// The id that the next allocation hands out, if there is one left.
    pub fn peek(&self) -> (r: Option<u64>)
        ensures
            self.last() < u64::MAX ==> r == Some((self.last() + 1) as u64),
            self.last() == u64::MAX ==> r is None,
    {
        let last = cell_get(&self.cell);
        if last == u64::MAX {
            None
        } else {
            Some(last + 1)
        }
    }

    /// Hands out the next id: one more than the last. Where the counter is
    /// exhausted or the cell cannot be written, nothing changes.
    pub fn next(&mut self) -> (r: Result<u64, Message>)
        ensures
            r matches Ok(id) ==> old(self).last() < u64::MAX && id == old(self).last() + 1
                && final(self).last() == id,
            r matches Err(e) ==> final(self).last() == old(self).last() && (if old(self).last()
                == u64::MAX {
                e@ == exhausted()
            } else {
                e@ == unwritten()
            }),
    {
        let last = cell_get(&self.cell);
        if last == u64::MAX {
            return Err(Message::new(ErrorKind::Fatal, "ID counter exhausted"));
        }
        let written = cell_set(&mut self.cell, last + 1);
        settle(last, written)
    }
}

} // verus!
