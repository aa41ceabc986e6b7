//! The id allocator: record ids come from one stored counter.

use super::record::LedgerError;
use crate::store::{counter_next, Stored};
use vstd::prelude::*;

verus! {

/// Hands out record ids from the counter.
pub struct IdAllocator;

/// An id that was handed out, and the counter that is to be stored with it.
#[derive(Clone, Copy, Debug, PartialEq, Eq, Structural)]
pub struct Allocation {
    /// The id that is handed out.
    pub id: u64,
    /// The id after it: the new value of the counter.
    pub counter: u64,
}

impl IdAllocator {
    /// The id that the next allocation hands out: the counter, or 1 while
    /// there is none. Fails where the counter could not be read.
    pub fn peek(counter: Stored<u64>) -> (outcome: Result<u64, LedgerError>)
        ensures
            match outcome {
                Ok(id) => !(counter is Unreadable) && id == counter_next(counter),
                Err(error) => error == LedgerError::StorageUnavailable && counter is Unreadable,
            },
    {
        match counter {
            Stored::Present(next) => Ok(next),
            Stored::Absent => Ok(1),
            Stored::Unreadable => Err(LedgerError::StorageUnavailable),
        }
    }

    /// Hands out the next id together with its successor, which is the
    /// counter to store: the two belong to one step. Fails where the counter
    /// could not be read, and refuses `u64::MAX`, which has no successor.
    pub fn next_id(counter: Stored<u64>) -> (outcome: Result<Allocation, LedgerError>)
        ensures
            match outcome {
                Ok(allocation) => {
                    &&& !(counter is Unreadable)
                    &&& allocation.id == counter_next(counter)
                    &&& allocation.id < u64::MAX
                    &&& allocation.counter == allocation.id + 1
                },
                Err(error) => if counter is Unreadable {
                    error == LedgerError::StorageUnavailable
                } else {
                    error == LedgerError::IdSpaceExhausted && counter_next(counter) == u64::MAX
                },
            },
    {
        let id = match Self::peek(counter) {
            Ok(id) => id,
            Err(error) => {
                return Err(error);
            },
        };
        if id == u64::MAX {
            return Err(LedgerError::IdSpaceExhausted);
        }
        Ok(Allocation { id, counter: id + 1 })
    }
}

} // verus!
