//! What a read of the storage hands to the library.
//!
//! The library decides; it does not read or write the storage. Whoever calls
//! it reads the entries that an operation needs, hands in what each read
//! gave, and writes what the operation hands back.

use vstd::prelude::*;

verus! {

/// What reading the entry under one storage key gave.
#[derive(Debug)]
pub enum Stored<T> {
    /// Nothing lies under the key.
    Absent,
    /// The value that lies under the key.
    Present(T),
    /// Something lies under the key that is not of the shape that is kept
    /// there: the store does not give it out.
    Unreadable,
}

/// The id that a counter read makes the next: the counter, or 1 where there
/// is none.
pub open spec fn counter_next(counter: Stored<u64>) -> u64 {
    match counter {
        Stored::Present(next) => next,
        _ => 1,
    }
}

} // verus!
