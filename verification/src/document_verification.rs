//! The verification ledger.
//!
//! A verifier attests that a document, known by its 32-byte hash, is valid or
//! invalid for a candidate. Every attestation becomes an immutable
//! [`VerificationRecord`](record::VerificationRecord) under a fresh id; nothing
//! is ever changed or removed, and a correction is a new record. Two indexes,
//! by document hash and by candidate, list the ids in the order in which the
//! records were made.
//!
//! [`contract::DocumentVerificationContract`] holds the operations.
//! [`id_allocator`] and [`index_manager`] are its two parts below the records:
//! the counter that hands out ids, and the index lists.
//! [`entries::LedgerEntries`] is the mathematical picture of the storage, and
//! [`laws`] proves what a run of attestations does to that picture, and that
//! the operations compute exactly the steps of such a run.
//!
//! # Storage
//!
//! The ledger's state is four kinds of entry: the id counter, the records by
//! id, and the index lists by document hash and by candidate. The storage
//! starts empty: the counter is absent until the first record and then counts
//! from 1, and a key without list has the empty list.
//!
//! The caller reads and writes the entries. For an attestation it reads the
//! counter and the two index lists of the request, and it writes the four
//! values that [`contract::Attestation`] holds: the record under its id, the
//! counter, and the two lists. For a listing it reads the index list and then
//! the record of every id in it.
//!
//! Each index list is one storage value, a host vector that is read and
//! written whole. A list can therefore grow only as far as the store lets a
//! single value grow. The library itself refuses at `u32::MAX` ids, the
//! longest list that a host vector can hold.
//!
//! # Failure
//!
//! A read that found something under the key that is not of the ledger's
//! shape is handed in as [`Stored::Unreadable`](crate::store::Stored). The
//! operation that needs the entry then fails with
//! [`StorageUnavailable`](record::LedgerError::StorageUnavailable) and does
//! not try again.
//!
//! An attestation asks for four writes, and decides on all of them before
//! the first: every reason to refuse is found from what was read, and a
//! refusal asks for no write at all. The four writes themselves belong
//! together. The caller makes them within one contract invocation, which the
//! host either completes or discards as a whole, so that a record is either
//! fully present, with its entry in both indexes and the counter past it, or
//! absent without trace.
//!
//! # Concurrency
//!
//! An operation is a function of what was read. The caller reads, decides and
//! writes within one invocation; the host applies the invocations that touch
//! the same entries one after the other, so that no other writer comes
//! between the reading of a counter or a list and its writing back.

pub mod contract;
pub mod entries;
pub mod id_allocator;
pub mod index_manager;
pub mod laws;
pub mod record;
