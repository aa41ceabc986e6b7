//! Candidate profiles and their documents.
//!
//! A candidate registers a profile and files documents by hash; an employer
//! verifies a filed document, which marks the document and raises the count
//! on the candidate's profile. Callers authenticate the acting address before
//! they call.
//!
//! # Storage
//!
//! The state is the profiles by candidate and the documents by candidate and
//! hash. The caller reads the entries that an operation names, hands in what
//! the reads gave, and writes what the operation returns under the keys by
//! which it read.
//!
//! An entry that could not be read makes the operation that needs it fail
//! with `StorageUnavailable`. Every operation finds all its reasons to refuse
//! from what was read, so a refusal asks for no write.

pub mod contract;
pub mod types;
