//! The job board.
//!
//! An employer posts jobs; candidates apply to a job that is open; the
//! employer of the job reviews, verifies, rejects or accepts each application
//! and may close the job. Only the employer who posted a job decides on it and
//! on its applications. Callers authenticate the acting address before they
//! call: the board compares addresses and authenticates nobody.
//!
//! # Storage
//!
//! The board's state is the jobs by id, the applications by id, and one id
//! counter for each. The caller reads the entries that an operation names,
//! hands in what the reads gave, and writes what the operation returns: an
//! entry goes back under the key by which it was read, a new entry under the
//! id it carries.
//!
//! An entry that could not be read makes the operation that needs it fail
//! with `StorageUnavailable`. Every operation finds all its reasons to refuse
//! from what was read, so a refusal asks for no write.

pub mod contract;
pub mod types;
