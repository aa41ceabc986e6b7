//! Verified contract logic for a hiring platform on the Soroban host.
//!
//! The centre of the crate is [`document_verification`]: an append-only ledger
//! of attestations about hashed documents, with two secondary indexes (by
//! document hash and by candidate) and a counter that hands out record ids.
//!
//! [`candidate_profile`] keeps a candidate's profile and the documents the
//! candidate has filed, with the employer's verification of each.
//!
//! [`job_application`] is the job board: postings, applications and the
//! employer's decisions on them.
//!
//! [`store`] is the one type through which the storage reaches the library,
//! and [`host`] declares the host types that are carried through and the host
//! calls that compute on them.
//!
//! # The library decides, the caller reads and writes
//!
//! No function of the library touches the storage, the clock or the
//! authorization of the host. An operation takes what the caller has read
//! from the storage (each read as a [`store::Stored`]) together with the
//! values of the request and the ledger time, and returns what is to be
//! written, or the reason for refusing. A refusal asks for no write.
//!
//! Every operation states what it returns for every input. Where an
//! operation has a variant with a precondition, the variant is for callers
//! that have established the precondition themselves; the operation without
//! precondition tests and then calls it.
//!
//! Verus proves each operation against the code, down to the calls into
//! `soroban_sdk`, which are believed to do what their contracts say. They are
//! declared in [`host`] and only compute: the bytes of a digest, the equality
//! of two addresses, and the making, measuring, reading and extending of a
//! host vector of ids.

pub mod candidate_profile;
pub mod document_verification;
pub mod host;
pub mod job_application;
pub mod store;
