//! Profiles, documents, and what a verification asks to be written.

use soroban_sdk::{Address, BytesN};
use vstd::prelude::*;

verus! {

/// A candidate's profile.
#[derive(Clone, Debug)]
pub struct CandidateProfile {
    pub wallet: Address,
    /// Where the candidate's papers lie.
    pub ipfs_cid: soroban_sdk::String,
    /// Fingerprint of the candidate's skills.
    pub skills_hash: BytesN<32>,
    /// Whether at least one document of the candidate was verified.
    pub is_verified: bool,
    /// How many verifications of the candidate's documents were made.
    pub verification_count: u32,
    pub created_at: u64,
    pub updated_at: u64,
}

/// A document that a candidate has filed.
#[derive(Clone, Debug)]
pub struct Document {
    pub doc_hash: BytesN<32>,
    /// Free-form class of document, such as "resume".
    pub doc_type: soroban_sdk::String,
    pub ipfs_cid: soroban_sdk::String,
    pub is_verified: bool,
    /// The employer who verified last; `None` until then.
    pub verified_by: Option<Address>,
    /// When it was verified last; `None` until then.
    pub verified_at: Option<u64>,
}

/// What the verification of a document asks to be written.
#[derive(Debug)]
pub struct Verification {
    /// The document, marked verified, to be stored under the key by which it
    /// was read.
    pub document: Document,
    /// The candidate's profile with the verification credited, to be stored
    /// under the candidate's key; `None` where the candidate has no profile,
    /// and then no profile is written.
    pub profile: Option<CandidateProfile>,
}

/// Why an operation is refused. A refusal asks for no write.
#[derive(Clone, Copy, Debug, PartialEq, Eq, Structural)]
pub enum ProfileError {
    /// An entry that the operation needs could not be read: something lies
    /// under its key that is not of the shape of a profile or a document.
    StorageUnavailable,
    /// The candidate has filed no document with this hash.
    DocumentNotFound,
    /// The candidate's profile already counts `u32::MAX` verifications.
    CountExhausted,
}

impl CandidateProfile {
    /// The profile after one more verification: counted, and marked verified.
    pub open spec fn credited(self) -> CandidateProfile {
        CandidateProfile {
            verification_count: (self.verification_count + 1) as u32,
            is_verified: true,
            ..self
        }
    }
}

} // verus!
