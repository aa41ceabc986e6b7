//! The profile operations.

use super::types::{CandidateProfile, Document, ProfileError, Verification};
use crate::host::{digest_bytes, same_digest};
use crate::store::Stored;
use soroban_sdk::{Address, BytesN};
use vstd::prelude::*;

verus! {

/// The profile operations.
pub struct CandidateProfileContract;

/// The profile that registering at `timestamp` gives: a registered profile
/// takes the new location and skills and the time of the update, and keeps
/// all else; a new one starts unverified, with no verifications.
pub open spec fn registered_profile(
    earlier: Option<CandidateProfile>,
    candidate: Address,
    ipfs_cid: soroban_sdk::String,
    skills_hash: BytesN<32>,
    timestamp: u64,
) -> CandidateProfile {
    match earlier {
        Some(profile) => CandidateProfile { ipfs_cid, skills_hash, updated_at: timestamp, ..profile },
        None => CandidateProfile {
            wallet: candidate,
            ipfs_cid,
            skills_hash,
            is_verified: false,
            verification_count: 0,
            created_at: timestamp,
            updated_at: timestamp,
        },
    }
}

/// Why a document cannot be verified on what was read of the document and of
/// the candidate's profile, if it cannot.
pub open spec fn verifying_refusal(
    document: Stored<Document>,
    profile: Stored<CandidateProfile>,
) -> Option<ProfileError> {
    match document {
        Stored::Unreadable => Some(ProfileError::StorageUnavailable),
        Stored::Absent => Some(ProfileError::DocumentNotFound),
        Stored::Present(_) => match profile {
            Stored::Unreadable => Some(ProfileError::StorageUnavailable),
            Stored::Present(registered) => if registered.verification_count == u32::MAX {
                Some(ProfileError::CountExhausted)
            } else {
                None
            },
            Stored::Absent => None,
        },
    }
}

/// What the verification by `employer` at `timestamp` of a filed document
/// asks to be written: the document is marked verified, by that employer at
/// that time, and is otherwise as it was read; the profile, where there is
/// one, is credited.
pub open spec fn verified(
    document: Document,
    profile: Option<CandidateProfile>,
    employer: Address,
    timestamp: u64,
) -> Verification {
    Verification {
        document: Document {
            is_verified: true,
            verified_by: Some(employer),
            verified_at: Some(timestamp),
            ..document
        },
        profile: match profile {
            Some(registered) => Some(registered.credited()),
            None => None,
        },
    }
}

impl CandidateProfileContract {
    /// Registers the candidate's profile, or brings a registered one up to
    /// date, at `timestamp`, on what was read of the profile; see
    /// [`registered_profile`]. The profile that is returned is the one to
    /// store under the candidate's key. Refused when the profile could not be
    /// read.
    pub fn register_profile(
        earlier: Stored<CandidateProfile>,
        candidate: Address,
        ipfs_cid: soroban_sdk::String,
        skills_hash: BytesN<32>,
        timestamp: u64,
    ) -> (outcome: Result<CandidateProfile, ProfileError>)
        ensures
            match outcome {
                Ok(profile) => !(earlier is Unreadable) && profile == registered_profile(
                    match earlier {
                        Stored::Present(registered) => Some(registered),
                        _ => None,
                    },
                    candidate,
                    ipfs_cid,
                    skills_hash,
                    timestamp,
                ),
                Err(error) => error == ProfileError::StorageUnavailable && earlier is Unreadable,
            },
    {
        match earlier {
            Stored::Present(registered) => Ok(
                CandidateProfile { ipfs_cid, skills_hash, updated_at: timestamp, ..registered },
            ),
            Stored::Absent => Ok(
                CandidateProfile {
                    wallet: candidate,
                    ipfs_cid,
                    skills_hash,
                    is_verified: false,
                    verification_count: 0,
                    created_at: timestamp,
                    updated_at: timestamp,
                },
            ),
            Stored::Unreadable => Err(ProfileError::StorageUnavailable),
        }
    }

    /// The document that a candidate files under a hash: unverified. It is to
    /// be stored under the candidate and the hash, in place of a document
    /// filed earlier under them.
    pub fn add_document(
        doc_hash: BytesN<32>,
        doc_type: soroban_sdk::String,
        ipfs_cid: soroban_sdk::String,
    ) -> (document: Document)
        ensures
            document == (Document {
                doc_hash,
                doc_type,
                ipfs_cid,
                is_verified: false,
                verified_by: None,
                verified_at: None,
            }),
    {
        Document {
            doc_hash,
            doc_type,
            ipfs_cid,
            is_verified: false,
            verified_by: None,
            verified_at: None,
        }
    }

    /// The employer verifies a document that the candidate filed, at
    /// `timestamp`, on what was read of the document and of the candidate's
    /// profile; see [`verified`]. Refused when the document or the profile
    /// could not be read, no such document is filed, or the profile's count
    /// is used up.
    pub fn verify_document(
        document: Stored<Document>,
        profile: Stored<CandidateProfile>,
        employer: Address,
        timestamp: u64,
    ) -> (outcome: Result<Verification, ProfileError>)
        ensures
            match outcome {
                Ok(verification) => {
                    &&& verifying_refusal(document, profile) is None
                    &&& verification == verified(
                        document->Present_0,
                        match profile {
                            Stored::Present(registered) => Some(registered),
                            _ => None,
                        },
                        employer,
                        timestamp,
                    )
                },
                Err(error) => verifying_refusal(document, profile) == Some(error),
            },
    {
        let filed = match document {
            Stored::Present(filed) => filed,
            Stored::Absent => {
                return Err(ProfileError::DocumentNotFound);
            },
            Stored::Unreadable => {
                return Err(ProfileError::StorageUnavailable);
            },
        };
        let registered = match profile {
            Stored::Present(registered) => {
                if registered.verification_count == u32::MAX {
                    return Err(ProfileError::CountExhausted);
                }
                Some(registered)
            },
            Stored::Absent => None,
            Stored::Unreadable => {
                return Err(ProfileError::StorageUnavailable);
            },
        };
        Ok(Self::verify_filed_document(filed, registered, employer, timestamp))
    }

    /// Verifies a document that is there, for a candidate whose profile,
    /// where there is one, can count one verification more; see
    /// [`verified`]. For a document of which that is not known, there is
    /// [`Self::verify_document`].
    pub fn verify_filed_document(
        document: Document,
        profile: Option<CandidateProfile>,
        employer: Address,
        timestamp: u64,
    ) -> (verification: Verification)
        requires
            profile matches Some(registered) ==> registered.verification_count < u32::MAX,
        ensures
            verification == verified(document, profile, employer, timestamp),
    {
        let document = Document {
            is_verified: true,
            verified_by: Some(employer),
            verified_at: Some(timestamp),
            ..document
        };
        let profile = match profile {
            Some(registered) => Some(
                CandidateProfile {
                    verification_count: registered.verification_count + 1,
                    is_verified: true,
                    ..registered
                },
            ),
            None => None,
        };
        Verification { document, profile }
    }

    /// The profile of a candidate, from what the read of its entry gave.
    /// Fails where the entry could not be read.
    pub fn get_profile(stored: Stored<CandidateProfile>) -> (outcome: Result<
        Option<CandidateProfile>,
        ProfileError,
    >)
        ensures
            match outcome {
                Ok(Some(profile)) => stored == Stored::Present(profile),
                Ok(None) => stored is Absent,
                Err(error) => error == ProfileError::StorageUnavailable && stored is Unreadable,
            },
    {
        match stored {
            Stored::Present(profile) => Ok(Some(profile)),
            Stored::Absent => Ok(None),
            Stored::Unreadable => Err(ProfileError::StorageUnavailable),
        }
    }

    /// The document that a candidate filed under a hash, from what the read
    /// of its entry gave. Fails where the entry could not be read.
    pub fn get_document(stored: Stored<Document>) -> (outcome: Result<
        Option<Document>,
        ProfileError,
    >)
        ensures
            match outcome {
                Ok(Some(document)) => stored == Stored::Present(document),
                Ok(None) => stored is Absent,
                Err(error) => error == ProfileError::StorageUnavailable && stored is Unreadable,
            },
    {
        match stored {
            Stored::Present(document) => Ok(Some(document)),
            Stored::Absent => Ok(None),
            Stored::Unreadable => Err(ProfileError::StorageUnavailable),
        }
    }

    /// Whether a document still has the hash under which it was filed:
    /// `true` exactly when the two hashes agree in every byte.
    pub fn verify_document_integrity(doc_hash: BytesN<32>, current_hash: BytesN<32>) -> (intact:
        bool)
        ensures
            intact == (digest_bytes(doc_hash) == digest_bytes(current_hash)),
    {
        same_digest(&doc_hash, &current_hash)
    }
}

} // verus!
