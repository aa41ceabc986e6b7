//! The ledger's operations.

use super::entries::{
    any_unreadable, any_verified, attestation_refusal, found_records, listed_ids, verified_count,
};
use super::id_allocator::IdAllocator;
use super::index_manager::{ids_read, IndexManager};
use super::laws::{lemma_count_one_more, lemma_found_one_more};
use super::record::{LedgerError, VerificationRecord};
use crate::host::{digest_bytes, id_list, same_digest};
use crate::store::{counter_next, Stored};
use soroban_sdk::{Address, BytesN, Env};
use vstd::prelude::*;

verus! {

/// The ledger's operations.
pub struct DocumentVerificationContract;

/// What an attestation asks to be written: all of it, or nothing.
#[derive(Debug)]
pub struct Attestation {
    /// The record, to be stored under its id.
    pub record: VerificationRecord,
    /// The new value of the counter: the id after the record's.
    pub counter: u64,
    /// The index list of the record's document hash, with the record's id at
    /// its end.
    pub hash_ids: soroban_sdk::Vec<u64>,
    /// The index list of the record's candidate, with the record's id at its
    /// end.
    pub candidate_ids: soroban_sdk::Vec<u64>,
}

impl DocumentVerificationContract {
    /// Decides the attestation by `verifier` that the document with hash
    /// `document_hash` is valid (`is_valid`) or invalid for `candidate`, made
    /// at `timestamp`, on what was read of the counter and of the index lists
    /// of the hash and of the candidate.
    ///
    /// On success the record carries the next id and exactly the values given,
    /// the counter is the id after it, and each of the two lists is the list
    /// that was read with the id added at its end.
    ///
    /// The attestation is refused when the counter or one of the lists could
    /// not be read, when the ids are used up, or when one of the lists is
    /// full.
    ///
    /// The caller has authenticated `verifier`: the ledger records who is
    /// said to attest, and authenticates nobody.
    pub fn verify_document(
        env: &Env,
        counter: Stored<u64>,
        hash_ids: Stored<soroban_sdk::Vec<u64>>,
        candidate_ids: Stored<soroban_sdk::Vec<u64>>,
        verifier: Address,
        candidate: Address,
        document_hash: BytesN<32>,
        doc_type: soroban_sdk::String,
        is_valid: bool,
        notes: soroban_sdk::String,
        timestamp: u64,
    ) -> (outcome: Result<Attestation, LedgerError>)
        ensures
            match outcome {
                Ok(attestation) => {
                    &&& attestation_refusal(counter, ids_read(hash_ids), ids_read(candidate_ids))
                        is None
                    &&& attestation.record == (VerificationRecord {
                        record_id: counter_next(counter),
                        document_hash,
                        candidate,
                        verifier,
                        doc_type,
                        verification_status: is_valid,
                        notes,
                        timestamp,
                    })
                    &&& attestation.counter == counter_next(counter) + 1
                    &&& id_list(attestation.hash_ids) == Some(
                        listed_ids(ids_read(hash_ids)).push(counter_next(counter)),
                    )
                    &&& id_list(attestation.candidate_ids) == Some(
                        listed_ids(ids_read(candidate_ids)).push(counter_next(counter)),
                    )
                },
                Err(error) => attestation_refusal(
                    counter,
                    ids_read(hash_ids),
                    ids_read(candidate_ids),
                ) == Some(error),
            },
    {
        let allocation = match IdAllocator::next_id(counter) {
            Ok(allocation) => allocation,
            Err(error) => {
                return Err(error);
            },
        };
        let hash_ids = match IndexManager::append(env, hash_ids, allocation.id) {
            Ok(ids) => ids,
            Err(error) => {
                return Err(error);
            },
        };
        let candidate_ids = match IndexManager::append(env, candidate_ids, allocation.id) {
            Ok(ids) => ids,
            Err(error) => {
                return Err(error);
            },
        };
        let record = VerificationRecord {
            record_id: allocation.id,
            document_hash,
            candidate,
            verifier,
            doc_type,
            verification_status: is_valid,
            notes,
            timestamp,
        };
        Ok(Attestation { record, counter: allocation.counter, hash_ids, candidate_ids })
    }

    /// The record under an id, from what the read of its entry gave. An id
    /// that was never handed out has no record: that is an answer, not a
    /// failure. Fails where the entry could not be read.
    pub fn get_record(stored: Stored<VerificationRecord>) -> (outcome: Result<
        Option<VerificationRecord>,
        LedgerError,
    >)
        ensures
            match outcome {
                Ok(Some(record)) => stored == Stored::Present(record),
                Ok(None) => stored is Absent,
                Err(error) => error == LedgerError::StorageUnavailable && stored is Unreadable,
            },
    {
        match stored {
            Stored::Present(record) => Ok(Some(record)),
            Stored::Absent => Ok(None),
            Stored::Unreadable => Err(LedgerError::StorageUnavailable),
        }
    }

    /// All records about a document hash, oldest first, from what the reads
    /// of the entries under the ids of its index list gave, in the order of
    /// the list. An id that led to no record is passed over. Fails where one
    /// of the entries could not be read.
    pub fn get_verifications_by_hash(fetched: &Vec<Stored<VerificationRecord>>) -> (outcome:
        Result<Vec<VerificationRecord>, LedgerError>)
        ensures
            match outcome {
                Ok(records) => !any_unreadable(fetched@) && records@ == found_records(fetched@),
                Err(error) => error == LedgerError::StorageUnavailable && any_unreadable(
                    fetched@,
                ),
            },
    {
        Self::found(fetched)
    }

    /// All records about a candidate, oldest first, from what the reads of
    /// the entries under the ids of the candidate's index list gave, in the
    /// order of the list. An id that led to no record is passed over; no
    /// reads give the empty list. Fails where one of the entries could not be
    /// read.
    pub fn get_candidate_verifications(fetched: &Vec<Stored<VerificationRecord>>) -> (outcome:
        Result<Vec<VerificationRecord>, LedgerError>)
        ensures
            match outcome {
                Ok(records) => !any_unreadable(fetched@) && records@ == found_records(fetched@),
                Err(error) => error == LedgerError::StorageUnavailable && any_unreadable(
                    fetched@,
                ),
            },
    {
        Self::found(fetched)
    }

    /// Whether at least one record about a document hash attests validity,
    /// from what the reads of the entries under the ids of its index list
    /// gave. Fails where one of the entries could not be read.
    pub fn is_document_verified(fetched: &Vec<Stored<VerificationRecord>>) -> (outcome: Result<
        bool,
        LedgerError,
    >)
        ensures
            match outcome {
                Ok(verified) => !any_unreadable(fetched@) && verified == any_verified(
                    found_records(fetched@),
                ),
                Err(error) => error == LedgerError::StorageUnavailable && any_unreadable(
                    fetched@,
                ),
            },
    {
        let records = match Self::found(fetched) {
            Ok(records) => records,
            Err(error) => {
                return Err(error);
            },
        };
        let mut i: usize = 0;
        while i < records.len()
            invariant
                i <= records.len(),
                !any_unreadable(fetched@),
                records@ == found_records(fetched@),
                forall|j: int| 0 <= j < i ==> !(#[trigger] records@[j]).verification_status,
            decreases records.len() - i,
        {
            if records[i].verification_status {
                assert(records@[i as int].verification_status);
                return Ok(true);
            }
            i += 1;
        }
        Ok(false)
    }

    /// The number of records about a candidate that attest validity, from
    /// what the reads of the entries under the ids of the candidate's index
    /// list gave. Records that attest invalidity do not count. Refuses more
    /// reads than an index list can hold ids, and fails where one of the
    /// entries could not be read.
    pub fn get_verification_count(fetched: &Vec<Stored<VerificationRecord>>) -> (outcome: Result<
        u32,
        LedgerError,
    >)
        ensures
            match outcome {
                Ok(count) => {
                    &&& fetched@.len() <= u32::MAX
                    &&& !any_unreadable(fetched@)
                    &&& count == verified_count(found_records(fetched@))
                },
                Err(error) => if fetched@.len() > u32::MAX {
                    error == LedgerError::IndexFull
                } else {
                    error == LedgerError::StorageUnavailable && any_unreadable(fetched@)
                },
            },
    {
        if fetched.len() > u32::MAX as usize {
            return Err(LedgerError::IndexFull);
        }
        let records = match Self::found(fetched) {
            Ok(records) => records,
            Err(error) => {
                return Err(error);
            },
        };
        let mut count: u32 = 0;
        let mut i: usize = 0;
        while i < records.len()
            invariant
                i <= records.len(),
                records@.len() <= u32::MAX,
                count <= i,
                count == verified_count(records@.take(i as int)),
            decreases records.len() - i,
        {
            proof {
                lemma_count_one_more(records@.take(i as int), records@[i as int]);
                assert(records@.take(i as int).push(records@[i as int]) =~= records@.take(
                    i as int + 1,
                ));
            }
            if records[i].verification_status {
                count += 1;
            }
            i += 1;
        }
        assert(records@.take(i as int) =~= records@);
        Ok(count)
    }

    /// Whether a document has drifted from what was attested: `true` exactly
    /// when the two hashes differ in some byte.
    pub fn detect_tampering(original_hash: BytesN<32>, current_hash: BytesN<32>) -> (tampered:
        bool)
        ensures
            tampered == (digest_bytes(original_hash) != digest_bytes(current_hash)),
    {
        !same_digest(&original_hash, &current_hash)
    }

    /// The records that the reads found, in order; fails at the first read
    /// that found something that is no record.
    fn found(fetched: &Vec<Stored<VerificationRecord>>) -> (outcome: Result<
        Vec<VerificationRecord>,
        LedgerError,
    >)
        ensures
            match outcome {
                Ok(records) => {
                    &&& !any_unreadable(fetched@)
                    &&& records@ == found_records(fetched@)
                    &&& records@.len() <= fetched@.len()
                },
                Err(error) => error == LedgerError::StorageUnavailable && any_unreadable(
                    fetched@,
                ),
            },
    {
        let mut records: Vec<VerificationRecord> = Vec::new();
        let mut i: usize = 0;
        while i < fetched.len()
            invariant
                i <= fetched.len(),
                records@ == found_records(fetched@.take(i as int)),
                records@.len() <= i,
                forall|j: int| 0 <= j < i ==> !((#[trigger] fetched@[j]) is Unreadable),
            decreases fetched.len() - i,
        {
            proof {
                lemma_found_one_more(fetched@.take(i as int), fetched@[i as int]);
                assert(fetched@.take(i as int).push(fetched@[i as int]) =~= fetched@.take(
                    i as int + 1,
                ));
            }
            match &fetched[i] {
                Stored::Present(record) => {
                    records.push(record.duplicate());
                },
                Stored::Absent => {},
                Stored::Unreadable => {
                    return Err(LedgerError::StorageUnavailable);
                },
            }
            i += 1;
        }
        assert(fetched@.take(i as int) =~= fetched@);
        Ok(records)
    }
}

} // verus!
