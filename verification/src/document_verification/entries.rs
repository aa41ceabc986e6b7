//! The mathematical picture of the ledger's storage entries, and what the
//! reads, the queries and the one transition mean on it.

use super::record::{LedgerError, VerificationRecord};
use crate::host::digest_bytes;
use crate::store::{counter_next, Stored};
use soroban_sdk::Address;
use vstd::prelude::*;

verus! {

/// What the storage holds for the ledger.
pub struct LedgerEntries {
    /// The counter: the id that the next record gets. Absent until the first
    /// record is made.
    pub counter: Option<u64>,
    /// The records by id.
    pub records: Map<u64, VerificationRecord>,
    /// The id lists by document hash, keyed by the digest's bytes.
    pub by_hash: Map<Seq<u8>, Seq<u64>>,
    /// The id lists by candidate.
    pub by_candidate: Map<Address, Seq<u64>>,
    /// Whether something lies in the counter's place that is no counter.
    pub counter_unreadable: bool,
    /// The ids under which something lies that is no record.
    pub unreadable_records: Set<u64>,
    /// The digests under which something lies that is no list of ids.
    pub unreadable_hash_lists: Set<Seq<u8>>,
    /// The candidates under which something lies that is no list of ids.
    pub unreadable_candidate_lists: Set<Address>,
}

/// The records that `ids` lead to, in the order of `ids`. An id without a
/// record is passed over.
pub open spec fn resolve(ids: Seq<u64>, records: Map<u64, VerificationRecord>) -> Seq<
    VerificationRecord,
> {
    ids.filter(|id: u64| records.contains_key(id)).map_values(|id: u64| records[id])
}

/// The ids that an index list read holds: those of the list, or none where
/// there is no list.
pub open spec fn listed_ids(read: Stored<Seq<u64>>) -> Seq<u64> {
    match read {
        Stored::Present(ids) => ids,
        _ => Seq::empty(),
    }
}

/// Why an attestation cannot be made on what was read of the counter and of
/// the two index lists, if it cannot.
pub open spec fn attestation_refusal(
    counter: Stored<u64>,
    hash_ids: Stored<Seq<u64>>,
    candidate_ids: Stored<Seq<u64>>,
) -> Option<LedgerError> {
    if counter is Unreadable {
        Some(LedgerError::StorageUnavailable)
    } else if counter_next(counter) == u64::MAX {
        Some(LedgerError::IdSpaceExhausted)
    } else if hash_ids is Unreadable {
        Some(LedgerError::StorageUnavailable)
    } else if listed_ids(hash_ids).len() >= u32::MAX {
        Some(LedgerError::IndexFull)
    } else if candidate_ids is Unreadable {
        Some(LedgerError::StorageUnavailable)
    } else if listed_ids(candidate_ids).len() >= u32::MAX {
        Some(LedgerError::IndexFull)
    } else {
        None
    }
}

/// Whether one of the reads found something that is no record.
pub open spec fn any_unreadable(fetched: Seq<Stored<VerificationRecord>>) -> bool {
    exists|i: int| 0 <= i < fetched.len() && (#[trigger] fetched[i]) is Unreadable
}

/// The records that the reads found, in order. A read that found nothing is
/// passed over.
pub open spec fn found_records(fetched: Seq<Stored<VerificationRecord>>) -> Seq<
    VerificationRecord,
> {
    fetched.filter(|read: Stored<VerificationRecord>| read is Present).map_values(
        |read: Stored<VerificationRecord>| read->Present_0,
    )
}

/// Whether at least one of the records attests validity.
pub open spec fn any_verified(records: Seq<VerificationRecord>) -> bool {
    exists|i: int| 0 <= i < records.len() && (#[trigger] records[i]).verification_status
}

/// How many of the records attest validity.
pub open spec fn verified_count(records: Seq<VerificationRecord>) -> nat {
    records.filter(|record: VerificationRecord| record.verification_status).len()
}

/// Whether every id in the list is smaller than the ids after it. Such a list
/// holds no id twice.
pub open spec fn rising(ids: Seq<u64>) -> bool {
    forall|i: int, j: int| 0 <= i < j < ids.len() ==> ids[i] < ids[j]
}

impl LedgerEntries {
    /// Storage in which the ledger has never written.
    pub open spec fn empty() -> LedgerEntries {
        LedgerEntries {
            counter: None,
            records: Map::empty(),
            by_hash: Map::empty(),
            by_candidate: Map::empty(),
            counter_unreadable: false,
            unreadable_records: Set::empty(),
            unreadable_hash_lists: Set::empty(),
            unreadable_candidate_lists: Set::empty(),
        }
    }

    /// The id that the next record gets: the counter, or 1 before the first
    /// record.
    pub open spec fn next_id(self) -> u64 {
        match self.counter {
            Some(counter) => counter,
            None => 1,
        }
    }

    /// The record with this id, if one was made.
    pub open spec fn record(self, id: u64) -> Option<VerificationRecord> {
        self.records.get(id)
    }

    /// What a read of the counter gives.
    pub open spec fn counter_read(self) -> Stored<u64> {
        if self.counter_unreadable {
            Stored::Unreadable
        } else {
            match self.counter {
                Some(counter) => Stored::Present(counter),
                None => Stored::Absent,
            }
        }
    }

    /// What a read of the record entry under an id gives.
    pub open spec fn record_read(self, id: u64) -> Stored<VerificationRecord> {
        if self.unreadable_records.contains(id) {
            Stored::Unreadable
        } else {
            match self.records.get(id) {
                Some(record) => Stored::Present(record),
                None => Stored::Absent,
            }
        }
    }

    /// What a read of the index list of a document hash gives.
    pub open spec fn hash_ids_read(self, digest: Seq<u8>) -> Stored<Seq<u64>> {
        if self.unreadable_hash_lists.contains(digest) {
            Stored::Unreadable
        } else {
            match self.by_hash.get(digest) {
                Some(ids) => Stored::Present(ids),
                None => Stored::Absent,
            }
        }
    }

    /// What a read of the index list of a candidate gives.
    pub open spec fn candidate_ids_read(self, candidate: Address) -> Stored<Seq<u64>> {
        if self.unreadable_candidate_lists.contains(candidate) {
            Stored::Unreadable
        } else {
            match self.by_candidate.get(candidate) {
                Some(ids) => Stored::Present(ids),
                None => Stored::Absent,
            }
        }
    }

    /// What the reads of the record entries under the ids of a list give, in
    /// the order of the list.
    pub open spec fn records_read(self, ids: Seq<u64>) -> Seq<Stored<VerificationRecord>> {
        ids.map_values(|id: u64| self.record_read(id))
    }

    /// The ids indexed under a document hash, oldest first; empty for a hash
    /// that was never indexed.
    pub open spec fn ids_by_hash(self, digest: Seq<u8>) -> Seq<u64> {
        match self.by_hash.get(digest) {
            Some(ids) => ids,
            None => Seq::empty(),
        }
    }

    /// The ids indexed under a candidate, oldest first; empty for a candidate
    /// that was never indexed.
    pub open spec fn ids_by_candidate(self, candidate: Address) -> Seq<u64> {
        match self.by_candidate.get(candidate) {
            Some(ids) => ids,
            None => Seq::empty(),
        }
    }

    /// The records about a document hash, oldest first.
    pub open spec fn records_by_hash(self, digest: Seq<u8>) -> Seq<VerificationRecord> {
        resolve(self.ids_by_hash(digest), self.records)
    }

    /// The records about a candidate, oldest first.
    pub open spec fn records_by_candidate(self, candidate: Address) -> Seq<VerificationRecord> {
        resolve(self.ids_by_candidate(candidate), self.records)
    }

    /// Any-positive policy: a document counts as verified as soon as one of
    /// its records attests validity, whatever later records say.
    pub open spec fn is_verified(self, digest: Seq<u8>) -> bool {
        any_verified(self.records_by_hash(digest))
    }

    /// The number of a candidate's records that attest validity.
    pub open spec fn verification_count(self, candidate: Address) -> nat {
        verified_count(self.records_by_candidate(candidate))
    }

    /// The entries with the counter written: whatever lay under its key, a
    /// counter lies there now.
    pub open spec fn with_counter(self, counter: u64) -> LedgerEntries {
        LedgerEntries { counter: Some(counter), counter_unreadable: false, ..self }
    }

    /// The entries with a record written under its own id.
    pub open spec fn with_record(self, record: VerificationRecord) -> LedgerEntries {
        LedgerEntries {
            records: self.records.insert(record.record_id, record),
            unreadable_records: self.unreadable_records.remove(record.record_id),
            ..self
        }
    }

    /// The entries with the id list of one document hash written.
    pub open spec fn with_hash_ids(self, digest: Seq<u8>, ids: Seq<u64>) -> LedgerEntries {
        LedgerEntries {
            by_hash: self.by_hash.insert(digest, ids),
            unreadable_hash_lists: self.unreadable_hash_lists.remove(digest),
            ..self
        }
    }

    /// The entries with the id list of one candidate written.
    pub open spec fn with_candidate_ids(self, candidate: Address, ids: Seq<u64>) -> LedgerEntries {
        LedgerEntries {
            by_candidate: self.by_candidate.insert(candidate, ids),
            unreadable_candidate_lists: self.unreadable_candidate_lists.remove(candidate),
            ..self
        }
    }

    /// Whether one of the ids leads to an entry that is no record.
    pub open spec fn meets_unreadable(self, ids: Seq<u64>) -> bool {
        exists|i: int| 0 <= i < ids.len() && self.unreadable_records.contains(#[trigger] ids[i])
    }

    /// Whether the records about a document hash cannot be listed: its index
    /// list cannot be read, or one of its ids leads to an entry that is no
    /// record.
    pub open spec fn hash_listing_fails(self, digest: Seq<u8>) -> bool {
        self.unreadable_hash_lists.contains(digest) || self.meets_unreadable(
            self.ids_by_hash(digest),
        )
    }

    /// Whether the records about a candidate cannot be listed: the index list
    /// cannot be read, or one of its ids leads to an entry that is no record.
    pub open spec fn candidate_listing_fails(self, candidate: Address) -> bool {
        self.unreadable_candidate_lists.contains(candidate) || self.meets_unreadable(
            self.ids_by_candidate(candidate),
        )
    }

    /// Why a record for this document hash and candidate cannot be added, if
    /// it cannot.
    pub open spec fn refusal(self, digest: Seq<u8>, candidate: Address) -> Option<LedgerError> {
        if self.counter_unreadable {
            Some(LedgerError::StorageUnavailable)
        } else if self.next_id() == u64::MAX {
            Some(LedgerError::IdSpaceExhausted)
        } else if self.unreadable_hash_lists.contains(digest) {
            Some(LedgerError::StorageUnavailable)
        } else if self.ids_by_hash(digest).len() >= u32::MAX {
            Some(LedgerError::IndexFull)
        } else if self.unreadable_candidate_lists.contains(candidate) {
            Some(LedgerError::StorageUnavailable)
        } else if self.ids_by_candidate(candidate).len() >= u32::MAX {
            Some(LedgerError::IndexFull)
        } else {
            None
        }
    }

    /// Whether `record` is one that the ledger can add next: nothing refuses
    /// it and it carries the next id.
    pub open spec fn accepts(self, record: VerificationRecord) -> bool {
        &&& self.refusal(digest_bytes(record.document_hash), record.candidate) is None
        &&& record.record_id == self.next_id()
    }

    /// Whether the record with this id exists and is about this document hash.
    pub open spec fn has_hash(self, id: u64, digest: Seq<u8>) -> bool {
        self.records.contains_key(id) && digest_bytes(self.records[id].document_hash) == digest
    }

    /// Whether the record with this id exists and is about this candidate.
    pub open spec fn has_candidate(self, id: u64, candidate: Address) -> bool {
        self.records.contains_key(id) && self.records[id].candidate == candidate
    }

    /// The ids of the candidate's records that attest validity.
    pub open spec fn valid_ids(self, candidate: Address) -> Set<u64> {
        Set::new(
            |id: u64| self.has_candidate(id, candidate) && self.records[id].verification_status,
        )
    }

    /// The invariant of the ledger.
    ///
    /// - The ids in use are exactly those from 1 up to the counter, and each
    ///   record is stored under the id it carries.
    /// - The index list of a document hash holds exactly the ids of the
    ///   records about that hash, each once, in the order in which they were
    ///   handed out; likewise the list of a candidate. So every record is
    ///   found through both indexes, through exactly one list of each, and no
    ///   list leads to a record that does not exist.
    /// - Every entry can be read.
    pub open spec fn well_formed(self) -> bool {
        &&& !self.counter_unreadable
        &&& forall|id: u64| !self.unreadable_records.contains(id)
        &&& forall|digest: Seq<u8>| !self.unreadable_hash_lists.contains(digest)
        &&& forall|candidate: Address| !self.unreadable_candidate_lists.contains(candidate)
        &&& 1 <= self.next_id()
        &&& forall|id: u64| #[trigger] self.records.contains_key(id) <==> 1 <= id < self.next_id()
        &&& forall|id: u64|
            self.records.contains_key(id) ==> (#[trigger] self.records[id]).record_id == id
        &&& forall|digest: Seq<u8>| rising(#[trigger] self.ids_by_hash(digest))
        &&& forall|digest: Seq<u8>, id: u64|
            self.ids_by_hash(digest).contains(id) <==> #[trigger] self.has_hash(id, digest)
        &&& forall|candidate: Address| rising(#[trigger] self.ids_by_candidate(candidate))
        &&& forall|candidate: Address, id: u64|
            self.ids_by_candidate(candidate).contains(id) <==> #[trigger] self.has_candidate(
                id,
                candidate,
            )
    }

    /// The entries after `record` was added: the counter moves past its id,
    /// the record is stored, and its id is the new last entry of both of its
    /// index lists. Whatever lay under the record's id before, the record
    /// lies there now.
    pub open spec fn recorded(self, record: VerificationRecord) -> LedgerEntries {
        let digest = digest_bytes(record.document_hash);
        LedgerEntries {
            counter: Some((record.record_id + 1) as u64),
            records: self.records.insert(record.record_id, record),
            by_hash: self.by_hash.insert(digest, self.ids_by_hash(digest).push(record.record_id)),
            by_candidate: self.by_candidate.insert(
                record.candidate,
                self.ids_by_candidate(record.candidate).push(record.record_id),
            ),
            counter_unreadable: false,
            unreadable_records: self.unreadable_records.remove(record.record_id),
            unreadable_hash_lists: self.unreadable_hash_lists.remove(digest),
            unreadable_candidate_lists: self.unreadable_candidate_lists.remove(record.candidate),
        }
    }

    /// The entries after the records were added one after the other.
    pub open spec fn after(self, records: Seq<VerificationRecord>) -> LedgerEntries
        decreases records.len(),
    {
        if records.len() == 0 {
            self
        } else {
            self.after(records.drop_last()).recorded(records.last())
        }
    }

    /// Whether the records are ones that the ledger adds one after the other,
    /// starting from these entries: each is accepted by the entries that the
    /// records before it leave.
    pub open spec fn admits(self, records: Seq<VerificationRecord>) -> bool
        decreases records.len(),
    {
        records.len() == 0 || (self.admits(records.drop_last()) && self.after(
            records.drop_last(),
        ).accepts(records.last()))
    }
}

} // verus!
