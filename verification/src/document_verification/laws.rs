//! What holds of the ledger across operations.
//!
//! The laws speak of [`LedgerEntries`], the picture of the storage:
//! `recorded` is what a successful attestation does to the entries, `after`
//! what a run of them does. The first laws tie the operations to the
//! picture: an operation that is handed what the reads of the entries give
//! decides as the picture says, and its writes make the entries that the
//! picture says.

use super::entries::{
    any_unreadable, attestation_refusal, found_records, listed_ids, resolve, rising,
    verified_count, LedgerEntries,
};
use super::record::{LedgerError, VerificationRecord};
use crate::host::digest_bytes;
use crate::store::{counter_next, Stored};
use soroban_sdk::Address;
use vstd::prelude::*;

verus! {

/// An attestation that is decided on what the reads of the entries give is
/// refused exactly where the entries refuse it, and where it is not, it sees
/// the next id and the two index lists of the entries.
pub proof fn lemma_reads_decide_the_attestation(
    entries: LedgerEntries,
    digest: Seq<u8>,
    candidate: Address,
)
    ensures
        attestation_refusal(
            entries.counter_read(),
            entries.hash_ids_read(digest),
            entries.candidate_ids_read(candidate),
        ) == entries.refusal(digest, candidate),
        !entries.counter_unreadable ==> counter_next(entries.counter_read()) == entries.next_id(),
        !entries.unreadable_hash_lists.contains(digest) ==> listed_ids(
            entries.hash_ids_read(digest),
        ) == entries.ids_by_hash(digest),
        !entries.unreadable_candidate_lists.contains(candidate) ==> listed_ids(
            entries.candidate_ids_read(candidate),
        ) == entries.ids_by_candidate(candidate),
{
}

/// The four writes that an attestation asks for make the entries that
/// `recorded` describes: the counter after the record's id, the record under
/// its id, and the two index lists with the id at their end.
pub proof fn lemma_writes_of_an_attestation(entries: LedgerEntries, record: VerificationRecord)
    ensures
        entries.with_counter((record.record_id + 1) as u64).with_record(record).with_hash_ids(
            digest_bytes(record.document_hash),
            entries.ids_by_hash(digest_bytes(record.document_hash)).push(record.record_id),
        ).with_candidate_ids(
            record.candidate,
            entries.ids_by_candidate(record.candidate).push(record.record_id),
        ) == entries.recorded(record),
{
}

/// A listing that is made from what the reads of the entries under the ids of
/// a list give fails exactly where one of the ids leads to an entry that is
/// no record, and else finds the records that the ids resolve to.
pub proof fn lemma_reads_make_the_listing(entries: LedgerEntries, ids: Seq<u64>)
    ensures
        any_unreadable(entries.records_read(ids)) == entries.meets_unreadable(ids),
        !entries.meets_unreadable(ids) ==> found_records(entries.records_read(ids)) == resolve(
            ids,
            entries.records,
        ),
    decreases ids.len(),
{
    let fetched = entries.records_read(ids);
    if any_unreadable(fetched) {
        let i = choose|i: int| 0 <= i < fetched.len() && (#[trigger] fetched[i]) is Unreadable;
        assert(entries.unreadable_records.contains(ids[i]));
    }
    if entries.meets_unreadable(ids) {
        let i = choose|i: int|
            0 <= i < ids.len() && entries.unreadable_records.contains(#[trigger] ids[i]);
        assert(fetched[i] is Unreadable);
    }
    if ids.len() == 0 {
        assert(found_records(fetched) =~= resolve(ids, entries.records)) by {
            reveal_with_fuel(Seq::filter, 1);
        }
    } else if !entries.meets_unreadable(ids) {
        let front = ids.drop_last();
        let last = ids.last();
        assert(front.push(last) =~= ids);
        assert forall|i: int| 0 <= i < front.len() implies !entries.unreadable_records.contains(
            #[trigger] front[i],
        ) by {
            assert(front[i] == ids[i]);
        }
        assert(!entries.unreadable_records.contains(ids[ids.len() - 1]));
        lemma_reads_make_the_listing(entries, front);
        assert(entries.records_read(front).push(entries.record_read(last)) =~= fetched);
        lemma_found_one_more(entries.records_read(front), entries.record_read(last));
        lemma_resolve_one_more(front, last, entries.records);
    }
}

/// Storage in which the ledger has never written is well formed.
pub proof fn lemma_empty_is_well_formed()
    ensures
        LedgerEntries::empty().well_formed(),
{
    let entries = LedgerEntries::empty();
    assert forall|digest: Seq<u8>, id: u64|
        entries.ids_by_hash(digest).contains(id) <==> #[trigger] entries.has_hash(id, digest) by {
        assert(entries.ids_by_hash(digest).len() == 0);
    }
    assert forall|candidate: Address, id: u64|
        entries.ids_by_candidate(candidate).contains(id) <==> #[trigger] entries.has_candidate(
            id,
            candidate,
        ) by {
        assert(entries.ids_by_candidate(candidate).len() == 0);
    }
}

/// Adding a record keeps the ledger well formed: ids stay unique and
/// consecutive, and each record stays listed exactly once under its document
/// hash and once under its candidate, with no list leading nowhere.
pub proof fn lemma_recorded_is_well_formed(entries: LedgerEntries, record: VerificationRecord)
    requires
        entries.well_formed(),
        entries.accepts(record),
    ensures
        entries.recorded(record).well_formed(),
{
    let next = entries.recorded(record);
    let new_id = record.record_id;
    let new_digest = digest_bytes(record.document_hash);
    assert(!entries.records.contains_key(new_id));
    assert forall|id: u64| #[trigger] next.records.contains_key(id) <==> 1 <= id
        < next.next_id() by {
        assert(entries.records.contains_key(id) <==> 1 <= id < entries.next_id());
    }
    assert forall|digest: Seq<u8>| rising(#[trigger] next.ids_by_hash(digest)) by {
        let before = entries.ids_by_hash(digest);
        assert(rising(before));
        if digest == new_digest {
            assert forall|i: int| 0 <= i < before.len() implies before[i] < new_id by {
                assert(before.contains(before[i]));
                assert(entries.has_hash(before[i], digest));
            }
        } else {
            assert(next.ids_by_hash(digest) == before);
        }
    }
    assert forall|digest: Seq<u8>, id: u64|
        next.ids_by_hash(digest).contains(id) <==> #[trigger] next.has_hash(id, digest) by {
        let before = entries.ids_by_hash(digest);
        assert(before.contains(id) <==> entries.has_hash(id, digest));
        assert(!entries.has_hash(new_id, digest));
        if digest == new_digest {
            lemma_push_contains(before, new_id, id);
        } else {
            assert(next.ids_by_hash(digest) == before);
        }
    }
    assert forall|candidate: Address| rising(#[trigger] next.ids_by_candidate(candidate)) by {
        let before = entries.ids_by_candidate(candidate);
        assert(rising(before));
        if candidate == record.candidate {
            assert forall|i: int| 0 <= i < before.len() implies before[i] < new_id by {
                assert(before.contains(before[i]));
                assert(entries.has_candidate(before[i], candidate));
            }
        } else {
            assert(next.ids_by_candidate(candidate) == before);
        }
    }
    assert forall|candidate: Address, id: u64|
        next.ids_by_candidate(candidate).contains(id) <==> #[trigger] next.has_candidate(
            id,
            candidate,
        ) by {
        let before = entries.ids_by_candidate(candidate);
        assert(before.contains(id) <==> entries.has_candidate(id, candidate));
        assert(!entries.has_candidate(new_id, candidate));
        if candidate == record.candidate {
            lemma_push_contains(before, new_id, id);
        } else {
            assert(next.ids_by_candidate(candidate) == before);
        }
    }
}

/// In a well-formed ledger every entry can be read: no listing fails, and no
/// attestation is refused for want of the store.
pub proof fn lemma_well_formed_ledger_is_available(
    entries: LedgerEntries,
    digest: Seq<u8>,
    candidate: Address,
)
    requires
        entries.well_formed(),
    ensures
        !entries.hash_listing_fails(digest),
        !entries.candidate_listing_fails(candidate),
        entries.refusal(digest, candidate) != Some(LedgerError::StorageUnavailable),
{
}

/// A run of attestations keeps the ledger well formed.
pub proof fn lemma_run_is_well_formed(entries: LedgerEntries, records: Seq<VerificationRecord>)
    requires
        entries.well_formed(),
        entries.admits(records),
    ensures
        entries.after(records).well_formed(),
    decreases records.len(),
{
    if records.len() > 0 {
        lemma_run_is_well_formed(entries, records.drop_last());
        lemma_recorded_is_well_formed(entries.after(records.drop_last()), records.last());
    }
}

/// In a well-formed ledger the ids that the indexes lead to are exactly the
/// ids of the records: every record is reached through the list of its
/// document hash and through the list of its candidate, and no list holds an
/// id without a record.
pub proof fn lemma_indexes_reach_exactly_the_records(entries: LedgerEntries, id: u64)
    requires
        entries.well_formed(),
    ensures
        entries.records.contains_key(id) <==> exists|digest: Seq<u8>|
            entries.ids_by_hash(digest).contains(id),
        entries.records.contains_key(id) <==> exists|candidate: Address|
            entries.ids_by_candidate(candidate).contains(id),
{
    if entries.records.contains_key(id) {
        let record = entries.records[id];
        assert(entries.has_hash(id, digest_bytes(record.document_hash)));
        assert(entries.ids_by_hash(digest_bytes(record.document_hash)).contains(id));
        assert(entries.has_candidate(id, record.candidate));
        assert(entries.ids_by_candidate(record.candidate).contains(id));
    }
    if exists|digest: Seq<u8>| entries.ids_by_hash(digest).contains(id) {
        let digest = choose|digest: Seq<u8>| entries.ids_by_hash(digest).contains(id);
        assert(entries.has_hash(id, digest));
    }
    if exists|candidate: Address| entries.ids_by_candidate(candidate).contains(id) {
        let candidate = choose|candidate: Address| entries.ids_by_candidate(candidate).contains(id);
        assert(entries.has_candidate(id, candidate));
    }
}

/// Record ids are handed out in rising order, without gaps and without
/// repeats: the record at position `k` of a run carries the id that was next
/// at the start, plus `k`.
pub proof fn lemma_ids_are_consecutive(entries: LedgerEntries, records: Seq<VerificationRecord>)
    requires
        entries.admits(records),
    ensures
        entries.after(records).next_id() == entries.next_id() + records.len(),
        forall|k: int|
            0 <= k < records.len() ==> (#[trigger] records[k]).record_id == entries.next_id() + k,
        forall|j: int, k: int|
            0 <= j < k < records.len() ==> (#[trigger] records[j]).record_id < (
            #[trigger] records[k]).record_id,
    decreases records.len(),
{
    if records.len() > 0 {
        let front = records.drop_last();
        lemma_ids_are_consecutive(entries, front);
        assert forall|k: int| 0 <= k < records.len() implies (#[trigger] records[k]).record_id
            == entries.next_id() + k by {
            if k < front.len() {
                assert(records[k] == front[k]);
            }
        }
    }
}

/// A record that was returned by an attestation is the record that a lookup
/// of its id finds afterwards, field for field.
pub proof fn lemma_record_round_trip(entries: LedgerEntries, record: VerificationRecord)
    ensures
        entries.recorded(record).record(record.record_id) == Some(record),
{
}

/// Records are never changed or removed: what a lookup found before an
/// attestation, it finds after it.
pub proof fn lemma_records_are_kept(entries: LedgerEntries, record: VerificationRecord, id: u64)
    requires
        entries.well_formed(),
        entries.accepts(record),
        entries.record(id) is Some,
    ensures
        entries.recorded(record).record(id) == entries.record(id),
{
}

/// Index lists only grow, at the end: what a list held before an attestation
/// is the beginning of what it holds after it, in the same order.
pub proof fn lemma_index_lists_only_grow(
    entries: LedgerEntries,
    record: VerificationRecord,
    digest: Seq<u8>,
    candidate: Address,
)
    ensures
        entries.ids_by_hash(digest).is_prefix_of(entries.recorded(record).ids_by_hash(digest)),
        entries.ids_by_candidate(candidate).is_prefix_of(
            entries.recorded(record).ids_by_candidate(candidate),
        ),
{
}

/// An attestation of validity makes its document verified at once.
pub proof fn lemma_valid_attestation_verifies(entries: LedgerEntries, record: VerificationRecord)
    requires
        record.verification_status,
    ensures
        entries.recorded(record).is_verified(digest_bytes(record.document_hash)),
{
    let digest = digest_bytes(record.document_hash);
    let next = entries.recorded(record);
    assert(next.ids_by_hash(digest) == entries.ids_by_hash(digest).push(record.record_id));
    lemma_resolve_one_more(entries.ids_by_hash(digest), record.record_id, next.records);
    let records = next.records_by_hash(digest);
    assert(records[records.len() - 1].verification_status);
}

/// A verified document stays verified, whatever is attested later, of it or
/// of any other document.
pub proof fn lemma_verified_stays_verified(
    entries: LedgerEntries,
    record: VerificationRecord,
    digest: Seq<u8>,
)
    requires
        entries.well_formed(),
        entries.accepts(record),
        entries.is_verified(digest),
    ensures
        entries.recorded(record).is_verified(digest),
{
    lemma_recorded_extends_queries(entries, record, digest, record.candidate);
    let before = entries.records_by_hash(digest);
    let i = choose|i: int| 0 <= i < before.len() && (#[trigger] before[i]).verification_status;
    let records = entries.recorded(record).records_by_hash(digest);
    assert(records[i].verification_status);
}

/// Any-positive policy over a whole run: once some attestation in a run has
/// declared a document valid, the document is verified at the end of the run,
/// also where later attestations declared it invalid.
pub proof fn lemma_verified_once_verified_always(
    entries: LedgerEntries,
    records: Seq<VerificationRecord>,
    k: int,
)
    requires
        entries.well_formed(),
        entries.admits(records),
        0 <= k < records.len(),
        records[k].verification_status,
    ensures
        entries.after(records).is_verified(digest_bytes(records[k].document_hash)),
    decreases records.len(),
{
    let front = records.drop_last();
    lemma_run_is_well_formed(entries, front);
    if k == records.len() - 1 {
        lemma_valid_attestation_verifies(entries.after(front), records.last());
    } else {
        lemma_verified_once_verified_always(entries, front, k);
        lemma_verified_stays_verified(
            entries.after(front),
            records.last(),
            digest_bytes(records[k].document_hash),
        );
    }
}

/// The count of a candidate's valid attestations rises by one with each
/// attestation of validity for that candidate, and with nothing else: an
/// attestation of invalidity, or one about another candidate, leaves it.
pub proof fn lemma_count_follows_valid_attestations(
    entries: LedgerEntries,
    record: VerificationRecord,
    candidate: Address,
)
    requires
        entries.well_formed(),
        entries.accepts(record),
    ensures
        entries.recorded(record).verification_count(candidate) == entries.verification_count(
            candidate,
        ) + if record.candidate == candidate && record.verification_status {
            1nat
        } else {
            0nat
        },
{
    lemma_recorded_extends_queries(
        entries,
        record,
        digest_bytes(record.document_hash),
        candidate,
    );
    lemma_count_one_more(entries.records_by_candidate(candidate), record);
}

/// In a well-formed ledger the count of a candidate's valid attestations is
/// the number of records in the ledger that are about the candidate and
/// attest validity.
pub proof fn lemma_count_is_of_the_records(entries: LedgerEntries, candidate: Address)
    requires
        entries.well_formed(),
    ensures
        entries.valid_ids(candidate).finite(),
        entries.verification_count(candidate) == entries.valid_ids(candidate).len(),
{
    let ids = entries.ids_by_candidate(candidate);
    assert(rising(ids));
    assert forall|i: int| 0 <= i < ids.len() implies entries.records.contains_key(
        #[trigger] ids[i],
    ) by {
        assert(ids.contains(ids[i]));
        assert(entries.has_candidate(ids[i], candidate));
    }
    lemma_count_of_listed(ids, entries.records);
    assert forall|id: u64| ids.contains(id) <==> entries.has_candidate(id, candidate) by {}
    assert(listed_valid(ids, entries.records) =~= entries.valid_ids(candidate));
}

// What the laws, and the loops of the operations, rest on.

/// One more read adds the record that it found at the end, or nothing where
/// it found none.
pub proof fn lemma_found_one_more(
    fetched: Seq<Stored<VerificationRecord>>,
    read: Stored<VerificationRecord>,
)
    ensures
        found_records(fetched.push(read)) == if read is Present {
            found_records(fetched).push(read->Present_0)
        } else {
            found_records(fetched)
        },
        found_records(fetched).len() <= fetched.len(),
{
    let present = |read: Stored<VerificationRecord>| read is Present;
    reveal_with_fuel(Seq::filter, 2);
    assert(fetched.push(read).drop_last() =~= fetched);
    assert(fetched.push(read).filter(present) == if present(read) {
        fetched.filter(present).push(read)
    } else {
        fetched.filter(present)
    });
    if read is Present {
        assert(found_records(fetched.push(read)) =~= found_records(fetched).push(
            read->Present_0,
        ));
    }
    fetched.lemma_filter_len(present);
}

/// Resolving one more id adds its record at the end, or nothing where the id
/// has no record.
pub proof fn lemma_resolve_one_more(
    ids: Seq<u64>,
    id: u64,
    records: Map<u64, VerificationRecord>,
)
    ensures
        resolve(ids.push(id), records) == if records.contains_key(id) {
            resolve(ids, records).push(records[id])
        } else {
            resolve(ids, records)
        },
        resolve(ids, records).len() <= ids.len(),
{
    let found = |id: u64| records.contains_key(id);
    reveal_with_fuel(Seq::filter, 2);
    assert(ids.push(id).drop_last() =~= ids);
    assert(ids.push(id).filter(found) == if found(id) {
        ids.filter(found).push(id)
    } else {
        ids.filter(found)
    });
    if records.contains_key(id) {
        assert(resolve(ids.push(id), records) =~= resolve(ids, records).push(records[id]));
    }
    ids.lemma_filter_len(found);
}

/// One more record raises the count of valid attestations by one if it
/// attests validity, and leaves it otherwise.
pub proof fn lemma_count_one_more(records: Seq<VerificationRecord>, record: VerificationRecord)
    ensures
        verified_count(records.push(record)) == verified_count(records) + if record.verification_status {
            1nat
        } else {
            0nat
        },
        verified_count(records) <= records.len(),
{
    let valid = |record: VerificationRecord| record.verification_status;
    reveal_with_fuel(Seq::filter, 2);
    assert(records.push(record).drop_last() =~= records);
    records.lemma_filter_len(valid);
}

/// A list with one more id holds that id and what it held before.
proof fn lemma_push_contains(ids: Seq<u64>, last: u64, id: u64)
    ensures
        ids.push(last).contains(id) <==> ids.contains(id) || id == last,
{
    if ids.contains(id) {
        let i = choose|i: int| 0 <= i < ids.len() && ids[i] == id;
        assert(ids.push(last)[i] == id);
    }
    if id == last {
        assert(ids.push(last)[ids.len() as int] == id);
    }
}

/// A record stored under an id that the list does not hold changes nothing
/// in what the list resolves to.
proof fn lemma_resolve_ignores_absent_id(
    ids: Seq<u64>,
    records: Map<u64, VerificationRecord>,
    record: VerificationRecord,
)
    requires
        !ids.contains(record.record_id),
    ensures
        resolve(ids, records.insert(record.record_id, record)) == resolve(ids, records),
    decreases ids.len(),
{
    let more = records.insert(record.record_id, record);
    if ids.len() == 0 {
        assert(resolve(ids, more) =~= resolve(ids, records));
    } else {
        let front = ids.drop_last();
        let last = ids.last();
        assert(front.push(last) =~= ids);
        assert(ids[ids.len() - 1] == last);
        assert forall|id: u64| front.contains(id) implies ids.contains(id) by {
            lemma_push_contains(front, last, id);
        }
        lemma_resolve_ignores_absent_id(front, records, record);
        lemma_resolve_one_more(front, last, records);
        lemma_resolve_one_more(front, last, more);
    }
}

/// What a new record does to the records about any document hash and any
/// candidate: it is the new last record of its own hash and of its own
/// candidate, and all else stays.
pub proof fn lemma_recorded_extends_queries(
    entries: LedgerEntries,
    record: VerificationRecord,
    digest: Seq<u8>,
    candidate: Address,
)
    requires
        entries.well_formed(),
        entries.accepts(record),
    ensures
        entries.recorded(record).records_by_hash(digest) == if digest == digest_bytes(
            record.document_hash,
        ) {
            entries.records_by_hash(digest).push(record)
        } else {
            entries.records_by_hash(digest)
        },
        entries.recorded(record).records_by_candidate(candidate) == if candidate
            == record.candidate {
            entries.records_by_candidate(candidate).push(record)
        } else {
            entries.records_by_candidate(candidate)
        },
{
    let next = entries.recorded(record);
    let id = record.record_id;
    assert(!entries.records.contains_key(id));
    assert(!entries.has_hash(id, digest));
    assert(!entries.has_candidate(id, candidate));
    lemma_resolve_ignores_absent_id(entries.ids_by_hash(digest), entries.records, record);
    lemma_resolve_ignores_absent_id(entries.ids_by_candidate(candidate), entries.records, record);
    if digest == digest_bytes(record.document_hash) {
        assert(next.ids_by_hash(digest) == entries.ids_by_hash(digest).push(id));
        lemma_resolve_one_more(entries.ids_by_hash(digest), id, next.records);
    } else {
        assert(next.ids_by_hash(digest) == entries.ids_by_hash(digest));
    }
    if candidate == record.candidate {
        assert(next.ids_by_candidate(candidate) == entries.ids_by_candidate(candidate).push(id));
        lemma_resolve_one_more(entries.ids_by_candidate(candidate), id, next.records);
    } else {
        assert(next.ids_by_candidate(candidate) == entries.ids_by_candidate(candidate));
    }
}

/// The ids in a list whose records attest validity.
spec fn listed_valid(ids: Seq<u64>, records: Map<u64, VerificationRecord>) -> Set<u64> {
    Set::new(|id: u64| ids.contains(id) && records[id].verification_status)
}

/// Over a rising list whose ids all have records, the count of valid
/// attestations is the number of listed ids with a valid record.
proof fn lemma_count_of_listed(ids: Seq<u64>, records: Map<u64, VerificationRecord>)
    requires
        rising(ids),
        forall|i: int| 0 <= i < ids.len() ==> records.contains_key(#[trigger] ids[i]),
    ensures
        listed_valid(ids, records).finite(),
        verified_count(resolve(ids, records)) == listed_valid(ids, records).len(),
    decreases ids.len(),
{
    if ids.len() == 0 {
        assert(listed_valid(ids, records) =~= Set::empty());
        assert(resolve(ids, records) =~= Seq::empty());
        assert(verified_count(Seq::empty()) == 0) by {
            reveal_with_fuel(Seq::filter, 1);
        }
    } else {
        let front = ids.drop_last();
        let last = ids.last();
        assert(front.push(last) =~= ids);
        lemma_count_of_listed(front, records);
        lemma_resolve_one_more(front, last, records);
        lemma_count_one_more(resolve(front, records), records[last]);
        assert(!front.contains(last)) by {
            if front.contains(last) {
                let i = choose|i: int| 0 <= i < front.len() && front[i] == last;
                assert(ids[i] < ids[ids.len() - 1]);
            }
        }
        assert forall|id: u64| ids.contains(id) <==> front.contains(id) || id == last by {
            lemma_push_contains(front, last, id);
        }
        if records[last].verification_status {
            assert(listed_valid(ids, records) =~= listed_valid(front, records).insert(last));
        } else {
            assert(listed_valid(ids, records) =~= listed_valid(front, records));
        }
    }
}

} // verus!
