//! The index manager: two indexes from a key to the ids of the records about
//! it, each list in the order in which the ids were added.
//!
//! A list is a host vector. It is read whole, extended at its end, and
//! written back whole. The order of a list is the order of insertion; nothing
//! reorders a list or removes from it. Both indexes are kept in the same way,
//! so the functions here serve both.

use super::entries::listed_ids;
use super::record::LedgerError;
use crate::host::{holds_ids, id_at, id_list, id_list_len, new_id_list, push_id};
use crate::store::Stored;
use soroban_sdk::Env;
use vstd::prelude::*;

verus! {

/// Keeps the index by document hash and the index by candidate.
pub struct IndexManager;

/// What a read of an index list gave, as ids: a host vector with an item that
/// is no id is unreadable.
pub open spec fn ids_read(stored: Stored<soroban_sdk::Vec<u64>>) -> Stored<Seq<u64>> {
    match stored {
        Stored::Absent => Stored::Absent,
        Stored::Present(list) => match id_list(list) {
            Some(ids) => Stored::Present(ids),
            None => Stored::Unreadable,
        },
        Stored::Unreadable => Stored::Unreadable,
    }
}

impl IndexManager {
    /// The ids indexed under a key, oldest first, from what the read of its
    /// list gave. A key that was never indexed has no ids. Fails where the
    /// list could not be read, or holds an item that is no id.
    pub fn lookup(stored: Stored<soroban_sdk::Vec<u64>>) -> (outcome: Result<Vec<u64>, LedgerError>)
        ensures
            match outcome {
                Ok(ids) => !(ids_read(stored) is Unreadable) && ids@ == listed_ids(
                    ids_read(stored),
                ),
                Err(error) => error == LedgerError::StorageUnavailable && ids_read(
                    stored,
                ) is Unreadable,
            },
    {
        let list = match stored {
            Stored::Present(list) => list,
            Stored::Absent => {
                return Ok(Vec::new());
            },
            Stored::Unreadable => {
                return Err(LedgerError::StorageUnavailable);
            },
        };
        if !holds_ids(&list) {
            return Err(LedgerError::StorageUnavailable);
        }
        let len = id_list_len(&list);
        let mut ids: Vec<u64> = Vec::new();
        let mut i: u32 = 0;
        while i < len
            invariant
                i <= len,
                id_list(list) matches Some(listed) && len == listed.len() && ids@ == listed.take(
                    i as int,
                ),
            decreases len - i,
        {
            ids.push(id_at(&list, i));
            assert(id_list(list)->0.take(i as int).push(id_list(list)->0[i as int])
                =~= id_list(list)->0.take(i as int + 1));
            i += 1;
        }
        assert(id_list(list)->0.take(len as int) =~= id_list(list)->0);
        Ok(ids)
    }

    /// The host vector under a key, from what the read of its list gave; an
    /// empty one for a key that was never indexed.
    fn held(env: &Env, stored: Stored<soroban_sdk::Vec<u64>>) -> (outcome: Result<
        soroban_sdk::Vec<u64>,
        LedgerError,
    >)
        ensures
            match outcome {
                Ok(ids) => !(ids_read(stored) is Unreadable) && id_list(ids) == Some(
                    listed_ids(ids_read(stored)),
                ),
                Err(error) => error == LedgerError::StorageUnavailable && ids_read(
                    stored,
                ) is Unreadable,
            },
    {
        match stored {
            Stored::Present(list) => if holds_ids(&list) {
                Ok(list)
            } else {
                Err(LedgerError::StorageUnavailable)
            },
            Stored::Absent => Ok(new_id_list(env)),
            Stored::Unreadable => Err(LedgerError::StorageUnavailable),
        }
    }

    /// The list under a key with `record_id` appended: the list to write
    /// back. Fails where the list could not be read, and refuses a list of
    /// `u32::MAX` ids, which is full.
    pub fn append(env: &Env, stored: Stored<soroban_sdk::Vec<u64>>, record_id: u64) -> (outcome:
        Result<soroban_sdk::Vec<u64>, LedgerError>)
        ensures
            match outcome {
                Ok(ids) => {
                    &&& !(ids_read(stored) is Unreadable)
                    &&& listed_ids(ids_read(stored)).len() < u32::MAX
                    &&& id_list(ids) == Some(listed_ids(ids_read(stored)).push(record_id))
                },
                Err(error) => if ids_read(stored) is Unreadable {
                    error == LedgerError::StorageUnavailable
                } else {
                    error == LedgerError::IndexFull && listed_ids(ids_read(stored)).len()
                        >= u32::MAX
                },
            },
    {
        let mut ids = match Self::held(env, stored) {
            Ok(ids) => ids,
            Err(error) => {
                return Err(error);
            },
        };
        if id_list_len(&ids) == u32::MAX {
            return Err(LedgerError::IndexFull);
        }
        push_id(&mut ids, record_id);
        Ok(ids)
    }
}

} // verus!
