use blockhire_contracts::document_verification::contract::DocumentVerificationContract;
use blockhire_contracts::document_verification::id_allocator::{Allocation, IdAllocator};
use blockhire_contracts::document_verification::index_manager::IndexManager;
use blockhire_contracts::document_verification::record::{LedgerError, VerificationRecord};
use blockhire_contracts::store::Stored;
use soroban_sdk::testutils::{Address as _, ContractFunctionSet, EnvTestConfig, Ledger as _};
use soroban_sdk::{Address, BytesN, Env, IntoVal, String, Symbol, TryFromVal, Val};

struct Shell;

impl ContractFunctionSet for Shell {
    fn call(&self, _func: &str, _env: Env, _args: &[Val]) -> Option<Val> {
        None
    }
}

fn ledger() -> (Env, Address) {
    let env = Env::new_with_config(EnvTestConfig { capture_snapshot_at_drop: false });
    let contract_id = env.register(Shell, ());
    (env, contract_id)
}

fn read<K, T>(env: &Env, key: &K) -> Stored<T>
where
    K: IntoVal<Env, Val>,
    T: TryFromVal<Env, Val>,
{
    match env.storage().persistent().get::<K, Val>(key) {
        None => Stored::Absent,
        Some(entry) => match T::try_from_val(env, &entry) {
            Ok(value) => Stored::Present(value),
            Err(_) => Stored::Unreadable,
        },
    }
}

fn read_fields<K, T>(env: &Env, key: &K, count: u32) -> Stored<T>
where
    K: IntoVal<Env, Val>,
    T: TryFromVal<Env, Val>,
{
    let Some(entry) = env.storage().persistent().get::<K, Val>(key) else {
        return Stored::Absent;
    };
    let Ok(items) = soroban_sdk::Vec::<Val>::try_from_val(env, &entry) else {
        return Stored::Unreadable;
    };
    if items.len() < count {
        return Stored::Unreadable;
    }
    match T::try_from_val(env, items.slice(..count).as_val()) {
        Ok(fields) => Stored::Present(fields),
        Err(_) => Stored::Unreadable,
    }
}

fn mapped<T, U>(stored: Stored<T>, f: impl FnOnce(T) -> U) -> Stored<U> {
    match stored {
        Stored::Absent => Stored::Absent,
        Stored::Present(value) => Stored::Present(f(value)),
        Stored::Unreadable => Stored::Unreadable,
    }
}

type RecordFields =
    (u64, BytesN<32>, Address, Address, String, bool, String, u64);

fn read_record(env: &Env, id: u64) -> Stored<VerificationRecord> {
    let fields: Stored<RecordFields> = read_fields(env, &(Symbol::new(env, "rec"), id), 8);
    mapped(fields, |f| VerificationRecord {
        record_id: f.0,
        document_hash: f.1,
        candidate: f.2,
        verifier: f.3,
        doc_type: f.4,
        verification_status: f.5,
        notes: f.6,
        timestamp: f.7,
    })
}

fn verify_document_at(
    env: &Env,
    verifier: Address,
    candidate: Address,
    document_hash: BytesN<32>,
    doc_type: String,
    is_valid: bool,
    notes: String,
    timestamp: u64,
) -> Result<VerificationRecord, LedgerError> {
    let counter_key = Symbol::new(env, "rec_cnt");
    let hash_key = (Symbol::new(env, "hash"), document_hash.clone());
    let candidate_key = (Symbol::new(env, "cand"), candidate.clone());
    let attestation = DocumentVerificationContract::verify_document(
        env,
        read(env, &counter_key),
        read(env, &hash_key),
        read(env, &candidate_key),
        verifier,
        candidate,
        document_hash,
        doc_type,
        is_valid,
        notes,
        timestamp,
    )?;
    let record = attestation.record;
    let storage = env.storage().persistent();
    storage.set(
        &(Symbol::new(env, "rec"), record.record_id),
        &(
            record.record_id,
            record.document_hash.clone(),
            record.candidate.clone(),
            record.verifier.clone(),
            record.doc_type.clone(),
            record.verification_status,
            record.notes.clone(),
            record.timestamp,
        ),
    );
    storage.set(&hash_key, &attestation.hash_ids);
    storage.set(&candidate_key, &attestation.candidate_ids);
    storage.set(&counter_key, &attestation.counter);
    Ok(record)
}

fn verify_document(
    env: &Env,
    verifier: Address,
    candidate: Address,
    document_hash: BytesN<32>,
    doc_type: String,
    is_valid: bool,
    notes: String,
) -> Result<VerificationRecord, LedgerError> {
    let timestamp = env.ledger().timestamp();
    verify_document_at(env, verifier, candidate, document_hash, doc_type, is_valid, notes, timestamp)
}

fn peek(env: &Env) -> Result<u64, LedgerError> {
    IdAllocator::peek(read(env, &Symbol::new(env, "rec_cnt")))
}

fn lookup_by_hash(env: &Env, hash: &BytesN<32>) -> Result<Vec<u64>, LedgerError> {
    IndexManager::lookup(read(env, &(Symbol::new(env, "hash"), hash.clone())))
}

fn lookup_by_candidate(env: &Env, candidate: &Address) -> Result<Vec<u64>, LedgerError> {
    IndexManager::lookup(read(env, &(Symbol::new(env, "cand"), candidate.clone())))
}

fn fetch(env: &Env, ids: Vec<u64>) -> Vec<Stored<VerificationRecord>> {
    ids.into_iter().map(|id| read_record(env, id)).collect()
}

fn get_record(env: &Env, id: u64) -> Result<Option<VerificationRecord>, LedgerError> {
    DocumentVerificationContract::get_record(read_record(env, id))
}

fn get_verifications_by_hash(
    env: &Env,
    hash: BytesN<32>,
) -> Result<Vec<VerificationRecord>, LedgerError> {
    let ids = lookup_by_hash(env, &hash)?;
    DocumentVerificationContract::get_verifications_by_hash(&fetch(env, ids))
}

fn get_candidate_verifications(
    env: &Env,
    candidate: Address,
) -> Result<Vec<VerificationRecord>, LedgerError> {
    let ids = lookup_by_candidate(env, &candidate)?;
    DocumentVerificationContract::get_candidate_verifications(&fetch(env, ids))
}

fn is_document_verified(env: &Env, hash: BytesN<32>) -> Result<bool, LedgerError> {
    let ids = lookup_by_hash(env, &hash)?;
    DocumentVerificationContract::is_document_verified(&fetch(env, ids))
}

fn get_verification_count(env: &Env, candidate: Address) -> Result<u32, LedgerError> {
    let ids = lookup_by_candidate(env, &candidate)?;
    DocumentVerificationContract::get_verification_count(&fetch(env, ids))
}

fn attest(
    env: &Env,
    contract_id: &Address,
    verifier: &Address,
    candidate: &Address,
    hash: &BytesN<32>,
    doc_type: &str,
    is_valid: bool,
    notes: &str,
) -> Result<VerificationRecord, LedgerError> {
    env.as_contract(contract_id, || {
        verify_document(&env,
            verifier.clone(),
            candidate.clone(),
            hash.clone(),
            String::from_str(env, doc_type),
            is_valid,
            String::from_str(env, notes),
        )
    })
}

fn is_verified(env: &Env, contract_id: &Address, hash: &BytesN<32>) -> bool {
    env.as_contract(contract_id, || {
        is_document_verified(env, hash.clone()).unwrap()
    })
}

fn count(env: &Env, contract_id: &Address, candidate: &Address) -> u32 {
    env.as_contract(contract_id, || {
        get_verification_count(env, candidate.clone()).unwrap()
    })
}

#[test]
fn test_document_verification() {
    let (env, contract_id) = ledger();

    let verifier = Address::generate(&env);
    let candidate = Address::generate(&env);
    let doc_hash = BytesN::from_array(&env, &[1u8; 32]);

    env.mock_all_auths();

    let record = attest(
        &env,
        &contract_id,
        &verifier,
        &candidate,
        &doc_hash,
        "degree",
        true,
        "MIT degree verified",
    )
    .unwrap();

    assert_eq!(record.verification_status, true);
    assert_eq!(record.verifier, verifier);

    let is_verified = is_verified(&env, &contract_id, &doc_hash);
    assert_eq!(is_verified, true);
}

#[test]
fn test_tampering_detection() {
    let (env, _contract_id) = ledger();

    let original_hash = BytesN::from_array(&env, &[1u8; 32]);
    let tampered_hash = BytesN::from_array(&env, &[2u8; 32]);

    let is_tampered =
        DocumentVerificationContract::detect_tampering(original_hash.clone(), tampered_hash);
    assert_eq!(is_tampered, true);

    let not_tampered =
        DocumentVerificationContract::detect_tampering(original_hash.clone(), original_hash);
    assert_eq!(not_tampered, false);
}

#[test]
fn tampering_is_detected_in_any_single_byte() {
    let (env, _contract_id) = ledger();
    let original = BytesN::from_array(&env, &[7u8; 32]);
    for position in 0..32 {
        let mut bytes = [7u8; 32];
        bytes[position] = 8;
        let changed = BytesN::from_array(&env, &bytes);
        assert!(DocumentVerificationContract::detect_tampering(original.clone(), changed.clone()));
        assert!(!DocumentVerificationContract::detect_tampering(changed.clone(), changed));
    }
}

#[test]
fn equal_digests_in_different_host_objects_are_not_tampered() {
    let (env, _contract_id) = ledger();
    let first = BytesN::from_array(&env, &[9u8; 32]);
    let second = BytesN::from_array(&env, &[9u8; 32]);
    assert!(!DocumentVerificationContract::detect_tampering(first, second));
}

#[test]
fn record_ids_start_at_one_and_rise_without_gaps() {
    let (env, contract_id) = ledger();
    let verifier = Address::generate(&env);
    let first_candidate = Address::generate(&env);
    let second_candidate = Address::generate(&env);
    let first_hash = BytesN::from_array(&env, &[1u8; 32]);
    let second_hash = BytesN::from_array(&env, &[2u8; 32]);

    let mut ids = std::vec::Vec::new();
    for round in 0..6u32 {
        let candidate = if round % 2 == 0 { &first_candidate } else { &second_candidate };
        let hash = if round % 3 == 0 { &first_hash } else { &second_hash };
        let record =
            attest(&env, &contract_id, &verifier, candidate, hash, "degree", round % 2 == 1, "")
                .unwrap();
        ids.push(record.record_id);
    }
    assert_eq!(ids, vec![1, 2, 3, 4, 5, 6]);
    let next = env.as_contract(&contract_id, || peek(&env).unwrap());
    assert_eq!(next, 7);
}

#[test]
fn the_next_id_is_one_at_first_and_follows_the_last_record() {
    let (env, contract_id) = ledger();
    let verifier = Address::generate(&env);
    let candidate = Address::generate(&env);
    let hash = BytesN::from_array(&env, &[1u8; 32]);
    assert_eq!(env.as_contract(&contract_id, || peek(&env).unwrap()), 1);
    assert_eq!(env.as_contract(&contract_id, || peek(&env).unwrap()), 1);
    attest(&env, &contract_id, &verifier, &candidate, &hash, "degree", true, "").unwrap();
    assert_eq!(env.as_contract(&contract_id, || peek(&env).unwrap()), 2);
    attest(&env, &contract_id, &verifier, &candidate, &hash, "degree", true, "").unwrap();
    assert_eq!(env.as_contract(&contract_id, || peek(&env).unwrap()), 3);
    let stored: Option<u64> = env.as_contract(&contract_id, || {
        env.storage().persistent().get(&Symbol::new(&env, "rec_cnt"))
    });
    assert_eq!(stored, Some(3));
}

#[test]
fn the_last_id_is_refused_and_nothing_is_written() {
    let (env, contract_id) = ledger();
    let verifier = Address::generate(&env);
    let candidate = Address::generate(&env);
    let hash = BytesN::from_array(&env, &[5u8; 32]);
    env.as_contract(&contract_id, || {
        env.storage().persistent().set(&Symbol::new(&env, "rec_cnt"), &(u64::MAX - 1));
    });

    let last = attest(&env, &contract_id, &verifier, &candidate, &hash, "degree", true, "")
        .unwrap();
    assert_eq!(last.record_id, u64::MAX - 1);
    assert_eq!(env.as_contract(&contract_id, || peek(&env).unwrap()), u64::MAX);

    let refused = attest(&env, &contract_id, &verifier, &candidate, &hash, "degree", false, "");
    assert_eq!(refused.unwrap_err(), LedgerError::IdSpaceExhausted);
    assert_eq!(env.as_contract(&contract_id, || peek(&env).unwrap()), u64::MAX);
    let ids = env.as_contract(&contract_id, || lookup_by_hash(&env, &hash).unwrap());
    assert_eq!(ids, vec![u64::MAX - 1]);
    assert!(env
        .as_contract(&contract_id, || get_record(&env, u64::MAX).unwrap())
        .is_none());
    assert_eq!(count(&env, &contract_id, &candidate), 1);
}

#[test]
fn a_returned_record_is_the_record_found_under_its_id() {
    let (env, contract_id) = ledger();
    env.ledger().set_timestamp(1_700_000_123);
    let verifier = Address::generate(&env);
    let candidate = Address::generate(&env);
    let hash = BytesN::from_array(&env, &[3u8; 32]);

    let record = attest(
        &env,
        &contract_id,
        &verifier,
        &candidate,
        &hash,
        "certificate",
        false,
        "seal missing",
    )
    .unwrap();
    assert_eq!(record.record_id, 1);
    assert_eq!(record.document_hash, hash);
    assert_eq!(record.candidate, candidate);
    assert_eq!(record.verifier, verifier);
    assert_eq!(record.doc_type, String::from_str(&env, "certificate"));
    assert_eq!(record.verification_status, false);
    assert_eq!(record.notes, String::from_str(&env, "seal missing"));
    assert_eq!(record.timestamp, 1_700_000_123);

    let found = env
        .as_contract(&contract_id, || get_record(&env, 1).unwrap())
        .unwrap();
    assert_eq!(found.record_id, record.record_id);
    assert_eq!(found.document_hash, record.document_hash);
    assert_eq!(found.candidate, record.candidate);
    assert_eq!(found.verifier, record.verifier);
    assert_eq!(found.doc_type, record.doc_type);
    assert_eq!(found.verification_status, record.verification_status);
    assert_eq!(found.notes, record.notes);
    assert_eq!(found.timestamp, record.timestamp);
}

#[test]
fn verify_document_at_takes_the_given_time() {
    let (env, contract_id) = ledger();
    env.ledger().set_timestamp(50);
    let verifier = Address::generate(&env);
    let candidate = Address::generate(&env);
    let hash = BytesN::from_array(&env, &[4u8; 32]);
    let record = env
        .as_contract(&contract_id, || {
            verify_document_at(&env,
                verifier.clone(),
                candidate.clone(),
                hash.clone(),
                String::from_str(&env, "resume"),
                true,
                String::from_str(&env, ""),
                77,
            )
        })
        .unwrap();
    assert_eq!(record.timestamp, 77);
    assert_eq!(record.record_id, 1);
}

#[test]
fn one_valid_attestation_is_listed_and_counted() {
    let (env, contract_id) = ledger();
    let verifier = Address::generate(&env);
    let candidate = Address::generate(&env);
    let hash = BytesN::from_array(&env, &[1u8; 32]);

    attest(&env, &contract_id, &verifier, &candidate, &hash, "degree", true, "").unwrap();

    let records = env.as_contract(&contract_id, || {
        get_verifications_by_hash(&env, hash.clone()).unwrap()
    });
    assert_eq!(records.len(), 1);
    assert_eq!(records[0].verifier, verifier);
    assert_eq!(records[0].verification_status, true);
    assert!(is_verified(&env, &contract_id, &hash));
    assert_eq!(count(&env, &contract_id, &candidate), 1);
}

#[test]
fn invalid_then_valid_is_verified_and_keeps_insertion_order() {
    let (env, contract_id) = ledger();
    let verifier = Address::generate(&env);
    let candidate = Address::generate(&env);
    let hash = BytesN::from_array(&env, &[1u8; 32]);

    attest(&env, &contract_id, &verifier, &candidate, &hash, "degree", false, "first").unwrap();
    assert!(!is_verified(&env, &contract_id, &hash));
    attest(&env, &contract_id, &verifier, &candidate, &hash, "degree", true, "second").unwrap();

    let records = env.as_contract(&contract_id, || {
        get_verifications_by_hash(&env, hash.clone()).unwrap()
    });
    assert_eq!(records.len(), 2);
    assert_eq!(records[0].record_id, 1);
    assert_eq!(records[0].verification_status, false);
    assert_eq!(records[0].notes, String::from_str(&env, "first"));
    assert_eq!(records[1].record_id, 2);
    assert_eq!(records[1].verification_status, true);
    assert_eq!(records[1].notes, String::from_str(&env, "second"));
    assert!(is_verified(&env, &contract_id, &hash));
}

#[test]
fn a_verified_document_stays_verified_after_an_invalid_attestation() {
    let (env, contract_id) = ledger();
    let verifier = Address::generate(&env);
    let candidate = Address::generate(&env);
    let hash = BytesN::from_array(&env, &[1u8; 32]);
    let other_hash = BytesN::from_array(&env, &[2u8; 32]);

    attest(&env, &contract_id, &verifier, &candidate, &hash, "degree", true, "").unwrap();
    assert!(is_verified(&env, &contract_id, &hash));
    attest(&env, &contract_id, &verifier, &candidate, &hash, "degree", false, "").unwrap();
    assert!(is_verified(&env, &contract_id, &hash));
    attest(&env, &contract_id, &verifier, &candidate, &other_hash, "degree", false, "").unwrap();
    assert!(is_verified(&env, &contract_id, &hash));
    assert!(!is_verified(&env, &contract_id, &other_hash));
}

#[test]
fn a_document_never_attested_is_not_verified() {
    let (env, contract_id) = ledger();
    let hash = BytesN::from_array(&env, &[8u8; 32]);
    assert!(!is_verified(&env, &contract_id, &hash));
    let records = env.as_contract(&contract_id, || {
        get_verifications_by_hash(&env, hash.clone()).unwrap()
    });
    assert!(records.is_empty());
}

#[test]
fn the_count_is_of_valid_attestations_of_that_candidate_only() {
    let (env, contract_id) = ledger();
    let verifier = Address::generate(&env);
    let first = Address::generate(&env);
    let second = Address::generate(&env);
    let hash_a = BytesN::from_array(&env, &[1u8; 32]);
    let hash_b = BytesN::from_array(&env, &[2u8; 32]);

    assert_eq!(count(&env, &contract_id, &first), 0);
    attest(&env, &contract_id, &verifier, &first, &hash_a, "degree", true, "").unwrap();
    assert_eq!(count(&env, &contract_id, &first), 1);
    attest(&env, &contract_id, &verifier, &first, &hash_b, "resume", false, "").unwrap();
    assert_eq!(count(&env, &contract_id, &first), 1);
    attest(&env, &contract_id, &verifier, &second, &hash_a, "degree", true, "").unwrap();
    assert_eq!(count(&env, &contract_id, &first), 1);
    assert_eq!(count(&env, &contract_id, &second), 1);
    attest(&env, &contract_id, &verifier, &first, &hash_b, "resume", true, "").unwrap();
    assert_eq!(count(&env, &contract_id, &first), 2);

    let records = env.as_contract(&contract_id, || {
        get_candidate_verifications(&env, first.clone()).unwrap()
    });
    let ids: std::vec::Vec<u64> = records.iter().map(|record| record.record_id).collect();
    assert_eq!(ids, vec![1, 2, 4]);
}

#[test]
fn an_id_never_handed_out_has_no_record() {
    let (env, contract_id) = ledger();
    let verifier = Address::generate(&env);
    let candidate = Address::generate(&env);
    let hash = BytesN::from_array(&env, &[1u8; 32]);
    assert!(env
        .as_contract(&contract_id, || get_record(&env, 1).unwrap())
        .is_none());
    attest(&env, &contract_id, &verifier, &candidate, &hash, "degree", true, "").unwrap();
    assert!(env
        .as_contract(&contract_id, || get_record(&env, 0).unwrap())
        .is_none());
    assert!(env
        .as_contract(&contract_id, || get_record(&env, 2).unwrap())
        .is_none());
    assert!(env
        .as_contract(&contract_id, || get_record(&env, 1).unwrap())
        .is_some());
}

#[test]
fn a_candidate_without_records_has_the_empty_list() {
    let (env, contract_id) = ledger();
    let candidate = Address::generate(&env);
    let records = env.as_contract(&contract_id, || {
        get_candidate_verifications(&env, candidate.clone()).unwrap()
    });
    assert!(records.is_empty());
    let ids = env.as_contract(&contract_id, || lookup_by_candidate(&env, &candidate).unwrap());
    assert!(ids.is_empty());
}

#[test]
fn an_index_entry_without_record_is_passed_over() {
    let (env, contract_id) = ledger();
    let verifier = Address::generate(&env);
    let candidate = Address::generate(&env);
    let hash = BytesN::from_array(&env, &[6u8; 32]);

    env.as_contract(&contract_id, || {
        env.storage().persistent().set(
            &(Symbol::new(&env, "hash"), hash.clone()),
            &soroban_sdk::Vec::from_array(&env, [40u64]),
        );
        env.storage().persistent().set(
            &(Symbol::new(&env, "cand"), candidate.clone()),
            &soroban_sdk::Vec::from_array(&env, [41u64]),
        );
    });
    attest(&env, &contract_id, &verifier, &candidate, &hash, "degree", true, "").unwrap();

    let ids = env.as_contract(&contract_id, || lookup_by_hash(&env, &hash).unwrap());
    assert_eq!(ids, vec![40, 1]);
    let ids = env.as_contract(&contract_id, || lookup_by_candidate(&env, &candidate).unwrap());
    assert_eq!(ids, vec![41, 1]);
    let records = env.as_contract(&contract_id, || {
        get_verifications_by_hash(&env, hash.clone()).unwrap()
    });
    assert_eq!(records.len(), 1);
    assert_eq!(records[0].record_id, 1);
    let records = env.as_contract(&contract_id, || {
        get_candidate_verifications(&env, candidate.clone()).unwrap()
    });
    assert_eq!(records.len(), 1);
    assert_eq!(records[0].record_id, 1);
    assert!(is_verified(&env, &contract_id, &hash));
    assert_eq!(count(&env, &contract_id, &candidate), 1);
}

#[test]
fn index_lists_are_kept_per_key_in_the_order_of_the_attestations() {
    let (env, contract_id) = ledger();
    let verifier = Address::generate(&env);
    let first_candidate = Address::generate(&env);
    let second_candidate = Address::generate(&env);
    let first = BytesN::from_array(&env, &[1u8; 32]);
    let second = BytesN::from_array(&env, &[2u8; 32]);

    attest(&env, &contract_id, &verifier, &first_candidate, &first, "a", true, "").unwrap();
    attest(&env, &contract_id, &verifier, &second_candidate, &second, "b", true, "").unwrap();
    attest(&env, &contract_id, &verifier, &second_candidate, &first, "c", false, "").unwrap();
    attest(&env, &contract_id, &verifier, &first_candidate, &first, "d", true, "").unwrap();

    let same_bytes = BytesN::from_array(&env, &[1u8; 32]);
    let ids = env.as_contract(&contract_id, || lookup_by_hash(&env, &same_bytes).unwrap());
    assert_eq!(ids, vec![1, 3, 4]);
    let ids = env.as_contract(&contract_id, || lookup_by_hash(&env, &second).unwrap());
    assert_eq!(ids, vec![2]);
    let ids =
        env.as_contract(&contract_id, || lookup_by_candidate(&env, &first_candidate).unwrap());
    assert_eq!(ids, vec![1, 4]);
    let ids = env
        .as_contract(&contract_id, || lookup_by_candidate(&env, &second_candidate).unwrap());
    assert_eq!(ids, vec![2, 3]);
    let stored: soroban_sdk::Vec<u64> = env
        .as_contract(&contract_id, || {
            env.storage().persistent().get(&(Symbol::new(&env, "hash"), first.clone()))
        })
        .unwrap();
    assert_eq!(stored, soroban_sdk::Vec::from_array(&env, [1u64, 3, 4]));
}

#[test]
fn a_host_failure_after_the_writes_discards_them_all() {
    let (env, contract_id) = ledger();
    let verifier = Address::generate(&env);
    let candidate = Address::generate(&env);
    let hash = BytesN::from_array(&env, &[1u8; 32]);
    attest(&env, &contract_id, &verifier, &candidate, &hash, "degree", false, "").unwrap();

    let failed = env.try_as_contract::<u64, soroban_sdk::Error>(&contract_id, || {
        let record = verify_document(&env,
            verifier.clone(),
            candidate.clone(),
            hash.clone(),
            String::from_str(&env, "degree"),
            true,
            String::from_str(&env, ""),
        )
        .unwrap();
        env.storage().persistent().extend_ttl(&Symbol::new(&env, "absent"), 1, 100);
        record.record_id
    });
    assert!(failed.is_err());

    assert_eq!(env.as_contract(&contract_id, || peek(&env).unwrap()), 2);
    assert!(env
        .as_contract(&contract_id, || get_record(&env, 2).unwrap())
        .is_none());
    let ids = env.as_contract(&contract_id, || lookup_by_hash(&env, &hash).unwrap());
    assert_eq!(ids, vec![1]);
    let ids = env.as_contract(&contract_id, || lookup_by_candidate(&env, &candidate).unwrap());
    assert_eq!(ids, vec![1]);
    assert!(!is_verified(&env, &contract_id, &hash));
    assert_eq!(count(&env, &contract_id, &candidate), 0);
}

fn unavailable<T: std::fmt::Debug>(outcome: Result<T, LedgerError>) {
    assert_eq!(outcome.unwrap_err(), LedgerError::StorageUnavailable);
}

#[test]
fn an_unreadable_counter_refuses_and_nothing_is_written() {
    let (env, contract_id) = ledger();
    let verifier = Address::generate(&env);
    let candidate = Address::generate(&env);
    let hash = BytesN::from_array(&env, &[1u8; 32]);
    env.as_contract(&contract_id, || {
        env.storage().persistent().set(&Symbol::new(&env, "rec_cnt"), &String::from_str(&env, "7"));
    });

    unavailable(env.as_contract(&contract_id, || peek(&env)));
    unavailable(attest(&env, &contract_id, &verifier, &candidate, &hash, "degree", true, ""));
    assert!(env
        .as_contract(&contract_id, || get_record(&env, 1))
        .unwrap()
        .is_none());
    assert!(env
        .as_contract(&contract_id, || lookup_by_hash(&env, &hash))
        .unwrap()
        .is_empty());
    assert!(env
        .as_contract(&contract_id, || lookup_by_candidate(&env, &candidate))
        .unwrap()
        .is_empty());
    let stored: String = env
        .as_contract(&contract_id, || env.storage().persistent().get(&Symbol::new(&env, "rec_cnt")))
        .unwrap();
    assert_eq!(stored, String::from_str(&env, "7"));
}

#[test]
fn an_unreadable_record_fails_the_lookup_and_the_listings() {
    let (env, contract_id) = ledger();
    let verifier = Address::generate(&env);
    let candidate = Address::generate(&env);
    let hash = BytesN::from_array(&env, &[1u8; 32]);
    attest(&env, &contract_id, &verifier, &candidate, &hash, "degree", true, "").unwrap();
    let key = (Symbol::new(&env, "rec"), 1u64);
    let text = String::from_str(&env, "");

    let check = || {
        unavailable(
            env.as_contract(&contract_id, || get_record(&env, 1)),
        );
        unavailable(env.as_contract(&contract_id, || {
            get_verifications_by_hash(&env, hash.clone())
        }));
        unavailable(env.as_contract(&contract_id, || {
            get_candidate_verifications(&env, candidate.clone())
        }));
        unavailable(env.as_contract(&contract_id, || {
            is_document_verified(&env, hash.clone())
        }));
        unavailable(env.as_contract(&contract_id, || {
            get_verification_count(&env, candidate.clone())
        }));
        assert!(env
            .as_contract(&contract_id, || get_record(&env, 2))
            .unwrap()
            .is_none());
    };

    env.as_contract(&contract_id, || env.storage().persistent().set(&key, &7u32));
    check();
    env.as_contract(&contract_id, || env.storage().persistent().set(&key, &(1u64, 2u64)));
    check();
    env.as_contract(&contract_id, || {
        env.storage().persistent().set(
            &key,
            &(1u64, 5u64, candidate.clone(), verifier.clone(), text.clone(), true, text.clone(), 0u64),
        )
    });
    check();
    env.as_contract(&contract_id, || {
        let mut fields = soroban_sdk::Map::<Symbol, u64>::new(&env);
        fields.set(Symbol::new(&env, "record_id"), 1);
        env.storage().persistent().set(&key, &fields)
    });
    check();
}

#[test]
fn an_unreadable_index_list_fails_the_lookup_and_refuses_the_attestation() {
    let (env, contract_id) = ledger();
    let verifier = Address::generate(&env);
    let candidate = Address::generate(&env);
    let other = Address::generate(&env);
    let hash = BytesN::from_array(&env, &[1u8; 32]);
    let other_hash = BytesN::from_array(&env, &[2u8; 32]);
    let hash_key = (Symbol::new(&env, "hash"), hash.clone());
    let candidate_key = (Symbol::new(&env, "cand"), candidate.clone());

    env.as_contract(&contract_id, || env.storage().persistent().set(&hash_key, &5u64));
    unavailable(env.as_contract(&contract_id, || lookup_by_hash(&env, &hash)));
    unavailable(attest(&env, &contract_id, &verifier, &other, &hash, "degree", true, ""));
    unavailable(env.as_contract(&contract_id, || {
        is_document_verified(&env, hash.clone())
    }));
    env.as_contract(&contract_id, || {
        let items = soroban_sdk::Vec::from_array(&env, [String::from_str(&env, "1")]);
        env.storage().persistent().set(&hash_key, &items)
    });
    unavailable(env.as_contract(&contract_id, || lookup_by_hash(&env, &hash)));
    unavailable(attest(&env, &contract_id, &verifier, &other, &hash, "degree", true, ""));

    env.as_contract(&contract_id, || {
        let items = soroban_sdk::Vec::from_array(&env, [true]);
        env.storage().persistent().set(&candidate_key, &items)
    });
    unavailable(
        env.as_contract(&contract_id, || lookup_by_candidate(&env, &candidate)),
    );
    unavailable(attest(&env, &contract_id, &verifier, &candidate, &other_hash, "degree", true, ""));
    unavailable(env.as_contract(&contract_id, || {
        get_verification_count(&env, candidate.clone())
    }));

    assert_eq!(env.as_contract(&contract_id, || peek(&env)), Ok(1));
    assert!(env
        .as_contract(&contract_id, || get_record(&env, 1))
        .unwrap()
        .is_none());
    assert!(env
        .as_contract(&contract_id, || lookup_by_hash(&env, &other_hash))
        .unwrap()
        .is_empty());
    let record =
        attest(&env, &contract_id, &verifier, &other, &other_hash, "degree", true, "").unwrap();
    assert_eq!(record.record_id, 1);
}

fn record(env: &Env, id: u64, is_valid: bool) -> VerificationRecord {
    VerificationRecord {
        record_id: id,
        document_hash: BytesN::from_array(env, &[id as u8; 32]),
        candidate: Address::generate(env),
        verifier: Address::generate(env),
        doc_type: String::from_str(env, "degree"),
        verification_status: is_valid,
        notes: String::from_str(env, ""),
        timestamp: id,
    }
}

#[test]
fn the_allocator_hands_out_the_counter_with_its_successor() {
    assert_eq!(IdAllocator::peek(Stored::Absent), Ok(1));
    assert_eq!(IdAllocator::peek(Stored::Present(41)), Ok(41));
    assert_eq!(IdAllocator::peek(Stored::Unreadable), Err(LedgerError::StorageUnavailable));
    assert_eq!(IdAllocator::next_id(Stored::Absent), Ok(Allocation { id: 1, counter: 2 }));
    assert_eq!(IdAllocator::next_id(Stored::Present(41)), Ok(Allocation { id: 41, counter: 42 }));
    assert_eq!(
        IdAllocator::next_id(Stored::Present(u64::MAX - 1)),
        Ok(Allocation { id: u64::MAX - 1, counter: u64::MAX })
    );
    assert_eq!(
        IdAllocator::next_id(Stored::Present(u64::MAX)),
        Err(LedgerError::IdSpaceExhausted)
    );
    assert_eq!(IdAllocator::next_id(Stored::Unreadable), Err(LedgerError::StorageUnavailable));
}

#[test]
fn the_index_manager_appends_at_the_end() {
    let (env, _contract_id) = ledger();
    assert!(IndexManager::lookup(Stored::Absent).unwrap().is_empty());
    let first = IndexManager::append(&env, Stored::Absent, 3).unwrap();
    assert_eq!(first, soroban_sdk::Vec::from_array(&env, [3u64]));
    let second = IndexManager::append(&env, Stored::Present(first), 1).unwrap();
    let third = IndexManager::append(&env, Stored::Present(second), 3).unwrap();
    assert_eq!(third, soroban_sdk::Vec::from_array(&env, [3u64, 1, 3]));
    assert_eq!(IndexManager::lookup(Stored::Present(third)).unwrap(), vec![3, 1, 3]);
    assert_eq!(
        IndexManager::lookup(Stored::Unreadable).unwrap_err(),
        LedgerError::StorageUnavailable
    );
    assert_eq!(
        IndexManager::append(&env, Stored::Unreadable, 1).unwrap_err(),
        LedgerError::StorageUnavailable
    );
}

#[test]
fn a_host_vector_with_an_item_that_is_no_id_is_unreadable() {
    let (env, _contract_id) = ledger();
    let texts = soroban_sdk::Vec::from_array(&env, [String::from_str(&env, "1")]);
    let mistaken = soroban_sdk::Vec::<u64>::try_from_val(&env, texts.as_val()).unwrap();
    assert_eq!(
        IndexManager::lookup(Stored::Present(mistaken.clone())).unwrap_err(),
        LedgerError::StorageUnavailable
    );
    assert_eq!(
        IndexManager::append(&env, Stored::Present(mistaken), 1).unwrap_err(),
        LedgerError::StorageUnavailable
    );
}

#[test]
fn an_attestation_hands_back_all_that_is_to_be_written() {
    let (env, _contract_id) = ledger();
    let verifier = Address::generate(&env);
    let candidate = Address::generate(&env);
    let hash = BytesN::from_array(&env, &[1u8; 32]);
    let attestation = DocumentVerificationContract::verify_document(
        &env,
        Stored::Present(5),
        Stored::Present(soroban_sdk::Vec::from_array(&env, [2u64, 4])),
        Stored::Absent,
        verifier.clone(),
        candidate.clone(),
        hash.clone(),
        String::from_str(&env, "degree"),
        true,
        String::from_str(&env, "seen"),
        99,
    )
    .unwrap();
    assert_eq!(attestation.record.record_id, 5);
    assert_eq!(attestation.record.document_hash, hash);
    assert_eq!(attestation.record.candidate, candidate);
    assert_eq!(attestation.record.verifier, verifier);
    assert_eq!(attestation.record.doc_type, String::from_str(&env, "degree"));
    assert_eq!(attestation.record.verification_status, true);
    assert_eq!(attestation.record.notes, String::from_str(&env, "seen"));
    assert_eq!(attestation.record.timestamp, 99);
    assert_eq!(attestation.counter, 6);
    assert_eq!(attestation.hash_ids, soroban_sdk::Vec::from_array(&env, [2u64, 4, 5]));
    assert_eq!(attestation.candidate_ids, soroban_sdk::Vec::from_array(&env, [5u64]));
}

#[test]
fn an_attestation_is_refused_on_what_was_read() {
    let (env, _contract_id) = ledger();
    let attest = |counter: Stored<u64>,
                  hash_ids: Stored<soroban_sdk::Vec<u64>>,
                  candidate_ids: Stored<soroban_sdk::Vec<u64>>| {
        DocumentVerificationContract::verify_document(
            &env,
            counter,
            hash_ids,
            candidate_ids,
            Address::generate(&env),
            Address::generate(&env),
            BytesN::from_array(&env, &[1u8; 32]),
            String::from_str(&env, "degree"),
            true,
            String::from_str(&env, ""),
            0,
        )
        .map(|attestation| attestation.record.record_id)
    };
    assert_eq!(attest(Stored::Absent, Stored::Absent, Stored::Absent), Ok(1));
    assert_eq!(
        attest(Stored::Unreadable, Stored::Absent, Stored::Absent),
        Err(LedgerError::StorageUnavailable)
    );
    assert_eq!(
        attest(Stored::Present(u64::MAX), Stored::Absent, Stored::Absent),
        Err(LedgerError::IdSpaceExhausted)
    );
    assert_eq!(
        attest(Stored::Absent, Stored::Unreadable, Stored::Absent),
        Err(LedgerError::StorageUnavailable)
    );
    assert_eq!(
        attest(Stored::Absent, Stored::Absent, Stored::Unreadable),
        Err(LedgerError::StorageUnavailable)
    );
    assert_eq!(
        attest(Stored::Present(u64::MAX), Stored::Unreadable, Stored::Unreadable),
        Err(LedgerError::IdSpaceExhausted)
    );
}

#[test]
fn listings_pass_over_what_is_absent_and_fail_on_what_is_unreadable() {
    let (env, _contract_id) = ledger();
    let fetched = vec![
        Stored::Present(record(&env, 1, false)),
        Stored::Absent,
        Stored::Present(record(&env, 3, true)),
        Stored::Present(record(&env, 4, true)),
        Stored::Absent,
    ];
    let by_hash = DocumentVerificationContract::get_verifications_by_hash(&fetched).unwrap();
    let ids: Vec<u64> = by_hash.iter().map(|found| found.record_id).collect();
    assert_eq!(ids, vec![1, 3, 4]);
    let by_candidate = DocumentVerificationContract::get_candidate_verifications(&fetched).unwrap();
    let ids: Vec<u64> = by_candidate.iter().map(|found| found.record_id).collect();
    assert_eq!(ids, vec![1, 3, 4]);
    assert_eq!(by_hash[1].timestamp, 3);
    assert_eq!(DocumentVerificationContract::is_document_verified(&fetched), Ok(true));
    assert_eq!(DocumentVerificationContract::get_verification_count(&fetched), Ok(2));

    let invalid = vec![Stored::Present(record(&env, 1, false)), Stored::Absent];
    assert_eq!(DocumentVerificationContract::is_document_verified(&invalid), Ok(false));
    assert_eq!(DocumentVerificationContract::get_verification_count(&invalid), Ok(0));

    let none: Vec<Stored<VerificationRecord>> = Vec::new();
    assert!(DocumentVerificationContract::get_verifications_by_hash(&none).unwrap().is_empty());
    assert_eq!(DocumentVerificationContract::is_document_verified(&none), Ok(false));
    assert_eq!(DocumentVerificationContract::get_verification_count(&none), Ok(0));

    let broken = vec![Stored::Present(record(&env, 1, true)), Stored::Unreadable];
    assert_eq!(
        DocumentVerificationContract::get_verifications_by_hash(&broken).unwrap_err(),
        LedgerError::StorageUnavailable
    );
    assert_eq!(
        DocumentVerificationContract::get_candidate_verifications(&broken).unwrap_err(),
        LedgerError::StorageUnavailable
    );
    assert_eq!(
        DocumentVerificationContract::is_document_verified(&broken),
        Err(LedgerError::StorageUnavailable)
    );
    assert_eq!(
        DocumentVerificationContract::get_verification_count(&broken),
        Err(LedgerError::StorageUnavailable)
    );
}

#[test]
fn a_record_read_is_handed_on_as_it_was_read() {
    let (env, _contract_id) = ledger();
    let found =
        DocumentVerificationContract::get_record(Stored::Present(record(&env, 7, true))).unwrap();
    assert_eq!(found.unwrap().record_id, 7);
    assert!(DocumentVerificationContract::get_record(Stored::Absent).unwrap().is_none());
    assert_eq!(
        DocumentVerificationContract::get_record(Stored::Unreadable).unwrap_err(),
        LedgerError::StorageUnavailable
    );
    let original = record(&env, 9, false);
    let copy = original.duplicate();
    assert_eq!(copy.record_id, original.record_id);
    assert_eq!(copy.document_hash, original.document_hash);
    assert_eq!(copy.candidate, original.candidate);
    assert_eq!(copy.verifier, original.verifier);
    assert_eq!(copy.doc_type, original.doc_type);
    assert_eq!(copy.verification_status, original.verification_status);
    assert_eq!(copy.notes, original.notes);
    assert_eq!(copy.timestamp, original.timestamp);
}
