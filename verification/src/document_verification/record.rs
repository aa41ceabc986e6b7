//! The record type and the reasons for refusing an operation.

use soroban_sdk::{Address, BytesN};
use vstd::prelude::*;

verus! {

/// One attestation. Immutable once stored.
#[derive(Clone, Debug)]
pub struct VerificationRecord {
    /// Assigned by the ledger: unique, consecutive, never reused.
    pub record_id: u64,
    /// Fingerprint of the attested document.
    pub document_hash: BytesN<32>,
    /// Whom the document is about.
    pub candidate: Address,
    /// Who attests. The caller has authenticated this address.
    pub verifier: Address,
    /// Free-form class of document, such as "degree".
    pub doc_type: soroban_sdk::String,
    /// `true`: attested valid. `false`: attested invalid or tampered.
    pub verification_status: bool,
    /// The verifier's commentary.
    pub notes: soroban_sdk::String,
    /// Ledger time at which the record was made, in seconds.
    pub timestamp: u64,
}

impl VerificationRecord {
    /// A second record with the same fields.
    pub fn duplicate(&self) -> (copy: VerificationRecord)
        ensures
            copy == *self,
    {
        VerificationRecord {
            record_id: self.record_id,
            document_hash: self.document_hash.clone(),
            candidate: self.candidate.clone(),
            verifier: self.verifier.clone(),
            doc_type: self.doc_type.clone(),
            verification_status: self.verification_status,
            notes: self.notes.clone(),
            timestamp: self.timestamp,
        }
    }
}

/// Why the ledger refuses an operation. A refusal asks for no write.
#[derive(Clone, Copy, Debug, PartialEq, Eq, Structural)]
pub enum LedgerError {
    /// An entry that the operation needs could not be read: something lies
    /// under its key that is not of the ledger's shape. The ledger does not
    /// try again.
    StorageUnavailable,
    /// The index list of the document hash or of the candidate already holds
    /// `u32::MAX` ids.
    IndexFull,
    /// The counter has reached `u64::MAX`: handing that id out would leave no
    /// successor for the counter.
    IdSpaceExhausted,
}

} // verus!
