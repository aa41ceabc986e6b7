//! Jobs, applications, and what an operation asks to be written.

use soroban_sdk::Address;
use vstd::prelude::*;

verus! {

/// Where an application stands.
#[derive(Clone, Copy, Debug, PartialEq, Eq, Structural)]
pub enum ApplicationStatus {
    Pending,
    UnderReview,
    Verified,
    Rejected,
    Accepted,
}

/// A job that an employer has posted.
#[derive(Clone, Debug)]
pub struct JobPosting {
    pub job_id: u64,
    pub employer: Address,
    pub title: soroban_sdk::String,
    /// Where the full description lies.
    pub ipfs_details: soroban_sdk::String,
    pub salary_range: soroban_sdk::String,
    /// Closed jobs take no applications.
    pub is_active: bool,
    pub created_at: u64,
    pub application_count: u32,
}

/// A candidate's application to a job.
#[derive(Clone, Debug)]
pub struct Application {
    pub application_id: u64,
    pub job_id: u64,
    pub candidate: Address,
    /// The employer of the job at the time of applying.
    pub employer: Address,
    pub status: ApplicationStatus,
    pub candidate_profile_cid: soroban_sdk::String,
    pub cover_letter_cid: soroban_sdk::String,
    pub applied_at: u64,
    /// When the employer last decided; `None` until then.
    pub reviewed_at: Option<u64>,
    /// What the employer noted on verifying or rejecting; `None` until then.
    pub verification_notes: Option<soroban_sdk::String>,
}

/// What posting a job asks to be written.
#[derive(Debug)]
pub struct Posting {
    /// The job, to be stored under its id.
    pub job: JobPosting,
    /// The new value of the job counter: the id after the job's.
    pub counter: u64,
}

/// What applying to a job asks to be written.
#[derive(Debug)]
pub struct Filing {
    /// The application, to be stored under its id.
    pub application: Application,
    /// The new value of the application counter: the id after the
    /// application's.
    pub counter: u64,
    /// The job with one application more, to be stored under the id by which
    /// it was read.
    pub job: JobPosting,
}

/// Why the board refuses an operation. A refusal asks for no write.
#[derive(Clone, Copy, Debug, PartialEq, Eq, Structural)]
pub enum JobError {
    /// An entry that the operation needs could not be read: something lies
    /// under its key that is not of the board's shape.
    StorageUnavailable,
    /// No job has this id.
    JobNotFound,
    /// The job is closed.
    JobNotActive,
    /// No application has this id.
    ApplicationNotFound,
    /// The acting address is not the employer of the job or application.
    NotAuthorized,
    /// The id counter has reached `u64::MAX`.
    IdSpaceExhausted,
    /// The job already counts `u32::MAX` applications.
    CountExhausted,
}

impl Application {
    /// The application after the employer decided on it at `timestamp`: the
    /// status is the new one, the time of review is `timestamp`, and a note,
    /// where one is given, replaces the earlier one.
    pub open spec fn decided(
        self,
        status: ApplicationStatus,
        notes: Option<soroban_sdk::String>,
        timestamp: u64,
    ) -> Application {
        Application {
            status,
            reviewed_at: Some(timestamp),
            verification_notes: match notes {
                Some(text) => Some(text),
                None => self.verification_notes,
            },
            ..self
        }
    }
}

} // verus!
