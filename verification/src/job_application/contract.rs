//! The job board's operations.

use super::types::{Application, ApplicationStatus, Filing, JobError, JobPosting, Posting};
use crate::host::same_address;
use crate::store::{counter_next, Stored};
use soroban_sdk::Address;
use vstd::prelude::*;

verus! {

/// The job board's operations.
pub struct JobApplicationContract;

/// Why a job cannot be posted on what was read of the job counter, if it
/// cannot.
pub open spec fn posting_refusal(counter: Stored<u64>) -> Option<JobError> {
    if counter is Unreadable {
        Some(JobError::StorageUnavailable)
    } else if counter_next(counter) == u64::MAX {
        Some(JobError::IdSpaceExhausted)
    } else {
        None
    }
}

/// Why nobody can apply on what was read of the job and of the application
/// counter, if nobody can.
pub open spec fn applying_refusal(job: Stored<JobPosting>, counter: Stored<u64>) -> Option<
    JobError,
> {
    match job {
        Stored::Unreadable => Some(JobError::StorageUnavailable),
        Stored::Absent => Some(JobError::JobNotFound),
        Stored::Present(posting) => if !posting.is_active {
            Some(JobError::JobNotActive)
        } else if counter is Unreadable {
            Some(JobError::StorageUnavailable)
        } else if counter_next(counter) == u64::MAX {
            Some(JobError::IdSpaceExhausted)
        } else if posting.application_count == u32::MAX {
            Some(JobError::CountExhausted)
        } else {
            None
        },
    }
}

/// Why `employer` cannot decide on what was read of an application, if it
/// cannot.
pub open spec fn deciding_refusal(application: Stored<Application>, employer: Address) -> Option<
    JobError,
> {
    match application {
        Stored::Unreadable => Some(JobError::StorageUnavailable),
        Stored::Absent => Some(JobError::ApplicationNotFound),
        Stored::Present(filed) => if filed.employer != employer {
            Some(JobError::NotAuthorized)
        } else {
            None
        },
    }
}

/// Why `employer` cannot close what was read of a job, if it cannot.
pub open spec fn closing_refusal(job: Stored<JobPosting>, employer: Address) -> Option<JobError> {
    match job {
        Stored::Unreadable => Some(JobError::StorageUnavailable),
        Stored::Absent => Some(JobError::JobNotFound),
        Stored::Present(posting) => if posting.employer != employer {
            Some(JobError::NotAuthorized)
        } else {
            None
        },
    }
}

/// What the application of `candidate` to `job`, asked for by `job_id` and
/// made at `timestamp` under the id `application_id`, asks to be written: the
/// application names the job's employer and is pending, the counter is the id
/// after the application's, and the job counts one application more and is
/// otherwise as it was read.
pub open spec fn filed(
    job: JobPosting,
    application_id: u64,
    candidate: Address,
    job_id: u64,
    candidate_profile_cid: soroban_sdk::String,
    cover_letter_cid: soroban_sdk::String,
    timestamp: u64,
) -> Filing {
    Filing {
        application: Application {
            application_id,
            job_id,
            candidate,
            employer: job.employer,
            status: ApplicationStatus::Pending,
            candidate_profile_cid,
            cover_letter_cid,
            applied_at: timestamp,
            reviewed_at: None,
            verification_notes: None,
        },
        counter: (application_id + 1) as u64,
        job: JobPosting { application_count: (job.application_count + 1) as u32, ..job },
    }
}

impl JobApplicationContract {
    /// The id that the next job or application gets, from what the read of
    /// its counter gave: the counter, or 1 while there is none. Fails where
    /// the counter could not be read.
    pub fn next_id(counter: Stored<u64>) -> (outcome: Result<u64, JobError>)
        ensures
            match outcome {
                Ok(id) => !(counter is Unreadable) && id == counter_next(counter),
                Err(error) => error == JobError::StorageUnavailable && counter is Unreadable,
            },
    {
        match counter {
            Stored::Present(next) => Ok(next),
            Stored::Absent => Ok(1),
            Stored::Unreadable => Err(JobError::StorageUnavailable),
        }
    }

    /// Posts a job for `employer` at `timestamp`, on what was read of the job
    /// counter: the job gets the next id, is open and counts no applications,
    /// and the counter is the id after it. Refused when the counter could not
    /// be read or the ids are used up.
    pub fn post_job(
        counter: Stored<u64>,
        employer: Address,
        title: soroban_sdk::String,
        ipfs_details: soroban_sdk::String,
        salary_range: soroban_sdk::String,
        timestamp: u64,
    ) -> (outcome: Result<Posting, JobError>)
        ensures
            match outcome {
                Ok(posting) => {
                    &&& posting_refusal(counter) is None
                    &&& posting.job == (JobPosting {
                        job_id: counter_next(counter),
                        employer,
                        title,
                        ipfs_details,
                        salary_range,
                        is_active: true,
                        created_at: timestamp,
                        application_count: 0,
                    })
                    &&& posting.counter == counter_next(counter) + 1
                },
                Err(error) => posting_refusal(counter) == Some(error),
            },
    {
        let job_id = match Self::next_id(counter) {
            Ok(id) => id,
            Err(error) => {
                return Err(error);
            },
        };
        if job_id == u64::MAX {
            return Err(JobError::IdSpaceExhausted);
        }
        let job = JobPosting {
            job_id,
            employer,
            title,
            ipfs_details,
            salary_range,
            is_active: true,
            created_at: timestamp,
            application_count: 0,
        };
        Ok(Posting { job, counter: job_id + 1 })
    }

    /// Files the application of `candidate` to the job asked for by `job_id`,
    /// at `timestamp`, on what was read of the job and of the application
    /// counter; see [`filed`]. Refused when the job or the counter could not
    /// be read, the job does not exist or is closed, or a counter is used up.
    pub fn apply_to_job(
        job: Stored<JobPosting>,
        counter: Stored<u64>,
        candidate: Address,
        job_id: u64,
        candidate_profile_cid: soroban_sdk::String,
        cover_letter_cid: soroban_sdk::String,
        timestamp: u64,
    ) -> (outcome: Result<Filing, JobError>)
        ensures
            match outcome {
                Ok(filing) => {
                    &&& applying_refusal(job, counter) is None
                    &&& job matches Stored::Present(posting)
                    &&& filing == filed(
                        posting,
                        counter_next(counter),
                        candidate,
                        job_id,
                        candidate_profile_cid,
                        cover_letter_cid,
                        timestamp,
                    )
                },
                Err(error) => applying_refusal(job, counter) == Some(error),
            },
    {
        let posting = match job {
            Stored::Present(posting) => posting,
            Stored::Absent => {
                return Err(JobError::JobNotFound);
            },
            Stored::Unreadable => {
                return Err(JobError::StorageUnavailable);
            },
        };
        if !posting.is_active {
            return Err(JobError::JobNotActive);
        }
        let application_id = match Self::next_id(counter) {
            Ok(id) => id,
            Err(error) => {
                return Err(error);
            },
        };
        if application_id == u64::MAX {
            return Err(JobError::IdSpaceExhausted);
        }
        if posting.application_count == u32::MAX {
            return Err(JobError::CountExhausted);
        }
        Ok(
            Self::file_application(
                posting,
                application_id,
                candidate,
                job_id,
                candidate_profile_cid,
                cover_letter_cid,
                timestamp,
            ),
        )
    }

    /// Files an application to a job that is there and open, under an id that
    /// has a successor; see [`filed`]. For a job of which that is not known,
    /// there is [`Self::apply_to_job`].
    pub fn file_application(
        job: JobPosting,
        application_id: u64,
        candidate: Address,
        job_id: u64,
        candidate_profile_cid: soroban_sdk::String,
        cover_letter_cid: soroban_sdk::String,
        timestamp: u64,
    ) -> (filing: Filing)
        requires
            job.is_active,
            application_id < u64::MAX,
            job.application_count < u32::MAX,
        ensures
            filing == filed(
                job,
                application_id,
                candidate,
                job_id,
                candidate_profile_cid,
                cover_letter_cid,
                timestamp,
            ),
    {
        let application = Application {
            application_id,
            job_id,
            candidate,
            employer: job.employer.clone(),
            status: ApplicationStatus::Pending,
            candidate_profile_cid,
            cover_letter_cid,
            applied_at: timestamp,
            reviewed_at: None,
            verification_notes: None,
        };
        let counted = JobPosting { application_count: job.application_count + 1, ..job };
        Filing { application, counter: application_id + 1, job: counted }
    }

    /// The employer takes the application under review at `timestamp`; see
    /// [`Self::decide_application`]. The note stays as it was.
    pub fn review_application(
        application: Stored<Application>,
        employer: Address,
        timestamp: u64,
    ) -> (outcome: Result<Application, JobError>)
        ensures
            match outcome {
                Ok(decided) => {
                    &&& deciding_refusal(application, employer) is None
                    &&& decided == application->Present_0.decided(
                        ApplicationStatus::UnderReview,
                        None,
                        timestamp,
                    )
                },
                Err(error) => deciding_refusal(application, employer) == Some(error),
            },
    {
        Self::decide_application(
            application,
            employer,
            ApplicationStatus::UnderReview,
            None,
            timestamp,
        )
    }

    /// The employer has verified the candidate's documents at `timestamp` and
    /// notes what it found; see [`Self::decide_application`].
    pub fn verify_application(
        application: Stored<Application>,
        employer: Address,
        verification_notes: soroban_sdk::String,
        timestamp: u64,
    ) -> (outcome: Result<Application, JobError>)
        ensures
            match outcome {
                Ok(decided) => {
                    &&& deciding_refusal(application, employer) is None
                    &&& decided == application->Present_0.decided(
                        ApplicationStatus::Verified,
                        Some(verification_notes),
                        timestamp,
                    )
                },
                Err(error) => deciding_refusal(application, employer) == Some(error),
            },
    {
        Self::decide_application(
            application,
            employer,
            ApplicationStatus::Verified,
            Some(verification_notes),
            timestamp,
        )
    }

    /// The employer rejects the application at `timestamp` and notes the
    /// reason; see [`Self::decide_application`].
    pub fn reject_application(
        application: Stored<Application>,
        employer: Address,
        reason: soroban_sdk::String,
        timestamp: u64,
    ) -> (outcome: Result<Application, JobError>)
        ensures
            match outcome {
                Ok(decided) => {
                    &&& deciding_refusal(application, employer) is None
                    &&& decided == application->Present_0.decided(
                        ApplicationStatus::Rejected,
                        Some(reason),
                        timestamp,
                    )
                },
                Err(error) => deciding_refusal(application, employer) == Some(error),
            },
    {
        Self::decide_application(
            application,
            employer,
            ApplicationStatus::Rejected,
            Some(reason),
            timestamp,
        )
    }

    /// The employer accepts the application at `timestamp`; see
    /// [`Self::decide_application`]. The note stays as it was.
    pub fn accept_application(
        application: Stored<Application>,
        employer: Address,
        timestamp: u64,
    ) -> (outcome: Result<Application, JobError>)
        ensures
            match outcome {
                Ok(decided) => {
                    &&& deciding_refusal(application, employer) is None
                    &&& decided == application->Present_0.decided(
                        ApplicationStatus::Accepted,
                        None,
                        timestamp,
                    )
                },
                Err(error) => deciding_refusal(application, employer) == Some(error),
            },
    {
        Self::decide_application(application, employer, ApplicationStatus::Accepted, None, timestamp)
    }

    /// The decision that `employer` took at `timestamp`, on what was read of
    /// the application: the application with the new status, the time of
    /// review, and the note where one is given, to be stored under the id by
    /// which it was read. Refused when the application could not be read,
    /// does not exist or belongs to another employer.
    pub fn decide_application(
        application: Stored<Application>,
        employer: Address,
        status: ApplicationStatus,
        notes: Option<soroban_sdk::String>,
        timestamp: u64,
    ) -> (outcome: Result<Application, JobError>)
        ensures
            match outcome {
                Ok(decided) => {
                    &&& deciding_refusal(application, employer) is None
                    &&& decided == application->Present_0.decided(status, notes, timestamp)
                },
                Err(error) => deciding_refusal(application, employer) == Some(error),
            },
    {
        let filed = match application {
            Stored::Present(filed) => filed,
            Stored::Absent => {
                return Err(JobError::ApplicationNotFound);
            },
            Stored::Unreadable => {
                return Err(JobError::StorageUnavailable);
            },
        };
        if !same_address(&filed.employer, &employer) {
            return Err(JobError::NotAuthorized);
        }
        Ok(Self::record_decision(filed, &employer, status, notes, timestamp))
    }

    /// Records a decision on an application that is there and belongs to
    /// `employer`. For an application of which that is not known, there is
    /// [`Self::decide_application`].
    pub fn record_decision(
        application: Application,
        employer: &Address,
        status: ApplicationStatus,
        notes: Option<soroban_sdk::String>,
        timestamp: u64,
    ) -> (decided: Application)
        requires
            application.employer == *employer,
        ensures
            decided == application.decided(status, notes, timestamp),
    {
        Application {
            status,
            reviewed_at: Some(timestamp),
            verification_notes: match notes {
                Some(text) => Some(text),
                None => application.verification_notes,
            },
            application_id: application.application_id,
            job_id: application.job_id,
            candidate: application.candidate,
            employer: application.employer,
            candidate_profile_cid: application.candidate_profile_cid,
            cover_letter_cid: application.cover_letter_cid,
            applied_at: application.applied_at,
        }
    }

    /// The job under an id, from what the read of its entry gave. Fails where
    /// the entry could not be read.
    pub fn get_job(stored: Stored<JobPosting>) -> (outcome: Result<Option<JobPosting>, JobError>)
        ensures
            match outcome {
                Ok(Some(job)) => stored == Stored::Present(job),
                Ok(None) => stored is Absent,
                Err(error) => error == JobError::StorageUnavailable && stored is Unreadable,
            },
    {
        match stored {
            Stored::Present(job) => Ok(Some(job)),
            Stored::Absent => Ok(None),
            Stored::Unreadable => Err(JobError::StorageUnavailable),
        }
    }

    /// The application under an id, from what the read of its entry gave.
    /// Fails where the entry could not be read.
    pub fn get_application(stored: Stored<Application>) -> (outcome: Result<
        Option<Application>,
        JobError,
    >)
        ensures
            match outcome {
                Ok(Some(application)) => stored == Stored::Present(application),
                Ok(None) => stored is Absent,
                Err(error) => error == JobError::StorageUnavailable && stored is Unreadable,
            },
    {
        match stored {
            Stored::Present(application) => Ok(Some(application)),
            Stored::Absent => Ok(None),
            Stored::Unreadable => Err(JobError::StorageUnavailable),
        }
    }

    /// The employer closes its job, on what was read of the job: the job as
    /// it was read, closed, to be stored under the id by which it was read.
    /// Refused when the job could not be read, does not exist or belongs to
    /// another employer.
    pub fn close_job(job: Stored<JobPosting>, employer: Address) -> (outcome: Result<
        JobPosting,
        JobError,
    >)
        ensures
            match outcome {
                Ok(closed) => {
                    &&& closing_refusal(job, employer) is None
                    &&& closed == (JobPosting { is_active: false, ..job->Present_0 })
                },
                Err(error) => closing_refusal(job, employer) == Some(error),
            },
    {
        let posting = match job {
            Stored::Present(posting) => posting,
            Stored::Absent => {
                return Err(JobError::JobNotFound);
            },
            Stored::Unreadable => {
                return Err(JobError::StorageUnavailable);
            },
        };
        if !same_address(&posting.employer, &employer) {
            return Err(JobError::NotAuthorized);
        }
        Ok(Self::close_posting(posting, &employer))
    }

    /// Closes a job that is there and belongs to `employer`. For a job of
    /// which that is not known, there is [`Self::close_job`].
    pub fn close_posting(job: JobPosting, employer: &Address) -> (closed: JobPosting)
        requires
            job.employer == *employer,
        ensures
            closed == (JobPosting { is_active: false, ..job }),
    {
        JobPosting { is_active: false, ..job }
    }
}

} // verus!
