//! The kinds of jobs the queue runs and the states a job moves through.

use vstd::prelude::*;
use crate::error::ServiceError;
use crate::text::str_eq;

verus! {

/// The three kinds of job the worker knows how to run.
#[derive(Clone, Copy, Debug, PartialEq, Eq, Structural)]
pub enum JobKind {
    Image,
    Swap,
    Video,
}

/// The lifecycle state of a queued job, as stored in the `status` column.
#[derive(Clone, Copy, Debug, PartialEq, Eq, Structural)]
pub enum JobStatus {
    Queued,
    Running,
    Done,
    Failed,
}

impl JobKind {
    /// The name a job kind goes by in requests and in the `job_type` column.
    pub open spec fn spec_name(self) -> Seq<char> {
        match self {
            JobKind::Image => "image"@,
            JobKind::Swap => "swap"@,
            JobKind::Video => "video"@,
        }
    }

    /// The job kind that a name denotes, if any.
    pub open spec fn spec_from_name(s: Seq<char>) -> Option<JobKind> {
        if s == "image"@ {
            Some(JobKind::Image)
        } else if s == "swap"@ {
            Some(JobKind::Swap)
        } else if s == "video"@ {
            Some(JobKind::Video)
        } else {
            None
        }
    }

    /// The name of this job kind.
    pub fn name(&self) -> (r: &'static str)
        ensures
            r@ == self.spec_name(),
    {
        match self {
            JobKind::Image => "image",
            JobKind::Swap => "swap",
            JobKind::Video => "video",
        }
    }

    /// The job kind that `s` names, if it names one.
    pub fn parse(s: &str) -> (r: Option<JobKind>)
        ensures
            r == Self::spec_from_name(s@),
    {
        if str_eq(s, "image") {
            Some(JobKind::Image)
        } else if str_eq(s, "swap") {
            Some(JobKind::Swap)
        } else if str_eq(s, "video") {
            Some(JobKind::Video)
        } else {
            None
        }
    }
}

/// Checks the job type of a `POST /api/jobs` request.
pub fn validate_job_type(job_type: &str) -> (r: Result<JobKind, ServiceError>)
    ensures
        match JobKind::spec_from_name(job_type@) {
            Some(k) => r == Ok::<JobKind, ServiceError>(k),
            None => r matches Err(ServiceError::InvalidJobType(t)) && t@ == job_type@,
        },
{
    match JobKind::parse(job_type) {
        Some(k) => Ok(k),
        None => Err(ServiceError::InvalidJobType(String::from_str(job_type))),
    }
}

/// Picks the processor for a claimed job by its stored type.
pub fn job_kind_for_worker(job_type: &str) -> (r: Result<JobKind, ServiceError>)
    ensures
        match JobKind::spec_from_name(job_type@) {
            Some(k) => r == Ok::<JobKind, ServiceError>(k),
            None => r matches Err(ServiceError::UnknownJobType(t)) && t@ == job_type@,
        },
{
    match JobKind::parse(job_type) {
        Some(k) => Ok(k),
        None => Err(ServiceError::UnknownJobType(String::from_str(job_type))),
    }
}

/// A job's name reads back as the same kind.
pub proof fn lemma_job_kind_name_roundtrip(k: JobKind)
    ensures
        JobKind::spec_from_name(k.spec_name()) == Some(k),
{
    reveal_strlit("image");
    reveal_strlit("swap");
    reveal_strlit("video");
    assert("swap"@.len() != "image"@.len());
    assert("video"@[0] != "image"@[0]);
    assert("video"@.len() != "swap"@.len());
}

impl JobStatus {
    /// The text stored for this status.
    pub open spec fn spec_text(self) -> Seq<char> {
        match self {
            JobStatus::Queued => "queued"@,
            JobStatus::Running => "running"@,
            JobStatus::Done => "done"@,
            JobStatus::Failed => "failed"@,
        }
    }

    /// The status a stored text denotes, if any.
    pub open spec fn spec_from_text(s: Seq<char>) -> Option<JobStatus> {
        if s == "queued"@ {
            Some(JobStatus::Queued)
        } else if s == "running"@ {
            Some(JobStatus::Running)
        } else if s == "done"@ {
            Some(JobStatus::Done)
        } else if s == "failed"@ {
            Some(JobStatus::Failed)
        } else {
            None
        }
    }

    /// A finished job (done or failed) is never picked up again.
    pub open spec fn spec_is_terminal(self) -> bool {
        self == JobStatus::Done || self == JobStatus::Failed
    }

    /// The text stored for this status.
    pub fn as_str(&self) -> (r: &'static str)
        ensures
            r@ == self.spec_text(),
    {
        match self {
            JobStatus::Queued => "queued",
            JobStatus::Running => "running",
            JobStatus::Done => "done",
            JobStatus::Failed => "failed",
        }
    }

    /// The status that a stored text denotes.
    pub fn parse(s: &str) -> (r: Option<JobStatus>)
        ensures
            r == Self::spec_from_text(s@),
    {
        if str_eq(s, "queued") {
            Some(JobStatus::Queued)
        } else if str_eq(s, "running") {
            Some(JobStatus::Running)
        } else if str_eq(s, "done") {
            Some(JobStatus::Done)
        } else if str_eq(s, "failed") {
            Some(JobStatus::Failed)
        } else {
            None
        }
    }

    /// Whether the job has finished, successfully or not.
    pub fn is_terminal(&self) -> (r: bool)
        ensures
            r == self.spec_is_terminal(),
    {
        match self {
            JobStatus::Done | JobStatus::Failed => true,
            _ => false,
        }
    }
}

/// A status's stored text reads back as the same status.
pub proof fn lemma_job_status_text_roundtrip(s: JobStatus)
    ensures
        JobStatus::spec_from_text(s.spec_text()) == Some(s),
{
    reveal_strlit("queued");
    reveal_strlit("running");
    reveal_strlit("done");
    reveal_strlit("failed");
    assert("running"@.len() != "queued"@.len());
    assert("done"@.len() != "queued"@.len());
    assert("done"@.len() != "running"@.len());
    assert("failed"@[0] != "queued"@[0]);
    assert("failed"@.len() != "running"@.len());
    assert("failed"@.len() != "done"@.len());
}

} // verus!
