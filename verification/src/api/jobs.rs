//! `POST /api/jobs`: what a new job row is made of.

use vstd::prelude::*;
use crate::error::ServiceError;
use crate::json::{encode_media_ids, json_string_list_text};
use crate::models::{validate_job_type, JobKind};

verus! {

/// The parts of a new job row decided from the request: its kind, and its input media
/// ids written as JSON. An unknown job type is refused; a known one is always accepted.
pub fn plan_new_job(job_type: &str, input_media_ids: &Vec<String>) -> (r: Result<(JobKind, String), ServiceError>)
    ensures
        match JobKind::spec_from_name(job_type@) {
            None => r matches Err(ServiceError::InvalidJobType(t)) && t@ == job_type@,
            Some(k) => r matches Ok((kind, inputs)) && kind == k
                && inputs@ == json_string_list_text(input_media_ids.deep_view()),
        },
{
    let kind = validate_job_type(job_type)?;
    let inputs = encode_media_ids(input_media_ids)?;
    Ok((kind, inputs))
}

} // verus!
