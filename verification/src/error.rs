//! Errors that the library's decisions can end in, with the text each one reports.

use vstd::prelude::*;

verus! {

/// A request or job that cannot go on, and why.
#[derive(Debug)]
pub enum ServiceError {
    /// `POST /api/jobs` named a job type other than image, swap or video.
    InvalidJobType(String),
    /// The worker met a job whose type it does not know.
    UnknownJobType(String),
    /// An image description was asked for with none of the known aspects.
    NoAspectSelected,
    /// The vision prompt was asked for without any aspect that has guidance.
    NoValidAspects,
    /// A preset name was empty or only white space.
    PresetNameRequired,
    /// A swap job came with fewer than two input media ids.
    SwapNeedsTwoInputs,
    /// A video job came without an input media id.
    VideoNeedsInput,
    /// ComfyUI accepted a workflow without handing back a prompt id.
    MissingPromptId,
    /// ComfyUI produced no image within the polling budget.
    ComfyTimedOut,
    /// A list of media ids could not be written as JSON.
    EncodingFailed,
    /// LM Studio's reply to an enhance request carried no message text.
    EnhanceReplyEmpty,
    /// The vision model's reply carried no message text.
    VisionReplyEmpty,
}

/// The text that an error reports.
pub open spec fn error_text(e: ServiceError) -> Seq<char> {
    match e {
        ServiceError::InvalidJobType(t) => "invalid job type '"@ + t@ + "' (expected image|swap|video)"@,
        ServiceError::UnknownJobType(t) => "unknown job type '"@ + t@ + "'"@,
        ServiceError::NoAspectSelected => "select at least one of: face, body, posture, clothing, environment"@,
        ServiceError::NoValidAspects => "no valid aspects selected"@,
        ServiceError::PresetNameRequired => "preset name is required"@,
        ServiceError::SwapNeedsTwoInputs => "swap requires two input_media_ids: [source_face, target_image]"@,
        ServiceError::VideoNeedsInput => "video requires one input_media_id: [still_image]"@,
        ServiceError::MissingPromptId => "ComfyUI did not return a prompt_id"@,
        ServiceError::ComfyTimedOut => "ComfyUI job timed out before producing an image"@,
        ServiceError::EncodingFailed => "failed to encode media ids as JSON"@,
        ServiceError::EnhanceReplyEmpty => "LM Studio response had no message content"@,
        ServiceError::VisionReplyEmpty => "vision response had no message content"@,
    }
}

impl ServiceError {
    /// The text this error reports.
    pub fn message(&self) -> (r: String)
        ensures
            r@ == error_text(*self),
    {
        match self {
            ServiceError::InvalidJobType(t) => {
                let s = String::from_str("invalid job type '");
                let s = s.concat(t.as_str());
                s.concat("' (expected image|swap|video)")
            },
            ServiceError::UnknownJobType(t) => {
                let s = String::from_str("unknown job type '");
                let s = s.concat(t.as_str());
                s.concat("'")
            },
            ServiceError::NoAspectSelected => String::from_str(
                "select at least one of: face, body, posture, clothing, environment",
            ),
            ServiceError::NoValidAspects => String::from_str("no valid aspects selected"),
            ServiceError::PresetNameRequired => String::from_str("preset name is required"),
            ServiceError::SwapNeedsTwoInputs => String::from_str(
                "swap requires two input_media_ids: [source_face, target_image]",
            ),
            ServiceError::VideoNeedsInput => String::from_str(
                "video requires one input_media_id: [still_image]",
            ),
            ServiceError::MissingPromptId => String::from_str("ComfyUI did not return a prompt_id"),
            ServiceError::ComfyTimedOut => String::from_str(
                "ComfyUI job timed out before producing an image",
            ),
            ServiceError::EncodingFailed => String::from_str("failed to encode media ids as JSON"),
            ServiceError::EnhanceReplyEmpty => String::from_str(
                "LM Studio response had no message content",
            ),
            ServiceError::VisionReplyEmpty => String::from_str(
                "vision response had no message content",
            ),
        }
    }
}

} // verus!
