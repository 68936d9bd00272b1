//! `POST /api/prompt/enhance`: expanding a short idea into a diffusion prompt, with a
//! passthrough answer whenever the LLM cannot be reached.

use vstd::prelude::*;
use crate::text::{is_blank, str_is_blank, trim, trim_str};

verus! {

/// Request body of `POST /api/prompt/enhance`.
#[derive(Debug)]
pub struct EnhanceReq {
    pub idea: String,
    pub context: String,
    pub negative: String,
}

/// Response body of `POST /api/prompt/enhance`.
#[derive(Debug)]
pub struct EnhanceResp {
    pub positive: String,
    pub negative: String,
    /// false when the LLM was unreachable and we fell back to passthrough.
    pub enhanced: bool,
}

/// The passthrough positive prompt: the idea alone when the context is blank, otherwise
/// the trimmed idea and the trimmed context joined by a comma.
pub open spec fn spec_passthrough_positive(idea: Seq<char>, context: Seq<char>) -> Seq<char> {
    if is_blank(context) {
        idea
    } else {
        trim(idea) + ", "@ + trim(context)
    }
}

/// The answer when the LLM could not be used: the raw prompt, so generation still works.
pub fn fallback_response(req: &EnhanceReq) -> (r: EnhanceResp)
    ensures
        r.positive@ == spec_passthrough_positive(req.idea@, req.context@),
        r.negative@ == req.negative@,
        !r.enhanced,
{
    let positive = if str_is_blank(req.context.as_str()) {
        req.idea.clone()
    } else {
        String::from_str(trim_str(req.idea.as_str())).concat(", ").concat(
            trim_str(req.context.as_str()),
        )
    };
    EnhanceResp { positive, negative: req.negative.clone(), enhanced: false }
}

/// The answer to an enhance request given what the LLM produced: its `(positive, negative)`
/// pair marked as enhanced, or the passthrough answer when it produced nothing.
pub fn enhance_response(req: &EnhanceReq, outcome: Option<(String, String)>) -> (r: EnhanceResp)
    ensures
        match outcome {
            Some((p, n)) => r.positive@ == p@ && r.negative@ == n@ && r.enhanced,
            None => r.positive@ == spec_passthrough_positive(req.idea@, req.context@)
                && r.negative@ == req.negative@ && !r.enhanced,
        },
{
    match outcome {
        Some((positive, negative)) => EnhanceResp { positive, negative, enhanced: true },
        None => fallback_response(req),
    }
}

} // verus!
