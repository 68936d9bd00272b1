//! Image-to-video jobs: `input_media_ids` = [still_image]; params: motion prompt, fps and
//! duration, capped to short clips.

use vstd::prelude::*;
use crate::error::ServiceError;
use crate::json::{as_text, as_u64_value, json_member, member_text, member_u64, object_of, parse_object};
use crate::text::{decimal, decimal_u32};

verus! {

/// The lowest frame rate a clip is rendered at.
pub const MIN_FPS: u32 = 8;

/// The highest frame rate a clip is rendered at.
pub const MAX_FPS: u32 = 30;

/// What a video job runs with (the clip duration, a float, is read by the caller).
#[derive(Debug)]
pub struct VideoPlan {
    pub still_id: String,
    pub prompt: String,
    pub fps: u32,
}

/// A value kept within `[lo, hi]`.
pub open spec fn clamp(v: int, lo: int, hi: int) -> int {
    if v < lo {
        lo
    } else if v > hi {
        hi
    } else {
        v
    }
}

/// The frame rate used: the requested one (24 when absent, cut to 32 bits), kept in 8..=30.
pub open spec fn spec_video_fps(fps: Option<u64>) -> int {
    let requested = match fps {
        Some(f) => f as u32,
        None => 24u32,
    };
    clamp(requested as int, MIN_FPS as int, MAX_FPS as int)
}

/// Reads a video job: the first input id is the still to animate (none is an error), the
/// prompt defaults to empty and the frame rate is capped.
pub fn plan_video(prompt: Option<String>, fps: Option<u64>, inputs: &Vec<String>) -> (r: Result<VideoPlan, ServiceError>)
    ensures
        if inputs@.len() == 0 {
            r matches Err(ServiceError::VideoNeedsInput)
        } else {
            r matches Ok(p) && p.still_id@ == inputs@[0]@
                && p.prompt@ == match prompt {
                Some(s) => s@,
                None => Seq::<char>::empty(),
            } && p.fps == spec_video_fps(fps)
        },
        r matches Ok(p) ==> (fps matches Some(f) ==> (MIN_FPS <= f <= MAX_FPS ==> p.fps == f)),
        r matches Ok(p) ==> (fps matches Some(f) ==> (f < MIN_FPS ==> p.fps == MIN_FPS)),
        r matches Ok(p) ==> (fps matches Some(f) ==> (MAX_FPS < f <= u32::MAX ==> p.fps == MAX_FPS)),
        r matches Ok(p) ==> (fps is None ==> p.fps == 24),
{
    if inputs.len() == 0 {
        return Err(ServiceError::VideoNeedsInput);
    }
    let prompt = match prompt {
        Some(s) => s,
        None => String::new(),
    };
    proof {
        lemma_video_fps_follows_request(fps);
    }
    let requested: u32 = match fps {
        Some(f) => f as u32,
        None => 24,
    };
    let fps = if requested < MIN_FPS {
        MIN_FPS
    } else if requested > MAX_FPS {
        MAX_FPS
    } else {
        requested
    };
    Ok(VideoPlan { still_id: inputs[0].clone(), prompt, fps })
}

/// Reads a video job's `prompt` and `fps` params from its stored JSON text: each is the
/// member's value when it holds a string and an unsigned integer respectively, absent
/// otherwise.
pub fn video_params_from_json(params_json: &str) -> (r: (Option<String>, Option<u64>))
    ensures
        r.0.deep_view() == as_text(json_member(object_of(params_json@), "prompt"@)),
        match r.1 {
            Some(f) => as_u64_value(json_member(object_of(params_json@), "fps"@)) == Some(f as int),
            None => as_u64_value(json_member(object_of(params_json@), "fps"@)) is None,
        },
{
    let o = parse_object(params_json);
    (member_text(&o, "prompt"), member_u64(&o, "fps"))
}

/// The frame rate follows the request: a requested rate within 8..=30 is kept, one
/// below is raised to 8 and one above (within 32 bits) lowered to 30; without a request
/// the clip runs at 24.
pub proof fn lemma_video_fps_follows_request(fps: Option<u64>)
    ensures
        fps matches Some(f) ==> (MIN_FPS <= f <= MAX_FPS ==> spec_video_fps(fps) == f),
        fps matches Some(f) ==> (f < MIN_FPS ==> spec_video_fps(fps) == MIN_FPS),
        fps matches Some(f) ==> (MAX_FPS < f <= u32::MAX ==> spec_video_fps(fps) == MAX_FPS),
        fps is None ==> spec_video_fps(fps) == 24,
{
    if let Some(f) = fps {
        if f <= u32::MAX {
            assert(f as u32 == f) by (bit_vector)
                requires
                    f <= 0xffff_ffffu64;
        }
    }
}

/// Every plan renders between 8 and 30 frames per second.
pub proof fn lemma_video_fps_capped(fps: Option<u64>)
    ensures
        MIN_FPS <= spec_video_fps(fps) <= MAX_FPS,
{
}

/// The seed text of the mock GIF: `{prompt}|{frames}`.
pub fn video_seed_text(prompt: &str, frames: u32) -> (r: String)
    ensures
        r@ == prompt@ + "|"@ + decimal(frames as nat),
{
    let digits = decimal_u32(frames);
    String::from_str(prompt).concat("|").concat(digits.as_str())
}

} // verus!
