//! Face swap jobs: `input_media_ids` = [source_face, target_image]; `params.restore`
//! toggles face restoration. In mock mode the target is echoed back.

use vstd::prelude::*;
use crate::error::ServiceError;
use crate::json::{as_bool_value, json_member, member_bool, object_of, parse_object};

verus! {

/// What a swap job runs with.
#[derive(Debug)]
pub struct SwapPlan {
    pub source_id: String,
    pub target_id: String,
    pub restore: bool,
}

/// Reads a swap job: the first two input ids are the source face and the target image
/// (fewer than two is an error); restoration is on unless the job turns it off.
pub fn plan_swap(restore: Option<bool>, inputs: &Vec<String>) -> (r: Result<SwapPlan, ServiceError>)
    ensures
        if inputs@.len() < 2 {
            r matches Err(ServiceError::SwapNeedsTwoInputs)
        } else {
            r matches Ok(p) && p.source_id@ == inputs@[0]@ && p.target_id@ == inputs@[1]@
                && p.restore == match restore {
                Some(b) => b,
                None => true,
            }
        },
{
    if inputs.len() < 2 {
        return Err(ServiceError::SwapNeedsTwoInputs);
    }
    let restore = match restore {
        Some(b) => b,
        None => true,
    };
    Ok(SwapPlan { source_id: inputs[0].clone(), target_id: inputs[1].clone(), restore })
}

/// Reads a swap job's `restore` param from its stored JSON text: the member's value when
/// it is a boolean, absent otherwise.
pub fn swap_restore_from_json(params_json: &str) -> (r: Option<bool>)
    ensures
        r == as_bool_value(json_member(object_of(params_json@), "restore"@)),
{
    let o = parse_object(params_json);
    member_bool(&o, "restore")
}

/// The eight-byte signature that starts every PNG file.
pub open spec fn png_signature() -> Seq<u8> {
    seq![0x89u8, 0x50u8, 0x4eu8, 0x47u8, 0x0du8, 0x0au8, 0x1au8, 0x0au8]
}

/// A buffer of more than eight bytes that starts with the PNG signature.
pub open spec fn spec_looks_like_png(bytes: Seq<u8>) -> bool {
    bytes.len() > 8 && bytes.subrange(0, 8) == png_signature()
}

/// Whether the bytes are longer than eight bytes and start with the PNG signature.
pub fn looks_like_png(bytes: &[u8]) -> (r: bool)
    ensures
        r == spec_looks_like_png(bytes@),
{
    if bytes.len() <= 8 {
        return false;
    }
    let ok = bytes[0] == 0x89u8 && bytes[1] == 0x50u8 && bytes[2] == 0x4eu8 && bytes[3] == 0x47u8
        && bytes[4] == 0x0du8 && bytes[5] == 0x0au8 && bytes[6] == 0x1au8 && bytes[7] == 0x0au8;
    if ok {
        assert(bytes@.subrange(0, 8) =~= png_signature());
    } else {
        assert(bytes@.subrange(0, 8) != png_signature()) by {
            if bytes@.subrange(0, 8) == png_signature() {
                assert(bytes@.subrange(0, 8)[0] == bytes@[0]);
                assert(bytes@.subrange(0, 8)[1] == bytes@[1]);
                assert(bytes@.subrange(0, 8)[2] == bytes@[2]);
                assert(bytes@.subrange(0, 8)[3] == bytes@[3]);
                assert(bytes@.subrange(0, 8)[4] == bytes@[4]);
                assert(bytes@.subrange(0, 8)[5] == bytes@[5]);
                assert(bytes@.subrange(0, 8)[6] == bytes@[6]);
                assert(bytes@.subrange(0, 8)[7] == bytes@[7]);
            }
        }
    }
    ok
}

/// The extension the mock result (the target echoed back) is stored under.
pub fn mock_output_ext(target: &[u8]) -> (r: &'static str)
    ensures
        r@ == if spec_looks_like_png(target@) {
            "png"@
        } else {
            "jpg"@
        },
{
    if looks_like_png(target) {
        "png"
    } else {
        "jpg"
    }
}

} // verus!
