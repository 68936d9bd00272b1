//! `POST /api/describe`: which aspects of an uploaded image the vision model describes.

use vstd::prelude::*;
use crate::error::ServiceError;
use crate::api::media::spec_media_mime;
use crate::clients::lmstudio::{lemma_aspect_guidance_headings, spec_aspect_guidance};
use crate::imageutil::{png_reencoding, to_png};
use crate::text::{
    ends_with, eq_ignore_ascii_case, eq_ignore_case, join, join_strings, str_ends_with,
    to_lowercase, unicode_lowercase, ascii_lowercase, is_ascii_text,
};

verus! {

/// Request body of `POST /api/describe`.
#[derive(Debug)]
pub struct DescribeReq {
    pub media_id: String,
    pub aspects: Vec<String>,
}

/// Response body of `POST /api/describe`.
#[derive(Debug)]
pub struct DescribeResp {
    pub prompt: String,
    /// false when the vision model was unavailable and a placeholder was returned.
    pub described: bool,
}

/// The aspects that can be described, in their canonical order.
pub open spec fn spec_all_aspects() -> Seq<Seq<char>> {
    seq!["face"@, "body"@, "posture"@, "clothing"@, "environment"@]
}

/// Whether some requested aspect matches `a` ignoring ASCII case.
pub open spec fn requested(req: Seq<Seq<char>>, a: Seq<char>) -> bool {
    exists|i: int| 0 <= i < req.len() && eq_ignore_ascii_case(#[trigger] req[i], a)
}

/// The known aspects, in canonical order, that were requested.
pub open spec fn keep_requested(known: Seq<Seq<char>>, req: Seq<Seq<char>>) -> Seq<Seq<char>>
    decreases known.len(),
{
    if known.len() == 0 {
        Seq::empty()
    } else {
        let rest = keep_requested(known.drop_last(), req);
        if requested(req, known.last()) {
            rest.push(known.last())
        } else {
            rest
        }
    }
}

/// The aspects to describe: all of them when none was requested; otherwise the known
/// ones that were requested (any letter case), in canonical order.
pub open spec fn spec_selected_aspects(req: Seq<Seq<char>>) -> Seq<Seq<char>> {
    if req.len() == 0 {
        spec_all_aspects()
    } else {
        keep_requested(spec_all_aspects(), req)
    }
}

/// The aspects that can be described, in their canonical order.
pub fn all_aspects() -> (r: Vec<String>)
    ensures
        r.deep_view() == spec_all_aspects(),
{
    let mut v: Vec<String> = Vec::new();
    v.push(String::from_str("face"));
    v.push(String::from_str("body"));
    v.push(String::from_str("posture"));
    v.push(String::from_str("clothing"));
    v.push(String::from_str("environment"));
    assert(v.deep_view() =~= spec_all_aspects());
    v
}

fn is_requested(req: &Vec<String>, a: &str) -> (r: bool)
    ensures
        r == requested(req.deep_view(), a@),
{
    let ghost v = req.deep_view();
    let n = req.len();
    let mut i: usize = 0;
    while i < n
        invariant
            n == req@.len(),
            v == req.deep_view(),
            v.len() == n,
            i <= n,
            forall|j: int| 0 <= j < i ==> !eq_ignore_ascii_case(#[trigger] v[j], a@),
        decreases n - i,
    {
        assert(v[i as int] == req@[i as int]@);
        if eq_ignore_case(req[i].as_str(), a) {
            return true;
        }
        i = i + 1;
    }
    false
}

/// Chooses the aspects to describe; selecting none of the known ones is an error.
pub fn selected_aspects(req: &DescribeReq) -> (r: Result<Vec<String>, ServiceError>)
    ensures
        ({
            let sel = spec_selected_aspects(req.aspects.deep_view());
            if sel.len() == 0 {
                r matches Err(ServiceError::NoAspectSelected)
            } else {
                r matches Ok(v) && v.deep_view() == sel
            }
        }),
{
    let all = all_aspects();
    if req.aspects.len() == 0 {
        return Ok(all);
    }
    let ghost known = spec_all_aspects();
    let ghost reqv = req.aspects.deep_view();
    let mut out: Vec<String> = Vec::new();
    let n = all.len();
    let mut i: usize = 0;
    while i < n
        invariant
            n == all@.len(),
            all.deep_view() == known,
            known == spec_all_aspects(),
            reqv == req.aspects.deep_view(),
            reqv.len() > 0,
            i <= n,
            out.deep_view() == keep_requested(known.take(i as int), reqv),
        decreases n - i,
    {
        assert(known.take(i + 1).drop_last() =~= known.take(i as int));
        assert(known.take(i + 1).last() == known[i as int]);
        assert(known[i as int] == all@[i as int]@);
        if is_requested(&req.aspects, all[i].as_str()) {
            let ghost before = out.deep_view();
            out.push(all[i].clone());
            assert(out.deep_view() =~= before.push(known[i as int]));
        }
        i = i + 1;
    }
    assert(known.take(n as int) =~= known);
    if out.len() == 0 {
        return Err(ServiceError::NoAspectSelected);
    }
    Ok(out)
}

/// Only known aspects are ever selected, each at most once, in canonical order: the
/// selection is the known list with some entries left out.
pub proof fn lemma_selected_are_known(req: Seq<Seq<char>>)
    ensures
        forall|i: int| 0 <= i < spec_selected_aspects(req).len()
            ==> spec_all_aspects().contains(#[trigger] spec_selected_aspects(req)[i]),
        spec_selected_aspects(req).len() <= spec_all_aspects().len(),
{
    if req.len() > 0 {
        lemma_keep_requested_subset(spec_all_aspects(), req);
    }
}

/// Every aspect that can be selected has guidance for the vision model, so a non-empty
/// selection always yields a system prompt.
pub proof fn lemma_selected_aspects_have_guidance(req: Seq<Seq<char>>)
    ensures
        forall|i: int| 0 <= i < spec_selected_aspects(req).len()
            ==> spec_aspect_guidance(#[trigger] spec_selected_aspects(req)[i]) is Some,
{
    lemma_selected_are_known(req);
    let all = spec_all_aspects();
    assert forall|j: int| 0 <= j < all.len() implies spec_aspect_guidance(#[trigger] all[j]) is Some by {
        lemma_aspect_guidance_headings(all[j]);
    }
    assert forall|i: int| 0 <= i < spec_selected_aspects(req).len()
        implies spec_aspect_guidance(#[trigger] spec_selected_aspects(req)[i]) is Some by {
        let x = spec_selected_aspects(req)[i];
        assert(all.contains(x));
        let j = choose|j: int| 0 <= j < all.len() && all[j] == x;
        assert(spec_aspect_guidance(all[j]) is Some);
    }
}

proof fn lemma_keep_requested_subset(known: Seq<Seq<char>>, req: Seq<Seq<char>>)
    ensures
        forall|i: int| 0 <= i < keep_requested(known, req).len()
            ==> known.contains(#[trigger] keep_requested(known, req)[i]),
        keep_requested(known, req).len() <= known.len(),
    decreases known.len(),
{
    if known.len() > 0 {
        let init = known.drop_last();
        lemma_keep_requested_subset(init, req);
        let rest = keep_requested(init, req);
        assert forall|i: int| 0 <= i < keep_requested(known, req).len()
            implies known.contains(#[trigger] keep_requested(known, req)[i]) by {
            if i < rest.len() {
                assert(keep_requested(known, req)[i] == rest[i]);
                assert(init.contains(rest[i]));
                let k = choose|k: int| 0 <= k < init.len() && init[k] == rest[i];
                assert(known[k] == rest[i]);
            } else {
                assert(keep_requested(known, req)[i] == known.last());
                assert(known[known.len() - 1] == known.last());
            }
        }
    }
}

/// The placeholder prompt returned in mock mode.
pub open spec fn spec_mock_prompt(aspects: Seq<Seq<char>>) -> Seq<char> {
    "score_9, score_8_up, source_photo, raw photo, photorealistic, [mock description covering: "@
        + join(aspects, ", "@) + "], detailed skin texture, natural lighting, 8k"@
}

/// The placeholder prompt returned in mock mode, naming the covered aspects.
pub fn mock_prompt(aspects: &Vec<String>) -> (r: String)
    ensures
        r@ == spec_mock_prompt(aspects.deep_view()),
{
    let joined = join_strings(aspects, ", ");
    String::from_str(
        "score_9, score_8_up, source_photo, raw photo, photorealistic, [mock description covering: ",
    ).concat(joined.as_str()).concat("], detailed skin texture, natural lighting, 8k")
}

/// The mock-mode answer: a placeholder prompt, marked as not described.
pub fn mock_response(aspects: &Vec<String>) -> (r: DescribeResp)
    ensures
        r.prompt@ == spec_mock_prompt(aspects.deep_view()),
        !r.described,
{
    DescribeResp { prompt: mock_prompt(aspects), described: false }
}

/// The MIME type a stored image is sent with, judged by the lowercase path's extension;
/// PNG when the extension is not known.
pub open spec fn spec_image_mime(lower: Seq<char>) -> Seq<char> {
    if ends_with(lower, ".png"@) {
        "image/png"@
    } else if ends_with(lower, ".jpg"@) || ends_with(lower, ".jpeg"@) {
        "image/jpeg"@
    } else if ends_with(lower, ".webp"@) {
        "image/webp"@
    } else if ends_with(lower, ".gif"@) {
        "image/gif"@
    } else {
        "image/png"@
    }
}

/// The vision model is told the same image type that the media endpoint serves a stored
/// file with; a path that the media endpoint would not serve as an image (a video or an
/// unknown file) is sent as PNG.
pub proof fn lemma_image_mime_agrees_with_media(lower: Seq<char>)
    ensures
        spec_media_mime(lower) != "video/mp4"@ && spec_media_mime(lower) != "application/octet-stream"@
            ==> spec_image_mime(lower) == spec_media_mime(lower),
        spec_media_mime(lower) == "video/mp4"@ || spec_media_mime(lower) == "application/octet-stream"@
            ==> spec_image_mime(lower) == "image/png"@,
{
    reveal_strlit("image/png");
    reveal_strlit("image/jpeg");
    reveal_strlit("image/webp");
    reveal_strlit("image/gif");
    reveal_strlit("video/mp4");
    reveal_strlit("application/octet-stream");
    assert("image/png"@[0] != "video/mp4"@[0] && "image/jpeg"@[0] != "video/mp4"@[0]);
    assert("image/webp"@[0] != "video/mp4"@[0] && "image/gif"@[0] != "video/mp4"@[0]);
    assert("image/png"@[0] != "application/octet-stream"@[0]);
    assert("image/jpeg"@[0] != "application/octet-stream"@[0]);
    assert("image/webp"@[0] != "application/octet-stream"@[0]);
    assert("image/gif"@[0] != "application/octet-stream"@[0]);
}

/// The MIME type of a stored image, from its path.
pub fn mime_from_path(path: &str) -> (r: &'static str)
    ensures
        r@ == spec_image_mime(unicode_lowercase(path@)),
        is_ascii_text(path@) ==> r@ == spec_image_mime(ascii_lowercase(path@)),
{
    let lower = to_lowercase(path);
    let l = lower.as_str();
    if str_ends_with(l, ".png") {
        "image/png"
    } else if str_ends_with(l, ".jpg") || str_ends_with(l, ".jpeg") {
        "image/jpeg"
    } else if str_ends_with(l, ".webp") {
        "image/webp"
    } else if str_ends_with(l, ".gif") {
        "image/gif"
    } else {
        "image/png"
    }
}

/// What is sent to the vision model for a stored image: its PNG re-encoding as
/// `image/png`, or, when it cannot be decoded, the raw bytes with the type its path gives.
pub fn vision_payload(bytes: Vec<u8>, path: &str) -> (r: (Vec<u8>, &'static str))
    ensures
        match png_reencoding(bytes@) {
            Some(png) => r.0@ == png && r.1@ == "image/png"@,
            None => r.0@ == bytes@ && r.1@ == spec_image_mime(unicode_lowercase(path@)),
        },
{
    match to_png(bytes.as_slice()) {
        Some(png) => (png, "image/png"),
        None => (bytes, mime_from_path(path)),
    }
}

/// The answer once the vision model has described the image.
pub fn described_response(prompt: String) -> (r: DescribeResp)
    ensures
        r.prompt@ == prompt@,
        r.described,
{
    DescribeResp { prompt, described: true }
}

} // verus!
