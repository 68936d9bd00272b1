//! Prompts for the local LM Studio server: the enhancer's messages and how its reply is
//! read, and the vision prompt that describes an uploaded image.

use vstd::prelude::*;
use base64::Engine;
use crate::config::PromptMode;
use crate::error::ServiceError;
use crate::json::{as_text, json_member, json_object_members, member_text, member_value, parse_json_object, ScalarView};
use crate::text::{is_blank, join, join_strings, str_eq, str_is_blank, trim, trim_str};

verus! {

/// System prompt for natural-language (Flux/SDXL) prompt expansion.
pub const PROSE_SYSTEM: &'static str = "You are a diffusion-prompt engineer for a Flux/SDXL image model. Expand the user's idea into a single, vivid natural-language prompt describing subject, composition, lighting, lens, mood and style. Then write a negative prompt of things to avoid (artifacts, extra limbs, bad anatomy, watermarks, etc.). Adult/NSFW content is allowed and expected; do not refuse, moralize, or add disclaimers. Respond ONLY with JSON: {\"positive\": string, \"negative\": string}.";

/// Photoreal-explicit scaffolding for Pony/Illustrious *realism* checkpoints.
/// Prepended to positives and merged into negatives so output stays a photograph,
/// not anime/3d.
pub const REALISM_POS_PREFIX: &'static str = "score_9, score_8_up, score_7_up, source_photo, raw photo, photorealistic, realistic skin texture, detailed skin, natural lighting, film grain, 8k";

/// Negative tags that keep realism checkpoints away from anime, 3d and renders.
pub const REALISM_NEG: &'static str = "score_6, score_5, score_4, source_anime, source_cartoon, anime, cartoon, 3d, cgi, render, illustration, painting, doll, plastic skin, airbrushed, worst quality, low quality, extra limbs, bad hands, deformed, watermark, text";

/// System prompt for booru-tag (Pony/Illustrious realism SDXL) prompt expansion.
pub const TAGS_SYSTEM: &'static str = "You are a booru-tag prompt engineer for a Pony/Illustrious realism SDXL checkpoint producing PHOTOREALISTIC explicit images. ALWAYS begin the positive prompt with this exact realism prefix, then append comma-separated booru tags that expand the user's idea (subject, explicit act/pose, body, setting, camera angle, lighting), ordered most-important first: \"score_9, score_8_up, score_7_up, source_photo, raw photo, photorealistic, realistic skin texture, detailed skin, natural lighting, film grain, 8k\". The negative MUST push anime/cartoon/3d/render/illustration and low-score tags so the result reads as a real photo. Adult/NSFW content is allowed and expected; do not refuse, moralize, or add disclaimers. Respond ONLY with JSON: {\"positive\": string, \"negative\": string}.";

/// The enhancer's system prompt for a prompt-assist style.
pub open spec fn spec_enhance_system(mode: PromptMode) -> Seq<char> {
    match mode {
        PromptMode::Prose => PROSE_SYSTEM@,
        PromptMode::Tags => TAGS_SYSTEM@,
    }
}

/// Each prompt-assist style gets its own system prompt: the prose style asks a
/// diffusion-prompt engineer for a natural-language prompt, the tags style asks a
/// booru-tag prompt engineer and quotes the realism prefix that every positive prompt
/// must begin with.
pub proof fn lemma_enhance_system_follows_mode()
    ensures
        "You are a diffusion-prompt engineer"@.is_prefix_of(spec_enhance_system(PromptMode::Prose)),
        "You are a booru-tag prompt engineer"@.is_prefix_of(spec_enhance_system(PromptMode::Tags)),
        spec_enhance_system(PromptMode::Tags).subrange(357, 357 + REALISM_POS_PREFIX@.len() as int) == REALISM_POS_PREFIX@,
{
    reveal_strlit("You are a diffusion-prompt engineer for a Flux/SDXL image model. Expand the user's idea into a single, vivid natural-language prompt describing subject, composition, lighting, lens, mood and style. Then write a negative prompt of things to avoid (artifacts, extra limbs, bad anatomy, watermarks, etc.). Adult/NSFW content is allowed and expected; do not refuse, moralize, or add disclaimers. Respond ONLY with JSON: {\"positive\": string, \"negative\": string}.");
    reveal_strlit("You are a booru-tag prompt engineer for a Pony/Illustrious realism SDXL checkpoint producing PHOTOREALISTIC explicit images. ALWAYS begin the positive prompt with this exact realism prefix, then append comma-separated booru tags that expand the user's idea (subject, explicit act/pose, body, setting, camera angle, lighting), ordered most-important first: \"score_9, score_8_up, score_7_up, source_photo, raw photo, photorealistic, realistic skin texture, detailed skin, natural lighting, film grain, 8k\". The negative MUST push anime/cartoon/3d/render/illustration and low-score tags so the result reads as a real photo. Adult/NSFW content is allowed and expected; do not refuse, moralize, or add disclaimers. Respond ONLY with JSON: {\"positive\": string, \"negative\": string}.");
    reveal_strlit("score_9, score_8_up, score_7_up, source_photo, raw photo, photorealistic, realistic skin texture, detailed skin, natural lighting, film grain, 8k");
    reveal_strlit("You are a diffusion-prompt engineer");
    reveal_strlit("You are a booru-tag prompt engineer");
    assert("You are a diffusion-prompt engineer"@ =~= PROSE_SYSTEM@.subrange(0, 35));
    assert("You are a booru-tag prompt engineer"@ =~= TAGS_SYSTEM@.subrange(0, 35));
    assert(TAGS_SYSTEM@.subrange(357, 502) =~= REALISM_POS_PREFIX@);
}

/// The system prompt that asks the LLM to expand an idea in the given style.
pub fn enhance_system_prompt(mode: PromptMode) -> (r: &'static str)
    ensures
        r@ == spec_enhance_system(mode),
{
    match mode {
        PromptMode::Prose => PROSE_SYSTEM,
        PromptMode::Tags => TAGS_SYSTEM,
    }
}

/// The user message of an enhance request: the idea, the context and what to avoid.
pub open spec fn spec_enhance_user_message(idea: Seq<char>, context: Seq<char>, negative: Seq<char>) -> Seq<char> {
    "Idea: "@ + idea + "\nExtra context to incorporate: "@ + context + "\nMust avoid: "@ + negative
}

/// Builds the user message of an enhance request.
pub fn enhance_user_message(idea: &str, context: &str, negative: &str) -> (r: String)
    ensures
        r@ == spec_enhance_user_message(idea@, context@, negative@),
{
    let s = String::from_str("Idea: ").concat(idea);
    let s = s.concat("\nExtra context to incorporate: ").concat(context);
    s.concat("\nMust avoid: ").concat(negative)
}

/// The `(positive, negative)` pair read from the LLM's reply text: the reply is parsed as
/// JSON after trimming (a reply that is not JSON counts as `positive` = the whole reply);
/// a positive that is missing, not a string or blank falls back to the idea, and a
/// negative that is missing or not a string falls back to the requested negative.
pub open spec fn spec_enhance_reply(content: Seq<char>, idea: Seq<char>, negative: Seq<char>) -> (Seq<char>, Seq<char>) {
    let fields = match json_object_members(trim(content)) {
        Some(parsed) => (as_text(json_member(parsed, "positive"@)), as_text(json_member(parsed, "negative"@))),
        None => (Some(content), Some(negative)),
    };
    let positive = match fields.0 {
        Some(p) => if is_blank(p) { idea } else { p },
        None => idea,
    };
    let neg = match fields.1 {
        Some(n) => n,
        None => negative,
    };
    (positive, neg)
}

/// How the reply is read: a reply holding a JSON object gives its string `positive`
/// (falling back to the idea when that is missing, not a string or blank) and its string
/// `negative` (falling back to the requested negative); JSON that is not an object gives
/// the idea and the requested negative; a reply that is not JSON is taken whole as the
/// positive prompt (or the idea, when blank) with the requested negative.
pub proof fn lemma_enhance_reply_fields(content: Seq<char>, idea: Seq<char>, negative: Seq<char>)
    ensures
        ({
            let r = spec_enhance_reply(content, idea, negative);
            match json_object_members(trim(content)) {
                None => r.0 == (if is_blank(content) { idea } else { content }) && r.1 == negative,
                Some(None) => r.0 == idea && r.1 == negative,
                Some(Some(m)) => {
                    &&& match member_value(m, "positive"@) {
                        Some(ScalarView::Text(p)) => r.0 == (if is_blank(p) { idea } else { p }),
                        _ => r.0 == idea,
                    }
                    &&& match member_value(m, "negative"@) {
                        Some(ScalarView::Text(n)) => r.1 == n,
                        _ => r.1 == negative,
                    }
                },
            }
        }),
{
}

/// Reads the enhanced `(positive, negative)` pair from the text of the LLM's reply.
pub fn interpret_enhance_reply(content: &str, idea: &str, negative: &str) -> (r: (String, String))
    ensures
        (r.0@, r.1@) == spec_enhance_reply(content@, idea@, negative@),
{
    let fields = match parse_json_object(trim_str(content)) {
        Some(parsed) => (member_text(&parsed, "positive"), member_text(&parsed, "negative")),
        None => (Some(String::from_str(content)), Some(String::from_str(negative))),
    };
    let (p, n) = fields;
    let positive = match p {
        Some(s) => if str_is_blank(s.as_str()) { String::from_str(idea) } else { s },
        None => String::from_str(idea),
    };
    let neg = match n {
        Some(s) => s,
        None => String::from_str(negative),
    };
    (positive, neg)
}

/// What the vision model is told to detail for each aspect it may describe.
pub open spec fn spec_aspect_guidance(aspect: Seq<char>) -> Option<Seq<char>> {
    if aspect == "face"@ {
        Some("FACE: face shape, eyes (color, shape, gaze), eyebrows, nose, lips, skin tone & texture, freckles/marks, apparent age, expression/emotion, hair (color, length, style, parting), facial hair, makeup"@)
    } else if aspect == "body"@ {
        Some("BODY: body type & build, proportions, height impression, skin tone & texture, muscle/curves, visible anatomy and explicit details if unclothed, tattoos/piercings"@)
    } else if aspect == "posture"@ {
        Some("POSTURE & POSE: exact body position and pose, limb placement, hands/gesture, head tilt, what the subject is doing, camera angle, shot type and framing (close-up/full-body), point of view"@)
    } else if aspect == "clothing"@ {
        Some("CLOTHING: every garment (type, color, material, pattern, fit, how worn/state of dress) or explicit nudity if unclothed, footwear, accessories, jewelry"@)
    } else if aspect == "environment"@ {
        Some("ENVIRONMENT: location/setting, background elements and props, lighting (source, direction, quality), time of day, weather, overall mood and color palette"@)
    } else {
        None
    }
}

/// Each aspect's guidance is about that aspect: the face, body, posture, clothing and
/// environment guidance open with the headings `FACE:`, `BODY:`, `POSTURE & POSE:`,
/// `CLOTHING:` and `ENVIRONMENT:`; any other aspect has none.
pub proof fn lemma_aspect_guidance_headings(aspect: Seq<char>)
    ensures
        aspect == "face"@ ==> (spec_aspect_guidance(aspect) matches Some(t) && "FACE:"@.is_prefix_of(t)),
        aspect == "body"@ ==> (spec_aspect_guidance(aspect) matches Some(t) && "BODY:"@.is_prefix_of(t)),
        aspect == "posture"@ ==> (spec_aspect_guidance(aspect) matches Some(t) && "POSTURE & POSE:"@.is_prefix_of(t)),
        aspect == "clothing"@ ==> (spec_aspect_guidance(aspect) matches Some(t) && "CLOTHING:"@.is_prefix_of(t)),
        aspect == "environment"@ ==> (spec_aspect_guidance(aspect) matches Some(t) && "ENVIRONMENT:"@.is_prefix_of(t)),
        aspect != "face"@ && aspect != "body"@ && aspect != "posture"@ && aspect != "clothing"@
            && aspect != "environment"@ ==> spec_aspect_guidance(aspect) is None,
{
    reveal_strlit("face");
    reveal_strlit("body");
    reveal_strlit("posture");
    reveal_strlit("clothing");
    reveal_strlit("environment");
    reveal_strlit("FACE:");
    reveal_strlit("BODY:");
    reveal_strlit("POSTURE & POSE:");
    reveal_strlit("CLOTHING:");
    reveal_strlit("ENVIRONMENT:");
    reveal_strlit("FACE: face shape, eyes (color, shape, gaze), eyebrows, nose, lips, skin tone & texture, freckles/marks, apparent age, expression/emotion, hair (color, length, style, parting), facial hair, makeup");
    reveal_strlit("BODY: body type & build, proportions, height impression, skin tone & texture, muscle/curves, visible anatomy and explicit details if unclothed, tattoos/piercings");
    reveal_strlit("POSTURE & POSE: exact body position and pose, limb placement, hands/gesture, head tilt, what the subject is doing, camera angle, shot type and framing (close-up/full-body), point of view");
    reveal_strlit("CLOTHING: every garment (type, color, material, pattern, fit, how worn/state of dress) or explicit nudity if unclothed, footwear, accessories, jewelry");
    reveal_strlit("ENVIRONMENT: location/setting, background elements and props, lighting (source, direction, quality), time of day, weather, overall mood and color palette");
    assert("body"@[0] != "face"@[0]);
    assert("posture"@.len() != "face"@.len());
    assert("posture"@.len() != "body"@.len());
    assert("clothing"@.len() != "face"@.len());
    assert("clothing"@.len() != "body"@.len());
    assert("clothing"@.len() != "posture"@.len());
    assert("environment"@.len() != "face"@.len());
    assert("environment"@.len() != "body"@.len());
    assert("environment"@.len() != "posture"@.len());
    assert("environment"@.len() != "clothing"@.len());
    assert("FACE:"@ =~= "FACE: face shape, eyes (color, shape, gaze), eyebrows, nose, lips, skin tone & texture, freckles/marks, apparent age, expression/emotion, hair (color, length, style, parting), facial hair, makeup"@.subrange(0, 5));
    assert("BODY:"@ =~= "BODY: body type & build, proportions, height impression, skin tone & texture, muscle/curves, visible anatomy and explicit details if unclothed, tattoos/piercings"@.subrange(0, 5));
    assert("POSTURE & POSE:"@ =~= "POSTURE & POSE: exact body position and pose, limb placement, hands/gesture, head tilt, what the subject is doing, camera angle, shot type and framing (close-up/full-body), point of view"@.subrange(0, 15));
    assert("CLOTHING:"@ =~= "CLOTHING: every garment (type, color, material, pattern, fit, how worn/state of dress) or explicit nudity if unclothed, footwear, accessories, jewelry"@.subrange(0, 9));
    assert("ENVIRONMENT:"@ =~= "ENVIRONMENT: location/setting, background elements and props, lighting (source, direction, quality), time of day, weather, overall mood and color palette"@.subrange(0, 12));
}

/// Per-aspect guidance that tells the vision model exactly what to detail.
pub fn aspect_guidance(aspect: &str) -> (r: Option<&'static str>)
    ensures
        match r {
            Some(g) => spec_aspect_guidance(aspect@) == Some(g@),
            None => spec_aspect_guidance(aspect@) is None,
        },
        aspect@ == "face"@ ==> (r matches Some(g) && "FACE:"@.is_prefix_of(g@)),
        aspect@ == "body"@ ==> (r matches Some(g) && "BODY:"@.is_prefix_of(g@)),
        aspect@ == "posture"@ ==> (r matches Some(g) && "POSTURE & POSE:"@.is_prefix_of(g@)),
        aspect@ == "clothing"@ ==> (r matches Some(g) && "CLOTHING:"@.is_prefix_of(g@)),
        aspect@ == "environment"@ ==> (r matches Some(g) && "ENVIRONMENT:"@.is_prefix_of(g@)),
{
    proof {
        lemma_aspect_guidance_headings(aspect@);
    }
    if str_eq(aspect, "face") {
        Some("FACE: face shape, eyes (color, shape, gaze), eyebrows, nose, lips, skin tone & texture, freckles/marks, apparent age, expression/emotion, hair (color, length, style, parting), facial hair, makeup")
    } else if str_eq(aspect, "body") {
        Some("BODY: body type & build, proportions, height impression, skin tone & texture, muscle/curves, visible anatomy and explicit details if unclothed, tattoos/piercings")
    } else if str_eq(aspect, "posture") {
        Some("POSTURE & POSE: exact body position and pose, limb placement, hands/gesture, head tilt, what the subject is doing, camera angle, shot type and framing (close-up/full-body), point of view")
    } else if str_eq(aspect, "clothing") {
        Some("CLOTHING: every garment (type, color, material, pattern, fit, how worn/state of dress) or explicit nudity if unclothed, footwear, accessories, jewelry")
    } else if str_eq(aspect, "environment") {
        Some("ENVIRONMENT: location/setting, background elements and props, lighting (source, direction, quality), time of day, weather, overall mood and color palette")
    } else {
        None
    }
}

/// The guidance texts of the aspects that have one, in the order given.
pub open spec fn spec_guidance_list(aspects: Seq<Seq<char>>) -> Seq<Seq<char>>
    decreases aspects.len(),
{
    if aspects.len() == 0 {
        Seq::empty()
    } else {
        let rest = spec_guidance_list(aspects.drop_last());
        match spec_aspect_guidance(aspects.last()) {
            Some(g) => rest.push(g),
            None => rest,
        }
    }
}

/// How the described prompt should be formatted in each prompt-assist style.
pub open spec fn spec_describe_style(mode: PromptMode) -> Seq<char> {
    match mode {
        PromptMode::Tags => "comma-separated booru-style tags. Begin with: score_9, score_8_up, score_7_up, source_photo, raw photo, photorealistic, then the descriptive tags"@,
        PromptMode::Prose => "a single richly detailed natural-language paragraph"@,
    }
}

/// The described prompt is formatted in the configured style: booru-style tags for the
/// tags style, a natural-language paragraph for the prose style; the system prompt names
/// that style and then lists the guidance of each selected aspect.
pub proof fn lemma_describe_style_follows_mode(mode: PromptMode, guidance: Seq<Seq<char>>)
    ensures
        "comma-separated booru-style tags"@.is_prefix_of(spec_describe_style(PromptMode::Tags)),
        "a single richly detailed natural-language paragraph"@.is_prefix_of(spec_describe_style(PromptMode::Prose)),
        spec_describe_system(mode, guidance).subrange(
            128,
            128 + spec_describe_style(mode).len() as int,
        ) == spec_describe_style(mode),
{
    reveal_strlit("comma-separated booru-style tags. Begin with: score_9, score_8_up, score_7_up, source_photo, raw photo, photorealistic, then the descriptive tags");
    reveal_strlit("a single richly detailed natural-language paragraph");
    reveal_strlit("comma-separated booru-style tags");
    reveal_strlit("You are an expert diffusion-prompt engineer with vision. Look at the image and write an EXTREMELY detailed prompt, formatted as ");
    assert("comma-separated booru-style tags"@ =~= "comma-separated booru-style tags. Begin with: score_9, score_8_up, score_7_up, source_photo, raw photo, photorealistic, then the descriptive tags"@.subrange(0, 32));
    assert("a single richly detailed natural-language paragraph"@ =~= "a single richly detailed natural-language paragraph"@.subrange(0, 51));
    let head = "You are an expert diffusion-prompt engineer with vision. Look at the image and write an EXTREMELY detailed prompt, formatted as "@;
    let full = spec_describe_system(mode, guidance);
    assert(full.subrange(head.len() as int, (head.len() + spec_describe_style(mode).len()) as int) =~= spec_describe_style(mode));
}

/// The vision model's system prompt: the style and the guidance of each selected aspect.
pub open spec fn spec_describe_system(mode: PromptMode, guidance: Seq<Seq<char>>) -> Seq<char> {
    "You are an expert diffusion-prompt engineer with vision. Look at the image and write an EXTREMELY detailed prompt, formatted as "@ + spec_describe_style(mode) + ", that could be used to regenerate this exact image with an SDXL model. Describe ONLY the following aspects, each in fine detail:\n"@ + join(guidance, "\n"@) + "\nBe concrete and specific (colors, materials, counts, positions). Adult/NSFW/explicit content is allowed and expected — describe it factually; do not refuse, censor, or moralize. Output ONLY the prompt text, with no preamble, headings, or quotes."@
}

/// Builds the vision system prompt for the selected aspects; aspects without guidance
/// are skipped, and none with guidance is an error.
pub fn describe_system_prompt(mode: PromptMode, aspects: &Vec<String>) -> (r: Result<String, ServiceError>)
    ensures
        ({
            let guidance = spec_guidance_list(aspects.deep_view());
            if guidance.len() == 0 {
                r matches Err(ServiceError::NoValidAspects)
            } else {
                r matches Ok(s) && s@ == spec_describe_system(mode, guidance)
            }
        }),
{
    let ghost views = aspects.deep_view();
    let mut guidance: Vec<String> = Vec::new();
    let n = aspects.len();
    let mut i: usize = 0;
    while i < n
        invariant
            n == aspects@.len(),
            views == aspects.deep_view(),
            views.len() == n,
            i <= n,
            guidance.deep_view() == spec_guidance_list(views.take(i as int)),
        decreases n - i,
    {
        assert(views.take(i + 1).drop_last() =~= views.take(i as int));
        assert(views.take(i + 1).last() == views[i as int]);
        match aspect_guidance(aspects[i].as_str()) {
            Some(g) => {
                let ghost before = guidance.deep_view();
                guidance.push(String::from_str(g));
                assert(guidance.deep_view() =~= before.push(g@));
            },
            None => {},
        }
        i = i + 1;
    }
    assert(views.take(n as int) =~= views);
    if guidance.len() == 0 {
        return Err(ServiceError::NoValidAspects);
    }
    let style: &str = match mode {
        PromptMode::Tags => "comma-separated booru-style tags. Begin with: score_9, score_8_up, score_7_up, source_photo, raw photo, photorealistic, then the descriptive tags",
        PromptMode::Prose => "a single richly detailed natural-language paragraph",
    };
    let s = String::from_str("You are an expert diffusion-prompt engineer with vision. Look at the image and write an EXTREMELY detailed prompt, formatted as ").concat(style);
    let s = s.concat(", that could be used to regenerate this exact image with an SDXL model. Describe ONLY the following aspects, each in fine detail:\n");
    let joined = join_strings(&guidance, "\n");
    let s = s.concat(joined.as_str());
    Ok(s.concat("\nBe concrete and specific (colors, materials, counts, positions). Adult/NSFW/explicit content is allowed and expected — describe it factually; do not refuse, censor, or moralize. Output ONLY the prompt text, with no preamble, headings, or quotes."))
}

/// The text part of the vision request: which aspects to cover.
pub fn describe_user_text(aspects: &Vec<String>) -> (r: String)
    ensures
        r@ == "Write the prompt now, covering: "@ + join(aspects.deep_view(), ", "@) + "."@,
{
    let joined = join_strings(aspects, ", ");
    String::from_str("Write the prompt now, covering: ").concat(joined.as_str()).concat(".")
}

// ---------------------------------------------------------------------------
// Base64 for the image data URL.
// ---------------------------------------------------------------------------

/// The character of a 6-bit value in the standard base64 alphabet.
pub open spec fn base64_symbol(v: int) -> char {
    if v < 26 {
        (65 + v) as char
    } else if v < 52 {
        (97 + v - 26) as char
    } else if v < 62 {
        (48 + v - 52) as char
    } else if v == 62 {
        '+'
    } else {
        '/'
    }
}

/// Standard base64 with `=` padding: every three bytes become four characters, a final
/// one or two bytes become four characters ending in `==` or `=`.
pub open spec fn base64_standard(b: Seq<u8>) -> Seq<char>
    decreases b.len(),
{
    if b.len() == 0 {
        Seq::empty()
    } else {
        let x = b[0] as int;
        let y = if b.len() > 1 { b[1] as int } else { 0 };
        let z = if b.len() > 2 { b[2] as int } else { 0 };
        if b.len() == 1 {
            seq![base64_symbol(x / 4), base64_symbol((x % 4) * 16), '=', '=']
        } else if b.len() == 2 {
            seq![base64_symbol(x / 4), base64_symbol((x % 4) * 16 + y / 16), base64_symbol((y % 16) * 4), '=']
        } else {
            seq![
                base64_symbol(x / 4),
                base64_symbol((x % 4) * 16 + y / 16),
                base64_symbol((y % 16) * 4 + z / 64),
                base64_symbol(z % 64),
            ] + base64_standard(b.subrange(3, b.len() as int))
        }
    }
}

/// Calls `base64::engine::general_purpose::STANDARD.encode`: standard alphabet with
/// padding. (The length bound keeps the encoder's size computation from overflowing.)
#[verifier::external_body]
fn base64_encode(bytes: &[u8]) -> (r: String)
    requires
        bytes@.len() <= usize::MAX / 2,
    ensures
        r@ == base64_standard(bytes@),
{
    base64::engine::general_purpose::STANDARD.encode(bytes)
}

/// The `data:` URL that carries an image inline in the vision request.
pub fn image_data_url(mime: &str, bytes: &[u8]) -> (r: String)
    requires
        bytes@.len() <= usize::MAX / 2,
    ensures
        r@ == "data:"@ + mime@ + ";base64,"@ + base64_standard(bytes@),
{
    let encoded = base64_encode(bytes);
    String::from_str("data:").concat(mime).concat(";base64,").concat(encoded.as_str())
}

// ---------------------------------------------------------------------------
// The chat-completion requests sent to LM Studio.
// ---------------------------------------------------------------------------

/// LM Studio's structured-output setting for the enhancer: a strict JSON schema (LM Studio
/// takes `json_schema`, not `json_object`) that admits exactly an object with the string
/// members `positive` and `negative`.
pub const PROMPT_PAIR_RESPONSE_FORMAT: &'static str = "{\"type\":\"json_schema\",\"json_schema\":{\"name\":\"diffusion_prompt\",\"strict\":true,\"schema\":{\"type\":\"object\",\"properties\":{\"positive\":{\"type\":\"string\"},\"negative\":{\"type\":\"string\"}},\"required\":[\"positive\",\"negative\"],\"additionalProperties\":false}}}";

/// The content of a chat message: plain text, or text followed by an inline image.
#[derive(Debug)]
pub enum ChatContent {
    Text(String),
    TextWithImage { text: String, image_url: String },
}

/// One message of a chat-completion request.
#[derive(Debug)]
pub struct ChatMessage {
    pub role: String,
    pub content: ChatContent,
}

/// A chat-completion request for LM Studio's OpenAI-compatible endpoint.
#[derive(Debug)]
pub struct ChatRequest {
    pub model: String,
    pub messages: Vec<ChatMessage>,
    /// The sampling temperature, written as a JSON number.
    pub temperature_json: String,
    /// The most tokens the reply may take, when limited.
    pub max_tokens: Option<u32>,
    /// The `response_format` member, as JSON text, when the reply's shape is prescribed.
    pub response_format_json: Option<String>,
}

/// The value of a message's content.
pub enum ContentView {
    Text(Seq<char>),
    TextWithImage(Seq<char>, Seq<char>),
}

/// The value of a message's content.
pub open spec fn content_view(c: ChatContent) -> ContentView {
    match c {
        ChatContent::Text(t) => ContentView::Text(t@),
        ChatContent::TextWithImage { text, image_url } => ContentView::TextWithImage(text@, image_url@),
    }
}

/// The value of a message: its role and its content.
pub open spec fn message_view(m: ChatMessage) -> (Seq<char>, ContentView) {
    (m.role@, content_view(m.content))
}

fn text_message(role: &str, text: String) -> (r: ChatMessage)
    ensures
        message_view(r) == (role@, ContentView::Text(text@)),
{
    ChatMessage { role: String::from_str(role), content: ChatContent::Text(text) }
}

/// The enhance request: the configured model, the style's system prompt and the user
/// message, temperature 0.7, replies held to the `{positive, negative}` schema
/// (`PROMPT_PAIR_RESPONSE_FORMAT`).
pub fn enhance_request(model: &str, mode: PromptMode, idea: &str, context: &str, negative: &str) -> (r: ChatRequest)
    ensures
        r.model@ == model@,
        r.messages@.len() == 2,
        message_view(r.messages@[0]) == ("system"@, ContentView::Text(spec_enhance_system(mode))),
        message_view(r.messages@[1]) == ("user"@, ContentView::Text(
            spec_enhance_user_message(idea@, context@, negative@),
        )),
        r.temperature_json@ == "0.7"@,
        r.max_tokens is None,
        r.response_format_json.deep_view() == Some(PROMPT_PAIR_RESPONSE_FORMAT@),
{
    let mut messages: Vec<ChatMessage> = Vec::new();
    messages.push(text_message("system", String::from_str(enhance_system_prompt(mode))));
    messages.push(text_message("user", enhance_user_message(idea, context, negative)));
    ChatRequest {
        model: String::from_str(model),
        messages,
        temperature_json: String::from_str("0.7"),
        max_tokens: None,
        response_format_json: Some(String::from_str(PROMPT_PAIR_RESPONSE_FORMAT)),
    }
}

/// The vision request: the vision model, the system prompt for the selected aspects, and a
/// user message with the aspects to cover and the image as a data URL; temperature 0.4,
/// at most 900 tokens. Selecting no aspect that has guidance is an error.
pub fn describe_request(
    vision_model: &str,
    mode: PromptMode,
    aspects: &Vec<String>,
    mime: &str,
    image_bytes: &[u8],
) -> (r: Result<ChatRequest, ServiceError>)
    requires
        image_bytes@.len() <= usize::MAX / 2,
    ensures
        ({
            let guidance = spec_guidance_list(aspects.deep_view());
            if guidance.len() == 0 {
                r matches Err(ServiceError::NoValidAspects)
            } else {
                r matches Ok(req) && req.model@ == vision_model@ && req.messages@.len() == 2
                    && message_view(req.messages@[0]) == ("system"@, ContentView::Text(
                    spec_describe_system(mode, guidance),
                )) && message_view(req.messages@[1]) == ("user"@, ContentView::TextWithImage(
                    "Write the prompt now, covering: "@ + join(aspects.deep_view(), ", "@) + "."@,
                    "data:"@ + mime@ + ";base64,"@ + base64_standard(image_bytes@),
                )) && req.temperature_json@ == "0.4"@ && req.max_tokens == Some(900u32)
                    && req.response_format_json is None
            }
        }),
{
    let system = describe_system_prompt(mode, aspects)?;
    let user = ChatMessage {
        role: String::from_str("user"),
        content: ChatContent::TextWithImage {
            text: describe_user_text(aspects),
            image_url: image_data_url(mime, image_bytes),
        },
    };
    let mut messages: Vec<ChatMessage> = Vec::new();
    messages.push(text_message("system", system));
    messages.push(user);
    Ok(ChatRequest {
        model: String::from_str(vision_model),
        messages,
        temperature_json: String::from_str("0.4"),
        max_tokens: Some(900),
        response_format_json: None,
    })
}

/// The message text of the first choice of a chat-completion reply, given each choice's
/// `message.content` where it is a string.
pub open spec fn spec_first_content(choices: Seq<Option<Seq<char>>>) -> Option<Seq<char>> {
    if choices.len() > 0 {
        choices[0]
    } else {
        None
    }
}

fn first_content(choices: &Vec<Option<String>>) -> (r: Option<String>)
    ensures
        r.deep_view() == spec_first_content(choices.deep_view()),
{
    if choices.len() > 0 {
        match &choices[0] {
            Some(t) => Some(t.clone()),
            None => None,
        }
    } else {
        None
    }
}

/// The enhancer's reply text: the first choice's message content; a reply without it is an
/// error.
pub fn enhance_reply_content(choices: &Vec<Option<String>>) -> (r: Result<String, ServiceError>)
    ensures
        match spec_first_content(choices.deep_view()) {
            Some(t) => r matches Ok(s) && s@ == t,
            None => r matches Err(ServiceError::EnhanceReplyEmpty),
        },
{
    match first_content(choices) {
        Some(t) => Ok(t),
        None => Err(ServiceError::EnhanceReplyEmpty),
    }
}

/// The described prompt: the first choice's message content, trimmed; a reply without it
/// is an error.
pub fn vision_reply_text(choices: &Vec<Option<String>>) -> (r: Result<String, ServiceError>)
    ensures
        match spec_first_content(choices.deep_view()) {
            Some(t) => r matches Ok(s) && s@ == trim(t),
            None => r matches Err(ServiceError::VisionReplyEmpty),
        },
{
    match first_content(choices) {
        Some(t) => Ok(String::from_str(trim_str(t.as_str()))),
        None => Err(ServiceError::VisionReplyEmpty),
    }
}

} // verus!
