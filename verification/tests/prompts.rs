use facesguru::api::prompt::{enhance_response, fallback_response, EnhanceReq};
use facesguru::clients::faceswap::restore_field;
use facesguru::clients::lmstudio::{
    aspect_guidance, describe_system_prompt, describe_user_text, enhance_system_prompt,
    enhance_user_message, image_data_url, interpret_enhance_reply, PROSE_SYSTEM,
    REALISM_NEG, REALISM_POS_PREFIX, TAGS_SYSTEM,
};
use facesguru::clients::lmstudio::{
    describe_request, enhance_reply_content, enhance_request, vision_reply_text, ChatContent,
    PROMPT_PAIR_RESPONSE_FORMAT,
};
use facesguru::error::ServiceError;
use facesguru::config::PromptMode;

fn req(idea: &str, context: &str, negative: &str) -> EnhanceReq {
    EnhanceReq { idea: idea.to_string(), context: context.to_string(), negative: negative.to_string() }
}

#[test]
fn system_prompt_follows_mode() {
    assert_eq!(enhance_system_prompt(PromptMode::Prose), PROSE_SYSTEM);
    assert_eq!(enhance_system_prompt(PromptMode::Tags), TAGS_SYSTEM);
    assert!(PROSE_SYSTEM.starts_with("You are a diffusion-prompt engineer for a Flux/SDXL image model. Expand"));
    assert!(TAGS_SYSTEM.contains(&format!("\"{}\"", REALISM_POS_PREFIX)));
    assert!(REALISM_NEG.ends_with("watermark, text"));
}

#[test]
fn user_message_lists_idea_context_and_negative() {
    assert_eq!(
        enhance_user_message("a cat", "at night", "blur"),
        "Idea: a cat\nExtra context to incorporate: at night\nMust avoid: blur"
    );
}

#[test]
fn reply_json_is_used() {
    let (p, n) = interpret_enhance_reply(
        "  {\"positive\": \"a fluffy cat\", \"negative\": \"dogs\"} ",
        "cat",
        "blur",
    );
    assert_eq!(p, "a fluffy cat");
    assert_eq!(n, "dogs");
}

#[test]
fn reply_blank_positive_falls_back_to_idea() {
    let (p, n) = interpret_enhance_reply("{\"positive\": \"   \"}", "cat", "blur");
    assert_eq!(p, "cat");
    assert_eq!(n, "blur");
}

#[test]
fn reply_that_is_not_json_becomes_the_positive() {
    let (p, n) = interpret_enhance_reply("just prose", "cat", "blur");
    assert_eq!(p, "just prose");
    assert_eq!(n, "blur");
}

#[test]
fn reply_with_non_string_fields_falls_back() {
    let (p, n) = interpret_enhance_reply("[1, 2]", "cat", "blur");
    assert_eq!(p, "cat");
    assert_eq!(n, "blur");
    let (p, n) = interpret_enhance_reply("{\"positive\": 3, \"negative\": \"x\"}", "cat", "blur");
    assert_eq!(p, "cat");
    assert_eq!(n, "x");
}

#[test]
fn guidance_known_aspects_only() {
    assert!(aspect_guidance("face").unwrap().starts_with("FACE: face shape"));
    assert!(aspect_guidance("environment").unwrap().starts_with("ENVIRONMENT:"));
    assert!(aspect_guidance("Face").is_none());
    assert!(aspect_guidance("hands").is_none());
}

#[test]
fn describe_prompt_needs_a_valid_aspect() {
    let err = describe_system_prompt(PromptMode::Prose, &vec!["hands".to_string()]).unwrap_err();
    assert_eq!(err.message(), "no valid aspects selected");
}

#[test]
fn describe_prompt_joins_guidance_by_line() {
    let s = describe_system_prompt(
        PromptMode::Tags,
        &vec!["body".to_string(), "nope".to_string(), "clothing".to_string()],
    )
    .unwrap();
    let body = aspect_guidance("body").unwrap();
    let clothing = aspect_guidance("clothing").unwrap();
    assert!(s.starts_with("You are an expert diffusion-prompt engineer with vision. Look at the image and write an EXTREMELY detailed prompt, formatted as comma-separated booru-style tags."));
    assert!(s.contains(&format!("each in fine detail:\n{}\n{}\nBe concrete", body, clothing)));
    assert!(s.ends_with("with no preamble, headings, or quotes."));
    let p = describe_system_prompt(PromptMode::Prose, &vec!["face".to_string()]).unwrap();
    assert!(p.contains("formatted as a single richly detailed natural-language paragraph, that could"));
}

#[test]
fn describe_user_text_names_aspects() {
    assert_eq!(
        describe_user_text(&vec!["face".to_string(), "body".to_string()]),
        "Write the prompt now, covering: face, body."
    );
}

#[test]
fn data_url_is_standard_base64() {
    assert_eq!(image_data_url("image/png", &[1, 2, 3]), "data:image/png;base64,AQID");
    assert_eq!(image_data_url("image/gif", b"a"), "data:image/gif;base64,YQ==");
    assert_eq!(image_data_url("x", b"ab"), "data:x;base64,YWI=");
    assert_eq!(image_data_url("x", &[0xff, 0xfe, 0xfd, 0x00]), "data:x;base64,//79AA==");
    assert_eq!(image_data_url("x", &[]), "data:x;base64,");
}

#[test]
fn fallback_passes_the_idea_through() {
    let r = fallback_response(&req("  a cat ", "   ", "blur"));
    assert_eq!(r.positive, "  a cat ");
    assert_eq!(r.negative, "blur");
    assert!(!r.enhanced);
}

#[test]
fn fallback_adds_trimmed_context() {
    let r = fallback_response(&req("  a cat ", " at night\n", "blur"));
    assert_eq!(r.positive, "a cat, at night");
}

#[test]
fn enhance_uses_llm_answer_when_there_is_one() {
    let r = enhance_response(&req("cat", "", ""), Some(("P".to_string(), "N".to_string())));
    assert_eq!(r.positive, "P");
    assert_eq!(r.negative, "N");
    assert!(r.enhanced);
    let r = enhance_response(&req("cat", "", "neg"), None);
    assert_eq!(r.positive, "cat");
    assert_eq!(r.negative, "neg");
    assert!(!r.enhanced);
}

#[test]
fn restore_field_text() {
    assert_eq!(restore_field(true), "true");
    assert_eq!(restore_field(false), "false");
}

#[test]
fn reply_duplicate_member_takes_the_last() {
    let (p, _) = interpret_enhance_reply("{\"positive\": \"a\", \"positive\": \"b\"}", "cat", "blur");
    assert_eq!(p, "b");
}

#[test]
fn enhance_request_shape() {
    let r = enhance_request("m1", PromptMode::Tags, "cat", "night", "blur");
    assert_eq!(r.model, "m1");
    assert_eq!(r.messages.len(), 2);
    assert_eq!(r.messages[0].role, "system");
    assert!(matches!(&r.messages[0].content, ChatContent::Text(t) if t == TAGS_SYSTEM));
    assert_eq!(r.messages[1].role, "user");
    assert!(matches!(&r.messages[1].content, ChatContent::Text(t)
        if t == "Idea: cat\nExtra context to incorporate: night\nMust avoid: blur"));
    assert_eq!(r.temperature_json, "0.7");
    assert_eq!(r.max_tokens, None);
    assert_eq!(r.response_format_json, Some(PROMPT_PAIR_RESPONSE_FORMAT.to_string()));
}

#[test]
fn describe_request_shape() {
    let aspects = vec!["face".to_string()];
    let r = describe_request("vis", PromptMode::Prose, &aspects, "image/png", &[1, 2, 3]).unwrap();
    assert_eq!(r.model, "vis");
    assert_eq!(r.messages[0].role, "system");
    assert!(matches!(&r.messages[1].content, ChatContent::TextWithImage { text, image_url }
        if text == "Write the prompt now, covering: face." && image_url == "data:image/png;base64,AQID"));
    assert_eq!(r.temperature_json, "0.4");
    assert_eq!(r.max_tokens, Some(900));
    assert_eq!(r.response_format_json, None);
    assert!(describe_request("vis", PromptMode::Prose, &vec!["x".to_string()], "image/png", &[]).is_err());
}

#[test]
fn prompt_pair_format_is_a_strict_schema() {
    assert!(PROMPT_PAIR_RESPONSE_FORMAT.starts_with("{\"type\":\"json_schema\""));
    assert!(PROMPT_PAIR_RESPONSE_FORMAT.contains("\"strict\":true"));
    assert!(PROMPT_PAIR_RESPONSE_FORMAT.contains("\"required\":[\"positive\",\"negative\"]"));
    assert!(PROMPT_PAIR_RESPONSE_FORMAT.contains("\"additionalProperties\":false"));
}

#[test]
fn enhance_reply_takes_first_choice_content() {
    let choices = vec![Some("{\"positive\":\"a\"}".to_string()), Some("other".to_string())];
    assert_eq!(enhance_reply_content(&choices).unwrap(), "{\"positive\":\"a\"}");
    assert!(matches!(enhance_reply_content(&vec![None, Some("x".to_string())]), Err(ServiceError::EnhanceReplyEmpty)));
    assert!(matches!(enhance_reply_content(&vec![]), Err(ServiceError::EnhanceReplyEmpty)));
    assert_eq!(ServiceError::EnhanceReplyEmpty.message(), "LM Studio response had no message content");
}

#[test]
fn vision_reply_is_trimmed_first_choice() {
    assert_eq!(vision_reply_text(&vec![Some("  a portrait \n".to_string())]).unwrap(), "a portrait");
    assert!(matches!(vision_reply_text(&vec![None]), Err(ServiceError::VisionReplyEmpty)));
    assert_eq!(ServiceError::VisionReplyEmpty.message(), "vision response had no message content");
}
