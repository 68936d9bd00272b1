use facesguru::config::{parse_prompt_mode, var_or, Config, PromptMode};

fn vars(pairs: &[(&str, &str)]) -> Vec<(String, String)> {
    pairs.iter().map(|(k, v)| (k.to_string(), v.to_string())).collect()
}

#[test]
fn defaults_when_nothing_is_set() {
    let c = Config::from_vars(&vec![]);
    assert_eq!(c.bind, "0.0.0.0:8080");
    assert_eq!(c.db_url, "sqlite://data/facesguru.db");
    assert_eq!(c.media_dir, "data/media");
    assert!(c.mock);
    assert_eq!(c.prompt_mode, PromptMode::Prose);
    assert_eq!(c.comfyui_url, "http://127.0.0.1:8188");
    assert_eq!(c.image_ckpt, "sd_xl_base_1.0.safetensors");
    assert_eq!(c.lmstudio_url, "http://127.0.0.1:1234");
    assert_eq!(c.lmstudio_model, "mistral-small-24b-instruct");
    assert_eq!(c.vision_model, "mistral-small-24b-instruct");
    assert_eq!(c.faceswap_url, "http://127.0.0.1:5000");
    assert_eq!(c.video_url, "http://127.0.0.1:5001");
}

#[test]
fn overrides_are_read() {
    let c = Config::from_vars(&vars(&[
        ("FG_MOCK", "FALSE"),
        ("FG_PROMPT_MODE", "TAGS"),
        ("FG_LMSTUDIO_MODEL", "m1"),
        ("FG_BIND", "127.0.0.1:9"),
    ]));
    assert!(!c.mock);
    assert_eq!(c.prompt_mode, PromptMode::Tags);
    assert_eq!(c.lmstudio_model, "m1");
    assert_eq!(c.vision_model, "m1");
    assert_eq!(c.bind, "127.0.0.1:9");
}

#[test]
fn vision_model_can_differ() {
    let c = Config::from_vars(&vars(&[("FG_VISION_MODEL", "gemma"), ("FG_LMSTUDIO_MODEL", "m1")]));
    assert_eq!(c.vision_model, "gemma");
    assert_eq!(c.lmstudio_model, "m1");
}

#[test]
fn mock_flag_reads_true_in_any_case() {
    assert!(Config::from_vars(&vars(&[("FG_MOCK", "TrUe")])).mock);
    assert!(!Config::from_vars(&vars(&[("FG_MOCK", "yes")])).mock);
    assert!(!Config::from_vars(&vars(&[("FG_MOCK", " true")])).mock);
}

#[test]
fn prompt_mode_parsing() {
    assert_eq!(parse_prompt_mode("tags"), PromptMode::Tags);
    assert_eq!(parse_prompt_mode("Tags"), PromptMode::Tags);
    assert_eq!(parse_prompt_mode("prose"), PromptMode::Prose);
    assert_eq!(parse_prompt_mode("booru"), PromptMode::Prose);
}

#[test]
fn first_setting_of_a_variable_wins() {
    let v = vars(&[("A", "1"), ("A", "2")]);
    assert_eq!(var_or(&v, "A", "d"), "1");
    assert_eq!(var_or(&v, "B", "d"), "d");
}

#[test]
fn unset_prompt_mode_is_prose() {
    assert_eq!(Config::from_vars(&vars(&[("FG_MOCK", "true")])).prompt_mode, PromptMode::Prose);
}
