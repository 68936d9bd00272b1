//! Runtime configuration: which services to use and how, read from `FG_*` variables.

use vstd::prelude::*;
use crate::text::{
    ascii_lowercase, eq_ignore_ascii_case, eq_ignore_case, is_ascii_text, str_eq, to_lowercase,
    unicode_lowercase,
};

verus! {

/// Which prompt-assist style the enhancer LLM should emit.
/// Flux wants natural-language prose; Pony/Illustrious/anime SDXL want booru tags.
#[derive(Clone, Copy, Debug, PartialEq, Eq, Structural)]
pub enum PromptMode {
    Prose,
    Tags,
}

/// Runtime configuration, loaded from the environment (see `.env.example`).
#[derive(Clone, Debug)]
pub struct Config {
    pub bind: String,
    pub db_url: String,
    pub media_dir: String,
    /// When true, the worker fabricates placeholder media instead of calling real models,
    /// so the whole app runs end-to-end without any model servers.
    pub mock: bool,
    pub prompt_mode: PromptMode,
    pub comfyui_url: String,
    pub image_ckpt: String,
    pub lmstudio_url: String,
    pub lmstudio_model: String,
    /// Vision-capable model id for image description (must support image input).
    /// Defaults to `lmstudio_model`; override with FG_VISION_MODEL.
    pub vision_model: String,
    pub faceswap_url: String,
    pub video_url: String,
}

/// The value of the first variable named `key`, if any.
pub open spec fn env_lookup(vars: Seq<(Seq<char>, Seq<char>)>, key: Seq<char>) -> Option<Seq<char>>
    decreases vars.len(),
{
    if vars.len() == 0 {
        None
    } else if vars[0].0 == key {
        Some(vars[0].1)
    } else {
        env_lookup(vars.drop_first(), key)
    }
}

/// The value of variable `key`, or `default` when it is not set.
pub open spec fn env_or(vars: Seq<(Seq<char>, Seq<char>)>, key: Seq<char>, default: Seq<char>) -> Seq<char> {
    match env_lookup(vars, key) {
        Some(v) => v,
        None => default,
    }
}

/// `FG_MOCK` turns mock mode on when it reads `true` in any letter case.
pub open spec fn spec_mock(value: Seq<char>) -> bool {
    eq_ignore_ascii_case(value, "true"@)
}

/// `FG_PROMPT_MODE` selects tags when its lowercase form is `tags`, prose otherwise.
pub open spec fn spec_prompt_mode(value: Seq<char>) -> PromptMode {
    if unicode_lowercase(value) == "tags"@ {
        PromptMode::Tags
    } else {
        PromptMode::Prose
    }
}

proof fn lemma_env_lookup_skip(vars: Seq<(Seq<char>, Seq<char>)>, key: Seq<char>, i: int)
    requires
        0 <= i <= vars.len(),
        forall|j: int| 0 <= j < i ==> (#[trigger] vars[j]).0 != key,
    ensures
        env_lookup(vars, key) == env_lookup(vars.skip(i), key),
    decreases i,
{
    if i > 0 {
        let t = vars.drop_first();
        assert forall|j: int| 0 <= j < i - 1 implies (#[trigger] t[j]).0 != key by {
            assert(t[j] == vars[j + 1]);
        }
        lemma_env_lookup_skip(t, key, i - 1);
        assert(t.skip(i - 1) =~= vars.skip(i));
    } else {
        assert(vars.skip(0) =~= vars);
    }
}

/// The value of variable `key`, or `default` when it is not set.
pub fn var_or(vars: &Vec<(String, String)>, key: &str, default: &str) -> (r: String)
    ensures
        r@ == env_or(vars.deep_view(), key@, default@),
{
    let ghost v = vars.deep_view();
    let n = vars.len();
    let mut i: usize = 0;
    while i < n
        invariant
            n == vars@.len(),
            v == vars.deep_view(),
            v.len() == n,
            i <= n,
            forall|j: int| 0 <= j < i ==> (#[trigger] v[j]).0 != key@,
        decreases n - i,
    {
        assert(v[i as int] == vars@[i as int].deep_view());
        if str_eq(vars[i].0.as_str(), key) {
            proof {
                lemma_env_lookup_skip(v, key@, i as int);
                assert(v.skip(i as int)[0] == v[i as int]);
            }
            return vars[i].1.clone();
        }
        i = i + 1;
    }
    proof {
        lemma_env_lookup_skip(v, key@, n as int);
    }
    String::from_str(default)
}

/// Reads the prompt-assist style from the value of `FG_PROMPT_MODE`.
pub fn parse_prompt_mode(value: &str) -> (r: PromptMode)
    ensures
        r == spec_prompt_mode(value@),
        is_ascii_text(value@) ==> r == (if ascii_lowercase(value@) == "tags"@ {
            PromptMode::Tags
        } else {
            PromptMode::Prose
        }),
{
    let lower = to_lowercase(value);
    if str_eq(lower.as_str(), "tags") {
        PromptMode::Tags
    } else {
        PromptMode::Prose
    }
}

impl Config {
    /// Builds the configuration from the process environment's variables (name, value),
    /// with the defaults of `.env.example` for every variable that is not set.
    pub fn from_vars(vars: &Vec<(String, String)>) -> (c: Config)
        ensures
            c.bind@ == env_or(vars.deep_view(), "FG_BIND"@, "0.0.0.0:8080"@),
            c.db_url@ == env_or(vars.deep_view(), "FG_DB"@, "sqlite://data/facesguru.db"@),
            c.media_dir@ == env_or(vars.deep_view(), "FG_MEDIA_DIR"@, "data/media"@),
            c.mock == spec_mock(env_or(vars.deep_view(), "FG_MOCK"@, "true"@)),
            c.prompt_mode == spec_prompt_mode(env_or(vars.deep_view(), "FG_PROMPT_MODE"@, "prose"@)),
            env_lookup(vars.deep_view(), "FG_PROMPT_MODE"@) is None ==> c.prompt_mode == PromptMode::Prose,
            c.comfyui_url@ == env_or(vars.deep_view(), "FG_COMFYUI_URL"@, "http://127.0.0.1:8188"@),
            c.image_ckpt@ == env_or(vars.deep_view(), "FG_IMAGE_CKPT"@, "sd_xl_base_1.0.safetensors"@),
            c.lmstudio_url@ == env_or(vars.deep_view(), "FG_LMSTUDIO_URL"@, "http://127.0.0.1:1234"@),
            c.lmstudio_model@ == env_or(vars.deep_view(), "FG_LMSTUDIO_MODEL"@, "mistral-small-24b-instruct"@),
            c.vision_model@ == env_or(
                vars.deep_view(),
                "FG_VISION_MODEL"@,
                env_or(vars.deep_view(), "FG_LMSTUDIO_MODEL"@, "mistral-small-24b-instruct"@),
            ),
            c.faceswap_url@ == env_or(vars.deep_view(), "FG_FACESWAP_URL"@, "http://127.0.0.1:5000"@),
            c.video_url@ == env_or(vars.deep_view(), "FG_VIDEO_URL"@, "http://127.0.0.1:5001"@),
    {
        let mock_value = var_or(vars, "FG_MOCK", "true");
        let mock = eq_ignore_case(mock_value.as_str(), "true");
        let mode_value = var_or(vars, "FG_PROMPT_MODE", "prose");
        let prompt_mode = parse_prompt_mode(mode_value.as_str());
        proof {
            if env_lookup(vars.deep_view(), "FG_PROMPT_MODE"@) is None {
                reveal_strlit("prose");
                reveal_strlit("tags");
                assert(is_ascii_text("prose"@));
                assert(ascii_lowercase("prose"@).len() != "tags"@.len());
            }
        }
        let lmstudio_model = var_or(vars, "FG_LMSTUDIO_MODEL", "mistral-small-24b-instruct");
        let vision_model = var_or(vars, "FG_VISION_MODEL", lmstudio_model.as_str());
        Config {
            bind: var_or(vars, "FG_BIND", "0.0.0.0:8080"),
            db_url: var_or(vars, "FG_DB", "sqlite://data/facesguru.db"),
            media_dir: var_or(vars, "FG_MEDIA_DIR", "data/media"),
            mock,
            prompt_mode,
            comfyui_url: var_or(vars, "FG_COMFYUI_URL", "http://127.0.0.1:8188"),
            image_ckpt: var_or(vars, "FG_IMAGE_CKPT", "sd_xl_base_1.0.safetensors"),
            lmstudio_url: var_or(vars, "FG_LMSTUDIO_URL", "http://127.0.0.1:1234"),
            lmstudio_model,
            vision_model,
            faceswap_url: var_or(vars, "FG_FACESWAP_URL", "http://127.0.0.1:5000"),
            video_url: var_or(vars, "FG_VIDEO_URL", "http://127.0.0.1:5001"),
        }
    }
}

} // verus!
