//! Image generation jobs: the settings read from the job's params (with their defaults),
//! the mock placeholder's size and seed, and the ComfyUI graph for a real run.

use vstd::prelude::*;
use vstd::utf8::encode_utf8;
use vstd::wrapping::i64_specs;
use crate::clients::comfyui::{build_sdxl_workflow, sdxl_graph, Workflow};
use crate::json::{as_i64_value, as_text, as_u64_value, json_member, member_i64, member_text, member_u64, object_of, parse_object};
use crate::text::{decimal_i64, is_blank, signed_decimal, str_is_blank};

verus! {

/// The image-job params that are read, each present when the job's JSON params hold a
/// value of the right kind under that name.
#[derive(Debug)]
pub struct ImageParams {
    pub positive: Option<String>,
    pub prompt: Option<String>,
    pub negative: Option<String>,
    pub width: Option<u64>,
    pub height: Option<u64>,
    pub steps: Option<u64>,
    pub seed: Option<i64>,
    pub sampler: Option<String>,
    pub scheduler: Option<String>,
    pub vae: Option<String>,
}

/// What an image job runs with (the CFG scale, a float, is read by the caller).
#[derive(Debug)]
pub struct ImageJobPlan {
    pub positive: String,
    pub negative: String,
    pub width: u32,
    pub height: u32,
    pub steps: u32,
    pub seed: i64,
    pub sampler: String,
    pub scheduler: String,
    pub vae: Option<String>,
}

/// An optional unsigned number as an optional integer.
pub open spec fn opt_u64_int(o: Option<u64>) -> Option<int> {
    match o {
        Some(x) => Some(x as int),
        None => None,
    }
}

/// An optional signed number as an optional integer.
pub open spec fn opt_i64_int(o: Option<i64>) -> Option<int> {
    match o {
        Some(x) => Some(x as int),
        None => None,
    }
}

/// Reads an image job's params from its stored JSON text: each field is the member of
/// that name when it holds a value of the field's kind (a string; an integer in the
/// field's range), and absent otherwise, or when the text holds no JSON object.
pub fn image_params_from_json(params_json: &str) -> (p: ImageParams)
    ensures
        ({
            let o = object_of(params_json@);
            &&& p.positive.deep_view() == as_text(json_member(o, "positive"@))
            &&& p.prompt.deep_view() == as_text(json_member(o, "prompt"@))
            &&& p.negative.deep_view() == as_text(json_member(o, "negative"@))
            &&& opt_u64_int(p.width) == as_u64_value(json_member(o, "width"@))
            &&& opt_u64_int(p.height) == as_u64_value(json_member(o, "height"@))
            &&& opt_u64_int(p.steps) == as_u64_value(json_member(o, "steps"@))
            &&& opt_i64_int(p.seed) == as_i64_value(json_member(o, "seed"@))
            &&& p.sampler.deep_view() == as_text(json_member(o, "sampler"@))
            &&& p.scheduler.deep_view() == as_text(json_member(o, "scheduler"@))
            &&& p.vae.deep_view() == as_text(json_member(o, "vae"@))
        }),
{
    let o = parse_object(params_json);
    ImageParams {
        positive: member_text(&o, "positive"),
        prompt: member_text(&o, "prompt"),
        negative: member_text(&o, "negative"),
        width: member_u64(&o, "width"),
        height: member_u64(&o, "height"),
        steps: member_u64(&o, "steps"),
        seed: member_i64(&o, "seed"),
        sampler: member_text(&o, "sampler"),
        scheduler: member_text(&o, "scheduler"),
        vae: member_text(&o, "vae"),
    }
}

/// The 31-based rolling hash of a byte string in wrapping 64-bit signed arithmetic.
pub open spec fn hash31(bytes: Seq<u8>) -> i64
    decreases bytes.len(),
{
    if bytes.len() == 0 {
        0
    } else {
        i64_specs::wrapping_add(i64_specs::wrapping_mul(hash31(bytes.drop_last()), 31), bytes.last() as i64)
    }
}

/// The 31-based rolling hash of the UTF-8 bytes of a text.
pub fn seed_hash(s: &str) -> (h: i64)
    ensures
        h == hash31(encode_utf8(s@)),
{
    let bytes = s.as_bytes();
    let n = bytes.len();
    let mut hash: i64 = 0;
    let mut i: usize = 0;
    while i < n
        invariant
            n == bytes@.len(),
            bytes@ == encode_utf8(s@),
            i <= n,
            hash == hash31(bytes@.take(i as int)),
        decreases n - i,
    {
        assert(bytes@.take(i + 1).drop_last() =~= bytes@.take(i as int));
        hash = hash.wrapping_mul(31).wrapping_add(bytes[i] as i64);
        i = i + 1;
    }
    assert(bytes@.take(n as int) =~= bytes@);
    hash
}

/// The default seed of a job: the absolute value of its id's hash.
pub open spec fn spec_seed_from(s: Seq<char>) -> int {
    let h = hash31(encode_utf8(s)) as int;
    if h < 0 {
        -h
    } else {
        h
    }
}

/// The default seed of a job, derived from its id. (The one hash without an absolute
/// value in 64 bits, `i64::MIN`, is left out.)
pub fn seed_from(s: &str) -> (r: i64)
    requires
        hash31(encode_utf8(s@)) != i64::MIN,
    ensures
        r == spec_seed_from(s@),
        r >= 0,
{
    let h = seed_hash(s);
    if h < 0 {
        -h
    } else {
        h
    }
}

/// The positive prompt of an image job: `positive`, else `prompt`, else empty.
pub open spec fn spec_positive(params: ImageParams) -> Seq<char> {
    match params.positive {
        Some(p) => p@,
        None => match params.prompt {
            Some(p) => p@,
            None => Seq::empty(),
        },
    }
}

/// A string param, or its default.
pub open spec fn str_param(p: Option<String>, default: Seq<char>) -> Seq<char> {
    match p {
        Some(s) => s@,
        None => default,
    }
}

/// A count param (cut to 32 bits), or its default.
pub open spec fn u32_param(p: Option<u64>, default: u32) -> u32 {
    match p {
        Some(v) => v as u32,
        None => default,
    }
}

/// The VAE override: present only when given and not blank.
pub open spec fn spec_vae(p: Option<String>) -> Option<Seq<char>> {
    match p {
        Some(v) => if is_blank(v@) {
            None
        } else {
            Some(v@)
        },
        None => None,
    }
}

/// A setting that the job's params give overrides its default, and one they leave out
/// takes the default: the positive prompt is `positive`, else `prompt`, else empty; the
/// negative prompt, sampler and scheduler are the given strings, else empty, `dpmpp_2m`
/// and `karras`; the size and steps are the given counts (when they fit in 32 bits), else
/// 1024×1024 and 30; the VAE override is the given name unless it is blank.
pub proof fn lemma_image_params_override(params: ImageParams)
    ensures
        params.positive matches Some(x) ==> spec_positive(params) == x@,
        params.positive is None ==> (params.prompt matches Some(x) ==> spec_positive(params) == x@),
        params.positive is None && params.prompt is None ==> spec_positive(params) == Seq::<char>::empty(),
        params.negative matches Some(x) ==> str_param(params.negative, Seq::empty()) == x@,
        params.negative is None ==> str_param(params.negative, Seq::empty()) == Seq::<char>::empty(),
        params.sampler matches Some(x) ==> str_param(params.sampler, "dpmpp_2m"@) == x@,
        params.sampler is None ==> str_param(params.sampler, "dpmpp_2m"@) == "dpmpp_2m"@,
        params.scheduler matches Some(x) ==> str_param(params.scheduler, "karras"@) == x@,
        params.scheduler is None ==> str_param(params.scheduler, "karras"@) == "karras"@,
        params.width matches Some(x) ==> (x <= u32::MAX ==> u32_param(params.width, 1024) == x),
        params.width is None ==> u32_param(params.width, 1024) == 1024,
        params.height matches Some(x) ==> (x <= u32::MAX ==> u32_param(params.height, 1024) == x),
        params.height is None ==> u32_param(params.height, 1024) == 1024,
        params.steps matches Some(x) ==> (x <= u32::MAX ==> u32_param(params.steps, 30) == x),
        params.steps is None ==> u32_param(params.steps, 30) == 30,
        params.vae matches Some(x) ==> (!is_blank(x@) ==> spec_vae(params.vae) == Some(x@)),
        params.vae matches Some(x) ==> (is_blank(x@) ==> spec_vae(params.vae) is None),
        params.vae is None ==> spec_vae(params.vae) is None,
{
    match params.width {
        Some(x) => if x <= u32::MAX {
            assert(x as u32 == x) by (bit_vector)
                requires
                    x <= 0xffff_ffffu64;
        },
        None => {},
    }
    match params.height {
        Some(x) => if x <= u32::MAX {
            assert(x as u32 == x) by (bit_vector)
                requires
                    x <= 0xffff_ffffu64;
        },
        None => {},
    }
    match params.steps {
        Some(x) => if x <= u32::MAX {
            assert(x as u32 == x) by (bit_vector)
                requires
                    x <= 0xffff_ffffu64;
        },
        None => {},
    }
}

/// The seed needs the id's hash only when the job gives no seed; that hash must then not
/// be `i64::MIN`.
pub open spec fn seed_defined(params: ImageParams, job_id: Seq<char>) -> bool {
    params.seed is None ==> hash31(encode_utf8(job_id)) != i64::MIN
}

impl ImageJobPlan {
    /// Reads an image job's settings: size 1024×1024, 30 steps, `dpmpp_2m` sampler and
    /// `karras` scheduler unless the params say otherwise; the seed defaults to one
    /// derived from the job id.
    pub fn resolve(params: ImageParams, job_id: &str) -> (r: ImageJobPlan)
        requires
            seed_defined(params, job_id@),
        ensures
            r.positive@ == spec_positive(params),
            r.negative@ == str_param(params.negative, Seq::empty()),
            r.width == u32_param(params.width, 1024),
            r.height == u32_param(params.height, 1024),
            r.steps == u32_param(params.steps, 30),
            r.seed == match params.seed {
                Some(s) => s as int,
                None => spec_seed_from(job_id@),
            },
            r.sampler@ == str_param(params.sampler, "dpmpp_2m"@),
            r.scheduler@ == str_param(params.scheduler, "karras"@),
            r.vae.deep_view() == spec_vae(params.vae),
            params.negative matches Some(n) ==> r.negative@ == n@,
            params.sampler matches Some(x) ==> r.sampler@ == x@,
            params.scheduler matches Some(x) ==> r.scheduler@ == x@,
            params.positive matches Some(x) ==> r.positive@ == x@,
            params.seed matches Some(x) ==> r.seed == x,
            params.width matches Some(x) ==> (x <= u32::MAX ==> r.width == x),
            params.height matches Some(x) ==> (x <= u32::MAX ==> r.height == x),
            params.steps matches Some(x) ==> (x <= u32::MAX ==> r.steps == x),
            params.width is None ==> r.width == 1024,
            params.height is None ==> r.height == 1024,
            params.steps is None ==> r.steps == 30,
            params.negative is None ==> r.negative@ == Seq::<char>::empty(),
            params.sampler is None ==> r.sampler@ == "dpmpp_2m"@,
            params.scheduler is None ==> r.scheduler@ == "karras"@,
    {
        let ImageParams {
            positive,
            prompt,
            negative,
            width,
            height,
            steps,
            seed,
            sampler,
            scheduler,
            vae,
        } = params;
        let positive = match positive {
            Some(p) => p,
            None => match prompt {
                Some(p) => p,
                None => String::new(),
            },
        };
        let negative = match negative {
            Some(n) => n,
            None => String::new(),
        };
        let width: u32 = match width {
            Some(w) => w as u32,
            None => 1024,
        };
        let height: u32 = match height {
            Some(h) => h as u32,
            None => 1024,
        };
        let steps: u32 = match steps {
            Some(s) => s as u32,
            None => 30,
        };
        let seed: i64 = match seed {
            Some(s) => s,
            None => seed_from(job_id),
        };
        let sampler = match sampler {
            Some(s) => s,
            None => String::from_str("dpmpp_2m"),
        };
        let scheduler = match scheduler {
            Some(s) => s,
            None => String::from_str("karras"),
        };
        let vae = match vae {
            Some(v) => if str_is_blank(v.as_str()) {
                None
            } else {
                Some(v)
            },
            None => None,
        };
        proof {
            lemma_image_params_override(params);
        }
        ImageJobPlan { positive, negative, width, height, steps, seed, sampler, scheduler, vae }
    }

    /// The size of the mock placeholder: the requested size, at most 1024 on each side.
    pub fn placeholder_size(&self) -> (r: (u32, u32))
        ensures
            r.0 == if self.width <= 1024 { self.width } else { 1024 },
            r.1 == if self.height <= 1024 { self.height } else { 1024 },
    {
        let w = if self.width <= 1024 { self.width } else { 1024 };
        let h = if self.height <= 1024 { self.height } else { 1024 };
        (w, h)
    }

    /// The seed text of the mock placeholder: `{positive}|{negative}|{seed}`.
    pub fn mock_seed_text(&self) -> (r: String)
        ensures
            r@ == self.positive@ + "|"@ + self.negative@ + "|"@ + signed_decimal(self.seed as int),
    {
        let digits = decimal_i64(self.seed);
        self.positive.clone().concat("|").concat(self.negative.as_str()).concat("|").concat(
            digits.as_str(),
        )
    }

    /// The ComfyUI graph for this job, with the configured checkpoint and the CFG scale
    /// written as a JSON number.
    pub fn workflow(&self, ckpt: &str, cfg_json: &str) -> (g: Workflow)
        ensures
            g@ == sdxl_graph(
                ckpt@,
                self.positive@,
                self.negative@,
                self.width as int,
                self.height as int,
                self.steps as int,
                cfg_json@,
                self.seed as int,
                self.sampler@,
                self.scheduler@,
                self.vae.deep_view(),
            ),
    {
        let vae: Option<&str> = match &self.vae {
            Some(v) => Some(v.as_str()),
            None => None,
        };
        build_sdxl_workflow(
            ckpt,
            self.positive.as_str(),
            self.negative.as_str(),
            self.width,
            self.height,
            self.steps,
            cfg_json,
            self.seed,
            self.sampler.as_str(),
            self.scheduler.as_str(),
            vae,
        )
    }
}

} // verus!
