use facesguru::worker::image::{image_params_from_json, seed_from, seed_hash, ImageJobPlan, ImageParams};
use facesguru::worker::swap::{looks_like_png, mock_output_ext, plan_swap, swap_restore_from_json};
use facesguru::worker::video::{plan_video, video_params_from_json, video_seed_text};
use facesguru::worker::{
    after_claim, event_fits, fnv1a_64, placeholder_gif_base, placeholder_png_base, worker_step,
    ClaimOutcome, WorkerAction, WorkerEvent, WorkerPhase, WorkerStep,
};
use facesguru::clients::comfyui::WorkflowInput;

fn no_params() -> ImageParams {
    ImageParams {
        positive: None,
        prompt: None,
        negative: None,
        width: None,
        height: None,
        steps: None,
        seed: None,
        sampler: None,
        scheduler: None,
        vae: None,
    }
}

#[test]
fn worker_steps() {
    assert_eq!(after_claim(ClaimOutcome::Claimed), WorkerAction::Process);
    assert_eq!(after_claim(ClaimOutcome::Empty), WorkerAction::SleepMillis(800));
    assert_eq!(after_claim(ClaimOutcome::Failed), WorkerAction::SleepMillis(2000));
}

#[test]
fn fnv_known_values() {
    assert_eq!(fnv1a_64(""), 0xcbf29ce484222325);
    assert_eq!(fnv1a_64("a"), 0xaf63dc4c8601ec8c);
    assert_eq!(placeholder_png_base("a"), (0x8c, 0xec, 0x01));
    assert_eq!(placeholder_gif_base("a"), 0x86);
}

#[test]
fn seed_from_id_is_non_negative_hash() {
    assert_eq!(seed_hash("abc"), 96354);
    assert_eq!(seed_from("abc"), 96354);
    assert_eq!(seed_from(""), 0);
    let id = "8c5b0f9e-2d1c-4a7b-9f3e-1234567890ab";
    assert_eq!(seed_from(id), seed_hash(id).abs());
    assert!(seed_from(id) >= 0);
}

#[test]
fn image_defaults() {
    let plan = ImageJobPlan::resolve(no_params(), "abc");
    assert_eq!(plan.positive, "");
    assert_eq!(plan.negative, "");
    assert_eq!((plan.width, plan.height, plan.steps), (1024, 1024, 30));
    assert_eq!(plan.seed, 96354);
    assert_eq!(plan.sampler, "dpmpp_2m");
    assert_eq!(plan.scheduler, "karras");
    assert!(plan.vae.is_none());
}

#[test]
fn image_params_override_defaults() {
    let mut p = no_params();
    p.prompt = Some("from prompt".to_string());
    p.width = Some(2048);
    p.height = Some(512);
    p.seed = Some(-7);
    p.vae = Some("  ".to_string());
    let plan = ImageJobPlan::resolve(p, "abc");
    assert_eq!(plan.positive, "from prompt");
    assert_eq!(plan.seed, -7);
    assert!(plan.vae.is_none());
    assert_eq!(plan.placeholder_size(), (1024, 512));
    assert_eq!(plan.mock_seed_text(), "from prompt||-7");

    let mut q = no_params();
    q.positive = Some("pos".to_string());
    q.prompt = Some("ignored".to_string());
    q.vae = Some("v.safetensors".to_string());
    q.width = Some((1u64 << 32) + 5);
    let plan = ImageJobPlan::resolve(q, "abc");
    assert_eq!(plan.positive, "pos");
    assert_eq!(plan.width, 5);
    assert_eq!(plan.vae.as_deref(), Some("v.safetensors"));
    let g = plan.workflow("ck", "6.0");
    assert_eq!(g.node("10").unwrap().input("vae_name"), Some(&WorkflowInput::Text("v.safetensors".to_string())));
    assert_eq!(g.node("3").unwrap().input("seed"), Some(&WorkflowInput::Int(96354)));
}

#[test]
fn swap_needs_two_inputs() {
    let e = plan_swap(None, &vec!["a".to_string()]).unwrap_err();
    assert_eq!(e.message(), "swap requires two input_media_ids: [source_face, target_image]");
    let p = plan_swap(None, &vec!["a".to_string(), "b".to_string(), "c".to_string()]).unwrap();
    assert_eq!((p.source_id.as_str(), p.target_id.as_str(), p.restore), ("a", "b", true));
    assert!(!plan_swap(Some(false), &vec!["a".to_string(), "b".to_string()]).unwrap().restore);
}

#[test]
fn png_signature_detection() {
    let png = b"\x89PNG\r\n\x1a\n\x00";
    assert!(looks_like_png(png));
    assert!(!looks_like_png(b"\x89PNG\r\n\x1a\n"));
    assert!(!looks_like_png(b"\xff\xd8\xff\xe0\x00\x10JFIF"));
    assert_eq!(mock_output_ext(png), "png");
    assert_eq!(mock_output_ext(b"GIF89a......"), "jpg");
}

#[test]
fn video_plan_caps_fps() {
    let e = plan_video(None, None, &vec![]).unwrap_err();
    assert_eq!(e.message(), "video requires one input_media_id: [still_image]");
    let p = plan_video(None, None, &vec!["s".to_string()]).unwrap();
    assert_eq!((p.still_id.as_str(), p.prompt.as_str(), p.fps), ("s", "", 24));
    assert_eq!(plan_video(None, Some(100), &vec!["s".to_string()]).unwrap().fps, 30);
    assert_eq!(plan_video(None, Some(1), &vec!["s".to_string()]).unwrap().fps, 8);
    assert_eq!(plan_video(Some("pan".to_string()), Some(12), &vec!["s".to_string()]).unwrap().prompt, "pan");
    assert_eq!(video_seed_text("pan", 96), "pan|96");
}

#[test]
fn image_params_read_from_stored_json() {
    let p = image_params_from_json(
        r#"{"positive":"a cat","negative":"blur","width":768,"height":512.5,"steps":"40","seed":-12,"sampler":"euler","vae":null,"extra":[1]}"#,
    );
    assert_eq!(p.positive.as_deref(), Some("a cat"));
    assert_eq!(p.prompt, None);
    assert_eq!(p.negative.as_deref(), Some("blur"));
    assert_eq!(p.width, Some(768));
    assert_eq!(p.height, None);
    assert_eq!(p.steps, None);
    assert_eq!(p.seed, Some(-12));
    assert_eq!(p.sampler.as_deref(), Some("euler"));
    assert_eq!(p.scheduler, None);
    assert_eq!(p.vae, None);
    let plan = ImageJobPlan::resolve(p, "abc");
    assert_eq!((plan.width, plan.height, plan.steps, plan.seed), (768, 1024, 30, -12));
}

#[test]
fn image_params_out_of_range_or_not_an_object() {
    let p = image_params_from_json(r#"{"width":-5,"seed":18446744073709551615,"steps":18446744073709551615}"#);
    assert_eq!(p.width, None);
    assert_eq!(p.seed, None);
    assert_eq!(p.steps, Some(u64::MAX));
    let q = image_params_from_json("[1,2]");
    assert!(q.positive.is_none() && q.width.is_none() && q.seed.is_none());
    let r = image_params_from_json("not json");
    assert!(r.prompt.is_none() && r.vae.is_none());
    let plan = ImageJobPlan::resolve(image_params_from_json("null"), "abc");
    assert_eq!(plan.seed, 96354);
}

#[test]
fn swap_restore_read_from_stored_json() {
    assert_eq!(swap_restore_from_json(r#"{"restore":false}"#), Some(false));
    assert_eq!(swap_restore_from_json(r#"{"restore":true}"#), Some(true));
    assert_eq!(swap_restore_from_json(r#"{"restore":"no"}"#), None);
    assert_eq!(swap_restore_from_json("{}"), None);
    assert_eq!(swap_restore_from_json("garbage"), None);
}

#[test]
fn video_params_read_from_stored_json() {
    let (prompt, fps) = video_params_from_json(r#"{"prompt":"slow pan","fps":12,"duration":3.5}"#);
    assert_eq!(prompt.as_deref(), Some("slow pan"));
    assert_eq!(fps, Some(12));
    assert_eq!(video_params_from_json(r#"{"fps":12.5}"#), (None, None));
    assert_eq!(video_params_from_json(r#"{"prompt":7,"fps":-1}"#), (None, None));
    let (prompt, fps) = video_params_from_json(r#"{"fps":100}"#);
    assert_eq!(plan_video(prompt, fps, &vec!["s".to_string()]).unwrap().fps, 30);
}

#[test]
fn worker_loop_runs_one_job_at_a_time() {
    let claim = |o| WorkerEvent::ClaimAttempt(o);
    assert_eq!(worker_step(WorkerPhase::Polling, claim(ClaimOutcome::Empty)), (WorkerPhase::Polling, WorkerStep::SleepMillis(800)));
    assert_eq!(worker_step(WorkerPhase::Polling, claim(ClaimOutcome::Failed)), (WorkerPhase::Polling, WorkerStep::SleepMillis(2000)));
    assert_eq!(worker_step(WorkerPhase::Polling, claim(ClaimOutcome::Claimed)), (WorkerPhase::Running, WorkerStep::Process));
    assert!(!event_fits(WorkerPhase::Running, claim(ClaimOutcome::Claimed)));
    assert!(!event_fits(WorkerPhase::Polling, WorkerEvent::JobEnded(false)));
    assert!(event_fits(WorkerPhase::Running, WorkerEvent::JobEnded(true)));
    assert_eq!(worker_step(WorkerPhase::Running, WorkerEvent::JobEnded(true)), (WorkerPhase::Polling, WorkerStep::RecordFailure));
    assert_eq!(worker_step(WorkerPhase::Running, WorkerEvent::JobEnded(false)), (WorkerPhase::Polling, WorkerStep::ClaimNext));
}
