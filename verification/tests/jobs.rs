use facesguru::db::sqlite_path;
use facesguru::json::{encode_media_ids, media_ids_from_json};
use facesguru::api::jobs::plan_new_job;
use facesguru::error::ServiceError;
use facesguru::models::{job_kind_for_worker, validate_job_type, JobKind, JobStatus};

#[test]
fn job_kinds_by_name() {
    assert_eq!(JobKind::parse("image"), Some(JobKind::Image));
    assert_eq!(JobKind::parse("swap"), Some(JobKind::Swap));
    assert_eq!(JobKind::parse("video"), Some(JobKind::Video));
    assert_eq!(JobKind::parse("Image"), None);
    for k in [JobKind::Image, JobKind::Swap, JobKind::Video] {
        assert_eq!(JobKind::parse(k.name()), Some(k));
    }
}

#[test]
fn invalid_job_type_is_refused() {
    let e = validate_job_type("gif").unwrap_err();
    assert!(matches!(e, ServiceError::InvalidJobType(_)));
    assert_eq!(e.message(), "invalid job type 'gif' (expected image|swap|video)");
    assert_eq!(validate_job_type("swap").unwrap(), JobKind::Swap);
}

#[test]
fn worker_refuses_unknown_type() {
    let e = job_kind_for_worker("audio").unwrap_err();
    assert_eq!(e.message(), "unknown job type 'audio'");
    assert_eq!(job_kind_for_worker("video").unwrap(), JobKind::Video);
}

#[test]
fn job_status_text_roundtrip() {
    for s in [JobStatus::Queued, JobStatus::Running, JobStatus::Done, JobStatus::Failed] {
        assert_eq!(JobStatus::parse(s.as_str()), Some(s));
    }
    assert_eq!(JobStatus::Queued.as_str(), "queued");
    assert_eq!(JobStatus::parse("paused"), None);
    assert!(JobStatus::Done.is_terminal());
    assert!(JobStatus::Failed.is_terminal());
    assert!(!JobStatus::Running.is_terminal());
}

#[test]
fn new_job_plan() {
    let (k, inputs) = plan_new_job("swap", &vec!["s".to_string(), "t".to_string()]).unwrap();
    assert_eq!(k, JobKind::Swap);
    assert_eq!(inputs, "[\"s\",\"t\"]");
    let (_, empty) = plan_new_job("image", &vec![]).unwrap();
    assert_eq!(empty, "[]");
    assert!(matches!(plan_new_job("x", &vec![]), Err(ServiceError::InvalidJobType(_))));
}

#[test]
fn error_messages() {
    assert_eq!(ServiceError::PresetNameRequired.message(), "preset name is required");
    assert_eq!(
        ServiceError::SwapNeedsTwoInputs.message(),
        "swap requires two input_media_ids: [source_face, target_image]"
    );
    assert_eq!(ServiceError::VideoNeedsInput.message(), "video requires one input_media_id: [still_image]");
    assert_eq!(ServiceError::ComfyTimedOut.message(), "ComfyUI job timed out before producing an image");
    assert_eq!(
        ServiceError::NoAspectSelected.message(),
        "select at least one of: face, body, posture, clothing, environment"
    );
}

#[test]
fn output_ids_encoding() {
    assert_eq!(encode_media_ids(&vec!["a".to_string()]).unwrap(), "[\"a\"]");
    assert_eq!(encode_media_ids(&vec![]).unwrap(), "[]");
}

#[test]
fn sqlite_file_path() {
    assert_eq!(sqlite_path("sqlite://data/facesguru.db"), Some("data/facesguru.db"));
    assert_eq!(sqlite_path("sqlite:"), None);
    assert_eq!(sqlite_path("postgres://x"), None);
    assert_eq!(sqlite_path("sqlite://"), Some(""));
}

#[test]
fn known_job_type_is_always_planned() {
    for t in ["image", "swap", "video"] {
        let (k, inputs) = plan_new_job(t, &vec!["x".to_string()]).unwrap();
        assert_eq!(k.name(), t);
        assert_eq!(inputs, "[\"x\"]");
    }
}

#[test]
fn created_job_reads_back_its_inputs() {
    let ids = vec!["src\"1".to_string(), "tgt/2".to_string()];
    let (kind, stored) = plan_new_job("swap", &ids).unwrap();
    assert_eq!(kind, JobKind::Swap);
    assert_eq!(media_ids_from_json(&stored), ids);
    let (_, none) = plan_new_job("image", &vec![]).unwrap();
    assert_eq!(none, "[]");
    assert!(media_ids_from_json(&none).is_empty());
}
