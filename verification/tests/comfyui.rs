use facesguru::clients::comfyui::{
    build_sdxl_workflow, first_view_query, observation_for, ComfyPoll, HistoryEntry, ImageRef,
    PollAction, PollObservation, WorkflowInput, COMFY_POLL_LIMIT,
};

fn link(node: &str, out: u32) -> WorkflowInput {
    WorkflowInput::Link(node.to_string(), out)
}

fn text(s: &str) -> WorkflowInput {
    WorkflowInput::Text(s.to_string())
}

#[test]
fn workflow_without_vae_uses_checkpoint_vae() {
    let g = build_sdxl_workflow(
        "ckpt.safetensors", "p", "n", 1024, 1024, 30, "6.0", 42, "dpmpp_2m", "karras", None,
    );
    assert_eq!(g.node("8").unwrap().input("vae"), Some(&link("4", 2)));
    assert!(g.node("10").is_none());
    assert_eq!(g.node("3").unwrap().input("sampler_name"), Some(&text("dpmpp_2m")));
    assert_eq!(g.node("3").unwrap().input("scheduler"), Some(&text("karras")));
}

#[test]
fn workflow_with_vae_adds_loader_node() {
    let g = build_sdxl_workflow(
        "ckpt.safetensors", "p", "n", 832, 1216, 30, "6.0", 42, "euler", "normal",
        Some("sdxl_vae.safetensors"),
    );
    assert_eq!(g.node("8").unwrap().input("vae"), Some(&link("10", 0)));
    assert_eq!(g.node("10").unwrap().class_type, "VAELoader");
    assert_eq!(g.node("10").unwrap().input("vae_name"), Some(&text("sdxl_vae.safetensors")));
}

#[test]
fn workflow_carries_every_setting() {
    let g = build_sdxl_workflow(
        "model.safetensors", "a cat", "blurry", 832, 1216, 25, "7.5", -3, "euler", "normal", None,
    );
    assert_eq!(g.nodes.len(), 7);
    assert_eq!(g.node("4").unwrap().input("ckpt_name"), Some(&text("model.safetensors")));
    assert_eq!(g.node("5").unwrap().input("width"), Some(&WorkflowInput::Int(832)));
    assert_eq!(g.node("5").unwrap().input("height"), Some(&WorkflowInput::Int(1216)));
    assert_eq!(g.node("5").unwrap().input("batch_size"), Some(&WorkflowInput::Int(1)));
    assert_eq!(g.node("6").unwrap().input("text"), Some(&text("a cat")));
    assert_eq!(g.node("7").unwrap().input("text"), Some(&text("blurry")));
    assert_eq!(g.node("6").unwrap().input("clip"), Some(&link("4", 1)));
    let k = g.node("3").unwrap();
    assert_eq!(k.class_type, "KSampler");
    assert_eq!(k.input("seed"), Some(&WorkflowInput::Int(-3)));
    assert_eq!(k.input("steps"), Some(&WorkflowInput::Int(25)));
    assert_eq!(k.input("cfg"), Some(&WorkflowInput::Number("7.5".to_string())));
    assert_eq!(k.input("denoise"), Some(&WorkflowInput::Number("1.0".to_string())));
    assert_eq!(k.input("latent_image"), Some(&link("5", 0)));
    assert_eq!(g.node("9").unwrap().input("filename_prefix"), Some(&text("facesguru")));
    assert_eq!(g.node("9").unwrap().input("images"), Some(&link("8", 0)));
    assert!(k.input("missing").is_none());
}

#[test]
fn poll_needs_a_prompt_id() {
    let err = ComfyPoll::start(None).unwrap_err();
    assert_eq!(err.message(), "ComfyUI did not return a prompt_id");
    let p = ComfyPoll::start(Some("abc".to_string())).unwrap();
    assert_eq!(p.prompt_id(), "abc");
    assert_eq!(p.history_path(), "/history/abc");
    assert_eq!(p.attempts(), 0);
}

#[test]
fn poll_gives_up_after_the_budget() {
    let mut p = ComfyPoll::start(Some("id".to_string())).unwrap();
    for _ in 0..(COMFY_POLL_LIMIT - 1) {
        assert!(matches!(p.step(&PollObservation::Pending), PollAction::Wait));
    }
    assert!(!p.is_exhausted());
    assert!(matches!(p.step(&PollObservation::Outputs(vec![None])), PollAction::GiveUp));
    assert!(p.is_exhausted());
    assert_eq!(p.attempts(), 600);
}

#[test]
fn poll_downloads_the_first_reported_image() {
    let mut p = ComfyPoll::start(Some("id".to_string())).unwrap();
    let outs = vec![
        None,
        Some(ImageRef { filename: Some("a.png".to_string()), subfolder: None, kind: None }),
        Some(ImageRef {
            filename: Some("b.png".to_string()),
            subfolder: Some("s".to_string()),
            kind: Some("temp".to_string()),
        }),
    ];
    match p.step(&PollObservation::Outputs(outs)) {
        PollAction::Download(q) => {
            assert_eq!(q.filename, "a.png");
            assert_eq!(q.subfolder, "");
            assert_eq!(q.kind, "output");
        }
        other => panic!("unexpected {:?}", other),
    }
}

#[test]
fn first_view_query_keeps_given_fields() {
    let outs = vec![Some(ImageRef {
        filename: None,
        subfolder: Some("sub".to_string()),
        kind: Some("temp".to_string()),
    })];
    let q = first_view_query(&outs).unwrap();
    assert_eq!(q.filename, "");
    assert_eq!(q.subfolder, "sub");
    assert_eq!(q.kind, "temp");
    assert!(first_view_query(&vec![None, None]).is_none());
}

fn image(name: &str) -> ImageRef {
    ImageRef { filename: Some(name.to_string()), subfolder: None, kind: None }
}

#[test]
fn history_without_the_prompt_is_pending() {
    let history = vec![HistoryEntry { prompt_id: "other".to_string(), outputs: Some(vec![vec![image("x.png")]]) }];
    assert!(matches!(observation_for(&history, "id"), PollObservation::Pending));
    assert!(matches!(observation_for(&vec![], "id"), PollObservation::Pending));
    let no_outputs = vec![HistoryEntry { prompt_id: "id".to_string(), outputs: None }];
    assert!(matches!(observation_for(&no_outputs, "id"), PollObservation::Pending));
}

#[test]
fn history_entry_gives_each_node_first_image() {
    let history = vec![
        HistoryEntry { prompt_id: "other".to_string(), outputs: Some(vec![vec![image("o.png")]]) },
        HistoryEntry {
            prompt_id: "id".to_string(),
            outputs: Some(vec![vec![], vec![image("a.png"), image("b.png")], vec![image("c.png")]]),
        },
    ];
    match observation_for(&history, "id") {
        PollObservation::Outputs(outs) => {
            assert_eq!(outs.len(), 3);
            assert!(outs[0].is_none());
            assert_eq!(outs[1].as_ref().unwrap().filename.as_deref(), Some("a.png"));
            assert_eq!(outs[2].as_ref().unwrap().filename.as_deref(), Some("c.png"));
        }
        other => panic!("unexpected {:?}", other),
    }
    let mut p = ComfyPoll::start(Some("id".to_string())).unwrap();
    match p.step(&observation_for(&history, p.prompt_id())) {
        PollAction::Download(q) => assert_eq!(q.filename, "a.png"),
        other => panic!("unexpected {:?}", other),
    }
}

#[test]
fn history_entry_without_images_keeps_waiting() {
    let history = vec![HistoryEntry { prompt_id: "id".to_string(), outputs: Some(vec![vec![], vec![]]) }];
    let mut p = ComfyPoll::start(Some("id".to_string())).unwrap();
    assert!(matches!(p.step(&observation_for(&history, "id")), PollAction::Wait));
}
