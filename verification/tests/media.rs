use facesguru::api::media::{ext_for, media_path, mime_from_path, rewrite_job_refs, strip_media_id};
use facesguru::json::{media_ids_from_json, media_ids_to_json};

#[test]
fn extension_from_file_name_is_lowercased() {
    assert_eq!(ext_for(Some("Photo.PNG"), Some("image/jpeg")), "png");
    assert_eq!(ext_for(Some("a.b.JPEG"), None), "jpeg");
}

#[test]
fn long_or_empty_extension_falls_back_to_content_type() {
    assert_eq!(ext_for(Some("archive.gzipped"), Some("image/webp")), "webp");
    assert_eq!(ext_for(Some("name."), Some("video/mp4")), "mp4");
    assert_eq!(ext_for(Some("noext"), Some("image/gif")), "gif");
    assert_eq!(ext_for(Some("x.ééé"), Some("image/png")), "png");
    assert_eq!(ext_for(Some("x.éé"), None), "éé");
}

#[test]
fn unknown_content_type_is_bin() {
    assert_eq!(ext_for(None, None), "bin");
    assert_eq!(ext_for(None, Some("text/plain")), "bin");
    assert_eq!(ext_for(None, Some("image/jpeg")), "jpg");
}

#[test]
fn served_content_type_from_path() {
    assert_eq!(mime_from_path("data/media/x.PNG"), "image/png");
    assert_eq!(mime_from_path("x.jpeg"), "image/jpeg");
    assert_eq!(mime_from_path("x.jpg"), "image/jpeg");
    assert_eq!(mime_from_path("x.webp"), "image/webp");
    assert_eq!(mime_from_path("x.gif"), "image/gif");
    assert_eq!(mime_from_path("x.MP4"), "video/mp4");
    assert_eq!(mime_from_path("x.bin"), "application/octet-stream");
}

#[test]
fn media_path_layout() {
    assert_eq!(media_path("data/media", "abc", "png"), "data/media/abc.png");
}

#[test]
fn stripping_removes_every_occurrence() {
    let ids = vec!["a".to_string(), "b".to_string(), "a".to_string(), "c".to_string()];
    assert_eq!(strip_media_id(&ids, "a"), vec!["b".to_string(), "c".to_string()]);
    assert_eq!(strip_media_id(&ids, "z"), ids);
}

#[test]
fn job_refs_are_rewritten_as_json() {
    let (i, o) = rewrite_job_refs("[\"a\",\"b\"]", "[\"b\",\"a\",\"a\"]", "a");
    assert_eq!(i, "[\"b\"]");
    assert_eq!(o, "[\"b\"]");
    let (i, o) = rewrite_job_refs("not json", "[]", "a");
    assert_eq!(i, "[]");
    assert_eq!(o, "[]");
}

#[test]
fn id_lists_read_and_write() {
    assert_eq!(media_ids_from_json("[\"x\", \"y\"]"), vec!["x".to_string(), "y".to_string()]);
    assert!(media_ids_from_json("{\"x\": 1}").is_empty());
    assert!(media_ids_from_json("").is_empty());
    assert_eq!(media_ids_to_json(&vec!["q\"e".to_string()]), "[\"q\\\"e\"]");
}

#[test]
fn ascii_extensions_are_plain() {
    assert_eq!(ext_for(Some("IMG.JPG"), None), "jpg");
    assert_eq!(ext_for(Some("a.b.Gif"), None), "gif");
}

#[test]
fn media_id_list_json_escapes_like_serde() {
    let ids = vec!["a\nb\u{1}\\".to_string(), "q\"".to_string()];
    assert_eq!(media_ids_to_json(&ids), "[\"a\\nb\\u0001\\\\\",\"q\\\"\"]");
    assert_eq!(media_ids_to_json(&vec![]), "[]");
}

#[test]
fn media_id_list_round_trips() {
    let ids = vec!["x y".to_string(), "ü\t".to_string(), String::new()];
    assert_eq!(media_ids_from_json(&media_ids_to_json(&ids)), ids);
    assert!(media_ids_from_json(&media_ids_to_json(&vec![])).is_empty());
}

#[test]
fn mime_lookup_ignores_ascii_case() {
    assert_eq!(mime_from_path("DIR/X.JPEG"), "image/jpeg");
    assert_eq!(mime_from_path("x.GiF"), "image/gif");
    assert_eq!(mime_from_path("x.WebP"), "image/webp");
}

#[test]
fn extension_of_non_ascii_name_is_lowercased() {
    assert_eq!(ext_for(Some("Bild.ÄPNG"), None), "äpng");
    assert_eq!(ext_for(Some("ÜBER.JPG"), None), "jpg");
}
