use facesguru::api::describe::{
    all_aspects, described_response, mime_from_path, mock_prompt, mock_response, selected_aspects,
    vision_payload, DescribeReq,
};
use facesguru::error::ServiceError;
use facesguru::imageutil::{to_png, to_png_or_original};

fn req(aspects: &[&str]) -> DescribeReq {
    DescribeReq { media_id: "m".to_string(), aspects: aspects.iter().map(|s| s.to_string()).collect() }
}

fn tiny_gif() -> Vec<u8> {
    let img = image::RgbImage::from_pixel(2, 2, image::Rgb([10, 20, 30]));
    let mut buf = std::io::Cursor::new(Vec::new());
    img.write_to(&mut buf, image::ImageFormat::Gif).unwrap();
    buf.into_inner()
}

#[test]
fn no_aspects_means_all() {
    assert_eq!(selected_aspects(&req(&[])).unwrap(), all_aspects());
    assert_eq!(all_aspects(), vec!["face", "body", "posture", "clothing", "environment"]);
}

#[test]
fn aspects_kept_in_canonical_order_ignoring_case() {
    assert_eq!(selected_aspects(&req(&["ENVIRONMENT", "x", "Face"])).unwrap(), vec!["face", "environment"]);
}

#[test]
fn unknown_aspects_only_is_an_error() {
    let e = selected_aspects(&req(&["hands"])).unwrap_err();
    assert!(matches!(e, ServiceError::NoAspectSelected));
}

#[test]
fn mock_description() {
    let a = vec!["face".to_string(), "body".to_string()];
    assert_eq!(
        mock_prompt(&a),
        "score_9, score_8_up, source_photo, raw photo, photorealistic, [mock description covering: face, body], detailed skin texture, natural lighting, 8k"
    );
    let r = mock_response(&a);
    assert!(!r.described);
    assert!(described_response("p".to_string()).described);
}

#[test]
fn image_mime_defaults_to_png() {
    assert_eq!(mime_from_path("a.JPG"), "image/jpeg");
    assert_eq!(mime_from_path("a.webp"), "image/webp");
    assert_eq!(mime_from_path("a.gif"), "image/gif");
    assert_eq!(mime_from_path("a.mp4"), "image/png");
}

#[test]
fn undecodable_bytes_go_as_they_are() {
    let (bytes, mime) = vision_payload(b"not an image".to_vec(), "x.WEBP");
    assert_eq!(bytes, b"not an image".to_vec());
    assert_eq!(mime, "image/webp");
    assert!(to_png(b"not an image").is_none());
    assert_eq!(to_png_or_original(vec![1, 2, 3]), vec![1, 2, 3]);
}

#[test]
fn decodable_images_become_png() {
    let gif = tiny_gif();
    let (bytes, mime) = vision_payload(gif.clone(), "x.gif");
    assert_eq!(mime, "image/png");
    assert_eq!(&bytes[..8], b"\x89PNG\r\n\x1a\n");
    assert_ne!(bytes, gif);
    let again = to_png_or_original(gif);
    assert_eq!(&again[..8], b"\x89PNG\r\n\x1a\n");
}
