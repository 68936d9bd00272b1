//! Image normalization shared across the worker and API.
//!
//! Several downstream consumers (vision models, img2vid, face-swap) choke on formats
//! like WebP. Whatever was uploaded is decoded and re-encoded as PNG before it is handed on.

use vstd::prelude::*;

verus! {

/// The PNG that the `image` crate produces for some bytes: decoding them as any supported
/// image (format guessed from the content) and encoding the result as PNG; nothing when
/// the bytes cannot be decoded or the image cannot be written as PNG.
pub uninterp spec fn png_reencoding(bytes: Seq<u8>) -> Option<Seq<u8>>;

/// Decode any supported image (png/jpeg/webp/gif) and re-encode as PNG.
/// Returns `None` if the bytes can't be decoded as an image.
///
/// Calls `image::load_from_memory` and `DynamicImage::write_to` with `ImageFormat::Png`;
/// the result is the one named by `png_reencoding`, nothing more is claimed of it.
#[verifier::external_body]
pub fn to_png(bytes: &[u8]) -> (r: Option<Vec<u8>>)
    ensures
        match r {
            Some(png) => png_reencoding(bytes@) == Some(png@),
            None => png_reencoding(bytes@) is None,
        },
{
    let img = image::load_from_memory(bytes).ok()?;
    let mut buf = std::io::Cursor::new(Vec::new());
    img.write_to(&mut buf, image::ImageFormat::Png).ok()?;
    Some(buf.into_inner())
}

/// The bytes handed on: their PNG re-encoding, or the bytes unchanged when they cannot be
/// decoded.
pub open spec fn png_or_original(bytes: Seq<u8>) -> Seq<u8> {
    match png_reencoding(bytes) {
        Some(png) => png,
        None => bytes,
    }
}

/// Normalize to PNG, falling back to the unchanged bytes if decoding fails
/// (so formats this build can't decode still reach a consumer that might handle them).
pub fn to_png_or_original(bytes: Vec<u8>) -> (r: Vec<u8>)
    ensures
        r@ == png_or_original(bytes@),
{
    match to_png(bytes.as_slice()) {
        Some(png) => png,
        None => bytes,
    }
}

} // verus!
