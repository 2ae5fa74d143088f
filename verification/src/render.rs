//! Decoding the fetched bytes and rendering them as an ASCII-art HTML
//! document, behind one trusted wrapper over the `image` and `artem`
//! crates.

use crate::errors::ArtError;
use crate::strutil::has_substring;
use vstd::prelude::*;

verus! {

/// Whether the bytes decode — by `image::load_from_memory`'s content
/// sniffing, reading the bytes alone — into an image with at least one
/// pixel in each dimension. Degenerate images (a zero width or height can
/// come out of a decoder) are excluded: artem's dimension arithmetic is
/// not defined on them.
pub uninterp spec fn image_renderable(bytes: Seq<u8>) -> bool;

/// The ASCII-art HTML document that artem renders for these bytes once
/// decoded. Decoding and conversion read the bytes alone, so the document
/// is a function of the byte sequence.
pub uninterp spec fn ascii_art_of(bytes: Seq<u8>) -> Seq<char>;

/// Relies on `image::load_from_memory` (format sniffed from the bytes,
/// decoding reads the bytes alone) and on `artem::convert`, called with
/// artem's default options and the HTML-file target (deterministic in the
/// decoded image; the output opens with artem's fixed HTML header:
/// `<!DOCTYPE html>`, a line break and four spaces, then
/// `<html lang="en">`). An image with a zero dimension is turned away
/// before artem sees it, since artem's dimension arithmetic divides by a
/// zero-derived count there.
#[verifier::external_body]
fn render_bytes(bytes: &Vec<u8>) -> (r: Option<String>)
    ensures
        r is Some <==> image_renderable(bytes@),
        r matches Some(art) ==> art@ == ascii_art_of(bytes@) && art@.len() >= 25 && art@.subrange(
            0,
            15,
        ) == "<!DOCTYPE html>"@ && art@.subrange(20, 25) == "<html"@,
{
    let img = image::load_from_memory(bytes).ok()?;
    if img.width() == 0 || img.height() == 0 {
        return None;
    }
    Some(
        artem::convert(
            img,
            artem::options::OptionBuilder::new().target(
                artem::options::TargetType::HtmlFile(true, true),
            ).build(),
        ),
    )
}

/// The document holds an HTML-opening tag somewhere.
pub open spec fn contains_html_tag(s: Seq<char>) -> bool {
    has_substring(s, "<html"@)
}

/// Decodes the fetched bytes and renders them as the ASCII-art HTML
/// document of those bytes. Fails exactly when the bytes are not a
/// renderable image; a rendered document is never empty and holds an
/// HTML-opening tag.
pub fn render_ascii_html(bytes: &Vec<u8>) -> (r: Result<String, ArtError>)
    ensures
        r is Err <==> !image_renderable(bytes@),
        r is Err ==> r == Result::<String, ArtError>::Err(ArtError::Decode),
        r matches Ok(art) ==> art@ == ascii_art_of(bytes@) && art@.len() > 0 && contains_html_tag(
            art@,
        ),
{
    match render_bytes(bytes) {
        None => Err(ArtError::Decode),
        Some(art) => {
            proof {
                reveal_strlit("<html");
                assert(art@.subrange(20, (20 + "<html"@.len()) as int) == "<html"@);
            }
            Ok(art)
        },
    }
}

} // verus!
