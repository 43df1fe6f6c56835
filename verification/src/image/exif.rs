//! What a photo's EXIF data tells the AI: when it was taken and where.
use vstd::prelude::*;
use crate::text::{push_str, string_of};

verus! {

/// The `DateTimeOriginal` text of a photo's EXIF data, as kamadak-exif
/// reads it: the first ASCII value of the tag in the primary image, when
/// the bytes hold EXIF data with that tag and the value is UTF-8.
pub uninterp spec fn exif_date_of(bytes: Seq<u8>) -> Option<Seq<char>>;

/// Reads the `DateTimeOriginal` tag (kamadak-exif `Reader::read_from_container`
/// and `Exif::get_field`).
#[verifier::external_body]
fn exif_date_taken(bytes: &[u8]) -> (r: Option<String>)
    ensures
        crate::text::opt_string_view(r) == exif_date_of(bytes@),
{
    let data = ::exif::Reader::new().read_from_container(&mut std::io::Cursor::new(bytes)).ok()?;
    let field = data.get_field(::exif::Tag::DateTimeOriginal, ::exif::In::PRIMARY)?;
    match &field.value {
        ::exif::Value::Ascii(vec) => vec.first().and_then(|b| std::str::from_utf8(b).ok()).map(|s| s.to_string()),
        _ => None,
    }
}

/// The EXIF summary given to the AI: `Photo taken: <date>` and
/// `Location: <place>`, each when known, joined by `. ` and closed by a
/// full stop; empty when neither is known.
pub open spec fn exif_context_text(date: Option<Seq<char>>, location: Option<Seq<char>>) -> Seq<char> {
    match (date, location) {
        (Some(d), Some(l)) => "Photo taken: "@ + d + ". Location: "@ + l + "."@,
        (Some(d), None) => "Photo taken: "@ + d + "."@,
        (None, Some(l)) => "Location: "@ + l + "."@,
        (None, None) => Seq::empty(),
    }
}

/// The EXIF summary of a photo: its taking date read from the bytes, and
/// the location text (latitude and longitude, written by the caller).
pub fn photo_exif_context(bytes: &[u8], location: Option<&str>) -> (r: String)
    ensures
        r@ == exif_context_text(exif_date_of(bytes@), crate::text::opt_str_view(location)),
{
    let date = exif_date_taken(bytes);
    let mut out: Vec<char> = Vec::new();
    match (&date, location) {
        (Some(d), Some(l)) => {
            push_str(&mut out, "Photo taken: ");
            push_str(&mut out, d.as_str());
            push_str(&mut out, ". Location: ");
            push_str(&mut out, l);
            push_str(&mut out, ".");
        },
        (Some(d), None) => {
            push_str(&mut out, "Photo taken: ");
            push_str(&mut out, d.as_str());
            push_str(&mut out, ".");
        },
        (None, Some(l)) => {
            push_str(&mut out, "Location: ");
            push_str(&mut out, l);
            push_str(&mut out, ".");
        },
        (None, None) => {},
    }
    assert(out@ =~= exif_context_text(exif_date_of(bytes@), crate::text::opt_str_view(location)));
    string_of(&out)
}

/// Whether a photo must be scaled down: a side is longer than
/// `max_dimension` (photos are never scaled up).
pub fn needs_resize(width: u32, height: u32, max_dimension: u32) -> (r: bool)
    ensures
        r == (width > max_dimension || height > max_dimension),
{
    width > max_dimension || height > max_dimension
}

} // verus!
