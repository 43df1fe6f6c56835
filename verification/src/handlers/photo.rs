//! Photos: the note entry for a saved photo and the names it is saved under.
use vstd::prelude::*;
use crate::ai::classify::ClassifiedNote;
use crate::image::process::{generate_filename, image_file_name, is_lower_hex, random_uuid, replace_slashes, slashes_to_hyphens};
use crate::text::{chars_of, push_str, string_of};

verus! {

/// The note entry for a saved photo: the embed, then the AI's markdown or
/// the caption when there is one.
pub open spec fn photo_content(assets: Seq<char>, file: Seq<char>, markdown: Option<Seq<char>>, caption: Option<Seq<char>>) -> Seq<char> {
    let link = "![["@ + assets + "/"@ + file + "]]"@;
    match markdown {
        Some(md) => link + "\n"@ + md,
        None => match caption {
            Some(c) => link + "\n"@ + c,
            None => link,
        },
    }
}

/// The note entry for a saved photo.
pub fn format_photo_content(assets_folder: &str, filename: &str, markdown: Option<&str>, caption: Option<&str>) -> (r: String)
    ensures
        r@ == photo_content(
            assets_folder@,
            filename@,
            crate::text::opt_str_view(markdown),
            crate::text::opt_str_view(caption),
        ),
{
    let mut out = chars_of("![[");
    push_str(&mut out, assets_folder);
    push_str(&mut out, "/");
    push_str(&mut out, filename);
    push_str(&mut out, "]]");
    match markdown {
        Some(md) => {
            push_str(&mut out, "\n");
            push_str(&mut out, md);
        },
        None => match caption {
            Some(c) => {
                push_str(&mut out, "\n");
                push_str(&mut out, c);
            },
            None => {},
        },
    }
    string_of(&out)
}

/// Four lower-case hex digits.
pub open spec fn is_hex4(s: Seq<char>) -> bool {
    s.len() == 4 && forall|i: int| 0 <= i < 4 ==> is_lower_hex(#[trigger] s[i])
}

/// The fallback photo file name `date-photo-xxxx.jpg` for a given suffix.
pub open spec fn fallback_photo_name(date: Seq<char>, suffix: Seq<char>) -> Seq<char> {
    slashes_to_hyphens(date) + "-photo-"@ + suffix + ".jpg"@
}

/// The file name of a photo the AI could not describe.
pub fn generate_fallback_filename(date: &str) -> (r: String)
    ensures
        exists|suffix: Seq<char>| is_hex4(suffix) && r@ == fallback_photo_name(date@, suffix),
{
    let mut out = replace_slashes(date);
    let suffix = crate::image::process::random_suffix();
    push_str(&mut out, "-photo-");
    push_str(&mut out, suffix.as_str());
    push_str(&mut out, ".jpg");
    proof {
        assert(is_hex4(suffix@));
    }
    string_of(&out)
}

/// What a photo is saved as: its file name, the summary the reply shows,
/// and the entry written to the notes section.
#[derive(Debug, Clone)]
pub struct PhotoPlan {
    pub filename: String,
    pub summary: String,
    pub content: String,
}

/// How a photo is saved, from what the AI made of it: named after its
/// summary and entered with its markdown; when the AI failed, a fallback
/// name, the caption (or `Photo`) as summary and the caption as entry.
pub fn plan_photo(date: &str, assets_folder: &str, caption: Option<&str>, classified: Option<&ClassifiedNote>) -> (r: PhotoPlan)
    ensures
        match classified {
            Some(c) => (exists|s: Seq<char>| is_hex4(s) && r.filename@ == image_file_name(date@, c.summary@, s))
                && r.summary@ == c.summary@
                && r.content@ == photo_content(assets_folder@, r.filename@, Some(c.markdown@), None),
            None => (exists|s: Seq<char>| is_hex4(s) && r.filename@ == fallback_photo_name(date@, s))
                && r.summary@ == (match caption {
                    Some(t) => t@,
                    None => "Photo"@,
                })
                && r.content@ == photo_content(assets_folder@, r.filename@, None, crate::text::opt_str_view(caption)),
        },
{
    match classified {
        Some(c) => {
            let filename = generate_filename(date, c.summary.as_str());
            proof {
                let sfx = choose|sfx: Seq<char>|
                    sfx.len() == 4 && (forall|i: int| 0 <= i < 4 ==> is_lower_hex(#[trigger] sfx[i]))
                        && filename@ == image_file_name(date@, c.summary@, sfx);
                assert(is_hex4(sfx));
            }
            let content = format_photo_content(assets_folder, filename.as_str(), Some(c.markdown.as_str()), None);
            PhotoPlan { filename, summary: c.summary.clone(), content }
        },
        None => {
            let filename = generate_fallback_filename(date);
            let summary = match caption {
                Some(t) => t.to_owned(),
                None => "Photo".to_owned(),
            };
            let content = format_photo_content(assets_folder, filename.as_str(), None, caption);
            PhotoPlan { filename, summary, content }
        },
    }
}

/// The reply after a photo was saved.
pub fn photo_saved_reply(summary: &str) -> (r: String)
    ensures
        r@ == "📸 Photo saved — "@ + summary@,
{
    let mut out = chars_of("📸 Photo saved — ");
    push_str(&mut out, summary);
    string_of(&out)
}

/// The reply when a photo could not be saved.
pub fn photo_failed_reply(error: &str) -> (r: String)
    ensures
        r@ == "❌ Failed to save photo: "@ + error@,
{
    let mut out = chars_of("❌ Failed to save photo: ");
    push_str(&mut out, error);
    string_of(&out)
}

} // verus!
