//! PDF documents: the names the document and its transcription are saved
//! under, and the log entry written for them.
use vstd::prelude::*;
use crate::image::process::{ascii_slug, is_lower_hex, replace_slashes, sanitize_slug, slashes_to_hyphens};
use crate::text::{chars_of, push_all, push_str, replace_all, replace_chars, string_of, string_views, strip_trailing, stripped_trailing};
use crate::ai::classify::ClassifiedNote;
use crate::handlers::photo::is_hex4;
use crate::vault::writer::{hashtag_line, tags_suffix};

verus! {

/// The document file name `date-slug-xxxx.ext` for a given suffix.
pub open spec fn document_file_name(date: Seq<char>, slug: Seq<char>, suffix: Seq<char>, ext: Seq<char>) -> Seq<char> {
    slashes_to_hyphens(date) + "-"@ + ascii_slug(slug) + "-"@ + suffix + "."@ + ext
}

/// Helper to generate unique date-slug filenames
pub fn generate_filename(date: &str, slug: &str, ext: &str) -> (r: String)
    ensures
        exists|suffix: Seq<char>|
            crate::handlers::photo::is_hex4(suffix) && r@ == document_file_name(date@, slug@, suffix, ext@),
{
    let mut out = replace_slashes(date);
    let sanitized = sanitize_slug(slug);
    let suffix = crate::image::process::random_suffix();
    push_str(&mut out, "-");
    push_str(&mut out, sanitized.as_str());
    push_str(&mut out, "-");
    push_str(&mut out, suffix.as_str());
    push_str(&mut out, ".");
    push_str(&mut out, ext);
    proof {
        assert(crate::handlers::photo::is_hex4(suffix@));
        assert(out@ =~= document_file_name(date@, slug@, suffix@, ext@));
    }
    string_of(&out)
}

/// The slug of a document: its file name (default `document`) without
/// `.pdf` endings, slugged; when nothing is left, the fallback slug.
pub open spec fn document_slug(original: Option<Seq<char>>, fallback: Seq<char>) -> Seq<char> {
    let name = match original {
        Some(n) => n,
        None => "document"@,
    };
    let slug = ascii_slug(strip_trailing(name, ".pdf"@));
    if slug.len() == 0 {
        fallback
    } else {
        slug
    }
}

/// The slug a document is saved under.
pub fn pdf_slug(original_filename: Option<&str>, fallback: &str) -> (r: String)
    ensures
        r@ == document_slug(crate::text::opt_str_view(original_filename), fallback@),
{
    let name = match original_filename {
        Some(n) => n,
        None => "document",
    };
    let stem = stripped_trailing(&chars_of(name), &chars_of(".pdf"));
    let stem_s = string_of(&stem);
    let slug = sanitize_slug(stem_s.as_str());
    if slug.as_str().is_empty() {
        fallback.to_owned()
    } else {
        slug
    }
}

/// The log entry of a transcribed document.
pub open spec fn pdf_entry(
    time: Seq<char>,
    title: Seq<char>,
    assets: Seq<char>,
    pdf_name: Seq<char>,
    transcript_name: Seq<char>,
    summary: Seq<char>,
    tags: Seq<Seq<char>>,
) -> Seq<char> {
    "- "@ + time + " — 📄 **Document: "@ + title + "**\n  - **Original PDF**: [["@ + assets + "/"@
        + pdf_name + "]]\n  - **Transcription**: [["@ + assets + "/"@ + transcript_name
        + "]]\n  - **Summary**:\n    > "@ + replace_all(summary, "\n"@, "\n    "@) + "\n  "@
        + tags_suffix(tags)
}

/// The log entry of a transcribed document.
pub fn pdf_log_entry(
    time: &str,
    title: &str,
    assets_folder: &str,
    pdf_name: &str,
    transcript_name: &str,
    summary: &str,
    tags: &[String],
) -> (r: String)
    ensures
        r@ == pdf_entry(time@, title@, assets_folder@, pdf_name@, transcript_name@, summary@, string_views(tags@)),
{
    let mut out = chars_of("- ");
    push_str(&mut out, time);
    push_str(&mut out, " — 📄 **Document: ");
    push_str(&mut out, title);
    push_str(&mut out, "**\n  - **Original PDF**: [[");
    push_str(&mut out, assets_folder);
    push_str(&mut out, "/");
    push_str(&mut out, pdf_name);
    push_str(&mut out, "]]\n  - **Transcription**: [[");
    push_str(&mut out, assets_folder);
    push_str(&mut out, "/");
    push_str(&mut out, transcript_name);
    push_str(&mut out, "]]\n  - **Summary**:\n    > ");
    let nl = chars_of("\n");
    let indent = chars_of("\n    ");
    proof {
        reveal_strlit("\n");
    }
    let s = replace_chars(&chars_of(summary), &nl, &indent);
    push_all(&mut out, &s);
    push_str(&mut out, "\n  ");
    if tags.len() > 0 {
        out.push(' ');
        let h = hashtag_line(tags);
        push_all(&mut out, &h);
    }
    proof {
        assert(out@ =~= pdf_entry(time@, title@, assets_folder@, pdf_name@, transcript_name@, summary@, string_views(tags@)));
    }
    string_of(&out)
}

/// The log entry of a document that could not be transcribed.
pub open spec fn pdf_fallback_entry(time: Seq<char>, title: Seq<char>, assets: Seq<char>, pdf_name: Seq<char>) -> Seq<char> {
    "- "@ + time
        + " — 📄 **Document: "@ + title
        + "** (⚠️ Transcription unavailable: Gemini not configured or transcription failed)\n  - **Original PDF**: [["@
        + assets + "/"@ + pdf_name + "]]"@
}

/// The log entry of a document that could not be transcribed.
pub fn pdf_fallback_log_entry(time: &str, title: &str, assets_folder: &str, pdf_name: &str) -> (r: String)
    ensures
        r@ == pdf_fallback_entry(time@, title@, assets_folder@, pdf_name@),
{
    let mut out = chars_of("- ");
    push_str(&mut out, time);
    push_str(&mut out, " — 📄 **Document: ");
    push_str(&mut out, title);
    push_str(
        &mut out,
        "** (⚠️ Transcription unavailable: Gemini not configured or transcription failed)\n  - **Original PDF**: [[",
    );
    push_str(&mut out, assets_folder);
    push_str(&mut out, "/");
    push_str(&mut out, pdf_name);
    push_str(&mut out, "]]");
    string_of(&out)
}

/// The title a document is logged with: its file name, else `PDF Document`.
pub fn document_title(original_filename: Option<&str>) -> (r: String)
    ensures
        r@ == match original_filename {
            Some(n) => n@,
            None => "PDF Document"@,
        },
{
    match original_filename {
        Some(n) => n.to_owned(),
        None => "PDF Document".to_owned(),
    }
}

/// The reply after a document was transcribed and saved.
pub open spec fn pdf_saved_text(title: Seq<char>, pdf_name: Seq<char>, transcript_name: Seq<char>) -> Seq<char> {
    "📄 **PDF Transcribed & Saved!**\n\n**Title**: "@ + title + "\n**PDF**: `"@ + pdf_name
        + "`\n**Transcript**: `"@ + transcript_name + "`\n\nLogged in Daily Note."@
}

/// The reply after a document was transcribed and saved.
pub fn pdf_saved_reply(title: &str, pdf_name: &str, transcript_name: &str) -> (r: String)
    ensures
        r@ == pdf_saved_text(title@, pdf_name@, transcript_name@),
{
    let mut out = chars_of("📄 **PDF Transcribed & Saved!**\n\n**Title**: ");
    push_str(&mut out, title);
    push_str(&mut out, "\n**PDF**: `");
    push_str(&mut out, pdf_name);
    push_str(&mut out, "`\n**Transcript**: `");
    push_str(&mut out, transcript_name);
    push_str(&mut out, "`\n\nLogged in Daily Note.");
    string_of(&out)
}

/// The reply after a document was saved without a transcription.
pub open spec fn pdf_untranscribed_text(pdf_name: Seq<char>) -> Seq<char> {
    "⚠️ **PDF Saved!**\n\n*Transcription skipped*: Gemini client not configured or transcription failed.\n**Saved as**: `"@
        + pdf_name + "`\n\nLogged original reference only."@
}

/// The reply after a document was saved without a transcription.
pub fn pdf_untranscribed_reply(pdf_name: &str) -> (r: String)
    ensures
        r@ == pdf_untranscribed_text(pdf_name@),
{
    let mut out = chars_of(
        "⚠️ **PDF Saved!**\n\n*Transcription skipped*: Gemini client not configured or transcription failed.\n**Saved as**: `",
    );
    push_str(&mut out, pdf_name);
    push_str(&mut out, "`\n\nLogged original reference only.");
    string_of(&out)
}

/// How a document is saved: the names of the PDF and (when transcribed)
/// of its transcription, its title, the log entry and the reply.
#[derive(Debug, Clone)]
pub struct PdfPlan {
    pub pdf_name: String,
    pub transcript_name: Option<String>,
    pub title: String,
    pub log_entry: String,
    pub reply: String,
}

/// How a document is saved, from its file name and what the transcription
/// gave: with a transcription, both files are named after the document's
/// slug (its summary when the name gives none) and the entry links both;
/// without, only the PDF is named (slug `document` at worst) and logged.
pub fn plan_pdf(
    date: &str,
    time: &str,
    original_filename: Option<&str>,
    assets_folder: &str,
    note: Option<&ClassifiedNote>,
) -> (r: PdfPlan)
    ensures
        r.title@ == (match original_filename {
            Some(n) => n@,
            None => "PDF Document"@,
        }),
        match note {
            Some(n) => {
                let slug = document_slug(crate::text::opt_str_view(original_filename), n.summary@);
                &&& r.transcript_name matches Some(t) && {
                    &&& exists|s1: Seq<char>, s2: Seq<char>|
                        is_hex4(s1) && is_hex4(s2) && r.pdf_name@ == document_file_name(date@, slug, s1, "pdf"@)
                            && t@ == document_file_name(date@, slug, s2, "md"@)
                    &&& r.log_entry@ == pdf_entry(time@, r.title@, assets_folder@, r.pdf_name@, t@, n.summary@, string_views(n.tags@))
                    &&& r.reply@ == pdf_saved_text(r.title@, r.pdf_name@, t@)
                }
            },
            None => {
                let slug = document_slug(crate::text::opt_str_view(original_filename), "document"@);
                &&& r.transcript_name is None
                &&& exists|s1: Seq<char>| is_hex4(s1) && r.pdf_name@ == document_file_name(date@, slug, s1, "pdf"@)
                &&& r.log_entry@ == pdf_fallback_entry(time@, r.title@, assets_folder@, r.pdf_name@)
                &&& r.reply@ == pdf_untranscribed_text(r.pdf_name@)
            },
        },
{
    let title = document_title(original_filename);
    match note {
        Some(n) => {
            let slug = pdf_slug(original_filename, n.summary.as_str());
            let pdf_name = generate_filename(date, slug.as_str(), "pdf");
            let transcript_name = generate_filename(date, slug.as_str(), "md");
            let log_entry = pdf_log_entry(
                time,
                title.as_str(),
                assets_folder,
                pdf_name.as_str(),
                transcript_name.as_str(),
                n.summary.as_str(),
                n.tags.as_slice(),
            );
            let reply = pdf_saved_reply(title.as_str(), pdf_name.as_str(), transcript_name.as_str());
            PdfPlan { pdf_name, transcript_name: Some(transcript_name), title, log_entry, reply }
        },
        None => {
            let slug = pdf_slug(original_filename, "document");
            let pdf_name = generate_filename(date, slug.as_str(), "pdf");
            let log_entry = pdf_fallback_log_entry(time, title.as_str(), assets_folder, pdf_name.as_str());
            let reply = pdf_untranscribed_reply(pdf_name.as_str());
            PdfPlan { pdf_name, transcript_name: None, title, log_entry, reply }
        },
    }
}

} // verus!
