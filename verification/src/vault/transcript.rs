//! Transcript notes: the file name slug, the markdown written and the wiki-link
//! that points at it.
use vstd::prelude::*;
use crate::text::{starts_with, all_ascii, ascii_lowercased, to_lowercase, unicode_lowercase, chars_of, is_ascii_alnum_spec, ascii_lower_spec, push_all, push_str, string_of};
use crate::vault::daily_note::{join_path, path_join};

verus! {

/// Transcript file information returned after successful save
#[derive(Debug, Clone, PartialEq, Eq)]
pub struct TranscriptFile {
    pub path: String,
    pub wiki_link: String,
}

/// Whether `char::is_alphanumeric` holds of `c` (Unicode Alphabetic or Numeric).
pub uninterp spec fn unicode_alphanumeric(c: char) -> bool;

/// Whether `c` is alphanumeric (std `char::is_alphanumeric`); on ASCII it
/// holds exactly of letters and digits.
#[verifier::external_body]
fn is_alphanumeric(c: char) -> (r: bool)
    ensures
        r == unicode_alphanumeric(c),
        (c as u32) < 128 ==> r == is_ascii_alnum_spec(c),
{
    c.is_alphanumeric()
}

/// `s` with every non-alphanumeric character replaced by `-`.
pub open spec fn dash_masked(s: Seq<char>) -> Seq<char> {
    Seq::new(s.len(), |i: int| if unicode_alphanumeric(s[i]) { s[i] } else { '-' })
}

/// The runs of non-dash characters of `s[..n]` joined by single dashes, and
/// whether a dash is pending after the last run.
pub open spec fn collapse_scan(s: Seq<char>, n: int) -> (Seq<char>, bool)
    decreases n,
{
    if n <= 0 {
        (Seq::empty(), false)
    } else {
        let (out, pending) = collapse_scan(s, n - 1);
        if s[n - 1] == '-' {
            (out, out.len() > 0)
        } else if pending {
            (out.push('-').push(s[n - 1]), false)
        } else {
            (out.push(s[n - 1]), false)
        }
    }
}

/// `s` split at dashes, empty pieces dropped, rejoined with single dashes.
pub open spec fn collapse_dashes(s: Seq<char>) -> Seq<char> {
    collapse_scan(s, s.len() as int).0
}

/// The file-name slug of a title: lower-cased, non-alphanumerics turned into
/// dashes, dash runs collapsed and trimmed, at most 50 characters.
pub open spec fn title_slug(title: Seq<char>) -> Seq<char> {
    let c = collapse_dashes(dash_masked(unicode_lowercase(title)));
    if c.len() <= 50 {
        c
    } else {
        c.take(50)
    }
}

/// Sanitize a string into a filename-safe slug (lowercase, alphanumeric + hyphens, max 50 chars)
pub fn sanitize_slug(input: &str) -> (r: String)
    ensures
        r@ == title_slug(input@),
{
    let lower = to_lowercase(input);
    let cs = chars_of(lower.as_str());
    let mut masked: Vec<char> = Vec::new();
    let mut i: usize = 0;
    while i < cs.len()
        invariant
            i <= cs.len(),
            masked@ == dash_masked(cs@).take(i as int),
        decreases cs.len() - i,
    {
        let c = cs[i];
        if is_alphanumeric(c) {
            masked.push(c);
        } else {
            masked.push('-');
        }
        i = i + 1;
        assert(masked@ =~= dash_masked(cs@).take(i as int));
    }
    assert(dash_masked(cs@).take(cs.len() as int) =~= dash_masked(cs@));
    let mut out: Vec<char> = Vec::new();
    let mut pending = false;
    let mut j: usize = 0;
    while j < masked.len()
        invariant
            j <= masked.len(),
            (out@, pending) == collapse_scan(masked@, j as int),
        decreases masked.len() - j,
    {
        let c = masked[j];
        if c == '-' {
            pending = out.len() > 0;
        } else {
            if pending {
                out.push('-');
            }
            out.push(c);
            pending = false;
        }
        j = j + 1;
    }
    let mut r: Vec<char> = Vec::new();
    let mut k: usize = 0;
    while k < out.len() && k < 50
        invariant
            k <= out.len(),
            k <= 50,
            r@ == out@.take(k as int),
        decreases out.len() - k,
    {
        r.push(out[k]);
        k = k + 1;
        assert(r@ =~= out@.take(k as int));
    }
    assert(out.len() <= 50 ==> out@.take(out.len() as int) =~= out@);
    string_of(&r)
}

/// A character a title slug may hold: a hyphen or an alphanumeric character.
pub open spec fn title_slug_char(c: char) -> bool {
    c == '-' || unicode_alphanumeric(c)
}

/// Collapsing keeps only characters of the input, never starts or ends
/// with a dash, never doubles one, and leaves a dash pending only after
/// something was written.
proof fn lemma_collapse_scan(s: Seq<char>, n: int)
    requires
        0 <= n <= s.len(),
        forall|i: int| 0 <= i < s.len() ==> title_slug_char(#[trigger] s[i]),
    ensures
        ({
            let (o, pending) = collapse_scan(s, n);
            &&& forall|i: int| 0 <= i < o.len() ==> title_slug_char(#[trigger] o[i])
            &&& (o.len() > 0 ==> o[0] != '-' && o.last() != '-')
            &&& forall|i: int| 0 <= i < o.len() - 1 ==> !(#[trigger] o[i] == '-' && o[i + 1] == '-')
            &&& (pending ==> o.len() > 0)
        }),
    decreases n,
{
    if n > 0 {
        lemma_collapse_scan(s, n - 1);
        let (o, pending) = collapse_scan(s, n - 1);
        let (o2, p2) = collapse_scan(s, n);
        assert(title_slug_char(s[n - 1]));
        assert forall|i: int| 0 <= i < o2.len() - 1 implies !(#[trigger] o2[i] == '-' && o2[i + 1] == '-') by {
            if i < o.len() - 1 {
                assert(o2[i] == o[i] && o2[i + 1] == o[i + 1]);
            }
        }
        assert forall|i: int| 0 <= i < o2.len() implies title_slug_char(#[trigger] o2[i]) by {
            if i < o.len() {
                assert(o2[i] == o[i]);
            }
        }
        if o2.len() > 0 {
            if o.len() > 0 {
                assert(o2[0] == o[0]);
            }
        }
    }
}

/// Every title slug holds only hyphens and alphanumeric characters, has at
/// most 50 characters, does not start with a hyphen and never holds two
/// hyphens in a row.
pub proof fn lemma_title_slug_shape(title: Seq<char>)
    ensures
        ({
            let s = title_slug(title);
            &&& s.len() <= 50
            &&& forall|i: int| 0 <= i < s.len() ==> title_slug_char(#[trigger] s[i])
            &&& (s.len() > 0 ==> s[0] != '-')
            &&& forall|i: int| 0 <= i < s.len() - 1 ==> !(#[trigger] s[i] == '-' && s[i + 1] == '-')
        }),
{
    let m = dash_masked(unicode_lowercase(title));
    assert forall|i: int| 0 <= i < m.len() implies title_slug_char(#[trigger] m[i]) by {}
    lemma_collapse_scan(m, m.len() as int);
    let c = collapse_dashes(m);
    let s = title_slug(title);
    if c.len() > 50 {
        assert forall|i: int| 0 <= i < s.len() - 1 implies !(#[trigger] s[i] == '-' && s[i + 1] == '-') by {
            assert(s[i] == c[i] && s[i + 1] == c[i + 1]);
        }
        assert forall|i: int| 0 <= i < s.len() implies title_slug_char(#[trigger] s[i]) by {
            assert(s[i] == c[i]);
        }
        assert(s[0] == c[0]);
    }
}

/// The markdown of a transcript note: YAML frontmatter with the source,
/// video id, date and tags, then the title, the summary and the transcript.
pub open spec fn transcript_markdown(
    video_id: Seq<char>,
    date: Seq<char>,
    title: Seq<char>,
    summary: Seq<char>,
    text: Seq<char>,
) -> Seq<char> {
    "---\nsource: https://youtube.com/watch?v="@ + video_id + "\nvideo_id: "@ + video_id
        + "\ndate: "@ + date + "\ntags: [transcript, youtube]\n---\n\n# "@ + title
        + "\n\n## Summary\n"@ + summary + "\n\n## Transcript\n"@ + text
}

/// The layout of a transcript note: after the frontmatter and the
/// `# title` line, the summary stands directly under `## Summary`, then an
/// empty line and `## Transcript`, and the transcript text ends the note.
pub proof fn lemma_transcript_sections(
    video_id: Seq<char>,
    date: Seq<char>,
    title: Seq<char>,
    summary: Seq<char>,
    text: Seq<char>,
)
    ensures
        exists|front: Seq<char>|
            transcript_markdown(video_id, date, title, summary, text) == front + "# "@ + title + "\n\n## Summary\n"@
                + summary + "\n\n## Transcript\n"@ + text && starts_with(front, "---\n"@),
{
    reveal_strlit("---\n");
    reveal_strlit("---\nsource: https://youtube.com/watch?v=");
    let front = "---\nsource: https://youtube.com/watch?v="@ + video_id + "\nvideo_id: "@ + video_id + "\ndate: "@
        + date + "\ntags: [transcript, youtube]\n---\n\n"@;
    reveal_strlit("\ntags: [transcript, youtube]\n---\n\n# ");
    reveal_strlit("\ntags: [transcript, youtube]\n---\n\n");
    reveal_strlit("# ");
    assert("\ntags: [transcript, youtube]\n---\n\n# "@ =~= "\ntags: [transcript, youtube]\n---\n\n"@ + "# "@);
    assert(transcript_markdown(video_id, date, title, summary, text) =~= front + "# "@ + title + "\n\n## Summary\n"@
        + summary + "\n\n## Transcript\n"@ + text);
    assert(front.subrange(0, 4) =~= "---\n"@);
    assert(starts_with(front, "---\n"@));
    assert(transcript_markdown(video_id, date, title, summary, text) == front + "# "@ + title + "\n\n## Summary\n"@
        + summary + "\n\n## Transcript\n"@ + text && starts_with(front, "---\n"@));
}

/// The markdown written to a transcript note.
pub fn transcript_content(
    video_id: &str,
    date: &str,
    title: &str,
    summary: &str,
    transcript_text: &str,
) -> (r: String)
    ensures
        r@ == transcript_markdown(video_id@, date@, title@, summary@, transcript_text@),
{
    let mut out: Vec<char> = Vec::new();
    push_str(&mut out, "---\nsource: https://youtube.com/watch?v=");
    push_str(&mut out, video_id);
    push_str(&mut out, "\nvideo_id: ");
    push_str(&mut out, video_id);
    push_str(&mut out, "\ndate: ");
    push_str(&mut out, date);
    push_str(&mut out, "\ntags: [transcript, youtube]\n---\n\n# ");
    push_str(&mut out, title);
    push_str(&mut out, "\n\n## Summary\n");
    push_str(&mut out, summary);
    push_str(&mut out, "\n\n## Transcript\n");
    push_str(&mut out, transcript_text);
    assert(out@ =~= transcript_markdown(video_id@, date@, title@, summary@, transcript_text@));
    string_of(&out)
}

/// The Obsidian wiki-link `[[folder/name]]`.
pub open spec fn wiki_link_to(folder: Seq<char>, name: Seq<char>) -> Seq<char> {
    "[["@ + folder + "/"@ + name + "]]"@
}

/// The Obsidian wiki-link to the note `name` (without `.md`) inside `folder`.
pub fn wiki_link(folder: &str, name: &str) -> (r: String)
    ensures
        r@ == wiki_link_to(folder@, name@),
{
    let mut out: Vec<char> = Vec::new();
    push_str(&mut out, "[[");
    push_str(&mut out, folder);
    push_str(&mut out, "/");
    push_str(&mut out, name);
    push_str(&mut out, "]]");
    assert(out@ =~= wiki_link_to(folder@, name@));
    string_of(&out)
}

/// Everything needed to write a transcript note: the folder to create, the
/// file, its content and the wiki-link to it.
#[derive(Debug, Clone)]
pub struct TranscriptPlan {
    pub dir: String,
    pub path: String,
    pub content: String,
    pub wiki_link: String,
}

/// The note name `date-slug` of a transcript.
pub open spec fn transcript_name(date: Seq<char>, title: Seq<char>) -> Seq<char> {
    date + "-"@ + title_slug(title)
}

/// Plans the transcript note for a video: `folder/date-slug.md` inside the
/// vault, with the transcript markdown and the wiki-link `[[folder/date-slug]]`.
pub fn plan_transcript(
    vault_path: &str,
    transcript_folder: &str,
    video_id: &str,
    title: &str,
    summary: &str,
    transcript_text: &str,
    date: &str,
) -> (r: TranscriptPlan)
    ensures
        r.dir@ == join_path(vault_path@, transcript_folder@),
        r.path@ == join_path(r.dir@, transcript_name(date@, title@) + ".md"@),
        r.content@ == transcript_markdown(video_id@, date@, title@, summary@, transcript_text@),
        r.wiki_link@ == wiki_link_to(transcript_folder@, transcript_name(date@, title@)),
{
    let slug = sanitize_slug(title);
    let mut name: Vec<char> = chars_of(date);
    push_str(&mut name, "-");
    push_str(&mut name, slug.as_str());
    let name_s = string_of(&name);
    let mut file: Vec<char> = name.clone();
    push_str(&mut file, ".md");
    let file_s = string_of(&file);
    let dir = path_join(vault_path, transcript_folder);
    let path = path_join(dir.as_str(), file_s.as_str());
    let content = transcript_content(video_id, date, title, summary, transcript_text);
    let link = wiki_link(transcript_folder, name_s.as_str());
    TranscriptPlan { dir, path, content, wiki_link: link }
}

} // verus!
