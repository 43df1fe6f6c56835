//! The markdown entries written into the sections of a daily note.
use vstd::prelude::*;
use crate::ai::classify::{ClassifiedNote, NoteCategory};
use crate::clock::{format_date_time, is_hh_mm, local_now};
use crate::text::{
    chars_of, chars_of_string, join, join_parts, opt_str_view, push_all, push_str, strip_leading,
    string_of, string_views, stripped_leading, trim, trimmed,
};

verus! {

/// The heading of the todo section.
pub open spec fn todos_heading() -> Seq<char> {
    "## ✅ Todos"@
}

/// The heading of the log section.
pub open spec fn log_heading() -> Seq<char> {
    "## 📋 Log"@
}

/// The heading of the notes section.
pub open spec fn notes_heading() -> Seq<char> {
    "## 📝 Notes"@
}

/// The section a note of category `c` is written to.
pub open spec fn section_for(c: NoteCategory) -> Seq<char> {
    match c {
        NoteCategory::Todo => todos_heading(),
        NoteCategory::Log => log_heading(),
        NoteCategory::Note => notes_heading(),
    }
}

/// Each tag with a leading `#`.
pub open spec fn hashtag_words(tags: Seq<Seq<char>>) -> Seq<Seq<char>> {
    Seq::new(tags.len(), |i: int| seq!['#'] + tags[i])
}

/// The tags as `#a #b ...`.
pub open spec fn hashtags(tags: Seq<Seq<char>>) -> Seq<char> {
    join(hashtag_words(tags), seq![' '])
}

/// The tag suffix of an entry: empty without tags, else a space and the hashtags.
pub open spec fn tags_suffix(tags: Seq<Seq<char>>) -> Seq<char> {
    if tags.len() == 0 {
        Seq::empty()
    } else {
        seq![' '] + hashtags(tags)
    }
}

/// The text of a log entry: the markdown without its leading `- ` markers, trimmed.
pub open spec fn log_entry_text(markdown: Seq<char>) -> Seq<char> {
    trim(strip_leading(markdown, "- "@))
}

/// A timestamped log line `- HH:MM — text` followed by `suffix`.
pub open spec fn log_line(time: Seq<char>, text: Seq<char>, suffix: Seq<char>) -> Seq<char> {
    "- "@ + time + " — "@ + text + suffix
}

/// The entry written for a classified note, given the time of day used for logs.
pub open spec fn daily_note_entry(
    category: NoteCategory,
    markdown: Seq<char>,
    tags: Seq<Seq<char>>,
    time: Seq<char>,
) -> Seq<char> {
    match category {
        NoteCategory::Log => log_line(time, log_entry_text(markdown), tags_suffix(tags)),
        _ => markdown + tags_suffix(tags),
    }
}

/// The hashtags of `tags`, separated by single spaces.
pub fn hashtag_line(tags: &[String]) -> (r: Vec<char>)
    ensures
        r@ == hashtags(string_views(tags@)),
{
    let mut words: Vec<Vec<char>> = Vec::new();
    let mut i: usize = 0;
    while i < tags.len()
        invariant
            i <= tags.len(),
            crate::text::views(words@) == hashtag_words(string_views(tags@)).take(i as int),
        decreases tags.len() - i,
    {
        let mut w: Vec<char> = Vec::new();
        w.push('#');
        let t = chars_of_string(&tags[i]);
        push_all(&mut w, &t);
        assert(w@ =~= seq!['#'] + string_views(tags@)[i as int]);
        let ghost before = crate::text::views(words@);
        words.push(w);
        assert(crate::text::views(words@) =~= before.push(seq!['#'] + string_views(tags@)[i as int]));
        i = i + 1;
        assert(crate::text::views(words@) =~= hashtag_words(string_views(tags@)).take(i as int));
    }
    assert(hashtag_words(string_views(tags@)).take(tags.len() as int) =~= hashtag_words(
        string_views(tags@),
    ));
    let sep: Vec<char> = vec![' '];
    assert(sep@ =~= seq![' ']);
    join_parts(&words, &sep)
}

/// Appends the tag suffix of `tags` to `out`.
fn push_tags_suffix(out: &mut Vec<char>, tags: &[String])
    ensures
        final(out)@ == old(out)@ + tags_suffix(string_views(tags@)),
{
    if tags.len() > 0 {
        out.push(' ');
        let h = hashtag_line(tags);
        let ghost mid = out@;
        push_all(out, &h);
        assert(out@ =~= old(out)@ + (seq![' '] + hashtags(string_views(tags@))));
    } else {
        assert(old(out)@ + tags_suffix(string_views(tags@)) =~= old(out)@);
    }
}

/// The entry for a classified note with the given time of day (used by log entries).
pub fn format_entry_at(note: &ClassifiedNote, time: &str) -> (r: String)
    ensures
        r@ == daily_note_entry(note.category, note.markdown@, string_views(note.tags@), time@),
{
    let mut out: Vec<char> = Vec::new();
    match note.category {
        NoteCategory::Log => {
            let md = chars_of_string(&note.markdown);
            let marker = chars_of("- ");
            let stripped = stripped_leading(&md, &marker);
            let text = trimmed(&stripped);
            push_str(&mut out, "- ");
            push_str(&mut out, time);
            push_str(&mut out, " — ");
            push_all(&mut out, &text);
            push_tags_suffix(&mut out, &note.tags);
            assert(out@ =~= log_line(time@, log_entry_text(note.markdown@), tags_suffix(string_views(note.tags@))));
        },
        _ => {
            push_str(&mut out, note.markdown.as_str());
            push_tags_suffix(&mut out, &note.tags);
        },
    }
    string_of(&out)
}

/// The heading of the section for category `c`.
pub fn section_heading(c: NoteCategory) -> (r: &'static str)
    ensures
        r@ == section_for(c),
{
    match c {
        NoteCategory::Todo => "## ✅ Todos",
        NoteCategory::Log => "## 📋 Log",
        NoteCategory::Note => "## 📝 Notes",
    }
}

/// The current time of day as chrono writes `%H:%M`: two-digit hour and minute.
pub fn current_hh_mm() -> (r: String)
    ensures
        is_hh_mm(r@),
        exists|t: crate::clock::LocalDateTime| crate::clock::valid_date_time(t) && r@ == crate::clock::hm_text(t),
{
    let now = local_now();
    let formatted = format_date_time(&now, "%H:%M");
    match formatted {
        Some(s) => s,
        None => {
            proof {
                assert(false);
            }
            String::new()
        },
    }
}

/// Format a classified note for insertion into the daily note.
/// Returns (section_heading, formatted_content); log entries carry the
/// current local time as `HH:MM`.
pub fn format_for_daily_note(note: &ClassifiedNote) -> (r: (&'static str, String))
    ensures
        r.0@ == section_for(note.category),
        exists|time: Seq<char>|
            is_hh_mm(time) && r.1@ == daily_note_entry(
                note.category,
                note.markdown@,
                string_views(note.tags@),
                time,
            ),
{
    let time = current_hh_mm();
    let content = format_entry_at(note, time.as_str());
    (section_heading(note.category), content)
}

/// The raw log line for `text` at `time`.
pub open spec fn raw_entry(time: Seq<char>, text: Seq<char>) -> Seq<char> {
    "- "@ + time + " — "@ + text
}

/// The raw log line for `text` at the given time of day.
pub fn format_raw_entry_at(text: &str, time: &str) -> (r: String)
    ensures
        r@ == raw_entry(time@, text@),
{
    let mut out: Vec<char> = Vec::new();
    push_str(&mut out, "- ");
    push_str(&mut out, time);
    push_str(&mut out, " — ");
    push_str(&mut out, text);
    assert(out@ =~= raw_entry(time@, text@));
    string_of(&out)
}

/// Create a simple text entry without AI classification.
/// Used as a fallback when AI is unavailable.
pub fn format_raw_entry(text: &str) -> (r: (&'static str, String))
    ensures
        r.0@ == log_heading(),
        exists|time: Seq<char>| is_hh_mm(time) && r.1@ == raw_entry(time, text@),
{
    let time = current_hh_mm();
    ("## 📋 Log", format_raw_entry_at(text, time.as_str()))
}

/// The first line of a URL todo: the checkbox and the link (or bare URL),
/// followed by the transcript wiki-link when there is one.
pub open spec fn url_title_line(
    url: Seq<char>,
    title: Option<Seq<char>>,
    transcript_link: Option<Seq<char>>,
) -> Seq<char> {
    let base = match title {
        Some(t) => "- [ ] ["@ + t + "]("@ + url + ")"@,
        None => "- [ ] "@ + url,
    };
    match transcript_link {
        Some(l) => base + " — [["@ + l + "]]"@,
        None => base,
    }
}

/// The quoted summary line of a URL todo.
pub open spec fn url_summary_line(summary: Option<Seq<char>>) -> Seq<char> {
    match summary {
        Some(s) => "  > "@ + s,
        None => "  > ⚠️ Could not fetch page content"@,
    }
}

/// The markdown of a URL todo.
pub open spec fn url_todo(
    url: Seq<char>,
    title: Option<Seq<char>>,
    summary: Option<Seq<char>>,
    tags: Seq<Seq<char>>,
    transcript_link: Option<Seq<char>>,
    video_name: Option<Seq<char>>,
) -> Seq<char> {
    let body = url_title_line(url, title, transcript_link) + "\n"@ + url_summary_line(summary)
        + url_tag_line(tags);
    match video_name {
        Some(n) => "### "@ + n + "\n"@ + body,
        None => body,
    }
}

/// No line break in `s`.
pub open spec fn one_line(s: Seq<char>) -> bool {
    forall|i: int| 0 <= i < s.len() ==> s[i] != '\n'
}

/// The lines of a URL todo: the video heading when there is a video name,
/// the title line, the summary line, and the tag line when there are tags.
pub open spec fn url_todo_lines(
    url: Seq<char>,
    title: Option<Seq<char>>,
    summary: Option<Seq<char>>,
    tags: Seq<Seq<char>>,
    transcript_link: Option<Seq<char>>,
    video_name: Option<Seq<char>>,
) -> Seq<Seq<char>> {
    let head: Seq<Seq<char>> = match video_name {
        Some(n) => seq!["### "@ + n],
        None => Seq::empty(),
    };
    let tail: Seq<Seq<char>> = if tags.len() == 0 {
        Seq::empty()
    } else {
        seq!["  "@ + hashtags(tags)]
    };
    head + seq![url_title_line(url, title, transcript_link), url_summary_line(summary)] + tail
}

proof fn lemma_one_line_concat(a: Seq<char>, b: Seq<char>)
    requires
        one_line(a),
        one_line(b),
    ensures
        one_line(a + b),
{
    assert forall|i: int| 0 <= i < (a + b).len() implies (a + b)[i] != '\n' by {
        if i < a.len() {
            assert((a + b)[i] == a[i]);
        } else {
            assert((a + b)[i] == b[i - a.len()]);
        }
    }
}

proof fn lemma_one_line_join(parts: Seq<Seq<char>>, sep: Seq<char>)
    requires
        one_line(sep),
        forall|i: int| 0 <= i < parts.len() ==> one_line(#[trigger] parts[i]),
    ensures
        one_line(join(parts, sep)),
    decreases parts.len(),
{
    if parts.len() > 1 {
        let d = parts.drop_last();
        assert forall|i: int| 0 <= i < d.len() implies one_line(#[trigger] d[i]) by {
            assert(d[i] == parts[i]);
        }
        lemma_one_line_join(d, sep);
        lemma_one_line_concat(join(d, sep), sep);
        assert(one_line(parts[parts.len() - 1]));
        lemma_one_line_concat(join(d, sep) + sep, parts.last());
    } else if parts.len() == 1 {
        assert(one_line(parts[0]));
    }
}

/// The layout of a URL todo: its text is its lines joined by line breaks;
/// two lines, one more for a video name (a `### ` heading first) and one
/// more for tags (last); the title line carries the transcript link, the
/// summary line the summary or the notice that the page could not be
/// fetched. When no argument holds a line break, neither does any line, so
/// these are the lines of the text.
#[verifier::spinoff_prover]
#[verifier::rlimit(60)]
pub proof fn lemma_url_todo_layout(
    url: Seq<char>,
    title: Option<Seq<char>>,
    summary: Option<Seq<char>>,
    tags: Seq<Seq<char>>,
    transcript_link: Option<Seq<char>>,
    video_name: Option<Seq<char>>,
)
    ensures
        ({
            let ls = url_todo_lines(url, title, summary, tags, transcript_link, video_name);
            let h: int = if video_name is Some { 1 } else { 0 };
            &&& url_todo(url, title, summary, tags, transcript_link, video_name) == join(ls, "\n"@)
            &&& ls.len() == 2 + h + (if tags.len() > 0 { 1int } else { 0int })
            &&& (video_name matches Some(n) ==> ls[0] == "### "@ + n)
            &&& ls[h] == url_title_line(url, title, transcript_link)
            &&& ls[h + 1] == url_summary_line(summary)
            &&& (tags.len() > 0 ==> ls.last() == "  "@ + hashtags(tags))
            &&& (one_line(url) && (title matches Some(t) ==> one_line(t)) && (summary matches Some(s) ==> one_line(s))
                && (transcript_link matches Some(l) ==> one_line(l)) && (video_name matches Some(n) ==> one_line(n))
                && (forall|i: int| 0 <= i < tags.len() ==> one_line(#[trigger] tags[i]))
                ==> forall|i: int| 0 <= i < ls.len() ==> one_line(#[trigger] ls[i]))
        }),
{
    reveal_strlit("\n");
    reveal_strlit("### ");
    reveal_strlit("  ");
    reveal_strlit("- [ ] [");
    reveal_strlit("](");
    reveal_strlit(")");
    reveal_strlit("- [ ] ");
    reveal_strlit(" — [[");
    reveal_strlit("]]");
    reveal_strlit("  > ");
    reveal_strlit("  > ⚠️ Could not fetch page content");
    reveal_with_fuel(join, 5);
    let ls = url_todo_lines(url, title, summary, tags, transcript_link, video_name);
    let tl = url_title_line(url, title, transcript_link);
    let sl = url_summary_line(summary);
    let nl = "\n"@;
    let tag_l = "  "@ + hashtags(tags);
    match video_name {
        Some(n) => {
            if tags.len() == 0 {
                assert(ls =~= seq!["### "@ + n, tl, sl]);
                assert(join(ls, nl) =~= ("### "@ + n) + nl + tl + nl + sl);
            } else {
                assert(ls =~= seq!["### "@ + n, tl, sl, tag_l]);
                assert(join(ls, nl) =~= ("### "@ + n) + nl + tl + nl + sl + nl + tag_l);
            }
        },
        None => {
            if tags.len() == 0 {
                assert(ls =~= seq![tl, sl]);
                assert(join(ls, nl) =~= tl + nl + sl);
            } else {
                assert(ls =~= seq![tl, sl, tag_l]);
                assert(join(ls, nl) =~= tl + nl + sl + nl + tag_l);
            }
        },
    }
    if one_line(url) && (title matches Some(t) ==> one_line(t)) && (summary matches Some(s) ==> one_line(s))
        && (transcript_link matches Some(l) ==> one_line(l)) && (video_name matches Some(n) ==> one_line(n))
        && (forall|i: int| 0 <= i < tags.len() ==> one_line(#[trigger] tags[i])) {
        let base = match title {
            Some(t) => {
                lemma_one_line_concat("- [ ] ["@, t);
                lemma_one_line_concat("- [ ] ["@ + t, "]("@);
                lemma_one_line_concat("- [ ] ["@ + t + "]("@, url);
                lemma_one_line_concat("- [ ] ["@ + t + "]("@ + url, ")"@);
                "- [ ] ["@ + t + "]("@ + url + ")"@
            },
            None => {
                lemma_one_line_concat("- [ ] "@, url);
                "- [ ] "@ + url
            },
        };
        if let Some(l) = transcript_link {
            lemma_one_line_concat(base, " — [["@);
            lemma_one_line_concat(base + " — [["@, l);
            lemma_one_line_concat(base + " — [["@ + l, "]]"@);
        }
        assert(one_line(tl));
        if let Some(s) = summary {
            lemma_one_line_concat("  > "@, s);
        }
        assert(one_line(sl));
        if let Some(n) = video_name {
            lemma_one_line_concat("### "@, n);
        }
        if tags.len() > 0 {
            let ws = hashtag_words(tags);
            assert forall|i: int| 0 <= i < ws.len() implies one_line(#[trigger] ws[i]) by {
                assert(one_line(tags[i]));
                lemma_one_line_concat(seq!['#'], tags[i]);
            }
            lemma_one_line_join(ws, seq![' ']);
            lemma_one_line_concat("  "@, hashtags(tags));
        }
    }
}

/// Format URL metadata into a TODO markdown entry for the daily note's `## ✅ Todos` section.
/// Returns (section_heading, formatted_content).
///
/// With video name: `### My Video\n- [ ] [Title](url) — [[transcript/path]]\n  > summary\n  #tag1 #tag2`
/// Full: `- [ ] [Title](url) — [[transcript/path]]\n  > summary\n  #tag1 #tag2`
/// Without summary: `- [ ] [Title](url)\n  > ⚠️ Could not fetch page content`
/// Without title: `- [ ] url\n  > summary`
pub fn format_url_todo(
    url: &str,
    title: Option<&str>,
    summary: Option<&str>,
    tags: &[String],
    transcript_link: Option<&str>,
    video_name: Option<&str>,
) -> (r: (&'static str, String))
    ensures
        r.0@ == todos_heading(),
        r.1@ == url_todo(
            url@,
            opt_str_view(title),
            opt_str_view(summary),
            string_views(tags@),
            opt_str_view(transcript_link),
            opt_str_view(video_name),
        ),
{
    let mut body: Vec<char> = Vec::new();
    push_url_title_line(&mut body, url, title, transcript_link);
    push_str(&mut body, "\n");
    push_url_summary_line(&mut body, summary);
    push_url_tag_line(&mut body, tags);
    let ghost bv = url_title_line(url@, opt_str_view(title), opt_str_view(transcript_link)) + "\n"@
        + url_summary_line(opt_str_view(summary)) + url_tag_line(string_views(tags@));
    assert(body@ =~= bv);
    let mut out: Vec<char> = Vec::new();
    if let Some(name) = video_name {
        push_str(&mut out, "### ");
        push_str(&mut out, name);
        push_str(&mut out, "\n");
    }
    push_all(&mut out, &body);
    assert(out@ =~= url_todo(
        url@,
        opt_str_view(title),
        opt_str_view(summary),
        string_views(tags@),
        opt_str_view(transcript_link),
        opt_str_view(video_name),
    ));
    ("## ✅ Todos", string_of(&out))
}

/// The tag line of a URL todo, with its leading line break; empty without tags.
pub open spec fn url_tag_line(tags: Seq<Seq<char>>) -> Seq<char> {
    if tags.len() == 0 {
        Seq::empty()
    } else {
        "\n"@ + "  "@ + hashtags(tags)
    }
}

fn push_url_title_line(
    out: &mut Vec<char>,
    url: &str,
    title: Option<&str>,
    transcript_link: Option<&str>,
)
    ensures
        final(out)@ == old(out)@ + url_title_line(url@, opt_str_view(title), opt_str_view(transcript_link)),
{
    match title {
        Some(t) => {
            push_str(out, "- [ ] [");
            push_str(out, t);
            push_str(out, "](");
            push_str(out, url);
            push_str(out, ")");
        },
        None => {
            push_str(out, "- [ ] ");
            push_str(out, url);
        },
    }
    if let Some(l) = transcript_link {
        push_str(out, " — [[");
        push_str(out, l);
        push_str(out, "]]");
    }
    assert(out@ =~= old(out)@ + url_title_line(url@, opt_str_view(title), opt_str_view(transcript_link)));
}

fn push_url_summary_line(out: &mut Vec<char>, summary: Option<&str>)
    ensures
        final(out)@ == old(out)@ + url_summary_line(opt_str_view(summary)),
{
    match summary {
        Some(s) => {
            push_str(out, "  > ");
            push_str(out, s);
            assert(out@ =~= old(out)@ + url_summary_line(opt_str_view(summary)));
        },
        None => {
            push_str(out, "  > ⚠️ Could not fetch page content");
        },
    }
}

fn push_url_tag_line(out: &mut Vec<char>, tags: &[String])
    ensures
        final(out)@ == old(out)@ + url_tag_line(string_views(tags@)),
{
    if tags.len() > 0 {
        push_str(out, "\n");
        push_str(out, "  ");
        let h = hashtag_line(tags);
        push_all(out, &h);
        assert(out@ =~= old(out)@ + url_tag_line(string_views(tags@)));
    } else {
        assert(out@ =~= old(out)@ + url_tag_line(string_views(tags@)));
    }
}

} // verus!
