//! Links in a message: how many are processed, what each becomes in the
//! daily note, and the replies sent back.
use vstd::prelude::*;
use crate::ai::summarize::UrlSummary;
use crate::text::{
    chars_of, chars_of_string, contains, decimal, has_substring, join, join_parts, push_all,
    push_decimal, push_str, split_at_char, split_on, string_of, string_views, views,
};
use crate::url::detect::{asks_transcript, is_transcript_request, DetectedUrl, UrlType};
use crate::url::extract::PageContent;
use crate::url::youtube::YouTubeMetadata;
use crate::utils::{byte_prefix, prefix_within, utf8_len, utf8_len_of};

verus! {

/// The most bytes a Telegram message may hold.
pub const TELEGRAM_MAX_MESSAGE_LENGTH: usize = 4096;

/// A request for the full transcript of a video, kept until its button is pressed.
#[derive(Clone, Debug)]
pub struct TranscriptRequest {
    pub video_id: String,
    pub url: String,
    pub title: String,
}

/// Keeps at most `max_urls` of the links, and says whether any were dropped.
pub fn enforce_url_limit(urls: Vec<DetectedUrl>, max_urls: usize) -> (r: (Vec<DetectedUrl>, bool))
    ensures
        r.1 == (urls@.len() > max_urls),
        r.0@ == if urls@.len() > max_urls {
            urls@.take(max_urls as int)
        } else {
            urls@
        },
{
    if urls.len() > max_urls {
        let mut kept = urls;
        kept.truncate(max_urls);
        (kept, true)
    } else {
        (urls, false)
    }
}

/// The reply sent before the links are fetched.
pub open spec fn processing_message(count: nat) -> Seq<char> {
    "🔗 Processing "@ + decimal(count) + " link(s)..."@
}

/// The reply sent before the links are fetched.
pub fn build_processing_message(count: usize) -> (r: String)
    ensures
        r@ == processing_message(count as nat),
{
    let mut out = chars_of("🔗 Processing ");
    push_decimal(&mut out, count as u64);
    push_str(&mut out, " link(s)...");
    string_of(&out)
}

/// The final reply: how many links were saved, a note when links were
/// dropped, and one result line per link.
pub open spec fn confirmation_text(
    success: nat,
    processed: nat,
    total: nat,
    max: nat,
    truncated: bool,
    results: Seq<Seq<char>>,
) -> Seq<char> {
    let head = if success == processed {
        "📝 Saved "@ + decimal(success) + " URL(s) as TODO(s)"@
    } else {
        "📝 Saved "@ + decimal(success) + "/"@ + decimal(processed) + " URL(s) as TODO(s)"@
    };
    let warn = if truncated {
        "\n\n⚠️ Message contained "@ + decimal(total) + " URLs (max: "@ + decimal(max)
            + "). Only processed first "@ + decimal(max) + "."@
    } else {
        Seq::empty()
    };
    let list = if results.len() > 0 {
        "\n\n"@ + join(results, "\n"@)
    } else {
        Seq::empty()
    };
    head + warn + list
}

/// The final reply to a message with links.
pub fn build_confirmation_message(
    success_count: usize,
    processed_count: usize,
    total_urls: usize,
    max_urls: usize,
    truncated: bool,
    results: &[String],
) -> (r: String)
    ensures
        r@ == confirmation_text(
            success_count as nat,
            processed_count as nat,
            total_urls as nat,
            max_urls as nat,
            truncated,
            string_views(results@),
        ),
{
    let mut out = chars_of("📝 Saved ");
    push_decimal(&mut out, success_count as u64);
    if success_count != processed_count {
        push_str(&mut out, "/");
        push_decimal(&mut out, processed_count as u64);
    }
    push_str(&mut out, " URL(s) as TODO(s)");
    let ghost head = out@;
    if truncated {
        push_str(&mut out, "\n\n⚠️ Message contained ");
        push_decimal(&mut out, total_urls as u64);
        push_str(&mut out, " URLs (max: ");
        push_decimal(&mut out, max_urls as u64);
        push_str(&mut out, "). Only processed first ");
        push_decimal(&mut out, max_urls as u64);
        push_str(&mut out, ".");
    }
    let ghost with_warn = out@;
    if results.len() > 0 {
        push_str(&mut out, "\n\n");
        let parts = strings_to_parts(results);
        let nl = chars_of("\n");
        let joined = join_parts(&parts, &nl);
        push_all(&mut out, &joined);
    }
    assert(out@ =~= confirmation_text(
        success_count as nat,
        processed_count as nat,
        total_urls as nat,
        max_urls as nat,
        truncated,
        string_views(results@),
    ));
    string_of(&out)
}

/// The strings as character vectors.
pub fn strings_to_parts(v: &[String]) -> (r: Vec<Vec<char>>)
    ensures
        views(r@) == string_views(v@),
{
    let mut out: Vec<Vec<char>> = Vec::new();
    let mut i: usize = 0;
    while i < v.len()
        invariant
            i <= v.len(),
            views(out@) == string_views(v@).take(i as int),
        decreases v.len() - i,
    {
        let ghost before = views(out@);
        out.push(chars_of_string(&v[i]));
        assert(views(out@) =~= before.push(v@[i as int]@));
        i = i + 1;
        assert(views(out@) =~= string_views(v@).take(i as int));
    }
    assert(string_views(v@).take(v.len() as int) =~= string_views(v@));
    out
}

/// `s` cut at the last character boundary within `max` bytes when longer.
pub open spec fn cut_to_boundary(s: Seq<char>, max: nat) -> Seq<char> {
    if utf8_len(s) <= max {
        s
    } else {
        byte_prefix(s, max)
    }
}

/// Truncate a string to at most `max_bytes` bytes, ensuring we don't split a UTF-8 char.
/// Finds the largest valid char boundary at or before `max_bytes`.
pub fn truncate_to_char_boundary(s: &mut String, max_bytes: usize)
    requires
        utf8_len(old(s)@) < usize::MAX,
    ensures
        final(s)@ == cut_to_boundary(old(s)@, max_bytes as nat),
{
    let cs = chars_of_string(s);
    let n = utf8_len_of(&cs);
    if n <= max_bytes {
        return;
    }
    let p = prefix_within(&cs, max_bytes);
    *s = string_of(&p);
}

/// A line holding a result mark (`✅` or `❌`).
pub open spec fn is_result_line(l: Seq<char>) -> bool {
    contains(l, "✅"@) || contains(l, "❌"@)
}

/// The index of the first result line, or 0 when there is none.
pub open spec fn first_result_line(ls: Seq<Seq<char>>, i: int) -> int
    decreases ls.len() - i,
{
    if i >= ls.len() {
        0
    } else if is_result_line(ls[i]) {
        i
    } else {
        first_result_line(ls, i + 1)
    }
}

/// The reply with the header lines and the first `k` result lines.
pub open spec fn with_results(header: Seq<Seq<char>>, results: Seq<Seq<char>>, k: int) -> Seq<char> {
    join(header, "\n"@) + "\n\n"@ + join(results.take(k), "\n"@)
}

/// How many result lines fit, trying from all of them downwards.
pub open spec fn kept_results(header: Seq<Seq<char>>, results: Seq<Seq<char>>, k: int) -> int
    decreases k,
{
    if k <= 0 || utf8_len(with_results(header, results, k)) <= 4096 {
        if k < 0 { 0 } else { k }
    } else {
        kept_results(header, results, k - 1)
    }
}

/// A text cut to 4093 bytes with `...` appended when over the limit.
pub open spec fn hard_cut(m: Seq<char>) -> Seq<char> {
    if utf8_len(m) > 4096 {
        cut_to_boundary(m, 4093) + "..."@
    } else {
        m
    }
}

/// A reply fitted into one Telegram message: kept whole when it fits;
/// else, when result lines follow a header, result lines are dropped from
/// the end until it fits and their number is noted; anything still too
/// long is cut at a character boundary and marked with `...`.
pub open spec fn fitted_confirmation(c: Seq<char>) -> Seq<char> {
    if utf8_len(c) <= 4096 {
        c
    } else {
        let ls = split_on(c, '\n');
        let h = first_result_line(ls, 0);
        if h == 0 {
            hard_cut(c)
        } else {
            let header = ls.take(h);
            let results = ls.skip(h);
            let k = kept_results(header, results, results.len() as int);
            let removed = results.len() - k;
            let m = with_results(header, results, k);
            let noted = if removed > 0 {
                m + "\n\n... ("@ + decimal(removed as nat) + " more URLs not shown)"@
            } else {
                m
            };
            hard_cut(noted)
        }
    }
}

/// Cutting at a character boundary keeps a prefix of `s` of at most `max`
/// bytes, the longest one: the whole of `s` when it fits.
pub proof fn lemma_cut_to_boundary(s: Seq<char>, max: nat)
    ensures
        cut_to_boundary(s, max) == s.take(cut_to_boundary(s, max).len() as int),
        cut_to_boundary(s, max).len() <= s.len(),
        utf8_len(cut_to_boundary(s, max)) <= max,
        cut_to_boundary(s, max).len() < s.len() ==> utf8_len(
            s.take(cut_to_boundary(s, max).len() as int + 1),
        ) > max,
{
    crate::utils::lemma_byte_prefix_fits(s, max);
    if utf8_len(s) <= max {
        assert(s.take(s.len() as int) =~= s);
    }
}

proof fn lemma_dots_len()
    ensures
        utf8_len("..."@) == 3,
{
    reveal_strlit("...");
    crate::utils::lemma_ascii_prefix_len("..."@, 3);
    assert("..."@.take(3) =~= "..."@);
}

proof fn lemma_hard_cut_fits(m: Seq<char>)
    ensures
        utf8_len(hard_cut(m)) <= 4096,
{
    if utf8_len(m) > 4096 {
        lemma_cut_to_boundary(m, 4093);
        lemma_dots_len();
        crate::utils::lemma_encode_utf8_concat(cut_to_boundary(m, 4093), "..."@);
    }
}

/// The reply to a message with links always fits one Telegram message:
/// at most 4096 bytes.
pub proof fn lemma_fitted_confirmation_fits(c: Seq<char>)
    ensures
        utf8_len(fitted_confirmation(c)) <= 4096,
{
    if utf8_len(c) > 4096 {
        let ls = split_on(c, '\n');
        let h = first_result_line(ls, 0);
        if h == 0 {
            lemma_hard_cut_fits(c);
        } else {
            let header = ls.take(h);
            let results = ls.skip(h);
            let k = kept_results(header, results, results.len() as int);
            let removed = results.len() - k;
            let m = with_results(header, results, k);
            let noted = if removed > 0 {
                m + "\n\n... ("@ + decimal(removed as nat) + " more URLs not shown)"@
            } else {
                m
            };
            lemma_hard_cut_fits(noted);
        }
    }
}

fn has_result_mark(l: &Vec<char>) -> (r: bool)
    ensures
        r == is_result_line(l@),
{
    has_substring(l, &chars_of("✅")) || has_substring(l, &chars_of("❌"))
}

fn join_lines_range(ls: &Vec<Vec<char>>, lo: usize, hi: usize) -> (r: Vec<char>)
    requires
        lo <= hi <= ls.len(),
    ensures
        r@ == join(views(ls@).subrange(lo as int, hi as int), "\n"@),
{
    let mut part: Vec<Vec<char>> = Vec::new();
    let mut i = lo;
    while i < hi
        invariant
            lo <= i <= hi,
            hi <= ls.len(),
            views(part@) == views(ls@).subrange(lo as int, i as int),
        decreases hi - i,
    {
        let ghost before = views(part@);
        part.push(ls[i].clone());
        assert(views(part@) =~= before.push(ls@[i as int]@));
        i = i + 1;
        assert(views(part@) =~= views(ls@).subrange(lo as int, i as int));
    }
    let nl = chars_of("\n");
    join_parts(&part, &nl)
}

fn cut_hard(m: Vec<char>) -> (r: Vec<char>)
    ensures
        r@ == hard_cut(m@),
{
    if utf8_len_of(&m) > 4096 {
        let mut p = prefix_within(&m, 4093);
        proof {
            assert(utf8_len(m@) > 4093);
        }
        push_str(&mut p, "...");
        p
    } else {
        m
    }
}

/// Fits the final reply into one Telegram message of 4096 bytes.
pub fn truncate_confirmation_if_needed(confirmation: String) -> (r: String)
    ensures
        r@ == fitted_confirmation(confirmation@),
{
    let c = chars_of_string(&confirmation);
    if utf8_len_of(&c) <= 4096 {
        return confirmation;
    }
    let ls = split_at_char(&c, '\n');
    let ghost lsv = views(ls@);
    let mut h: usize = 0;
    while h < ls.len() && !has_result_mark(&ls[h])
        invariant
            h <= ls.len(),
            lsv == views(ls@),
            first_result_line(lsv, 0) == first_result_line(lsv, h as int),
        decreases ls.len() - h,
    {
        h = h + 1;
    }
    if h == ls.len() {
        h = 0;
    }
    if h == 0 {
        return string_of(&cut_hard(c));
    }
    let ghost header = lsv.take(h as int);
    let ghost results = lsv.skip(h as int);
    let head = join_lines_range(&ls, 0, h);
    assert(lsv.subrange(0, h as int) =~= header);
    let n = ls.len() - h;
    let mut kept = n;
    let mut message = head.clone();
    push_str(&mut message, "\n\n");
    let tail = join_lines_range(&ls, h, ls.len());
    push_all(&mut message, &tail);
    assert(lsv.subrange(h as int, ls.len() as int) =~= results.take(n as int));
    assert(results.len() == n);
    while utf8_len_of(&message) > 4096 && kept > 0
        invariant
            kept <= n,
            n == ls.len() - h,
            0 < h < ls.len(),
            lsv == views(ls@),
            header == lsv.take(h as int),
            results == lsv.skip(h as int),
            head@ == join(header, "\n"@),
            message@ == with_results(header, results, kept as int),
            kept_results(header, results, n as int) == kept_results(header, results, kept as int),
        decreases kept,
    {
        kept = kept - 1;
        message = head.clone();
        push_str(&mut message, "\n\n");
        let t = join_lines_range(&ls, h, h + kept);
        assert(lsv.subrange(h as int, h + kept) =~= results.take(kept as int));
        push_all(&mut message, &t);
    }
    let removed = n - kept;
    if removed > 0 {
        push_str(&mut message, "\n\n... (");
        push_decimal(&mut message, removed as u64);
        push_str(&mut message, " more URLs not shown)");
    }
    string_of(&cut_hard(message))
}

/// What became of one link of a message.
#[derive(Clone, Debug)]
pub enum LinkOutcome {
    /// Its entry was written to the daily note (`saved`) or the write
    /// failed; it is reported under `title`, else its URL.
    Written { title: Option<String>, url: String, saved: bool },
    /// Its transcript could not be made; the user was told on the spot
    /// and it is left out of the final reply.
    Skipped,
}

/// How many links were saved.
pub open spec fn saved_count(os: Seq<LinkOutcome>) -> nat
    decreases os.len(),
{
    if os.len() == 0 {
        0
    } else {
        saved_count(os.drop_last()) + match os.last() {
            LinkOutcome::Written { saved, .. } => if saved { 1nat } else { 0nat },
            LinkOutcome::Skipped => 0nat,
        }
    }
}

/// The result lines of the links that are reported, in order.
pub open spec fn result_lines(os: Seq<LinkOutcome>) -> Seq<Seq<char>>
    decreases os.len(),
{
    if os.len() == 0 {
        Seq::empty()
    } else {
        let r = result_lines(os.drop_last());
        match os.last() {
            LinkOutcome::Written { title, url, saved } => r.push(
                result_item(crate::text::opt_string_view(title), url@, saved),
            ),
            LinkOutcome::Skipped => r,
        }
    }
}

proof fn lemma_saved_count_bound(os: Seq<LinkOutcome>)
    ensures
        saved_count(os) <= os.len(),
    decreases os.len(),
{
    if os.len() > 0 {
        lemma_saved_count_bound(os.drop_last());
    }
}

/// The final reply to a message with links, from what became of each of
/// the processed links, and whether the sync is to be notified (once, when
/// any link was saved).
pub fn links_report(outcomes: &Vec<LinkOutcome>, total_urls: usize, max_urls: usize, truncated: bool) -> (r: (String, bool))
    ensures
        r.0@ == fitted_confirmation(
            confirmation_text(
                saved_count(outcomes@),
                outcomes@.len(),
                total_urls as nat,
                max_urls as nat,
                truncated,
                result_lines(outcomes@),
            ),
        ),
        r.1 == (saved_count(outcomes@) > 0),
{
    let mut saved: usize = 0;
    let mut results: Vec<String> = Vec::new();
    let mut i: usize = 0;
    while i < outcomes.len()
        invariant
            i <= outcomes.len(),
            saved as nat == saved_count(outcomes@.take(i as int)),
            string_views(results@) == result_lines(outcomes@.take(i as int)),
        decreases outcomes.len() - i,
    {
        proof {
            assert(outcomes@.take(i as int + 1).drop_last() =~= outcomes@.take(i as int));
            lemma_saved_count_bound(outcomes@.take(i as int));
        }
        match &outcomes[i] {
            LinkOutcome::Written { title, url, saved: ok } => {
                if *ok {
                    saved = saved + 1;
                }
                let line = format_result_item(
                    match title {
                        Some(t) => Some(t.as_str()),
                        None => None,
                    },
                    url.as_str(),
                    *ok,
                );
                let ghost before = string_views(results@);
                results.push(line);
                assert(string_views(results@) =~= before.push(results@[results@.len() - 1]@));
            },
            LinkOutcome::Skipped => {},
        }
        i = i + 1;
    }
    assert(outcomes@.take(outcomes.len() as int) =~= outcomes@);
    let confirmation = build_confirmation_message(saved, outcomes.len(), total_urls, max_urls, truncated, &results);
    (truncate_confirmation_if_needed(confirmation), saved > 0)
}

/// A result line: the title (or the URL) cut to 50 characters, marked as
/// saved or as failed.
pub open spec fn result_item(title: Option<Seq<char>>, url: Seq<char>, success: bool) -> Seq<char> {
    let label_full = match title {
        Some(t) => t,
        None => url,
    };
    let label = if label_full.len() <= 50 { label_full } else { label_full.take(50) };
    if success {
        "✅ "@ + label
    } else {
        "❌ "@ + label + " (write failed)"@
    }
}

/// A result line for one link.
pub fn format_result_item(title: Option<&str>, url: &str, success: bool) -> (r: String)
    ensures
        r@ == result_item(crate::text::opt_str_view(title), url@, success),
{
    let label_src = match title {
        Some(t) => t,
        None => url,
    };
    let label = crate::utils::truncate_chars(label_src, 50);
    let mut out = if success {
        chars_of("✅ ")
    } else {
        chars_of("❌ ")
    };
    push_str(&mut out, label.as_str());
    if !success {
        push_str(&mut out, " (write failed)");
    }
    string_of(&out)
}

/// Graceful degradation: a link whose page could not be fetched (no title,
/// summary or tags) is still saved, as a plain todo with the bare URL.
pub proof fn lemma_unfetched_link_is_plain_todo(url: Seq<char>)
    ensures
        crate::vault::writer::url_todo(url, None, None, Seq::empty(), None, None)
            == "- [ ] "@ + url + "\n  > ⚠️ Could not fetch page content"@,
{
    reveal_strlit("\n");
    reveal_strlit("  > ⚠️ Could not fetch page content");
    reveal_strlit("\n  > ⚠️ Could not fetch page content");
    assert(crate::vault::writer::url_todo(url, None, None, Seq::empty(), None, None)
        =~= "- [ ] "@ + url + "\n  > ⚠️ Could not fetch page content"@);
}

/// What the summary attempt for one link gave.
#[derive(Debug, Clone)]
pub enum SummaryOutcome {
    /// The page could not be fetched.
    FetchFailed,
    /// The page was fetched and summarized.
    Summarized(UrlSummary),
    /// The page was fetched (with this title) but not summarized.
    SummaryFailed(Option<String>),
}

/// The title, summary and tags a link's todo is written with: the AI's
/// when it summarized, the page title alone when only the fetch worked,
/// nothing when the fetch failed.
pub fn todo_fields(outcome: SummaryOutcome) -> (r: (Option<String>, Option<String>, Vec<String>))
    ensures
        match outcome {
            SummaryOutcome::FetchFailed => r.0 is None && r.1 is None && r.2@.len() == 0,
            SummaryOutcome::Summarized(s) => r.0 == Some(s.title) && r.1 == Some(s.summary) && r.2 == s.tags,
            SummaryOutcome::SummaryFailed(t) => r.0 == t && r.1 is None && r.2@.len() == 0,
        },
{
    match outcome {
        SummaryOutcome::FetchFailed => (None, None, Vec::new()),
        SummaryOutcome::Summarized(s) => (Some(s.title), Some(s.summary), s.tags),
        SummaryOutcome::SummaryFailed(t) => (t, None, Vec::new()),
    }
}

/// A link takes the direct transcript path: a YouTube video in a message
/// asking for a transcript (the surrounding text, else the message text).
pub open spec fn direct_transcript(url_type: UrlType, surrounding: Option<Seq<char>>, message: Option<Seq<char>>) -> bool {
    url_type is YouTube && asks_transcript(match surrounding {
        Some(s) => s,
        None => match message {
            Some(m) => m,
            None => Seq::empty(),
        },
    })
}

/// Whether a link takes the direct transcript path.
pub fn is_transcript_direct_flow(url_type: &UrlType, surrounding_text: Option<&str>, message_text: Option<&str>) -> (r: bool)
    ensures
        r == direct_transcript(*url_type, crate::text::opt_str_view(surrounding_text), crate::text::opt_str_view(message_text)),
{
    match url_type {
        UrlType::YouTube { .. } => {
            let text = match surrounding_text {
                Some(s) => s,
                None => match message_text {
                    Some(m) => m,
                    None => {
                        let e = String::new();
                        return is_transcript_request(e.as_str());
                    },
                },
            };
            is_transcript_request(text)
        },
        UrlType::WebPage => false,
    }
}

/// The text handed to the URL handler besides the links: none when the
/// message is nothing but its links.
pub open spec fn surrounding_text_of(text: Seq<char>, urls: Seq<DetectedUrl>) -> Option<Seq<char>> {
    if forall|i: int| 0 <= i < urls.len() ==> crate::text::trim(text) == #[trigger] urls[i].url@ {
        None
    } else {
        Some(text)
    }
}

/// The text of a message other than its links, if any.
pub fn surrounding_text(text: &str, urls: &Vec<DetectedUrl>) -> (r: Option<String>)
    ensures
        crate::text::opt_string_view(r) == surrounding_text_of(text@, urls@),
{
    let t = crate::text::trimmed(&chars_of(text));
    let mut i: usize = 0;
    while i < urls.len()
        invariant
            i <= urls.len(),
            t@ == crate::text::trim(text@),
            forall|k: int| 0 <= k < i ==> t@ == #[trigger] urls@[k].url@,
        decreases urls.len() - i,
    {
        if !crate::url::detect::same_chars(&t, &chars_of_string(&urls[i].url)) {
            assert(t@ != urls@[i as int].url@);
            return Some(text.to_owned());
        }
        i = i + 1;
    }
    None
}

/// The page content of a video: the title and author, and the description
/// when yt-dlp gave one (else a line naming the author).
pub open spec fn video_page(url: Seq<char>, title: Seq<char>, author: Seq<char>, description: Option<Seq<char>>) -> (Seq<char>, Seq<char>) {
    match description {
        Some(d) => (title + "\n\nBy: "@ + author + "\n\nDescription:\n"@ + d, d),
        None => (title + "\n\nBy: "@ + author, "YouTube video by "@ + author),
    }
}

/// The page content of a YouTube video from its metadata and description.
pub fn youtube_page_content(url: &str, metadata: &YouTubeMetadata, description: Option<String>) -> (r: PageContent)
    ensures
        crate::text::opt_string_view(r.title) == Some(metadata.title@),
        r.body_text@ == video_page(url@, metadata.title@, metadata.author@, crate::text::opt_string_view(description)).0,
        crate::text::opt_string_view(r.description) == Some(video_page(url@, metadata.title@, metadata.author@, crate::text::opt_string_view(description)).1),
        r.url@ == url@,
{
    let mut body = chars_of_string(&metadata.title);
    push_str(&mut body, "\n\nBy: ");
    push_str(&mut body, metadata.author.as_str());
    let desc = match description {
        Some(d) => {
            push_str(&mut body, "\n\nDescription:\n");
            push_str(&mut body, d.as_str());
            d
        },
        None => {
            let mut m = chars_of("YouTube video by ");
            push_str(&mut m, metadata.author.as_str());
            string_of(&m)
        },
    };
    PageContent {
        title: Some(metadata.title.clone()),
        description: Some(desc),
        body_text: string_of(&body),
        url: url.to_owned(),
    }
}

/// The page content summarized for a transcript.
pub fn transcript_page_content(title: Option<String>, transcript: String, url: &str) -> (r: PageContent)
    ensures
        r.title == title,
        crate::text::opt_string_view(r.description) == Some("YouTube video transcript"@),
        r.body_text == transcript,
        r.url@ == url@,
{
    PageContent {
        title,
        description: Some("YouTube video transcript".to_owned()),
        body_text: transcript,
        url: url.to_owned(),
    }
}

/// The data of the full-transcript button for request `id`.
pub open spec fn transcript_data_for(id: Seq<char>) -> Seq<char> {
    "yt_transcript:"@ + id
}

/// The request id in full-transcript button data, if it is such data.
pub open spec fn transcript_request_of(data: Seq<char>) -> Option<Seq<char>> {
    if crate::text::starts_with(data, "yt_transcript:"@) {
        Some(data.skip("yt_transcript:"@.len() as int))
    } else {
        None
    }
}

/// The callback data of the full-transcript button for request `id`.
pub fn transcript_callback_data(id: &str) -> (r: String)
    ensures
        r@ == transcript_data_for(id@),
{
    let mut out = chars_of("yt_transcript:");
    push_str(&mut out, id);
    string_of(&out)
}

/// The request id in full-transcript button data, if it is such data.
pub fn parse_transcript_callback(data: &str) -> (r: Option<String>)
    ensures
        crate::text::opt_string_view(r) == transcript_request_of(data@),
{
    let v = chars_of(data);
    let p = chars_of("yt_transcript:");
    if crate::text::has_prefix(&v, &p) {
        let rest = crate::text::slice_of(&v, p.len(), v.len());
        assert(rest@ =~= data@.skip("yt_transcript:"@.len() as int));
        Some(string_of(&rest))
    } else {
        None
    }
}

/// Reading full-transcript button data gives back the request id it was made from.
pub proof fn lemma_transcript_callback_round_trip(id: Seq<char>)
    ensures
        transcript_request_of(transcript_data_for(id)) == Some(id),
{
    let d = transcript_data_for(id);
    assert(d.subrange(0, "yt_transcript:"@.len() as int) =~= "yt_transcript:"@);
    assert(d.skip("yt_transcript:"@.len() as int) =~= id);
}

/// A short random id for a pending transcript request: the first eight
/// hex digits of a fresh UUID.
pub fn new_request_id() -> (r: String)
    ensures
        r@.len() == 8,
        forall|i: int| 0 <= i < 8 ==> crate::image::process::is_lower_hex(#[trigger] r@[i]),
{
    let u = crate::image::process::random_uuid();
    let cs = chars_of(u.as_str());
    let id = crate::text::slice_of(&cs, 0, 8);
    string_of(&id)
}

/// The entry linking a saved transcript in the todo section.
pub fn transcript_link_entry(wiki_link: &str) -> (r: String)
    ensures
        r@ == "  - Transcript: "@ + wiki_link@,
{
    let mut out = chars_of("  - Transcript: ");
    push_str(&mut out, wiki_link);
    string_of(&out)
}

} // verus!
