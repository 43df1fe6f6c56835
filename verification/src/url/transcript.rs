//! Transcripts of videos: the plain text of WebVTT captions and the outcome
//! of the yt-dlp run that fetches them.
use vstd::prelude::*;
use crate::error::UrlError;
use crate::text::{
    all_ascii_digits, chars_of, chars_of_string, contains, has_substring, join, join_parts, lines,
    only_ascii_digits, push_str, split_lines, squeeze_ws, squeezed_ws, string_of, strip_tags,
    stripped_tags, trim, trimmed, views,
};
use crate::pattern::{regex_is_match, regex_matches};
use crate::url::youtube::{transcript_failure, ytdlp_missing_text};

verus! {

/// The pattern of a caption line that starts with a cue timing such as
/// `00:00:01.000 --> 00:00:04.000`.
pub open spec fn timing_pattern() -> Seq<char> {
    "^\\d{2}:\\d{2}:\\d{2}\\.\\d{3}\\s+-->\\s+\\d{2}:\\d{2}:\\d{2}\\.\\d{3}"@
}

/// A caption line that starts with a cue timing.
pub open spec fn vtt_timing_line(line: Seq<char>) -> bool {
    regex_matches(timing_pattern(), line)
}

/// Whether `line` starts with a cue timing.
fn is_timing_line(line: &str) -> (r: bool)
    ensures
        r == vtt_timing_line(line@),
{
    regex_is_match("^\\d{2}:\\d{2}:\\d{2}\\.\\d{3}\\s+-->\\s+\\d{2}:\\d{2}:\\d{2}\\.\\d{3}", line)
}

/// A trimmed caption line that carries no text: empty, the `WEBVTT`
/// header, a cue timing or a cue number.
pub open spec fn skipped_line(t: Seq<char>) -> bool {
    t.len() == 0 || t == "WEBVTT"@ || vtt_timing_line(t) || all_ascii_digits(t)
}

/// The text pieces of the caption lines, in order: each kept line trimmed
/// and stripped of tags, when something remains.
pub open spec fn vtt_pieces(ls: Seq<Seq<char>>) -> Seq<Seq<char>>
    decreases ls.len(),
{
    if ls.len() == 0 {
        Seq::empty()
    } else {
        let rest = vtt_pieces(ls.drop_last());
        let t = trim(ls.last());
        if skipped_line(t) || strip_tags(t).len() == 0 {
            rest
        } else {
            rest.push(strip_tags(t))
        }
    }
}

/// The plain text of WebVTT captions: the text lines joined with spaces,
/// whitespace runs collapsed and the ends trimmed.
pub open spec fn vtt_text(raw: Seq<char>) -> Seq<char> {
    squeeze_ws(join(vtt_pieces(lines(raw)), seq![' ']))
}

/// Parse VTT (WebVTT) subtitle format into plain text.
///
/// Removes the `WEBVTT` header, timestamp lines, cue numbers and HTML
/// formatting tags, and joins the caption lines with spaces.
pub fn parse_vtt(raw: &str) -> (r: String)
    ensures
        r@ == vtt_text(raw@),
{
    let ls = split_lines(&chars_of(raw));
    let ghost lsv = views(ls@);
    let header = chars_of("WEBVTT");
    let mut pieces: Vec<Vec<char>> = Vec::new();
    let mut i: usize = 0;
    while i < ls.len()
        invariant
            i <= ls.len(),
            lsv == views(ls@),
            header@ == "WEBVTT"@,
            views(pieces@) == vtt_pieces(lsv.take(i as int)),
        decreases ls.len() - i,
    {
        let t = trimmed(&ls[i]);
        assert(lsv.take(i + 1).drop_last() =~= lsv.take(i as int));
        assert(lsv.take(i + 1).last() == ls@[i as int]@);
        let ts = string_of(&t);
        let skip = t.len() == 0 || crate::url::detect::same_chars(&t, &header) || is_timing_line(
            ts.as_str(),
        ) || only_ascii_digits(&t);
        if !skip {
            let cleaned = stripped_tags(&t);
            if cleaned.len() > 0 {
                let ghost before = views(pieces@);
                pieces.push(cleaned);
                assert(views(pieces@) =~= before.push(strip_tags(t@)));
            }
        }
        i = i + 1;
    }
    assert(lsv.take(ls.len() as int) =~= lsv);
    let space: Vec<char> = vec![' '];
    assert(space@ =~= seq![' ']);
    let joined = join_parts(&pieces, &space);
    string_of(&squeezed_ws(&joined))
}

/// The page whose captions yt-dlp is asked for.
pub open spec fn transcript_source_url(video_id: Seq<char>) -> Seq<char> {
    "https://youtube.com/watch?v="@ + video_id
}

/// The video page given to yt-dlp for a transcript.
pub fn transcript_url(video_id: &str) -> (r: String)
    ensures
        r@ == transcript_source_url(video_id@),
{
    let mut out = chars_of("https://youtube.com/watch?v=");
    push_str(&mut out, video_id);
    string_of(&out)
}

/// How running yt-dlp for captions ended.
#[derive(Debug, Clone)]
pub enum TranscriptRun {
    /// yt-dlp is not installed.
    NotFound,
    /// The command could not be started, for the given reason.
    SpawnFailed(String),
    /// The command ran: whether it succeeded, its output and its error output.
    Finished { success: bool, stdout: String, stderr: String },
}

/// yt-dlp reported that the video has no captions to offer.
pub open spec fn no_subtitles(stderr: Seq<char>) -> bool {
    contains(stderr, "no suitable subs"@) || contains(stderr, "no subtitles"@)
}

/// The error for a transcript request that failed for `reason`.
fn failure(video_id: &str, reason: &str) -> (r: UrlError)
    ensures
        transcript_failure(r, video_id@, reason@),
{
    UrlError::TranscriptFailed { video_id: video_id.to_owned(), reason: reason.to_owned() }
}

/// The transcript of a video from the yt-dlp run: the plain text of the
/// captions it printed, or the reason none could be had.
pub fn transcript_from_run(video_id: &str, run: &TranscriptRun) -> (r: Result<String, UrlError>)
    ensures
        match *run {
            TranscriptRun::NotFound => r matches Err(e) && transcript_failure(e, video_id@, ytdlp_missing_text()),
            TranscriptRun::SpawnFailed(m) => r matches Err(e) && transcript_failure(
                e,
                video_id@,
                "Failed to execute yt-dlp: "@ + m@,
            ),
            TranscriptRun::Finished { success, stdout, stderr } => if !success {
                if no_subtitles(stderr@) {
                    r matches Err(e) && transcript_failure(
                        e,
                        video_id@,
                        "No English captions available for this video"@,
                    )
                } else {
                    r matches Err(e) && transcript_failure(
                        e,
                        video_id@,
                        "Failed to fetch transcript: "@ + stderr@,
                    )
                }
            } else if stdout@.len() == 0 {
                r matches Err(e) && transcript_failure(e, video_id@, "No transcript data returned"@)
            } else if vtt_text(stdout@).len() == 0 {
                r matches Err(e) && transcript_failure(e, video_id@, "Parsed transcript is empty"@)
            } else {
                r matches Ok(t) && t@ == vtt_text(stdout@)
            },
        },
{
    match run {
        TranscriptRun::NotFound => Err(failure(
            video_id,
            "yt-dlp not found. Install from: https://github.com/yt-dlp/yt-dlp#installation",
        )),
        TranscriptRun::SpawnFailed(m) => {
            let mut reason = chars_of("Failed to execute yt-dlp: ");
            push_str(&mut reason, m.as_str());
            let rs = string_of(&reason);
            Err(failure(video_id, rs.as_str()))
        },
        TranscriptRun::Finished { success, stdout, stderr } => {
            if !*success {
                let err = chars_of_string(stderr);
                if has_substring(&err, &chars_of("no suitable subs")) || has_substring(
                    &err,
                    &chars_of("no subtitles"),
                ) {
                    return Err(failure(video_id, "No English captions available for this video"));
                }
                let mut reason = chars_of("Failed to fetch transcript: ");
                push_str(&mut reason, stderr.as_str());
                let rs = string_of(&reason);
                return Err(failure(video_id, rs.as_str()));
            }
            if stdout.as_str().is_empty() {
                return Err(failure(video_id, "No transcript data returned"));
            }
            let text = parse_vtt(stdout.as_str());
            if text.as_str().is_empty() {
                return Err(failure(video_id, "Parsed transcript is empty"));
            }
            Ok(text)
        },
    }
}

} // verus!
