//! YouTube links: the video id inside a link, and the metadata and
//! description fetched for a video.
use vstd::prelude::*;
use crate::error::UrlError;
use crate::pattern::{regex_capture, regex_first_capture};
use crate::text::{chars_of, push_str, starts_with, string_of, trim, trimmed};

verus! {

/// YouTube video metadata fetched from oEmbed API
#[derive(Debug, Clone)]
pub struct YouTubeMetadata {
    pub title: String,
    pub author: String,
    pub thumbnail_url: Option<String>,
    pub video_id: String,
}

/// The pattern of a YouTube video link; its capture is the video id.
pub open spec fn youtube_pattern() -> Seq<char> {
    "(?:(?:www\\.|m\\.)?youtube\\.com/(?:watch\\?v=|embed/|shorts/)|youtu\\.be/)([A-Za-z0-9_-]+)"@
}

/// The video id in a YouTube link: the capture of the link pattern at its
/// leftmost match.
pub open spec fn youtube_id(s: Seq<char>) -> Option<Seq<char>> {
    regex_capture(youtube_pattern(), s)
}

/// A character a YouTube video id may hold: an ASCII letter or digit, `_`
/// or `-`.
pub open spec fn video_id_char(c: char) -> bool {
    ('A' <= c && c <= 'Z') || ('a' <= c && c <= 'z') || ('0' <= c && c <= '9') || c == '_' || c == '-'
}

/// Whether the body `cls` of a bracket class (single characters and `x-y`
/// ranges; a `-` that ends the class stands for itself) admits `c`.
pub open spec fn class_admits(cls: Seq<char>, c: char) -> bool
    decreases cls.len(),
{
    if cls.len() == 0 {
        false
    } else if cls.len() >= 3 && cls[1] == '-' {
        (cls[0] <= c && c <= cls[2]) || class_admits(cls.skip(3), c)
    } else {
        cls[0] == c || class_admits(cls.skip(1), c)
    }
}

/// The id a link yields is a run of video-id characters: the link pattern
/// ends with the capturing group `([...]+)` after its non-capturing link
/// prefix `(?:...)`, and the group's class admits exactly the characters a
/// video id may hold (letters, digits, `_` and `-`).
pub proof fn lemma_youtube_capture_is_id_run()
    ensures
        exists|pre: Seq<char>, cls: Seq<char>|
            youtube_pattern() == pre + "(["@ + cls + "]+)"@ && starts_with(pre, "(?:"@) && (forall|c: char|
                class_admits(cls, c) == video_id_char(c)),
{
    let pre = "(?:(?:www\\.|m\\.)?youtube\\.com/(?:watch\\?v=|embed/|shorts/)|youtu\\.be/)"@;
    let cls = "A-Za-z0-9_-"@;
    reveal_strlit("(?:(?:www\\.|m\\.)?youtube\\.com/(?:watch\\?v=|embed/|shorts/)|youtu\\.be/)([A-Za-z0-9_-]+)");
    reveal_strlit("(?:(?:www\\.|m\\.)?youtube\\.com/(?:watch\\?v=|embed/|shorts/)|youtu\\.be/)");
    reveal_strlit("A-Za-z0-9_-");
    reveal_strlit("([");
    reveal_strlit("]+)");
    assert(youtube_pattern() =~= pre + "(["@ + cls + "]+)"@);
    reveal_strlit("(?:");
    assert(pre.subrange(0, 3) =~= "(?:"@);
    assert forall|c: char| class_admits(cls, c) == video_id_char(c) by {
        reveal_with_fuel(class_admits, 7);
        assert(cls.skip(3) =~= "a-z0-9_-"@) by { reveal_strlit("a-z0-9_-"); }
    }
}

/// The video id in a YouTube link, if the link has one.
pub fn youtube_video_id(url: &str) -> (r: Option<String>)
    ensures
        crate::text::opt_string_view(r) == youtube_id(url@),
{
    regex_first_capture(
        "(?:(?:www\\.|m\\.)?youtube\\.com/(?:watch\\?v=|embed/|shorts/)|youtu\\.be/)([A-Za-z0-9_-]+)",
        url,
    )
}

/// Extract video ID from a YouTube URL
pub fn extract_video_id_from_url(url: &str) -> (r: Result<String, UrlError>)
    ensures
        match youtube_id(url@) {
            Some(id) => r matches Ok(s) && s@ == id,
            None => r matches Err(UrlError::ParseFailed(m)) && m@
                == "Failed to extract video ID from URL: "@ + url@,
        },
{
    match youtube_video_id(url) {
        Some(id) => Ok(id),
        None => {
            let mut m = chars_of("Failed to extract video ID from URL: ");
            push_str(&mut m, url);
            Err(UrlError::ParseFailed(string_of(&m)))
        },
    }
}

/// The oEmbed endpoint asked for the metadata of a video link.
pub open spec fn oembed_url_for(url: Seq<char>) -> Seq<char> {
    "https://www.youtube.com/oembed?url="@ + url + "&format=json"@
}

/// The oEmbed request URL for a video link.
pub fn oembed_url(url: &str) -> (r: String)
    ensures
        r@ == oembed_url_for(url@),
{
    let mut out = chars_of("https://www.youtube.com/oembed?url=");
    push_str(&mut out, url);
    push_str(&mut out, "&format=json");
    string_of(&out)
}

/// The watch page of a video.
pub open spec fn watch_url_for(video_id: Seq<char>) -> Seq<char> {
    "https://www.youtube.com/watch?v="@ + video_id
}

/// The watch page of a video, as given to yt-dlp.
pub fn watch_url(video_id: &str) -> (r: String)
    ensures
        r@ == watch_url_for(video_id@),
{
    let mut out = chars_of("https://www.youtube.com/watch?v=");
    push_str(&mut out, video_id);
    string_of(&out)
}

/// How running yt-dlp for a description ended.
#[derive(Debug, Clone)]
pub enum DescriptionRun {
    /// The command did not finish within the timeout (seconds).
    TimedOut(u64),
    /// yt-dlp is not installed.
    NotFound,
    /// The command could not be started, for the given reason.
    SpawnFailed(String),
    /// The command ran: whether it succeeded, its output and its error output.
    Finished { success: bool, stdout: String, stderr: String },
}

/// The message for a missing yt-dlp.
pub open spec fn ytdlp_missing_text() -> Seq<char> {
    "yt-dlp not found. Install from: https://github.com/yt-dlp/yt-dlp#installation"@
}

/// A transcript-kind failure for `video_id` with the given reason.
pub open spec fn transcript_failure(e: UrlError, video_id: Seq<char>, reason: Seq<char>) -> bool {
    e matches UrlError::TranscriptFailed { video_id: v, reason: m } && v@ == video_id && m@ == reason
}

fn transcript_failed(video_id: &str, prefix: &str, detail: &str) -> (r: UrlError)
    ensures
        transcript_failure(r, video_id@, prefix@ + detail@),
{
    let mut m = chars_of(prefix);
    push_str(&mut m, detail);
    UrlError::TranscriptFailed { video_id: video_id.to_owned(), reason: string_of(&m) }
}

/// The error for a yt-dlp run cut off after `secs` seconds.
pub open spec fn timed_out_result(r: Result<String, UrlError>, video_id: Seq<char>, secs: u64) -> bool {
    r matches Err(e) && transcript_failure(
        e,
        video_id,
        "yt-dlp command timed out after "@ + crate::text::decimal(secs as nat) + "s"@,
    )
}

fn transcript_failed_with(video_id: &str, reason: &str) -> (r: UrlError)
    ensures
        transcript_failure(r, video_id@, reason@),
{
    UrlError::TranscriptFailed { video_id: video_id.to_owned(), reason: reason.to_owned() }
}

/// The description of a video from the yt-dlp run: the trimmed output of a
/// successful run; an error for a timeout, a missing or failing yt-dlp, or
/// an empty description.
pub fn description_from_run(video_id: &str, run: &DescriptionRun) -> (r: Result<String, UrlError>)
    ensures
        match *run {
            DescriptionRun::TimedOut(secs) => timed_out_result(r, video_id@, secs),
            DescriptionRun::NotFound => r matches Err(e) && transcript_failure(e, video_id@, ytdlp_missing_text()),
            DescriptionRun::SpawnFailed(m) => r matches Err(e) && transcript_failure(
                e,
                video_id@,
                "Failed to execute yt-dlp: "@ + m@,
            ),
            DescriptionRun::Finished { success, stdout, stderr } => if !success {
                r matches Err(e) && transcript_failure(e, video_id@, "yt-dlp command failed: "@ + stderr@)
            } else if trim(stdout@).len() == 0 {
                r matches Err(e) && transcript_failure(e, video_id@, "Video description is empty"@)
            } else {
                r matches Ok(d) && d@ == trim(stdout@)
            },
        },
{
    match run {
        DescriptionRun::TimedOut(secs) => {
            let mut m = chars_of("yt-dlp command timed out after ");
            crate::text::push_decimal(&mut m, *secs);
            push_str(&mut m, "s");
            assert(m@ =~= "yt-dlp command timed out after "@ + crate::text::decimal(*secs as nat) + "s"@);
            let e = UrlError::TranscriptFailed { video_id: video_id.to_owned(), reason: string_of(&m) };
            Err(e)
        },
        DescriptionRun::NotFound => Err(transcript_failed_with(
            video_id,
            "yt-dlp not found. Install from: https://github.com/yt-dlp/yt-dlp#installation",
        )),
        DescriptionRun::SpawnFailed(m) => Err(
            transcript_failed(video_id, "Failed to execute yt-dlp: ", m.as_str()),
        ),
        DescriptionRun::Finished { success, stdout, stderr } => {
            if !success {
                return Err(transcript_failed(video_id, "yt-dlp command failed: ", stderr.as_str()));
            }
            let out = chars_of(stdout.as_str());
            let t = trimmed(&out);
            if t.len() == 0 {
                Err(transcript_failed_with(video_id, "Video description is empty"))
            } else {
                Ok(string_of(&t))
            }
        },
    }
}

} // verus!
