//! Finding links in a message and telling YouTube videos from web pages.
use vstd::prelude::*;
use crate::text::{
    chars_of, contains, has_substring, string_views, to_lowercase, unicode_lowercase,
};
use crate::url::youtube::{youtube_id, youtube_video_id};

verus! {

/// Type of URL detected
#[derive(Debug, Clone, PartialEq, Eq)]
pub enum UrlType {
    WebPage,
    YouTube { video_id: String },
}

/// A URL detected in text with its type and position
#[derive(Debug, Clone, PartialEq, Eq)]
pub struct DetectedUrl {
    pub url: String,
    pub url_type: UrlType,
    pub start: usize,
    pub end: usize,
}

/// The links linkify finds in `text` (URL kind only): each link's text with
/// its byte start and end.
pub uninterp spec fn linkify_urls(text: Seq<char>) -> Seq<(Seq<char>, usize, usize)>;

/// The character sequences and positions of found links.
pub open spec fn link_views(v: Seq<(String, usize, usize)>) -> Seq<(Seq<char>, usize, usize)> {
    Seq::new(v.len(), |i: int| (v[i].0@, v[i].1, v[i].2))
}

/// The URL links in `text`, in order, with their byte positions (linkify
/// `LinkFinder` restricted to `LinkKind::Url`).
#[verifier::external_body]
fn find_url_links(text: &str) -> (r: Vec<(String, usize, usize)>)
    ensures
        link_views(r@) == linkify_urls(text@),
{
    let mut finder = linkify::LinkFinder::new();
    finder.kinds(&[linkify::LinkKind::Url]);
    finder.links(text).map(|l| (l.as_str().to_string(), l.start(), l.end())).collect()
}

/// The host of `s` when the url crate parses it as a URL with a host.
pub uninterp spec fn url_host(s: Seq<char>) -> Option<Seq<char>>;

/// The host of a URL (url `Url::parse` then `host_str`); `None` when the
/// text does not parse or names no host.
#[verifier::external_body]
fn parse_host(s: &str) -> (r: Option<String>)
    ensures
        crate::text::opt_string_view(r) == url_host(s@),
{
    url::Url::parse(s).ok().and_then(|u| u.host_str().map(|h| h.to_string()))
}

/// A host that serves YouTube videos.
pub open spec fn youtube_host(host: Seq<char>) -> bool {
    host == "youtube.com"@ || host == "www.youtube.com"@ || host == "youtu.be"@ || host
        == "m.youtube.com"@
}

/// Check if a host is a YouTube domain
pub fn is_youtube_domain(host: &str) -> (r: bool)
    ensures
        r == youtube_host(host@),
{
    let h = chars_of(host);
    let a = chars_of("youtube.com");
    let b = chars_of("www.youtube.com");
    let c = chars_of("youtu.be");
    let d = chars_of("m.youtube.com");
    same_chars(&h, &a) || same_chars(&h, &b) || same_chars(&h, &c) || same_chars(&h, &d)
}

/// Whether two character vectors are equal.
pub fn same_chars(a: &Vec<char>, b: &Vec<char>) -> (r: bool)
    ensures
        r == (a@ == b@),
{
    if a.len() != b.len() {
        return false;
    }
    let mut i: usize = 0;
    while i < a.len()
        invariant
            i <= a.len(),
            a.len() == b.len(),
            forall|k: int| 0 <= k < i ==> a@[k] == b@[k],
        decreases a.len() - i,
    {
        if a[i] != b[i] {
            return false;
        }
        i = i + 1;
    }
    assert(a@ =~= b@);
    true
}

/// The kind of a link: a YouTube video when the URL's host is a YouTube
/// host and the link holds a video id, else a web page.
pub open spec fn url_kind(url: Seq<char>) -> Option<Seq<char>> {
    match url_host(url) {
        Some(h) => if youtube_host(h) {
            youtube_id(url)
        } else {
            None
        },
        None => None,
    }
}

/// The video id a URL type carries, if it is a YouTube video.
pub open spec fn url_type_id(t: UrlType) -> Option<Seq<char>> {
    match t {
        UrlType::YouTube { video_id } => Some(video_id@),
        UrlType::WebPage => None,
    }
}

/// Classify a URL by checking its domain and extracting metadata
pub fn classify_url(url_str: &str) -> (r: UrlType)
    ensures
        url_type_id(r) == url_kind(url_str@),
{
    if let Some(host) = parse_host(url_str) {
        if is_youtube_domain(host.as_str()) {
            if let Some(id) = youtube_video_id(url_str) {
                return UrlType::YouTube { video_id: id };
            }
        }
    }
    UrlType::WebPage
}

/// A detected URL standing for a found link, classified.
pub open spec fn detected_as(d: DetectedUrl, link: (Seq<char>, usize, usize)) -> bool {
    &&& d.url@ == link.0
    &&& d.start == link.1
    &&& d.end == link.2
    &&& url_type_id(d.url_type) == url_kind(link.0)
}

/// The links found in `text`, classified.
pub open spec fn detected(r: Seq<DetectedUrl>, links: Seq<(Seq<char>, usize, usize)>) -> bool {
    &&& r.len() == links.len()
    &&& forall|i: int| 0 <= i < r.len() ==> detected_as(#[trigger] r[i], links[i])
}

/// Detect URLs in text and classify them
pub fn detect_urls(text: &str) -> (r: Vec<DetectedUrl>)
    ensures
        detected(r@, linkify_urls(text@)),
{
    let links = find_url_links(text);
    let ghost lv = link_views(links@);
    let mut out: Vec<DetectedUrl> = Vec::new();
    let mut i: usize = 0;
    while i < links.len()
        invariant
            i <= links.len(),
            out@.len() == i,
            lv == link_views(links@),
            forall|k: int| 0 <= k < i ==> detected_as(#[trigger] out@[k], lv[k]),
        decreases links.len() - i,
    {
        let (u, s, e) = &links[i];
        let url_type = classify_url(u.as_str());
        let d = DetectedUrl { url: u.clone(), url_type, start: *s, end: *e };
        assert(detected_as(d, lv[i as int]));
        out.push(d);
        i = i + 1;
    }
    out
}

/// The message asks for a transcript: its lower-cased text contains `transcript`.
pub open spec fn asks_transcript(text: Seq<char>) -> bool {
    contains(unicode_lowercase(text), "transcript"@)
}

/// Check if a message contains a "transcript" keyword (case-insensitive)
pub fn is_transcript_request(text: &str) -> (r: bool)
    ensures
        r == asks_transcript(text@),
{
    let lower = to_lowercase(text);
    let l = chars_of(lower.as_str());
    let k = chars_of("transcript");
    has_substring(&l, &k)
}

} // verus!
