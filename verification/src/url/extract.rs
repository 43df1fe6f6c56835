//! Readable text of fetched pages: title, description and body taken from
//! the HTML, and the checks made on an HTTP response before it is read.
use vstd::prelude::*;
use crate::error::UrlError;
use crate::text::{
    ascii_lower, ascii_lowercased, chars_of, chars_of_string, contains, has_substring, join,
    join_parts, push_all, push_str, squeeze_ws, squeezed_ws, string_of, views,
};

verus! {

/// The readable content of a fetched page.
#[derive(Debug, Clone, PartialEq, Eq)]
pub struct PageContent {
    pub title: Option<String>,
    pub description: Option<String>,
    pub body_text: String,
    pub url: String,
}

/// Collapses all whitespace runs to single spaces and trims the ends.
pub fn normalize_text(input: &str) -> (r: String)
    ensures
        r@ == squeeze_ws(input@),
{
    let v = chars_of(input);
    string_of(&squeezed_ws(&v))
}

/// The `content` attribute of the first element of `html` matching the CSS
/// `selector` (scraper), if there is one.
pub uninterp spec fn meta_content(html: Seq<char>, selector: Seq<char>) -> Option<Seq<char>>;

/// The text nodes of every element of `html` matching the CSS `selector`
/// (scraper), element by element; none when the selector does not parse.
pub uninterp spec fn element_texts(html: Seq<char>, selector: Seq<char>) -> Seq<Seq<Seq<char>>>;

/// The text nodes of each selected element, as character sequences.
pub open spec fn texts_view(t: Seq<Vec<String>>) -> Seq<Seq<Seq<char>>> {
    Seq::new(t.len(), |i: int| crate::text::string_views(t[i]@))
}

/// The `content` attribute of the first element matching `selector` in the
/// parsed document (scraper `Html::parse_document`, `Selector::parse`,
/// `select`, `attr`).
#[verifier::external_body]
fn scrape_meta_content(html: &str, selector: &str) -> (r: Option<String>)
    ensures
        crate::text::opt_string_view(r) == meta_content(html@, selector@),
{
    let doc = scraper::Html::parse_document(html);
    let sel = scraper::Selector::parse(selector).ok()?;
    doc.select(&sel).next().and_then(|el| el.value().attr("content")).map(|s| s.to_string())
}

/// The text nodes of each element matching `selector` in the parsed
/// document (scraper `select` and `text`).
#[verifier::external_body]
fn scrape_element_texts(html: &str, selector: &str) -> (r: Vec<Vec<String>>)
    ensures
        texts_view(r@) == element_texts(html@, selector@),
{
    let doc = scraper::Html::parse_document(html);
    match scraper::Selector::parse(selector) {
        Ok(sel) => doc.select(&sel).map(|el| el.text().map(|t| t.to_string()).collect()).collect(),
        Err(_) => Vec::new(),
    }
}

/// A text normalized, kept only when something remains.
pub open spec fn kept_text(s: Seq<char>) -> Option<Seq<char>> {
    if squeeze_ws(s).len() == 0 {
        None
    } else {
        Some(squeeze_ws(s))
    }
}

/// An optional text normalized and kept only when something remains.
pub open spec fn kept_opt(o: Option<Seq<char>>) -> Option<Seq<char>> {
    match o {
        Some(s) => kept_text(s),
        None => None,
    }
}

/// The first of two optional values that is present.
pub open spec fn first_some(a: Option<Seq<char>>, b: Option<Seq<char>>) -> Option<Seq<char>> {
    if a is Some {
        a
    } else {
        b
    }
}

/// The text of the first selected element, its text nodes joined with spaces.
pub open spec fn first_element_text(texts: Seq<Seq<Seq<char>>>) -> Option<Seq<char>> {
    if texts.len() == 0 {
        None
    } else {
        Some(join(texts[0], seq![' ']))
    }
}

/// The page title: `og:title` (as property, then as name), else `<title>`.
pub open spec fn page_title(html: Seq<char>) -> Option<Seq<char>> {
    first_some(
        kept_opt(meta_content(html, "meta[property='og:title']"@)),
        first_some(
            kept_opt(meta_content(html, "meta[name='og:title']"@)),
            kept_opt(first_element_text(element_texts(html, "title"@))),
        ),
    )
}

/// The page description: the `description` meta, else `og:description`.
pub open spec fn page_description(html: Seq<char>) -> Option<Seq<char>> {
    first_some(
        kept_opt(meta_content(html, "meta[name='description']"@)),
        kept_opt(meta_content(html, "meta[property='og:description']"@)),
    )
}

/// The non-empty normalized texts of the selected elements, each element's
/// text nodes joined with `sep`.
pub open spec fn text_pieces(texts: Seq<Seq<Seq<char>>>, sep: Seq<char>) -> Seq<Seq<char>>
    decreases texts.len(),
{
    if texts.len() == 0 {
        Seq::empty()
    } else {
        let rest = text_pieces(texts.drop_last(), sep);
        let p = squeeze_ws(join(texts.last(), sep));
        if p.len() == 0 {
            rest
        } else {
            rest.push(p)
        }
    }
}

/// The page body: the paragraphs, else the `main`/`article` containers,
/// else the `body`, the pieces joined with spaces.
pub open spec fn page_body(html: Seq<char>) -> Seq<char> {
    let p = text_pieces(element_texts(html, "main p, article p, p"@), Seq::empty());
    let p2 = if p.len() > 0 {
        p
    } else {
        text_pieces(element_texts(html, "main, article"@), seq![' '])
    };
    let p3 = if p2.len() > 0 {
        p2
    } else {
        text_pieces(element_texts(html, "body"@), seq![' '])
    };
    join(p3, seq![' '])
}

/// A text normalized and kept only when something remains.
fn keep_text(s: &String) -> (r: Option<String>)
    ensures
        crate::text::opt_string_view(r) == kept_text(s@),
{
    let n = squeezed_ws(&chars_of_string(s));
    if n.len() == 0 {
        None
    } else {
        Some(string_of(&n))
    }
}

fn meta_text(html: &str, selector: &str) -> (r: Option<String>)
    ensures
        crate::text::opt_string_view(r) == kept_opt(meta_content(html@, selector@)),
{
    match scrape_meta_content(html, selector) {
        Some(c) => keep_text(&c),
        None => None,
    }
}

/// The parts of each string, as character vectors.
fn string_parts(v: &Vec<String>) -> (r: Vec<Vec<char>>)
    ensures
        views(r@) == crate::text::string_views(v@),
{
    let mut out: Vec<Vec<char>> = Vec::new();
    let mut i: usize = 0;
    while i < v.len()
        invariant
            i <= v.len(),
            views(out@) == crate::text::string_views(v@).take(i as int),
        decreases v.len() - i,
    {
        let ghost before = views(out@);
        out.push(chars_of_string(&v[i]));
        assert(views(out@) =~= before.push(v@[i as int]@));
        i = i + 1;
        assert(views(out@) =~= crate::text::string_views(v@).take(i as int));
    }
    assert(crate::text::string_views(v@).take(v.len() as int) =~= crate::text::string_views(v@));
    out
}

fn first_text(html: &str, selector: &str) -> (r: Option<String>)
    ensures
        crate::text::opt_string_view(r) == kept_opt(first_element_text(element_texts(html@, selector@))),
{
    let texts = scrape_element_texts(html, selector);
    if texts.len() == 0 {
        return None;
    }
    let parts = string_parts(&texts[0]);
    let sep: Vec<char> = vec![' '];
    assert(sep@ =~= seq![' ']);
    let joined = join_parts(&parts, &sep);
    keep_text(&string_of(&joined))
}

fn pieces_of(texts: &Vec<Vec<String>>, sep: &Vec<char>) -> (r: Vec<Vec<char>>)
    ensures
        views(r@) == text_pieces(texts_view(texts@), sep@),
{
    let mut out: Vec<Vec<char>> = Vec::new();
    let mut i: usize = 0;
    while i < texts.len()
        invariant
            i <= texts.len(),
            views(out@) == text_pieces(texts_view(texts@).take(i as int), sep@),
        decreases texts.len() - i,
    {
        let parts = string_parts(&texts[i]);
        let joined = join_parts(&parts, sep);
        let p = squeezed_ws(&joined);
        assert(texts_view(texts@).take(i + 1).drop_last() =~= texts_view(texts@).take(i as int));
        if p.len() > 0 {
            let ghost before = views(out@);
            out.push(p);
            assert(views(out@) =~= before.push(p@));
        }
        i = i + 1;
    }
    assert(texts_view(texts@).take(texts.len() as int) =~= texts_view(texts@));
    out
}

/// The page body text of `html`.
pub fn extract_body_text(html: &str) -> (r: String)
    ensures
        r@ == page_body(html@),
{
    let empty: Vec<char> = Vec::new();
    let space: Vec<char> = vec![' '];
    assert(space@ =~= seq![' ']);
    assert(empty@ =~= Seq::<char>::empty());
    let mut pieces = pieces_of(&scrape_element_texts(html, "main p, article p, p"), &empty);
    if pieces.len() == 0 {
        pieces = pieces_of(&scrape_element_texts(html, "main, article"), &space);
    }
    if pieces.len() == 0 {
        pieces = pieces_of(&scrape_element_texts(html, "body"), &space);
    }
    string_of(&join_parts(&pieces, &space))
}

/// The readable content of the page at `url` whose HTML is `html`.
pub fn extract_page_content_from_html(url: &str, html: &str) -> (r: PageContent)
    ensures
        crate::text::opt_string_view(r.title) == page_title(html@),
        crate::text::opt_string_view(r.description) == page_description(html@),
        r.body_text@ == page_body(html@),
        r.url@ == url@,
{
    let mut title = meta_text(html, "meta[property='og:title']");
    if title.is_none() {
        title = meta_text(html, "meta[name='og:title']");
    }
    if title.is_none() {
        title = first_text(html, "title");
    }
    let mut description = meta_text(html, "meta[name='description']");
    if description.is_none() {
        description = meta_text(html, "meta[property='og:description']");
    }
    let body_text = extract_body_text(html);
    PageContent { title, description, body_text, url: url.to_owned() }
}

/// A content type that is HTML: its ASCII-lower-cased form names
/// `text/html` or `application/xhtml+xml`; a missing header counts as HTML.
pub open spec fn is_html_type(content_type: Option<Seq<char>>) -> bool {
    match content_type {
        Some(t) => contains(ascii_lowercased(t), "text/html"@) || contains(
            ascii_lowercased(t),
            "application/xhtml+xml"@,
        ),
        None => true,
    }
}

fn lowercase_ascii(v: &Vec<char>) -> (r: Vec<char>)
    ensures
        r@ == ascii_lowercased(v@),
{
    let mut out: Vec<char> = Vec::new();
    let mut i: usize = 0;
    while i < v.len()
        invariant
            i <= v.len(),
            out@ == ascii_lowercased(v@).take(i as int),
        decreases v.len() - i,
    {
        out.push(ascii_lower(v[i]));
        i = i + 1;
        assert(out@ =~= ascii_lowercased(v@).take(i as int));
    }
    assert(ascii_lowercased(v@).take(v.len() as int) =~= ascii_lowercased(v@));
    out
}

/// Whether a `Content-Type` header value announces HTML.
pub fn is_html_content_type(content_type: Option<&str>) -> (r: bool)
    ensures
        r == is_html_type(crate::text::opt_str_view(content_type)),
{
    match content_type {
        Some(t) => {
            let lower = lowercase_ascii(&chars_of(t));
            has_substring(&lower, &chars_of("text/html")) || has_substring(
                &lower,
                &chars_of("application/xhtml+xml"),
            )
        },
        None => true,
    }
}

/// A declared content length above the limit.
pub open spec fn declared_too_large(content_length: Option<usize>, max_bytes: usize) -> bool {
    match content_length {
        Some(n) => n > max_bytes,
        None => false,
    }
}

/// The checks made on a response before its body is read: the status must
/// be a success, a declared length must not exceed `max_bytes`, and the
/// content type must be HTML.
pub fn check_response_head(
    url: &str,
    status_success: bool,
    status_text: &str,
    content_length: Option<usize>,
    content_type: Option<&str>,
    max_bytes: usize,
) -> (r: Result<(), UrlError>)
    ensures
        !status_success ==> (r matches Err(UrlError::FetchFailed { url: u, reason: m }) && u@
            == url@ && m@ == "HTTP "@ + status_text@),
        status_success && declared_too_large(content_length, max_bytes) ==> (r matches Err(
            UrlError::ContentTooLarge { url: u, size },
        ) && u@ == url@ && Some(size) == content_length),
        status_success && !declared_too_large(content_length, max_bytes) && !is_html_type(
            crate::text::opt_str_view(content_type),
        ) ==> (r matches Err(UrlError::ParseFailed(m)) && m@ == "Response content type is not HTML"@),
        status_success && !declared_too_large(content_length, max_bytes) && is_html_type(
            crate::text::opt_str_view(content_type),
        ) ==> r is Ok,
{
    if !status_success {
        let mut m = chars_of("HTTP ");
        push_str(&mut m, status_text);
        return Err(UrlError::FetchFailed { url: url.to_owned(), reason: string_of(&m) });
    }
    if let Some(n) = content_length {
        if n > max_bytes {
            return Err(UrlError::ContentTooLarge { url: url.to_owned(), size: n });
        }
    }
    if !is_html_content_type(content_type) {
        return Err(UrlError::ParseFailed("Response content type is not HTML".to_owned()));
    }
    Ok(())
}

/// The check made on a read body: it must not exceed `max_bytes`.
pub fn check_body_size(url: &str, size: usize, max_bytes: usize) -> (r: Result<(), UrlError>)
    ensures
        size > max_bytes ==> (r matches Err(UrlError::ContentTooLarge { url: u, size: s }) && u@
            == url@ && s == size),
        size <= max_bytes ==> r is Ok,
{
    if size > max_bytes {
        Err(UrlError::ContentTooLarge { url: url.to_owned(), size })
    } else {
        Ok(())
    }
}

/// The error for a failed request: a timeout, or any other failure with its message.
pub fn fetch_error(url: &str, timeout_secs: u64, timed_out: bool, message: &str) -> (r: UrlError)
    ensures
        timed_out ==> (r matches UrlError::Timeout { url: u, timeout_secs: t } && u@ == url@ && t
            == timeout_secs),
        !timed_out ==> (r matches UrlError::FetchFailed { url: u, reason: m } && u@ == url@ && m@
            == message@),
{
    if timed_out {
        UrlError::Timeout { url: url.to_owned(), timeout_secs }
    } else {
        UrlError::FetchFailed { url: url.to_owned(), reason: message.to_owned() }
    }
}

} // verus!
