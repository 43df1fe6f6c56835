//! Summaries of web pages: the prompts, the response schema and the request.
use vstd::prelude::*;
use crate::ai::conflict::{message_json, message_view};
use crate::json::{entry, entry_views, json_array, json_object, json_str, json_u64, json_view, json_views, JsonValue, JsonView};
use crate::text::{chars_of, push_str, string_of};
use crate::url::extract::PageContent;
use crate::error::AiError;

verus! {

/// The structured output from AI URL summarization
#[derive(Debug, Clone, PartialEq, Eq)]
pub struct UrlSummary {
    pub title: String,
    pub summary: String,
    pub tags: Vec<String>,
}

/// The instructions for summarizing a page.
pub open spec fn url_summary_prompt_text() -> Seq<char> {
    "Analyze this web page content and optional user context. Produce: concise title (5-10 words), summary (2-3 sentences), relevant tags (3-5)."@
}

/// The instructions for summarizing a page.
pub fn url_summary_system_prompt() -> (r: &'static str)
    ensures
        r@ == url_summary_prompt_text(),
{
    "Analyze this web page content and optional user context. Produce: concise title (5-10 words), summary (2-3 sentences), relevant tags (3-5)."
}

/// An optional text, or `none provided`.
pub open spec fn or_none_provided(o: Option<Seq<char>>) -> Seq<char> {
    match o {
        Some(s) => s,
        None => "none provided"@,
    }
}

/// The user prompt describing a page and the user's own words.
pub open spec fn url_user_prompt_text(
    url: Seq<char>,
    title: Option<Seq<char>>,
    description: Option<Seq<char>>,
    body: Seq<char>,
    user_text: Option<Seq<char>>,
) -> Seq<char> {
    "URL: "@ + url + "\n\nPage title: "@ + or_none_provided(title) + "\n\nPage description: "@
        + or_none_provided(description) + "\n\nPage body:\n"@ + body + "\n\nUser context: "@
        + or_none_provided(user_text)
}

fn push_or_none(out: &mut Vec<char>, o: Option<&str>)
    ensures
        final(out)@ == old(out)@ + or_none_provided(crate::text::opt_str_view(o)),
{
    match o {
        Some(s) => push_str(out, s),
        None => push_str(out, "none provided"),
    }
}

/// The user prompt for summarizing a page.
pub fn build_url_user_prompt(page_content: &PageContent, user_text: Option<&str>) -> (r: String)
    ensures
        r@ == url_user_prompt_text(
            page_content.url@,
            crate::text::opt_string_view(page_content.title),
            crate::text::opt_string_view(page_content.description),
            page_content.body_text@,
            crate::text::opt_str_view(user_text),
        ),
{
    let mut out = chars_of("URL: ");
    push_str(&mut out, page_content.url.as_str());
    push_str(&mut out, "\n\nPage title: ");
    push_or_none(&mut out, match &page_content.title { Some(t) => Some(t.as_str()), None => None });
    push_str(&mut out, "\n\nPage description: ");
    push_or_none(
        &mut out,
        match &page_content.description { Some(t) => Some(t.as_str()), None => None },
    );
    push_str(&mut out, "\n\nPage body:\n");
    push_str(&mut out, page_content.body_text.as_str());
    push_str(&mut out, "\n\nUser context: ");
    push_or_none(&mut out, user_text);
    string_of(&out)
}

/// A `{"type": t, "description": d}` schema property.
pub open spec fn typed_property(t: Seq<char>, d: Seq<char>) -> JsonView {
    JsonView::Object(seq![("type"@, JsonView::Str(t)), ("description"@, JsonView::Str(d))])
}

fn typed_property_json(t: &str, d: &str) -> (r: JsonValue)
    ensures
        json_view(r) == typed_property(t@, d@),
{
    let mut es: Vec<(String, JsonValue)> = Vec::new();
    es.push(entry("type", json_str(t)));
    es.push(entry("description", json_str(d)));
    let r = json_object(es);
    assert(entry_views(es@) =~= seq![("type"@, JsonView::Str(t@)), ("description"@, JsonView::Str(d@))]);
    r
}

/// The schema of the tags property: an array of strings.
pub open spec fn tags_property() -> JsonView {
    JsonView::Object(
        seq![
            ("type"@, JsonView::Str("array"@)),
            ("items"@, JsonView::Object(seq![("type"@, JsonView::Str("string"@))])),
            ("description"@, JsonView::Str("Relevant tags (3-5) without # prefix"@)),
        ],
    )
}

fn tags_property_json() -> (r: JsonValue)
    ensures
        json_view(r) == tags_property(),
{
    let mut item: Vec<(String, JsonValue)> = Vec::new();
    item.push(entry("type", json_str("string")));
    let items = json_object(item);
    assert(entry_views(item@) =~= seq![("type"@, JsonView::Str("string"@))]);
    let mut es: Vec<(String, JsonValue)> = Vec::new();
    es.push(entry("type", json_str("array")));
    es.push(entry("items", items));
    es.push(entry("description", json_str("Relevant tags (3-5) without # prefix")));
    let r = json_object(es);
    assert(entry_views(es@) =~= seq![
        ("type"@, JsonView::Str("array"@)),
        ("items"@, JsonView::Object(seq![("type"@, JsonView::Str("string"@))])),
        ("description"@, JsonView::Str("Relevant tags (3-5) without # prefix"@)),
    ]);
    r
}

/// The JSON schema the summary must follow: title, summary and tags, all required, nothing else.
pub open spec fn url_summary_schema() -> JsonView {
    JsonView::Object(
        seq![
            ("type"@, JsonView::Str("object"@)),
            ("properties"@, JsonView::Object(seq![
                ("title"@, typed_property("string"@, "Concise page title in 5-10 words"@)),
                ("summary"@, typed_property("string"@, "Concise summary in 2-3 sentences"@)),
                ("tags"@, tags_property()),
            ])),
            ("required"@, JsonView::Array(seq![JsonView::Str("title"@), JsonView::Str("summary"@), JsonView::Str("tags"@)])),
            ("additionalProperties"@, JsonView::Bool(false)),
        ],
    )
}

/// The `response_format` asking for a strict JSON schema named `url_summary`.
pub open spec fn url_summary_format_view() -> JsonView {
    JsonView::Object(
        seq![
            ("type"@, JsonView::Str("json_schema"@)),
            ("json_schema"@, JsonView::Object(seq![
                ("name"@, JsonView::Str("url_summary"@)),
                ("strict"@, JsonView::Bool(true)),
                ("schema"@, url_summary_schema()),
            ])),
        ],
    )
}

fn url_summary_schema_json() -> (r: JsonValue)
    ensures
        json_view(r) == url_summary_schema(),
{
    let mut props: Vec<(String, JsonValue)> = Vec::new();
    props.push(entry("title", typed_property_json("string", "Concise page title in 5-10 words")));
    props.push(entry("summary", typed_property_json("string", "Concise summary in 2-3 sentences")));
    props.push(entry("tags", tags_property_json()));
    let properties = json_object(props);
    assert(entry_views(props@) =~= seq![
        ("title"@, typed_property("string"@, "Concise page title in 5-10 words"@)),
        ("summary"@, typed_property("string"@, "Concise summary in 2-3 sentences"@)),
        ("tags"@, tags_property()),
    ]);
    let mut req: Vec<JsonValue> = Vec::new();
    req.push(json_str("title"));
    req.push(json_str("summary"));
    req.push(json_str("tags"));
    let required = json_array(req);
    assert(json_views(req@) =~= seq![JsonView::Str("title"@), JsonView::Str("summary"@), JsonView::Str("tags"@)]);
    let mut es: Vec<(String, JsonValue)> = Vec::new();
    es.push(entry("type", json_str("object")));
    es.push(entry("properties", properties));
    es.push(entry("required", required));
    es.push(entry("additionalProperties", JsonValue::Bool(false)));
    let r = json_object(es);
    assert(entry_views(es@) =~= seq![
        ("type"@, JsonView::Str("object"@)),
        ("properties"@, JsonView::Object(seq![
            ("title"@, typed_property("string"@, "Concise page title in 5-10 words"@)),
            ("summary"@, typed_property("string"@, "Concise summary in 2-3 sentences"@)),
            ("tags"@, tags_property()),
        ])),
        ("required"@, JsonView::Array(seq![JsonView::Str("title"@), JsonView::Str("summary"@), JsonView::Str("tags"@)])),
        ("additionalProperties"@, JsonView::Bool(false)),
    ]);
    r
}

/// The `response_format` of a summary request: a strict JSON schema.
pub fn url_summary_response_format() -> (r: JsonValue)
    ensures
        json_view(r) == url_summary_format_view(),
{
    let mut inner: Vec<(String, JsonValue)> = Vec::new();
    inner.push(entry("name", json_str("url_summary")));
    inner.push(entry("strict", JsonValue::Bool(true)));
    inner.push(entry("schema", url_summary_schema_json()));
    let js = json_object(inner);
    assert(entry_views(inner@) =~= seq![
        ("name"@, JsonView::Str("url_summary"@)),
        ("strict"@, JsonView::Bool(true)),
        ("schema"@, url_summary_schema()),
    ]);
    let mut es: Vec<(String, JsonValue)> = Vec::new();
    es.push(entry("type", json_str("json_schema")));
    es.push(entry("json_schema", js));
    let r = json_object(es);
    assert(entry_views(es@) =~= seq![
        ("type"@, JsonView::Str("json_schema"@)),
        ("json_schema"@, JsonView::Object(seq![
            ("name"@, JsonView::Str("url_summary"@)),
            ("strict"@, JsonView::Bool(true)),
            ("schema"@, url_summary_schema()),
        ])),
    ]);
    r
}

/// The chat request for a page summary: model, system and user messages,
/// the strict response format and at most 4096 tokens.
pub open spec fn url_request_view(model: Seq<char>, system_prompt: Seq<char>, user_prompt: Seq<char>) -> JsonView {
    JsonView::Object(
        seq![
            ("model"@, JsonView::Str(model)),
            ("messages"@, JsonView::Array(seq![message_view("system"@, system_prompt), message_view("user"@, user_prompt)])),
            ("response_format"@, url_summary_format_view()),
            ("max_tokens"@, JsonView::Number(crate::text::decimal(4096))),
        ],
    )
}

/// The chat request summarizing `page_content` with the given system prompt.
pub fn build_url_request_body(
    page_content: &PageContent,
    user_text: Option<&str>,
    model: &str,
    system_prompt: &str,
) -> (r: JsonValue)
    ensures
        json_view(r) == url_request_view(
            model@,
            system_prompt@,
            url_user_prompt_text(
                page_content.url@,
                crate::text::opt_string_view(page_content.title),
                crate::text::opt_string_view(page_content.description),
                page_content.body_text@,
                crate::text::opt_str_view(user_text),
            ),
        ),
{
    let user_prompt = build_url_user_prompt(page_content, user_text);
    let ghost up = user_prompt@;
    let mut msgs: Vec<JsonValue> = Vec::new();
    msgs.push(message_json("system", system_prompt.to_owned()));
    msgs.push(message_json("user", user_prompt));
    let messages = json_array(msgs);
    assert(json_views(msgs@) =~= seq![message_view("system"@, system_prompt@), message_view("user"@, up)]);
    let mut es: Vec<(String, JsonValue)> = Vec::new();
    es.push(entry("model", json_str(model)));
    es.push(entry("messages", messages));
    es.push(entry("response_format", url_summary_response_format()));
    es.push(entry("max_tokens", json_u64(4096)));
    let r = json_object(es);
    assert(entry_views(es@) =~= seq![
        ("model"@, JsonView::Str(model@)),
        ("messages"@, JsonView::Array(seq![message_view("system"@, system_prompt@), message_view("user"@, up)])),
        ("response_format"@, url_summary_format_view()),
        ("max_tokens"@, JsonView::Number(crate::text::decimal(4096))),
    ]);
    r
}


/// The error for an answer that is not a page summary: the parser's
/// message and the raw answer.
pub fn summary_parse_error(error: &str, raw: &str) -> (r: AiError)
    ensures
        r matches AiError::SummarizationFailed(m) && m@ == "Failed to parse URL summary JSON: "@ + error@ + ". Raw: "@
            + raw@,
{
    let mut m = chars_of("Failed to parse URL summary JSON: ");
    push_str(&mut m, error);
    push_str(&mut m, ". Raw: ");
    push_str(&mut m, raw);
    AiError::SummarizationFailed(string_of(&m))
}

} // verus!
