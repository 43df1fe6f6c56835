//! Reformatting raw video transcripts into readable markdown.
use vstd::prelude::*;
use crate::ai::conflict::{message_json, message_view};
use crate::ai::guide::{compose_system_prompt, composed_prompt};
use crate::json::{entry, entry_views, json_array, json_object, json_str, json_u64, json_view, json_views, JsonValue, JsonView};
use crate::text::{chars_of, push_str, string_of, trim, trimmed};

verus! {

/// The default guide file, `./system-guide.md`.
pub fn default_guide_path() -> (r: String)
    ensures
        r@ == "./system-guide.md"@,
{
    "./system-guide.md".to_owned()
}

/// The instructions for reformatting a transcript.
pub open spec fn transcript_format_prompt_text() -> Seq<char> {
    "You are a transcript formatter. Your task is to reformat raw video transcript text into human-readable structured content.\n\nRules:\n- Add paragraph breaks where natural topic shifts occur\n- Add topic headings using ### Markdown syntax for major topics\n- Preserve ALL content — do NOT summarize or omit anything\n- Do NOT add commentary, opinions, or meta-discussion\n- Output plain Markdown text only\n\nThe goal is readability, not summarization."@
}

/// The instructions for reformatting a transcript.
pub fn transcript_format_system_prompt() -> (r: &'static str)
    ensures
        r@ == transcript_format_prompt_text(),
{
    "You are a transcript formatter. Your task is to reformat raw video transcript text into human-readable structured content.\n\nRules:\n- Add paragraph breaks where natural topic shifts occur\n- Add topic headings using ### Markdown syntax for major topics\n- Preserve ALL content — do NOT summarize or omit anything\n- Do NOT add commentary, opinions, or meta-discussion\n- Output plain Markdown text only\n\nThe goal is readability, not summarization."
}

/// The user prompt carrying the title and the raw transcript.
pub open spec fn transcript_user_prompt_text(title: Seq<char>, raw: Seq<char>) -> Seq<char> {
    "Video Title: "@ + title + "\n\nRaw Transcript:\n"@ + raw
}

/// The guide used with a transcript: none when blank.
pub open spec fn transcript_guide(guide: Seq<char>) -> Option<Seq<char>> {
    if trim(guide).len() == 0 {
        None
    } else {
        Some(guide)
    }
}

/// The chat request for reformatting a transcript.
pub open spec fn transcript_request_view(
    model: Seq<char>,
    title: Seq<char>,
    raw: Seq<char>,
    guide: Seq<char>,
) -> JsonView {
    JsonView::Object(
        seq![
            ("model"@, JsonView::Str(model)),
            ("messages"@, JsonView::Array(seq![
                message_view("system"@, composed_prompt(transcript_format_prompt_text(), transcript_guide(guide))),
                message_view("user"@, transcript_user_prompt_text(title, raw)),
            ])),
            ("max_tokens"@, JsonView::Number(crate::text::decimal(4096))),
        ],
    )
}

/// The chat request reformatting `raw_transcript` of the video `video_title`,
/// with the guide appended to the instructions unless it is blank.
pub fn build_transcript_format_body(
    model: &str,
    video_title: &str,
    raw_transcript: &str,
    guide_content: &str,
) -> (r: JsonValue)
    ensures
        json_view(r) == transcript_request_view(model@, video_title@, raw_transcript@, guide_content@),
{
    let g = trimmed(&chars_of(guide_content));
    let guide = if g.len() == 0 {
        None
    } else {
        Some(guide_content)
    };
    let system_prompt = compose_system_prompt(transcript_format_system_prompt(), guide);
    let mut up = chars_of("Video Title: ");
    push_str(&mut up, video_title);
    push_str(&mut up, "\n\nRaw Transcript:\n");
    push_str(&mut up, raw_transcript);
    let user_prompt = string_of(&up);
    let ghost sp = system_prompt@;
    let ghost upv = user_prompt@;
    let mut msgs: Vec<JsonValue> = Vec::new();
    msgs.push(message_json("system", system_prompt));
    msgs.push(message_json("user", user_prompt));
    let messages = json_array(msgs);
    assert(json_views(msgs@) =~= seq![message_view("system"@, sp), message_view("user"@, upv)]);
    let mut es: Vec<(String, JsonValue)> = Vec::new();
    es.push(entry("model", json_str(model)));
    es.push(entry("messages", messages));
    es.push(entry("max_tokens", json_u64(4096)));
    let r = json_object(es);
    assert(entry_views(es@) =~= seq![
        ("model"@, JsonView::Str(model@)),
        ("messages"@, JsonView::Array(seq![message_view("system"@, sp), message_view("user"@, upv)])),
        ("max_tokens"@, JsonView::Number(crate::text::decimal(4096))),
    ]);
    r
}

} // verus!
