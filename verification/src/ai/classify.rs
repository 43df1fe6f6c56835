//! The classification of incoming text into todos, logs and notes.
use vstd::prelude::*;
use crate::ai::conflict::{message_json, message_view};
use crate::ai::guide::{composed_prompt, compose_system_prompt};
use crate::error::AiError;
use crate::json::{
    arr1, arr2, entry, entry_views, json_array, json_object, json_str, json_view, json_views, obj1,
    obj2, obj3, obj4, JsonValue, JsonView,
};
use crate::text::{chars_of, push_str, string_of};

verus! {

/// The category assigned to a piece of text by the AI
#[derive(Debug, Clone, Copy, PartialEq, Eq, Structural)]
pub enum NoteCategory {
    Todo,
    Log,
    Note,
}

impl NoteCategory {
    /// The lowercase name of the category (`todo`, `log` or `note`).
    pub fn as_str(&self) -> (r: &'static str)
        ensures
            r@ == category_name(*self),
    {
        match self {
            NoteCategory::Todo => "todo",
            NoteCategory::Log => "log",
            NoteCategory::Note => "note",
        }
    }
}

/// The lowercase name of a category.
pub open spec fn category_name(c: NoteCategory) -> Seq<char> {
    match c {
        NoteCategory::Todo => "todo"@,
        NoteCategory::Log => "log"@,
        NoteCategory::Note => "note"@,
    }
}

/// The structured output from the AI classification
#[derive(Debug)]
pub struct ClassifiedNote {
    /// The category: todo, log, or note
    pub category: NoteCategory,
    /// The formatted markdown content ready for the daily note
    pub markdown: String,
    /// Optional tags extracted from the content
    pub tags: Vec<String>,
    /// Brief summary (1 line)
    pub summary: String,
    /// Optional key-value pairs for daily note frontmatter updates
    pub frontmatter: Option<Vec<(String, JsonValue)>>,
}

/// The instructions for classifying a message into a todo, log or note.
pub open spec fn classification_prompt_text() -> Seq<char> {
    "You are a personal knowledge management assistant. Your job is to classify incoming text messages and format them as markdown for an Obsidian daily note.\n\n## Classification Rules:\n\n**todo** — Action items, tasks, reminders, things to do\n- Format: `- [ ] <task description>`\n- Example input: \"Vergeet niet melk te kopen\"\n- Example output: `- [ ] Melk kopen`\n\n**log** — Activities, events, things that happened or are happening\n- Format: `- <activity description>` (do NOT include time — it is added automatically)\n- Example input: \"Net 30 minuten hardgelopen in het park\"\n- Example output: `- 30 min hardgelopen in het park 🏃`\n\n**note** — Thoughts, ideas, knowledge, observations, reflections\n- Format: Clean paragraph or bullet points as appropriate\n- Example input: \"Ik denk dat we het project beter kunnen opsplitsen in microservices\"\n- Example output: A well-formatted note about the thought\n\n## Important:\n- Preserve the original language (Dutch, English, etc.)\n- Keep it concise but complete\n- Extract relevant tags (without # prefix)\n- The markdown should be ready to append directly to a daily note\n- For todos, always use `- [ ] ` checkbox format\n- For logs, do NOT include time — timestamps are added automatically by the system\n"@
}

/// The instructions for classifying a message into a todo, log or note.
pub fn classification_system_prompt() -> (r: &'static str)
    ensures
        r@ == classification_prompt_text(),
{
    "You are a personal knowledge management assistant. Your job is to classify incoming text messages and format them as markdown for an Obsidian daily note.\n\n## Classification Rules:\n\n**todo** — Action items, tasks, reminders, things to do\n- Format: `- [ ] <task description>`\n- Example input: \"Vergeet niet melk te kopen\"\n- Example output: `- [ ] Melk kopen`\n\n**log** — Activities, events, things that happened or are happening\n- Format: `- <activity description>` (do NOT include time — it is added automatically)\n- Example input: \"Net 30 minuten hardgelopen in het park\"\n- Example output: `- 30 min hardgelopen in het park 🏃`\n\n**note** — Thoughts, ideas, knowledge, observations, reflections\n- Format: Clean paragraph or bullet points as appropriate\n- Example input: \"Ik denk dat we het project beter kunnen opsplitsen in microservices\"\n- Example output: A well-formatted note about the thought\n\n## Important:\n- Preserve the original language (Dutch, English, etc.)\n- Keep it concise but complete\n- Extract relevant tags (without # prefix)\n- The markdown should be ready to append directly to a daily note\n- For todos, always use `- [ ] ` checkbox format\n- For logs, do NOT include time — timestamps are added automatically by the system\n"
}


/// A JSON string view.
pub open spec fn jstr(s: Seq<char>) -> JsonView {
    JsonView::Str(s)
}

/// The schema of the `category` member: one of `todo`, `log`, `note`.
pub open spec fn category_property() -> JsonView {
    JsonView::Object(seq![
        ("type"@, jstr("string"@)),
        ("enum"@, JsonView::Array(seq![jstr("todo"@), jstr("log"@), jstr("note"@)])),
        ("description"@, jstr("The type of entry: todo for action items, log for activity/event logs, note for knowledge/thoughts"@)),
    ])
}

/// The schema of the `markdown` member.
pub open spec fn markdown_property() -> JsonView {
    JsonView::Object(seq![
        ("type"@, jstr("string"@)),
        ("description"@, jstr("The formatted markdown content. For todos: use '- [ ] ' prefix. For logs: use '- <activity description>' (do NOT include time — it will be added automatically). For notes: use a clean paragraph or bullet points."@)),
    ])
}

/// The schema of the `tags` member: an array of strings.
pub open spec fn note_tags_property() -> JsonView {
    JsonView::Object(seq![
        ("type"@, jstr("array"@)),
        ("items"@, JsonView::Object(seq![("type"@, jstr("string"@))])),
        ("description"@, jstr("Relevant Obsidian tags without # prefix (e.g. 'work', 'health', 'project-x')"@)),
    ])
}

/// The schema of the `summary` member.
pub open spec fn summary_property() -> JsonView {
    JsonView::Object(seq![
        ("type"@, jstr("string"@)),
        ("description"@, jstr("A one-line summary of the content"@)),
    ])
}

/// The schema of the `frontmatter` member: an object or null.
pub open spec fn frontmatter_property() -> JsonView {
    JsonView::Object(seq![
        ("type"@, JsonView::Array(seq![jstr("object"@), jstr("null"@)])),
        ("description"@, jstr("Optional frontmatter key-value pairs to add/update in the daily note YAML frontmatter. Use for structured data like weight, measurements, etc. Return null if no frontmatter updates needed."@)),
        ("additionalProperties"@, JsonView::Bool(true)),
    ])
}

/// The JSON schema of a classified note: all five members required, nothing else.
pub open spec fn classified_note_schema() -> JsonView {
    JsonView::Object(seq![
        ("type"@, jstr("object"@)),
        ("properties"@, JsonView::Object(seq![
            ("category"@, category_property()),
            ("markdown"@, markdown_property()),
            ("tags"@, note_tags_property()),
            ("summary"@, summary_property()),
            ("frontmatter"@, frontmatter_property()),
        ])),
        ("required"@, JsonView::Array(seq![
            jstr("category"@), jstr("markdown"@), jstr("tags"@), jstr("summary"@), jstr("frontmatter"@),
        ])),
        ("additionalProperties"@, JsonView::Bool(false)),
    ])
}

/// The `response_format` asking for a strict JSON schema named `classified_note`.
pub open spec fn classified_note_format_view() -> JsonView {
    JsonView::Object(seq![
        ("type"@, jstr("json_schema"@)),
        ("json_schema"@, JsonView::Object(seq![
            ("name"@, jstr("classified_note"@)),
            ("strict"@, JsonView::Bool(true)),
            ("schema"@, classified_note_schema()),
        ])),
    ])
}

fn five_strings(a: &str, b: &str, c: &str, d: &str, e: &str) -> (r: JsonValue)
    ensures
        json_view(r) == JsonView::Array(seq![jstr(a@), jstr(b@), jstr(c@), jstr(d@), jstr(e@)]),
{
    let mut items: Vec<JsonValue> = Vec::new();
    items.push(json_str(a));
    items.push(json_str(b));
    items.push(json_str(c));
    items.push(json_str(d));
    items.push(json_str(e));
    assert(json_views(items@) =~= seq![jstr(a@), jstr(b@), jstr(c@), jstr(d@), jstr(e@)]);
    json_array(items)
}

fn classified_note_schema_json() -> (r: JsonValue)
    ensures
        json_view(r) == classified_note_schema(),
{
    let mut enum_items: Vec<JsonValue> = Vec::new();
    enum_items.push(json_str("todo"));
    enum_items.push(json_str("log"));
    enum_items.push(json_str("note"));
    assert(json_views(enum_items@) =~= seq![jstr("todo"@), jstr("log"@), jstr("note"@)]);
    let category = obj3(
        "type",
        json_str("string"),
        "enum",
        json_array(enum_items),
        "description",
        json_str("The type of entry: todo for action items, log for activity/event logs, note for knowledge/thoughts"),
    );
    let markdown = obj2(
        "type",
        json_str("string"),
        "description",
        json_str("The formatted markdown content. For todos: use '- [ ] ' prefix. For logs: use '- <activity description>' (do NOT include time — it will be added automatically). For notes: use a clean paragraph or bullet points."),
    );
    let tags = obj3(
        "type",
        json_str("array"),
        "items",
        obj1("type", json_str("string")),
        "description",
        json_str("Relevant Obsidian tags without # prefix (e.g. 'work', 'health', 'project-x')"),
    );
    let summary = obj2("type", json_str("string"), "description", json_str("A one-line summary of the content"));
    let frontmatter = obj3(
        "type",
        arr2(json_str("object"), json_str("null")),
        "description",
        json_str("Optional frontmatter key-value pairs to add/update in the daily note YAML frontmatter. Use for structured data like weight, measurements, etc. Return null if no frontmatter updates needed."),
        "additionalProperties",
        JsonValue::Bool(true),
    );
    let mut props: Vec<(String, JsonValue)> = Vec::new();
    props.push(entry("category", category));
    props.push(entry("markdown", markdown));
    props.push(entry("tags", tags));
    props.push(entry("summary", summary));
    props.push(entry("frontmatter", frontmatter));
    assert(entry_views(props@) =~= seq![
        ("category"@, category_property()),
        ("markdown"@, markdown_property()),
        ("tags"@, note_tags_property()),
        ("summary"@, summary_property()),
        ("frontmatter"@, frontmatter_property()),
    ]);
    obj4(
        "type",
        json_str("object"),
        "properties",
        json_object(props),
        "required",
        five_strings("category", "markdown", "tags", "summary", "frontmatter"),
        "additionalProperties",
        JsonValue::Bool(false),
    )
}

/// The `response_format` of a classification request: a strict JSON schema
/// of a classified note.
pub fn classified_note_response_format() -> (r: JsonValue)
    ensures
        json_view(r) == classified_note_format_view(),
{
    obj2(
        "type",
        json_str("json_schema"),
        "json_schema",
        obj3(
            "name",
            json_str("classified_note"),
            "strict",
            JsonValue::Bool(true),
            "schema",
            classified_note_schema_json(),
        ),
    )
}

/// The chat request classifying `text`: the model, the system prompt and
/// the text as messages, and the strict response format.
pub open spec fn text_request_view(model: Seq<char>, system_prompt: Seq<char>, text: Seq<char>) -> JsonView {
    JsonView::Object(seq![
        ("model"@, jstr(model)),
        ("messages"@, JsonView::Array(seq![message_view("system"@, system_prompt), message_view("user"@, text)])),
        ("response_format"@, classified_note_format_view()),
    ])
}

/// The chat request classifying `text` under the given system prompt.
pub fn build_text_request_body(text: &str, model: &str, system_prompt: &str) -> (r: JsonValue)
    ensures
        json_view(r) == text_request_view(model@, system_prompt@, text@),
{
    obj3(
        "model",
        json_str(model),
        "messages",
        arr2(message_json("system", system_prompt.to_owned()), message_json("user", text.to_owned())),
        "response_format",
        classified_note_response_format(),
    )
}

/// The system prompt of a classification: the instructions with the user's guide.
pub fn classification_prompt(guide: Option<&str>) -> (r: String)
    ensures
        r@ == composed_prompt(classification_prompt_text(), crate::text::opt_str_view(guide)),
{
    compose_system_prompt(classification_system_prompt(), guide)
}

/// The error for an answer that is not a classified note: the parser's
/// message and the raw answer.
pub fn classification_parse_error(error: &str, raw: &str) -> (r: AiError)
    ensures
        r matches AiError::ClassificationFailed(m) && m@ == "Failed to parse classification JSON: "@ + error@
            + ". Raw: "@ + raw@,
{
    let mut m = chars_of("Failed to parse classification JSON: ");
    push_str(&mut m, error);
    push_str(&mut m, ". Raw: ");
    push_str(&mut m, raw);
    AiError::ClassificationFailed(string_of(&m))
}

} // verus!
