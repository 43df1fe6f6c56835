use obsidian_ai_agent::ai::classify::{
    build_text_request_body, classification_parse_error, classification_prompt,
    classification_system_prompt, classified_note_response_format,
};
use obsidian_ai_agent::ai::gemini::{
    convert_to_gemini_schema, extract_gemini_schema, gemini_classify_image_body,
    gemini_classify_text_body, gemini_format_transcript_body, gemini_summarize_body,
    gemini_transcribe_pdf_body,
};
use obsidian_ai_agent::ai::providers::openrouter_chat_body;
use obsidian_ai_agent::ai::summarize::summary_parse_error;
use obsidian_ai_agent::ai::ChatMessage;
use obsidian_ai_agent::error::AiError;
use obsidian_ai_agent::json::{as_str, field, first, JsonValue};
use obsidian_ai_agent::url::extract::PageContent;

fn obj(entries: Vec<(&str, JsonValue)>) -> JsonValue {
    JsonValue::Object(entries.into_iter().map(|(k, v)| (k.to_string(), v)).collect())
}

fn st(v: &str) -> JsonValue {
    JsonValue::Str(v.to_string())
}

fn get<'a>(v: &'a JsonValue, path: &[&str]) -> Option<&'a JsonValue> {
    let mut cur = v;
    for p in path {
        cur = match p.parse::<usize>() {
            Ok(0) => first(cur)?,
            Ok(1) => match cur {
                JsonValue::Array(items) if items.len() > 1 => &items[1],
                _ => return None,
            },
            _ => field(cur, p)?,
        };
    }
    Some(cur)
}

fn text_at(v: &JsonValue, path: &[&str]) -> String {
    as_str(get(v, path).expect("present")).expect("string")
}

#[test]
fn test_convert_to_gemini_schema_removes_null_union_and_additional_properties() {
    let input_schema = obj(vec![
        ("type", st("object")),
        ("additionalProperties", JsonValue::Bool(false)),
        (
            "properties",
            obj(vec![
                ("category", obj(vec![("type", st("string"))])),
                (
                    "frontmatter",
                    obj(vec![
                        ("type", JsonValue::Array(vec![st("object"), st("null")])),
                        ("additionalProperties", JsonValue::Bool(true)),
                    ]),
                ),
            ]),
        ),
    ]);

    let output = convert_to_gemini_schema(input_schema);

    assert_eq!(text_at(&output, &["properties", "frontmatter", "type"]), "object");
    assert!(get(&output, &["additionalProperties"]).is_none());
    assert!(get(&output, &["properties", "frontmatter", "additionalProperties"]).is_none());
    assert_eq!(text_at(&output, &["properties", "category", "type"]), "string");
}

#[test]
fn test_extract_gemini_schema_success() {
    let response_format = obj(vec![
        ("type", st("json_schema")),
        (
            "json_schema",
            obj(vec![
                ("name", st("test_schema")),
                ("strict", JsonValue::Bool(true)),
                (
                    "schema",
                    obj(vec![
                        ("type", st("object")),
                        (
                            "properties",
                            obj(vec![(
                                "tags",
                                obj(vec![("type", st("array")), ("items", obj(vec![("type", st("string"))]))]),
                            )]),
                        ),
                    ]),
                ),
            ]),
        ),
    ]);

    let schema = extract_gemini_schema(&response_format).expect("should extract");
    assert_eq!(text_at(&schema, &["type"]), "object");
    assert_eq!(text_at(&schema, &["properties", "tags", "type"]), "array");
    assert_eq!(text_at(&schema, &["properties", "tags", "items", "type"]), "string");
}

#[test]
fn gemini_schema_edge_cases() {
    let only_null = obj(vec![("type", JsonValue::Array(vec![st("null")]))]);
    assert_eq!(text_at(&convert_to_gemini_schema(only_null), &["type"]), "string");
    let nested_items = obj(vec![(
        "items",
        obj(vec![("type", JsonValue::Array(vec![st("null"), st("integer")])), ("additionalProperties", JsonValue::Bool(false))]),
    )]);
    let out = convert_to_gemini_schema(nested_items);
    assert_eq!(text_at(&out, &["items", "type"]), "integer");
    assert!(get(&out, &["items", "additionalProperties"]).is_none());
    assert!(extract_gemini_schema(&obj(vec![("type", st("json_schema"))])).is_none());
    assert!(matches!(convert_to_gemini_schema(st("x")), JsonValue::Str(ref v) if v == "x"));
}

#[test]
fn classification_request_carries_strict_schema() {
    let body = build_text_request_body("buy milk", "model-x", "system");
    assert_eq!(text_at(&body, &["model"]), "model-x");
    assert_eq!(text_at(&body, &["messages", "0", "role"]), "system");
    assert_eq!(text_at(&body, &["messages", "1", "content"]), "buy milk");
    assert_eq!(text_at(&body, &["response_format", "json_schema", "name"]), "classified_note");
    assert_eq!(
        text_at(&body, &["response_format", "json_schema", "schema", "properties", "frontmatter", "type", "0"]),
        "object"
    );
    let rf = classified_note_response_format();
    let gs = extract_gemini_schema(&rf).unwrap();
    assert_eq!(text_at(&gs, &["properties", "frontmatter", "type"]), "object");
    assert!(get(&gs, &["additionalProperties"]).is_none());
}

#[test]
fn classification_prompt_and_error() {
    assert_eq!(classification_prompt(None), classification_system_prompt());
    assert!(classification_prompt(Some("g")).ends_with("\n\n<user_guide>\ng\n</user_guide>"));
    assert_eq!(
        classification_parse_error("expected value", "oops"),
        AiError::ClassificationFailed("Failed to parse classification JSON: expected value. Raw: oops".to_string())
    );
    assert_eq!(
        summary_parse_error("eof", "{"),
        AiError::SummarizationFailed("Failed to parse URL summary JSON: eof. Raw: {".to_string())
    );
}

#[test]
fn gemini_text_classification_body() {
    let body = gemini_classify_text_body("ran 5k", None);
    assert_eq!(text_at(&body, &["system_instruction", "parts", "0", "text"]), classification_system_prompt());
    assert_eq!(text_at(&body, &["contents", "0", "role"]), "user");
    assert_eq!(text_at(&body, &["contents", "0", "parts", "0", "text"]), "ran 5k");
    assert_eq!(text_at(&body, &["generationConfig", "response_mime_type"]), "application/json");
    assert_eq!(text_at(&body, &["generationConfig", "responseSchema", "type"]), "object");
}

#[test]
fn gemini_image_classification_body() {
    let body = gemini_classify_image_body("data:image/png;base64,AAAA", Some("Sunset"), "Taken: today", None);
    assert_eq!(text_at(&body, &["contents", "0", "parts", "0", "inline_data", "mime_type"]), "image/png");
    assert_eq!(text_at(&body, &["contents", "0", "parts", "0", "inline_data", "data"]), "AAAA");
    assert_eq!(text_at(&body, &["contents", "0", "parts", "1", "text"]), "Sunset\n\nTaken: today");
    let plain = gemini_classify_image_body("AAAA", None, "", None);
    assert_eq!(text_at(&plain, &["contents", "0", "parts", "0", "inline_data", "mime_type"]), "image/jpeg");
    assert_eq!(text_at(&plain, &["contents", "0", "parts", "1", "text"]), "Describe this image.");
    assert!(text_at(&plain, &["system_instruction", "parts", "0", "text"]).contains("You are also receiving an image."));
}

#[test]
fn gemini_summary_body() {
    let page = PageContent {
        title: None,
        description: Some("D".to_string()),
        body_text: "B".to_string(),
        url: "https://e.com".to_string(),
    };
    let body = gemini_summarize_body(&page, Some("focus"), None);
    assert_eq!(
        text_at(&body, &["contents", "0", "parts", "0", "text"]),
        "URL: https://e.com\nTitle: [No Title]\nDescription: D\nContent:\nB\n\nUser instructions:\nfocus"
    );
    assert_eq!(text_at(&body, &["generationConfig", "responseSchema", "properties", "tags", "type"]), "array");
}

#[test]
fn gemini_transcript_and_pdf_bodies() {
    let body = gemini_format_transcript_body("raw words", "Title", "GUIDE");
    assert!(text_at(&body, &["system_instruction", "parts", "0", "text"]).ends_with("Follow this style guide: GUIDE"));
    assert_eq!(text_at(&body, &["contents", "0", "parts", "0", "text"]), "Video Title: Title\nRaw Transcript:\nraw words");
    assert!(get(&body, &["generationConfig"]).is_none());

    let pdf = gemini_transcribe_pdf_body("UEsD".to_string(), Some("invoice"));
    assert_eq!(text_at(&pdf, &["contents", "0", "parts", "0", "inline_data", "mime_type"]), "application/pdf");
    assert_eq!(text_at(&pdf, &["contents", "0", "parts", "0", "inline_data", "data"]), "UEsD");
    assert_eq!(
        text_at(&pdf, &["contents", "0", "parts", "1", "text"]),
        "Transcribe the attached PDF document. User instruction/context: invoice"
    );
}

#[test]
fn openrouter_chat_request() {
    let msgs = vec![
        ChatMessage { role: "system".to_string(), content: "s".to_string() },
        ChatMessage { role: "user".to_string(), content: "u".to_string() },
    ];
    let body = openrouter_chat_body("m", &msgs, Some(100));
    assert_eq!(text_at(&body, &["model"]), "m");
    assert_eq!(text_at(&body, &["messages", "1", "content"]), "u");
    assert!(matches!(get(&body, &["max_tokens"]), Some(JsonValue::Number(n)) if n == "100"));
    let no_limit = openrouter_chat_body("m", &msgs, None);
    assert!(get(&no_limit, &["max_tokens"]).is_none());
}
