use base64::Engine;
use obsidian_ai_agent::ai::classify::classification_system_prompt;
use obsidian_ai_agent::ai::conflict::{
    analysis_entry, analysis_failed_entry, combine_analyses, conflict_request_body,
    conflict_user_prompt, parse_analysis_response, truncate_content, ConflictAnalysis,
};
use obsidian_ai_agent::ai::guide::{compose_system_prompt, guide_from_content};
use obsidian_ai_agent::ai::providers::{
    gemini_chat_body, gemini_extract_content, gemini_generate_url, openrouter_extract_content,
    parse_data_uri, provider_not_found, retry_step, AiRouting, HttpOutcome, RetryStep,
};
use obsidian_ai_agent::ai::summarize::{
    build_url_request_body, build_url_user_prompt, url_summary_response_format,
    url_summary_system_prompt,
};
use obsidian_ai_agent::ai::transcript_format::{
    build_transcript_format_body, default_guide_path, transcript_format_system_prompt,
};
use obsidian_ai_agent::ai::ChatMessage;
use obsidian_ai_agent::config::Config;
use obsidian_ai_agent::error::AiError;
use obsidian_ai_agent::json::{as_str, field, first, JsonValue};
use obsidian_ai_agent::url::extract::PageContent;

fn s(v: &str) -> String {
    v.to_string()
}

fn get<'a>(v: &'a JsonValue, path: &[&str]) -> &'a JsonValue {
    let mut cur = v;
    for p in path {
        cur = match p.parse::<usize>() {
            Ok(0) => first(cur).expect("array element"),
            _ => field(cur, p).expect("field"),
        };
    }
    cur
}

fn text_at(v: &JsonValue, path: &[&str]) -> String {
    as_str(get(v, path)).expect("string")
}

fn obj(entries: Vec<(&str, JsonValue)>) -> JsonValue {
    JsonValue::Object(entries.into_iter().map(|(k, v)| (k.to_string(), v)).collect())
}

fn sample_page_content() -> PageContent {
    PageContent {
        title: Some(s("Example Article")),
        description: Some(s("An example description")),
        body_text: s("This is the full article body text."),
        url: s("https://example.com/article"),
    }
}

#[test]
fn test_compose_system_prompt_with_guide() {
    let guide = "## Custom Rules\ngewicht triggers frontmatter";
    let composed = compose_system_prompt(classification_system_prompt(), Some(guide));

    assert!(composed.contains(classification_system_prompt()));
    assert!(composed.contains("<user_guide>"));
    assert!(composed.contains("## Custom Rules"));
    assert!(composed.contains("</user_guide>"));
}

#[test]
fn test_compose_system_prompt_without_guide() {
    let composed = compose_system_prompt(classification_system_prompt(), None);
    assert_eq!(composed, classification_system_prompt());
}

#[test]
fn test_truncate_content_short() {
    let result = truncate_content("hello", 100);
    assert_eq!(result, "hello");
}

#[test]
fn test_truncate_content_long() {
    let long = "a".repeat(3000);
    let result = truncate_content(&long, 2000);
    assert!(result.len() <= 2020);
    assert!(result.ends_with("... (truncated)"));
}

#[test]
fn test_truncate_content_unicode() {
    let content = "🎵".repeat(600);
    let result = truncate_content(&content, 2000);
    assert!(result.ends_with("... (truncated)"));
}

#[test]
fn test_parse_analysis_response_structured() {
    let response = "SUMMARY: The local version has new entries added today.\n\
                    RECOMMENDATION: Keep YOUR version — it has newer content.\n\
                    CONFIDENCE: high";
    let analysis = parse_analysis_response(response);
    assert_eq!(analysis.confidence, "high");
    assert!(analysis.summary.contains("new entries"));
    assert!(analysis.recommendation.contains("YOUR version"));
}

#[test]
fn test_parse_analysis_response_fallback() {
    let response = "This is just some freeform text without the expected format.";
    let analysis = parse_analysis_response(response);
    assert_eq!(analysis.summary, response);
    assert!(analysis.recommendation.is_empty());
    assert_eq!(analysis.confidence, "unknown");
}

#[test]
fn test_compose_prompt_with_guide() {
    let base = "You are an assistant";
    let guide = "Use concise language";
    let result = compose_system_prompt(base, Some(guide));

    assert!(result.contains(base));
    assert!(result.contains("<user_guide>"));
    assert!(result.contains(guide));
    assert!(result.contains("</user_guide>"));
    assert_eq!(
        result,
        "You are an assistant\n\n<user_guide>\nUse concise language\n</user_guide>"
    );
}

#[test]
fn test_compose_prompt_without_guide() {
    let base = "You are an assistant";
    let result = compose_system_prompt(base, None);

    assert_eq!(result, base);
    assert!(!result.contains("<user_guide>"));
}

#[test]
fn test_parse_data_uri_jpeg() {
    let uri = "data:image/jpeg;base64,/9j/4AAQSkZJRg==";
    let (mime, data) = parse_data_uri(uri);
    assert_eq!(mime, "image/jpeg");
    assert_eq!(data, "/9j/4AAQSkZJRg==");
}

#[test]
fn test_parse_data_uri_png() {
    let uri = "data:image/png;base64,iVBORw0KGgoAAAANSUhEUg==";
    let (mime, data) = parse_data_uri(uri);
    assert_eq!(mime, "image/png");
    assert_eq!(data, "iVBORw0KGgoAAAANSUhEUg==");
}

#[test]
fn test_parse_data_uri_plain() {
    let uri = "/9j/4AAQSkZJRg==";
    let (mime, data) = parse_data_uri(uri);
    assert_eq!(mime, "image/jpeg");
    assert_eq!(data, "/9j/4AAQSkZJRg==");
}

#[test]
fn test_url_summary_response_format_is_strict_schema() {
    let format = url_summary_response_format();

    assert_eq!(text_at(&format, &["type"]), "json_schema");
    assert_eq!(text_at(&format, &["json_schema", "name"]), "url_summary");
    assert!(matches!(get(&format, &["json_schema", "strict"]), JsonValue::Bool(true)));
    match get(&format, &["json_schema", "schema", "required"]) {
        JsonValue::Array(items) => {
            let names: Vec<String> = items.iter().map(|i| as_str(i).unwrap()).collect();
            assert_eq!(names, vec![s("title"), s("summary"), s("tags")]);
        }
        other => panic!("required should be an array, got {:?}", other),
    }
    assert!(matches!(
        get(&format, &["json_schema", "schema", "additionalProperties"]),
        JsonValue::Bool(false)
    ));
}

#[test]
fn test_build_url_request_body_includes_response_format_and_max_tokens() {
    let body = build_url_request_body(
        &sample_page_content(),
        Some("Please focus on implementation details"),
        "google/gemini-2.5-flash",
        "system prompt",
    );

    assert_eq!(text_at(&body, &["model"]), "google/gemini-2.5-flash");
    assert_eq!(text_at(&body, &["messages", "0", "role"]), "system");
    assert_eq!(text_at(&body, &["messages", "0", "content"]), "system prompt");
    match get(&body, &["messages"]) {
        JsonValue::Array(items) => {
            assert_eq!(as_str(field(&items[1], "role").unwrap()).unwrap(), "user");
            assert!(as_str(field(&items[1], "content").unwrap())
                .unwrap()
                .contains("https://example.com/article"));
        }
        other => panic!("messages should be an array, got {:?}", other),
    }
    assert!(matches!(get(&body, &["max_tokens"]), JsonValue::Number(n) if n == "4096"));
    assert_eq!(text_at(&body, &["response_format", "type"]), "json_schema");
}

#[test]
fn test_build_url_user_prompt_includes_page_content_and_user_context() {
    let prompt = build_url_user_prompt(
        &sample_page_content(),
        Some("I care most about the practical takeaways."),
    );

    assert!(prompt.contains("https://example.com/article"));
    assert!(prompt.contains("Example Article"));
    assert!(prompt.contains("An example description"));
    assert!(prompt.contains("This is the full article body text."));
    assert!(prompt.contains("I care most about the practical takeaways."));
}

#[test]
fn test_build_url_user_prompt_without_user_context() {
    let prompt = build_url_user_prompt(&sample_page_content(), None);
    assert!(prompt.contains("User context: none provided"));
}

#[test]
fn test_compose_system_prompt_with_guide_for_url_summary() {
    let guide = "Use short, actionable tags";
    let composed = compose_system_prompt(url_summary_system_prompt(), Some(guide));

    assert!(composed.contains(url_summary_system_prompt()));
    assert!(composed.contains("<user_guide>"));
    assert!(composed.contains("Use short, actionable tags"));
    assert!(composed.contains("</user_guide>"));
}

#[test]
fn test_compose_system_prompt_without_guide_for_url_summary() {
    let composed = compose_system_prompt(url_summary_system_prompt(), None);
    assert_eq!(composed, url_summary_system_prompt());
}

#[test]
fn url_user_prompt_exact_text() {
    let page = PageContent { title: None, description: None, body_text: s("Body"), url: s("https://x.org") };
    assert_eq!(
        build_url_user_prompt(&page, None),
        "URL: https://x.org\n\nPage title: none provided\n\nPage description: none provided\n\nPage body:\nBody\n\nUser context: none provided"
    );
}

#[test]
fn guide_content_is_trimmed_and_blank_is_none() {
    assert_eq!(guide_from_content("  rules\n\n"), Some(s("rules")));
    assert_eq!(guide_from_content(" \n\t "), None);
}

#[test]
fn conflict_prompt_and_body() {
    let prompt = conflict_user_prompt("note.md", "mine", "theirs", "diff");
    assert_eq!(
        prompt,
        "File: note.md\n\nYOUR version (local):\nmine\n\nSERVER version (remote):\ntheirs\n\nDiff:\ndiff"
    );
    let long = "x".repeat(1500);
    let p2 = conflict_user_prompt("a", "o", "t", &long);
    assert!(p2.ends_with(&format!("Diff:\n{}... (truncated)", "x".repeat(1000))));
    let body = conflict_request_body("m", prompt.clone());
    assert_eq!(text_at(&body, &["model"]), "m");
    assert_eq!(text_at(&body, &["messages", "0", "role"]), "system");
    assert!(text_at(&body, &["messages", "0", "content"]).contains("SUMMARY: <your summary>"));
    assert!(matches!(get(&body, &["max_tokens"]), JsonValue::Number(n) if n == "512"));
}

#[test]
fn conflict_report_entries() {
    let a = ConflictAnalysis { summary: s("S"), recommendation: s("R"), confidence: s("high") };
    assert_eq!(analysis_entry("f.md", &a), "📄 **f.md**\nS\n💡 R\n(confidence: high)");
    assert_eq!(analysis_failed_entry("f.md", "boom"), "📄 **f.md**\nAI analysis unavailable: boom");
    assert_eq!(combine_analyses(&vec![]), "No conflicted files to analyze.");
    assert_eq!(combine_analyses(&vec![s("a"), s("b")]), "a\n\nb");
}

#[test]
fn analysis_last_field_wins_and_missing_confidence_is_unknown() {
    let a = parse_analysis_response("  SUMMARY: one \nSUMMARY: two\nRECOMMENDATION: keep");
    assert_eq!(a.summary, "two");
    assert_eq!(a.recommendation, "keep");
    assert_eq!(a.confidence, "unknown");
}

#[test]
fn transcript_format_prompt_and_body() {
    assert_eq!(default_guide_path(), "./system-guide.md");
    assert!(transcript_format_system_prompt().starts_with("You are a transcript formatter."));
    let body = build_transcript_format_body("m", "Title", "raw words", "   ");
    assert_eq!(text_at(&body, &["messages", "0", "content"]), transcript_format_system_prompt());
    assert_eq!(text_at(&body, &["messages", "0", "role"]), "system");
    let with_guide = build_transcript_format_body("m", "Title", "raw words", "style");
    assert!(text_at(&with_guide, &["messages", "0", "content"]).ends_with("<user_guide>\nstyle\n</user_guide>"));
    match get(&with_guide, &["messages"]) {
        JsonValue::Array(items) => {
            assert_eq!(
                as_str(field(&items[1], "content").unwrap()).unwrap(),
                "Video Title: Title\n\nRaw Transcript:\nraw words"
            );
        }
        _ => panic!("messages"),
    }
}

#[test]
fn openrouter_content_extraction() {
    let ok = obj(vec![(
        "choices",
        JsonValue::Array(vec![obj(vec![
            ("finish_reason", JsonValue::Str(s("stop"))),
            ("message", obj(vec![("content", JsonValue::Str(s("hello")))])),
        ])]),
    )]);
    assert_eq!(openrouter_extract_content(&ok), Ok(s("hello")));

    let cut = obj(vec![(
        "choices",
        JsonValue::Array(vec![obj(vec![
            ("finish_reason", JsonValue::Str(s("length"))),
            ("message", obj(vec![("content", JsonValue::Str(s("part")))])),
        ])]),
    )]);
    assert_eq!(
        openrouter_extract_content(&cut),
        Err(AiError::ParseError(s(
            "Response was truncated (finish_reason=length). Increase max_tokens. Partial output: part"
        )))
    );

    let none = obj(vec![("choices", JsonValue::Array(vec![]))]);
    assert_eq!(openrouter_extract_content(&none), Err(AiError::ParseError(s("No choices in response"))));

    let no_content = obj(vec![("choices", JsonValue::Array(vec![obj(vec![])]))]);
    assert_eq!(openrouter_extract_content(&no_content), Err(AiError::ParseError(s("No content in response"))));
}

#[test]
fn gemini_content_extraction_and_url() {
    let resp = obj(vec![(
        "candidates",
        JsonValue::Array(vec![obj(vec![(
            "content",
            obj(vec![("parts", JsonValue::Array(vec![obj(vec![("text", JsonValue::Str(s("answer")))])]))]),
        )])]),
    )]);
    assert_eq!(gemini_extract_content(&resp, "{}"), Ok(s("answer")));
    assert_eq!(
        gemini_extract_content(&JsonValue::Null, "null"),
        Err(AiError::ParseError(s("No content found in Gemini response candidate parts. Raw response: null")))
    );
    assert_eq!(
        gemini_generate_url("google/gemini-2.5-flash"),
        "https://generativelanguage.googleapis.com/v1beta/models/gemini-2.5-flash:generateContent"
    );
    assert_eq!(
        gemini_generate_url("gemini-pro"),
        "https://generativelanguage.googleapis.com/v1beta/models/gemini-pro:generateContent"
    );
}

#[test]
fn retry_policy_steps() {
    assert_eq!(retry_step(0, 3, 1, HttpOutcome::Success), RetryStep::Done);
    assert_eq!(
        retry_step(0, 3, 1, HttpOutcome::TooManyRequests { retry_after: Some(s("7")) }),
        RetryStep::Wait { secs: 7, next_backoff: 2 }
    );
    assert_eq!(
        retry_step(1, 3, 2, HttpOutcome::TooManyRequests { retry_after: Some(s("soon")) }),
        RetryStep::Wait { secs: 2, next_backoff: 4 }
    );
    assert_eq!(
        retry_step(3, 3, 8, HttpOutcome::TooManyRequests { retry_after: None }),
        RetryStep::Fail(AiError::RateLimited { retry_after_secs: 8 })
    );
    assert_eq!(
        retry_step(0, 3, 1, HttpOutcome::ServerError { status: 502, body: s("bad") }),
        RetryStep::Wait { secs: 1, next_backoff: 2 }
    );
    assert_eq!(
        retry_step(3, 3, 8, HttpOutcome::ServerError { status: 502, body: s("bad") }),
        RetryStep::Fail(AiError::ProviderError { status: 502, message: s("bad") })
    );
    assert_eq!(
        retry_step(0, 3, 1, HttpOutcome::OtherStatus { status: 400, body: s("no") }),
        RetryStep::Fail(AiError::ProviderError { status: 400, message: s("no") })
    );
}

#[test]
fn gemini_chat_body_shapes_messages() {
    let msgs = vec![
        ChatMessage { role: s("system"), content: s("be brief") },
        ChatMessage { role: s("user"), content: s("hi") },
        ChatMessage { role: s("assistant"), content: s("hello") },
    ];
    let body = gemini_chat_body(&msgs, Some(100));
    assert_eq!(text_at(&body, &["system_instruction", "parts", "0", "text"]), "be brief");
    assert_eq!(text_at(&body, &["contents", "0", "role"]), "user");
    match get(&body, &["contents"]) {
        JsonValue::Array(items) => {
            assert_eq!(items.len(), 2);
            assert_eq!(as_str(field(&items[1], "role").unwrap()).unwrap(), "model");
        }
        _ => panic!("contents"),
    }
    assert!(matches!(get(&body, &["generationConfig", "maxOutputTokens"]), JsonValue::Number(n) if n == "100"));
    let plain = gemini_chat_body(&vec![], None);
    assert!(field(&plain, "system_instruction").is_none());
    assert!(field(&plain, "generationConfig").is_none());
}

#[test]
fn routing_falls_back_to_defaults() {
    let mut config = Config::default();
    let r = AiRouting::from_config(&config);
    assert_eq!(r.transcription_provider, "openai");
    assert_eq!(r.classification_provider, "openrouter");
    assert_eq!(r.summarization_provider, "openrouter");
    config.transcription.provider = Some(s("p2"));
    config.classification.provider = Some(s("p1"));
    let r2 = AiRouting::from_config(&config);
    assert_eq!(r2.transcription_provider, "p2");
    assert_eq!(r2.classification_provider, "p1");
    assert_eq!(
        provider_not_found("x"),
        AiError::UnsupportedCapability(s("AI Provider 'x' not found"))
    );
    assert_eq!(provider_not_found("x").message(), "Unsupported capability: AI Provider 'x' not found");
}

#[test]
fn test_load_guide_from_file() {
    let guide_content = "This is a user guide\nwith multiple lines";
    let result = guide_from_content(guide_content);
    assert!(result.is_some());
    assert_eq!(result.unwrap(), guide_content);
}

#[test]
fn test_load_guide_empty_file() {
    let result = guide_from_content("");
    assert!(result.is_none());
}

#[test]
fn whisper_transcript_trims_and_rejects_empty() {
    assert_eq!(obsidian_ai_agent::ai::providers::whisper_transcript("  hello world \n"), Ok("hello world".to_string()));
    assert_eq!(
        obsidian_ai_agent::ai::providers::whisper_transcript("   "),
        Err(AiError::TranscriptionFailed("Empty transcription returned".to_string()))
    );
}

#[test]
fn gemini_auth_header_prefers_token() {
    let h = obsidian_ai_agent::ai::providers::gemini_auth_header(Some("tok"), Some("key"));
    assert_eq!(h, Some(("Authorization".to_string(), "Bearer tok".to_string())));
    let h = obsidian_ai_agent::ai::providers::gemini_auth_header(None, Some("key"));
    assert_eq!(h, Some(("x-goog-api-key".to_string(), "key".to_string())));
    assert_eq!(obsidian_ai_agent::ai::providers::gemini_auth_header(None, None), None);
}

#[test]
fn encoded_photo_reads_back_as_jpeg_and_its_base64() {
    let bytes: Vec<u8> = vec![0xff, 0xd8, 0xff, 0xe0, 0x00, 0x10, 0x4a, 0x46, 0x49, 0x46];
    let uri = obsidian_ai_agent::image::process::encode_base64(&bytes);
    let (mime, data) = parse_data_uri(&uri);
    assert_eq!(mime, "image/jpeg");
    assert_eq!(data, base64::engine::general_purpose::STANDARD.encode(&bytes));
}

#[test]
fn analysis_reads_the_last_line_of_each_field() {
    let a = parse_analysis_response("SUMMARY: first\nCONFIDENCE: low\n  SUMMARY: second  \nnoise");
    assert_eq!(a.summary, "second");
    assert_eq!(a.recommendation, "");
    assert_eq!(a.confidence, "low");
}

#[test]
fn analysis_with_blank_fields_falls_back_to_the_whole_answer() {
    let a = parse_analysis_response("  SUMMARY:   \nplain words  ");
    assert_eq!(a.summary, "SUMMARY:   \nplain words");
    assert_eq!(a.recommendation, "");
    assert_eq!(a.confidence, "unknown");
}

#[test]
fn bare_base64_reads_as_jpeg_data() {
    let b64 = base64::engine::general_purpose::STANDARD.encode([0xffu8, 0xd8, 0xff]);
    let (mime, data) = parse_data_uri(&b64);
    assert_eq!(mime, "image/jpeg");
    assert_eq!(data, b64);
}

#[test]
fn analysis_with_a_blank_last_value_reads_it_as_empty() {
    let a = parse_analysis_response("SUMMARY: s\nCONFIDENCE: high\nCONFIDENCE:   ");
    assert_eq!(a.summary, "s");
    assert_eq!(a.confidence, "unknown");
    let b = parse_analysis_response("SUMMARY: early\nSUMMARY:");
    assert_eq!(b.summary, "SUMMARY: early\nSUMMARY:");
    assert_eq!(b.confidence, "unknown");
}
