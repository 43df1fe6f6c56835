use obsidian_ai_agent::image::exif::{needs_resize, photo_exif_context};
use obsidian_ai_agent::ai::classify::{ClassifiedNote, NoteCategory};
use obsidian_ai_agent::config::{AckConfig, LogAckMode};
use obsidian_ai_agent::handlers::finance::clean_json_response;
use obsidian_ai_agent::handlers::pdf::{generate_filename as pdf_filename, pdf_fallback_log_entry, pdf_slug};
use obsidian_ai_agent::handlers::photo::{
    format_photo_content, generate_fallback_filename, photo_failed_reply, photo_saved_reply,
};
use obsidian_ai_agent::handlers::text::{
    build_confirmation_message as note_confirmation, classify_command, fallback_note,
    finance_tokens_reply, parse_set_finance_tokens, save_failed_reply, TextCommand, TokenLimit,
};
use obsidian_ai_agent::handlers::url::{
    build_confirmation_message, build_processing_message, enforce_url_limit, format_result_item,
    parse_transcript_callback, transcript_callback_data, transcript_link_entry,
    truncate_confirmation_if_needed, truncate_to_char_boundary,
};
use obsidian_ai_agent::image::process::{encode_base64, generate_filename, sanitize_slug};
use obsidian_ai_agent::url::detect::{DetectedUrl, UrlType};

fn is_hex4(s: &str) -> bool {
    s.len() == 4 && s.chars().all(|c| c.is_ascii_hexdigit())
}

#[test]
fn test_sanitize_slug() {
    let raw = "Schöner Sonnenuntergang am Meer!!";
    let sanitized = sanitize_slug(raw);

    assert!(sanitized.chars().all(|c| c.is_ascii_lowercase() || c.is_ascii_digit() || c == '-'));
    assert!(!sanitized.starts_with('-'));
    assert!(!sanitized.ends_with('-'));
    assert!(sanitized.len() <= 50);
    assert!(!sanitized.contains("--"));
}

#[test]
fn sanitize_slug_exact_values() {
    assert_eq!(sanitize_slug("Schöner Sonnenuntergang am Meer!!"), "sch-ner-sonnenuntergang-am-meer");
    assert_eq!(sanitize_slug("--Hello,  World--"), "hello-world");
    assert_eq!(sanitize_slug(""), "");
    let long = "a".repeat(49) + " b";
    assert_eq!(sanitize_slug(&long), "a".repeat(49));
}

#[test]
fn test_generate_filename() {
    let filename = generate_filename("2026-03-24", "sunset-at-beach");

    assert!(filename.starts_with("2026-03-24-"));
    assert!(filename.contains("sunset-at-beach"));
    assert!(filename.ends_with(".jpg"));

    let parts: Vec<&str> = filename.rsplitn(2, '-').collect();
    let uuid_part = parts[0].strip_suffix(".jpg").unwrap();
    assert_eq!(uuid_part.len(), 4);
    assert!(uuid_part.chars().all(|c| c.is_ascii_hexdigit()));
}

#[test]
fn test_generate_filename_with_slashes_in_date() {
    let filename = generate_filename("2026/03/24", "sunset");
    assert!(!filename.contains('/'), "filename should not contain forward slashes");
    assert!(!filename.contains('\\'), "filename should not contain backslashes");
    assert!(filename.starts_with("2026-03-24-"), "slashes should be replaced with dashes");
}

#[test]
fn test_encode_base64() {
    let test_bytes = vec![1, 2, 3, 4];
    let encoded = encode_base64(&test_bytes);

    assert!(encoded.starts_with("data:image/jpeg;base64,"));
    let base64_part = encoded.strip_prefix("data:image/jpeg;base64,").unwrap();
    assert!(!base64_part.is_empty());
    assert_eq!(base64_part, "AQIDBA==");
}

#[test]
fn test_format_multiple_url_confirmations() {
    let results = vec![
        "✅ Example Page".to_string(),
        "✅ Another Page".to_string(),
        "❌ https://broken.example.com (write failed)".to_string(),
    ];

    let confirmation = build_confirmation_message(2, 3, 3, 5, false, &results);

    assert!(confirmation.contains("Saved 2/3 URL(s) as TODO(s)"));
    assert!(confirmation.contains("✅ Example Page"));
    assert!(confirmation.contains("✅ Another Page"));
    assert!(confirmation.contains("❌ https://broken.example.com"));
}

#[test]
fn test_url_limit_enforcement() {
    let urls = (1..=10)
        .map(|i| DetectedUrl {
            url: format!("https://example.com/{}", i),
            url_type: UrlType::WebPage,
            start: 0,
            end: 0,
        })
        .collect::<Vec<_>>();

    let (urls_to_process, truncated) = enforce_url_limit(urls, 5);

    assert_eq!(urls_to_process.len(), 5);
    assert!(truncated);
    assert_eq!(urls_to_process[4].url, "https://example.com/5");
}

#[test]
fn url_limit_keeps_short_lists() {
    let urls = vec![DetectedUrl {
        url: "https://a.example".to_string(),
        url_type: UrlType::WebPage,
        start: 0,
        end: 17,
    }];
    let (kept, truncated) = enforce_url_limit(urls.clone(), 5);
    assert_eq!(kept, urls);
    assert!(!truncated);
}

#[test]
fn test_processing_message_format() {
    assert_eq!(build_processing_message(1), "🔗 Processing 1 link(s)...");
    assert_eq!(build_processing_message(3), "🔗 Processing 3 link(s)...");
}

#[test]
fn test_confirmation_includes_truncation_warning() {
    let confirmation =
        build_confirmation_message(5, 5, 10, 5, true, &["✅ One".to_string(), "✅ Two".to_string()]);

    assert!(confirmation.contains("Saved 5 URL(s) as TODO(s)"));
    assert!(confirmation.contains("Message contained 10 URLs (max: 5)"));
    assert!(confirmation.contains("✅ One"));
}

#[test]
fn test_format_result_item_uses_title_or_url() {
    let with_title = format_result_item(Some("Readable title"), "https://example.com", true);
    let with_url = format_result_item(None, "https://example.com/path", false);

    assert_eq!(with_title, "✅ Readable title");
    assert!(with_url.starts_with("❌ https://example.com/path"));
    assert!(with_url.ends_with("(write failed)"));
}

#[test]
fn test_truncate_to_char_boundary_ascii() {
    let mut s = "hello world".to_string();
    truncate_to_char_boundary(&mut s, 5);
    assert_eq!(s, "hello");
}

#[test]
fn test_truncate_to_char_boundary_unicode() {
    let mut s = "日本語".to_string();
    assert_eq!(s.len(), 9);
    truncate_to_char_boundary(&mut s, 5);
    assert_eq!(s, "日");

    let mut s2 = "日本語".to_string();
    truncate_to_char_boundary(&mut s2, 6);
    assert_eq!(s2, "日本");
}

#[test]
fn test_truncate_to_char_boundary_emoji() {
    let mut s = "👋🌍".to_string();
    assert_eq!(s.len(), 8);
    truncate_to_char_boundary(&mut s, 5);
    assert_eq!(s, "👋");
}

#[test]
fn test_truncate_to_char_boundary_no_truncation_needed() {
    let mut s = "short".to_string();
    truncate_to_char_boundary(&mut s, 100);
    assert_eq!(s, "short");
}

#[test]
fn long_confirmation_fits_a_message() {
    let results: Vec<String> = (0..200).map(|i| format!("✅ A fairly long page title number {}", i)).collect();
    let c = build_confirmation_message(200, 200, 200, 200, false, &results);
    assert!(c.len() > 4096);
    let fitted = truncate_confirmation_if_needed(c.clone());
    assert!(fitted.len() <= 4096);
    assert!(fitted.starts_with("📝 Saved 200 URL(s) as TODO(s)"));
    let short = "Saved 1 URL(s) as TODO(s)\n✅ x".to_string();
    assert_eq!(truncate_confirmation_if_needed(short.clone()), short);
}

#[test]
fn transcript_button_data_round_trips() {
    let data = transcript_callback_data("ab12cd34");
    assert_eq!(data, "yt_transcript:ab12cd34");
    assert_eq!(parse_transcript_callback(&data), Some("ab12cd34".to_string()));
    assert_eq!(parse_transcript_callback("conflict:x:ours"), None);
    assert_eq!(transcript_link_entry("[[T]]"), "  - Transcript: [[T]]");
}

#[test]
fn log_confirmation_is_plain_thumbs_up() {
    let classified = ClassifiedNote {
        category: NoteCategory::Log,
        markdown: "- Weight logged".to_string(),
        tags: vec!["health".to_string()],
        summary: "Weight logged".to_string(),
        frontmatter: None,
    };

    assert_eq!(note_confirmation(&classified), "👍");
}

#[test]
fn todo_confirmation_keeps_summary_and_tags() {
    let classified = ClassifiedNote {
        category: NoteCategory::Todo,
        markdown: "- [ ] Buy milk".to_string(),
        tags: vec!["shopping".to_string(), "home".to_string()],
        summary: "Buy milk".to_string(),
        frontmatter: None,
    };

    assert_eq!(
        note_confirmation(&classified),
        "✅ 📌 saved as todo\nBuy milk\nTags: #shopping #home"
    );
}

#[test]
fn log_ack_config_defaults_to_small_reaction_mode() {
    let ack = AckConfig::default();

    assert_eq!(ack.log_mode, LogAckMode::Reaction);
    assert_eq!(ack.log_text, "Done 👍");
    assert_eq!(ack.reaction_emoji, "👍");
}

#[test]
fn fallback_note_is_a_raw_log_entry() {
    let n = fallback_note("bought bread");
    assert_eq!(n.category, NoteCategory::Log);
    assert_eq!(n.markdown, "- bought bread");
    assert_eq!(n.summary, "bought bread");
    assert!(n.tags.is_empty());
    assert!(n.frontmatter.is_none());
    assert_eq!(save_failed_reply("disk full"), "❌ Failed to save: disk full");
}

#[test]
fn text_commands_are_recognised() {
    assert_eq!(classify_command("/git_refresh"), TextCommand::GitRefresh);
    assert_eq!(classify_command("/git_force_refresh"), TextCommand::GitForceRefresh);
    assert_eq!(classify_command("/finance_tokens"), TextCommand::FinanceTokens);
    assert_eq!(classify_command("/set_finance_tokens query 5"), TextCommand::SetFinanceTokens);
    assert_eq!(classify_command("hello"), TextCommand::Plain);
}

#[test]
fn set_finance_tokens_parsing() {
    let (ok, reply) = parse_set_finance_tokens("/set_finance_tokens query 1500");
    assert_eq!(ok, Some((TokenLimit::Query, 1500)));
    assert_eq!(reply, "✅ Updated <b>query</b> max_tokens to <code>1500</code>");
    let (upd, _) = parse_set_finance_tokens("/set_finance_tokens UPDATE 7");
    assert_eq!(upd, Some((TokenLimit::Transaction, 7)));
    let (neg, neg_reply) = parse_set_finance_tokens("/set_finance_tokens query -1");
    assert_eq!(neg, None);
    assert_eq!(neg_reply, "❌ Invalid token value. Must be a positive integer.");
    let (bad, usage) = parse_set_finance_tokens("/set_finance_tokens query");
    assert_eq!(bad, None);
    assert!(usage.starts_with("❌ Usage:"));
    let reply = finance_tokens_reply(1, 2, 3);
    assert!(reply.contains("<code>1</code>"));
    assert!(reply.contains("<code>3</code>"));
}

#[test]
fn test_photo_content_format() {
    let filename = "2026-03-24-sunset-a1b2.jpg";
    let markdown = "Beautiful sunset over the harbor at golden hour.";

    let content = format_photo_content("assets", filename, Some(markdown), None);

    assert_eq!(
        content,
        "![[assets/2026-03-24-sunset-a1b2.jpg]]\nBeautiful sunset over the harbor at golden hour."
    );
}

#[test]
fn test_photo_fallback_filename() {
    let filename = generate_fallback_filename("2026-03-24");

    assert!(filename.starts_with("2026-03-24-photo-"), "fallback filename should use 'photo' slug");
    assert!(filename.ends_with(".jpg"));

    let suffix = filename.trim_start_matches("2026-03-24-photo-").trim_end_matches(".jpg");
    assert_eq!(suffix.len(), 4, "uuid suffix should be 4 chars");
    assert!(suffix.chars().all(|c| c.is_ascii_hexdigit()), "uuid suffix should be hexadecimal");
}

#[test]
fn test_generate_fallback_filename_with_slashes_in_date() {
    let filename = generate_fallback_filename("2026/03/24");
    assert!(!filename.contains('/'), "filename should not contain forward slashes");
    assert!(!filename.contains('\\'), "filename should not contain backslashes");
    assert!(filename.starts_with("2026-03-24-photo-"), "slashes should be replaced with dashes");
}

#[test]
fn photo_replies() {
    assert_eq!(photo_saved_reply("sunset"), "📸 Photo saved — sunset");
    assert_eq!(photo_failed_reply("oops"), "❌ Failed to save photo: oops");
}

#[test]
fn test_pdf_filename_generation() {
    let name = pdf_filename("2026-05-31", "invoice-receipt", "pdf");

    assert!(name.starts_with("2026-05-31-"));
    assert!(name.contains("invoice-receipt"));
    assert!(name.ends_with(".pdf"));

    let suffix = name.trim_start_matches("2026-05-31-invoice-receipt-").trim_end_matches(".pdf");
    assert_eq!(suffix.len(), 4);
    assert!(is_hex4(suffix));
}

#[test]
fn pdf_slug_and_entries() {
    assert_eq!(pdf_slug(Some("Invoice Receipt.pdf"), "document"), "invoice-receipt");
    assert_eq!(pdf_slug(Some("!!!.pdf"), "fallback"), "fallback");
    assert_eq!(pdf_slug(None, "x"), "document");
    assert_eq!(
        pdf_fallback_log_entry("10:30", "Invoice", "assets", "a.pdf"),
        "- 10:30 — 📄 **Document: Invoice** (⚠️ Transcription unavailable: Gemini not configured or transcription failed)\n  - **Original PDF**: [[assets/a.pdf]]"
    );
}

#[test]
fn test_clean_json_response() {
    let raw = "```json\n{\n  \"type\": \"transaction\"\n}\n```";
    assert_eq!(clean_json_response(raw), "{\n  \"type\": \"transaction\"\n}");

    let raw_no_json = "```\n{\n  \"type\": \"transaction\"\n}\n```";
    assert_eq!(clean_json_response(raw_no_json), "{\n  \"type\": \"transaction\"\n}");

    assert_eq!(clean_json_response("  {\"a\": 1}  "), "{\"a\": 1}");
}

#[test]
fn slug_is_empty_exactly_without_ascii_letters_or_digits() {
    assert_eq!(sanitize_slug("!!! ... ééé"), "");
    assert_eq!(sanitize_slug("ééé a"), "a");
}

#[test]
fn slugging_twice_is_slugging_once() {
    for raw in ["Hello, World!", "  --a--b--  ", "Ünïcödé 42 titles", ""] {
        let once = sanitize_slug(raw);
        assert_eq!(sanitize_slug(&once), once);
    }
}

#[test]
fn photos_are_scaled_down_only() {
    assert!(!needs_resize(1280, 720, 1280));
    assert!(needs_resize(1281, 720, 1280));
    assert!(needs_resize(100, 4000, 1280));
}

#[test]
fn exif_summary_without_exif_data_has_only_the_location() {
    assert_eq!(photo_exif_context(&[1, 2, 3], None), "");
    assert_eq!(photo_exif_context(&[1, 2, 3], Some("50.8, 4.3")), "Location: 50.8, 4.3.");
}
