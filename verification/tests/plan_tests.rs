use obsidian_ai_agent::config::{AckConfig, LogAckMode};
use obsidian_ai_agent::handlers::text::{acknowledgement, Acknowledgement};
use obsidian_ai_agent::handlers::route::{route_callback, route_finance_message, route_message, CallbackRoute, MessageRoute, MessageShape};
use obsidian_ai_agent::git::conflict::{dialogue_result, ConflictResolution, DialogueEnd};
use obsidian_ai_agent::handlers::text::{route_text, TextCommand, TextRoute};
use obsidian_ai_agent::ai::classify::{ClassifiedNote, NoteCategory};
use obsidian_ai_agent::handlers::pdf::{plan_pdf, pdf_saved_reply, pdf_untranscribed_reply};
use obsidian_ai_agent::handlers::photo::plan_photo;
use obsidian_ai_agent::handlers::url::{links_report, LinkOutcome};
use obsidian_ai_agent::handlers::voice::{voice_failed_reply, voice_saved_reply};

fn note(summary: &str, markdown: &str, tags: &[&str]) -> ClassifiedNote {
    ClassifiedNote {
        category: NoteCategory::Note,
        markdown: markdown.to_string(),
        tags: tags.iter().map(|t| t.to_string()).collect(),
        summary: summary.to_string(),
        frontmatter: None,
    }
}

fn written(title: Option<&str>, url: &str, saved: bool) -> LinkOutcome {
    LinkOutcome::Written { title: title.map(|t| t.to_string()), url: url.to_string(), saved }
}

fn split_name<'a>(name: &'a str, prefix: &str, ext: &str) -> &'a str {
    assert!(name.starts_with(prefix), "{} does not start with {}", name, prefix);
    assert!(name.ends_with(ext), "{} does not end with {}", name, ext);
    &name[prefix.len()..name.len() - ext.len()]
}

fn is_hex4(s: &str) -> bool {
    s.len() == 4 && s.chars().all(|c| c.is_ascii_digit() || ('a'..='f').contains(&c))
}

#[test]
fn links_report_counts_saved_links_and_notifies() {
    let outcomes = vec![
        written(Some("Rust Book"), "https://doc.rust-lang.org/book", true),
        written(None, "https://example.com/a", false),
    ];
    let (reply, notify) = links_report(&outcomes, 2, 5, false);
    assert_eq!(reply, "📝 Saved 1/2 URL(s) as TODO(s)\n\n✅ Rust Book\n❌ https://example.com/a (write failed)");
    assert!(notify);
}

#[test]
fn links_report_without_saved_links_does_not_notify() {
    let outcomes = vec![written(None, "https://example.com/a", false)];
    let (_, notify) = links_report(&outcomes, 1, 5, false);
    assert!(!notify);
}

#[test]
fn links_report_leaves_out_skipped_transcripts() {
    let outcomes = vec![LinkOutcome::Skipped, written(Some("Video"), "https://youtu.be/abc", true)];
    let (reply, notify) = links_report(&outcomes, 7, 2, true);
    assert_eq!(
        reply,
        "📝 Saved 1/2 URL(s) as TODO(s)\n\n⚠️ Message contained 7 URLs (max: 2). Only processed first 2.\n\n✅ Video"
    );
    assert!(notify);
}

#[test]
fn links_report_all_saved_uses_short_header() {
    let outcomes = vec![written(Some("A"), "https://a.example", true), written(Some("B"), "https://b.example", true)];
    let (reply, _) = links_report(&outcomes, 2, 5, false);
    assert_eq!(reply, "📝 Saved 2 URL(s) as TODO(s)\n\n✅ A\n✅ B");
}

#[test]
fn plan_photo_with_classification() {
    let c = note("Sunset at the beach", "A calm evening.", &[]);
    let plan = plan_photo("2026-05-31", "assets", Some("caption"), Some(&c));
    let suffix = split_name(&plan.filename, "2026-05-31-sunset-at-the-beach-", ".jpg");
    assert!(is_hex4(suffix));
    assert_eq!(plan.summary, "Sunset at the beach");
    assert_eq!(plan.content, format!("![[assets/{}]]\nA calm evening.", plan.filename));
}

#[test]
fn plan_photo_without_classification_uses_caption() {
    let plan = plan_photo("2026/05/31", "assets", Some("My cat"), None);
    let suffix = split_name(&plan.filename, "2026-05-31-photo-", ".jpg");
    assert!(is_hex4(suffix));
    assert_eq!(plan.summary, "My cat");
    assert_eq!(plan.content, format!("![[assets/{}]]\nMy cat", plan.filename));
}

#[test]
fn plan_photo_without_classification_or_caption() {
    let plan = plan_photo("2026-05-31", "assets", None, None);
    assert_eq!(plan.summary, "Photo");
    assert_eq!(plan.content, format!("![[assets/{}]]", plan.filename));
}

#[test]
fn plan_pdf_with_transcription() {
    let n = note("Invoice for May", "# Invoice", &["finance", "bills"]);
    let plan = plan_pdf("2026-05-31", "09:15", Some("Invoice Receipt.pdf"), "assets", Some(&n));
    let s1 = split_name(&plan.pdf_name, "2026-05-31-invoice-receipt-", ".pdf");
    assert!(is_hex4(s1));
    let transcript = plan.transcript_name.clone().expect("a transcript name");
    let s2 = split_name(&transcript, "2026-05-31-invoice-receipt-", ".md");
    assert!(is_hex4(s2));
    assert_eq!(plan.title, "Invoice Receipt.pdf");
    assert_eq!(
        plan.log_entry,
        format!(
            "- 09:15 — 📄 **Document: Invoice Receipt.pdf**\n  - **Original PDF**: [[assets/{}]]\n  - **Transcription**: [[assets/{}]]\n  - **Summary**:\n    > Invoice for May\n   #finance #bills",
            plan.pdf_name, transcript
        )
    );
    assert_eq!(plan.reply, pdf_saved_reply("Invoice Receipt.pdf", &plan.pdf_name, &transcript));
}

#[test]
fn plan_pdf_slug_falls_back_to_summary() {
    let n = note("Quarterly report", "text", &[]);
    let plan = plan_pdf("2026-05-31", "09:15", Some("!!!.pdf"), "assets", Some(&n));
    split_name(&plan.pdf_name, "2026-05-31-quarterly-report-", ".pdf");
}

#[test]
fn plan_pdf_without_transcription() {
    let plan = plan_pdf("2026-05-31", "10:00", None, "assets", None);
    let s = split_name(&plan.pdf_name, "2026-05-31-document-", ".pdf");
    assert!(is_hex4(s));
    assert!(plan.transcript_name.is_none());
    assert_eq!(plan.title, "PDF Document");
    assert_eq!(
        plan.log_entry,
        format!(
            "- 10:00 — 📄 **Document: PDF Document** (⚠️ Transcription unavailable: Gemini not configured or transcription failed)\n  - **Original PDF**: [[assets/{}]]",
            plan.pdf_name
        )
    );
    assert_eq!(plan.reply, pdf_untranscribed_reply(&plan.pdf_name));
}

#[test]
fn pdf_replies_text() {
    assert_eq!(
        pdf_saved_reply("T", "a.pdf", "a.md"),
        "📄 **PDF Transcribed & Saved!**\n\n**Title**: T\n**PDF**: `a.pdf`\n**Transcript**: `a.md`\n\nLogged in Daily Note."
    );
    assert_eq!(
        pdf_untranscribed_reply("a.pdf"),
        "⚠️ **PDF Saved!**\n\n*Transcription skipped*: Gemini client not configured or transcription failed.\n**Saved as**: `a.pdf`\n\nLogged original reference only."
    );
}

#[test]
fn voice_reply_shows_category_summary_and_transcript() {
    assert_eq!(
        voice_saved_reply(NoteCategory::Todo, "Buy milk", "buy milk tomorrow"),
        "✅ Voice → todo saved as Buy milk\n\nTranscript: \"buy milk tomorrow\""
    );
}

#[test]
fn voice_reply_cuts_long_transcript_at_char_boundary() {
    let transcript = "é".repeat(150);
    let reply = voice_saved_reply(NoteCategory::Log, "s", &transcript);
    let expected = format!("✅ Voice → log saved as s\n\nTranscript: \"{}\"", "é".repeat(100));
    assert_eq!(reply, expected);
}

#[test]
fn voice_failed_reply_text() {
    assert_eq!(voice_failed_reply("boom"), "❌ Voice message processing failed: boom");
}

#[test]
fn unfetched_link_becomes_plain_todo() {
    let (section, entry) = obsidian_ai_agent::vault::writer::format_url_todo("https://example.com/x", None, None, &[], None, None);
    assert_eq!(section, "## ✅ Todos");
    assert_eq!(entry, "- [ ] https://example.com/x\n  > ⚠️ Could not fetch page content");
}

#[test]
fn appended_entry_is_in_note_and_old_lines_stay() {
    let doc = "# Day\n## ✅ Todos\n- [ ] old\n## 📋 Log\n- 08:00 woke up";
    let out = obsidian_ai_agent::vault::daily_note::insert_after_heading(doc, "## ✅ Todos", "- [ ] new");
    assert!(out.contains("- [ ] new"));
    for line in doc.lines() {
        assert!(out.contains(line));
    }
}

#[test]
fn route_text_prefers_commands_then_links() {
    assert!(matches!(route_text("/git_refresh"), TextRoute::Command(TextCommand::GitRefresh)));
    assert!(matches!(route_text("/set_finance_tokens query 5"), TextRoute::Command(TextCommand::SetFinanceTokens)));
    assert!(matches!(route_text("buy milk"), TextRoute::Note));
    match route_text("read this https://example.com/page later") {
        TextRoute::Links { urls, surrounding } => {
            assert_eq!(urls.len(), 1);
            assert_eq!(urls[0].url, "https://example.com/page");
            assert_eq!(surrounding, Some("read this https://example.com/page later".to_string()));
        }
        _ => panic!("expected links"),
    }
    match route_text("https://example.com/page") {
        TextRoute::Links { surrounding, .. } => assert_eq!(surrounding, None),
        _ => panic!("expected links"),
    }
}

#[test]
fn replacing_an_entry_keeps_other_sections_and_writes_new_lines() {
    let doc = "# Day\n## ✅ Todos\n- [ ] [A](https://a.example)\n  > old summary\n## 📋 Log\n- 08:00 woke up";
    let out = obsidian_ai_agent::vault::daily_note::replace_in_section_by_url(
        doc,
        "## ✅ Todos",
        "https://a.example",
        "- [ ] [A](https://a.example) — [[t/a]]\n  > new summary",
    );
    assert_eq!(out, "# Day\n## ✅ Todos\n- [ ] [A](https://a.example) — [[t/a]]\n  > new summary\n## 📋 Log\n- 08:00 woke up");
    for line in ["# Day", "## ✅ Todos", "## 📋 Log", "- 08:00 woke up"] {
        assert!(out.contains(line));
    }
}

#[test]
fn dialogue_result_per_ending() {
    assert_eq!(dialogue_result(DialogueEnd::Answered(ConflictResolution::Theirs)), (Ok(ConflictResolution::Theirs), None));
    assert_eq!(dialogue_result(DialogueEnd::Closed), (Err("Conflict resolution channel closed"), None));
    let (r, notice) = dialogue_result(DialogueEnd::TimedOut);
    assert_eq!(r, Err("Conflict resolution timed out after 30 minutes"));
    assert!(notice.unwrap().starts_with("⏰ Conflict resolution timed out after 30 minutes."));
}

fn shape(photo: bool, voice: bool, text: bool, doc: Option<(Option<&str>, Option<&str>)>) -> MessageShape {
    MessageShape {
        has_photo: photo,
        has_voice: voice,
        has_text: text,
        document: doc.map(|(t, n)| (t.map(|s| s.to_string()), n.map(|s| s.to_string()))),
    }
}

#[test]
fn route_message_by_content() {
    assert!(matches!(route_message(&shape(true, false, true, None)), MessageRoute::Photo));
    assert!(matches!(route_message(&shape(false, true, false, None)), MessageRoute::Voice));
    assert!(matches!(route_message(&shape(false, false, true, None)), MessageRoute::Text));
    assert!(matches!(route_message(&shape(false, false, false, Some((Some("application/pdf"), None)))), MessageRoute::Pdf));
    assert!(matches!(route_message(&shape(false, false, false, Some((None, Some("scan.pdf"))))), MessageRoute::Pdf));
    assert!(matches!(
        route_message(&shape(false, false, false, Some((Some("image/png"), Some("a.png"))))),
        MessageRoute::Reply("I currently only support PDF documents. Please send a valid PDF!")
    ));
    assert!(matches!(
        route_message(&shape(false, false, false, None)),
        MessageRoute::Reply("I can process text, voice, photo, and PDF messages. Please send one of those!")
    ));
}

#[test]
fn route_finance_message_by_content() {
    assert!(matches!(route_finance_message(true, true, true), MessageRoute::Photo));
    assert!(matches!(route_finance_message(false, true, true), MessageRoute::Voice));
    assert!(matches!(route_finance_message(false, false, true), MessageRoute::Text));
    assert!(matches!(
        route_finance_message(false, false, false),
        MessageRoute::Reply("I can process text, voice, and photo messages for your portfolio. Please send one of those!")
    ));
}

#[test]
fn route_callback_by_data() {
    assert_eq!(route_callback(Some("yt_transcript:ab12cd34")), CallbackRoute::Transcript("ab12cd34".to_string()));
    assert_eq!(route_callback(Some("conflict:x:ours")), CallbackRoute::Conflict);
    assert_eq!(route_callback(Some("other")), CallbackRoute::Unknown);
    assert_eq!(route_callback(None), CallbackRoute::Unknown);
}

#[test]
fn acknowledgement_per_category_and_mode() {
    let log = ClassifiedNote { category: NoteCategory::Log, markdown: "- ran".to_string(), tags: vec![], summary: "ran".to_string(), frontmatter: None };
    match acknowledgement(&log, &AckConfig::default()) {
        Acknowledgement::Reaction { emoji, fallback } => {
            assert_eq!(emoji, "👍");
            assert_eq!(fallback, "Done 👍");
        }
        _ => panic!("expected a reaction"),
    }
    let text_mode = AckConfig { log_mode: LogAckMode::Text, log_text: "ok".to_string(), reaction_emoji: "🔥".to_string() };
    assert!(matches!(acknowledgement(&log, &text_mode), Acknowledgement::Message(ref m) if m == "ok"));
    let todo = ClassifiedNote { category: NoteCategory::Todo, markdown: "- [ ] Buy milk".to_string(), tags: vec!["shopping".to_string()], summary: "Buy milk".to_string(), frontmatter: None };
    assert!(matches!(acknowledgement(&todo, &text_mode), Acknowledgement::Message(ref m) if m == "✅ 📌 saved as todo\nBuy milk\nTags: #shopping"));
}
