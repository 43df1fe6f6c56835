use obsidian_ai_agent::ai::classify::{ClassifiedNote, NoteCategory};
use obsidian_ai_agent::clock::LocalDateTime;
use obsidian_ai_agent::vault::daily_note::{
    fallback_template, insert_after_heading, momentjs_to_chrono, path_join, render_template,
    replace_in_section_by_url, DailyNoteManager, DailyNoteSettings,
};
use obsidian_ai_agent::vault::frontmatter::{frame_frontmatter, is_protected_key, split_frontmatter, updated_note};
use obsidian_ai_agent::vault::transcript::{plan_transcript, sanitize_slug, transcript_content, wiki_link};
use obsidian_ai_agent::vault::writer::{
    format_entry_at, format_for_daily_note, format_raw_entry, format_raw_entry_at, format_url_todo,
};

fn s(v: &str) -> String {
    v.to_string()
}

#[test]
fn test_insert_after_heading() {
    let doc = "# Title\n\n## Notes\n\n## Todos\n\n## Log\n";
    let result = insert_after_heading(doc, "## Todos", "- [ ] Buy milk");
    assert!(result.contains("## Todos\n\n- [ ] Buy milk"));
    assert!(result.contains("## Log"));
}

#[test]
fn test_insert_heading_not_found() {
    let doc = "# Title\n\nSome content\n";
    let result = insert_after_heading(doc, "## Missing", "new content");
    assert!(result.ends_with("\nnew content"));
}

#[test]
fn test_momentjs_to_chrono_default_format() {
    assert_eq!(momentjs_to_chrono("YYYY-MM-DD"), "%Y-%m-%d");
}

#[test]
fn test_momentjs_to_chrono_complex_format() {
    assert_eq!(momentjs_to_chrono("dddd DD-MM-YYYY"), "%A %d-%m-%Y");
}

#[test]
fn test_momentjs_to_chrono_with_time() {
    assert_eq!(momentjs_to_chrono("YYYY-MM-DD HH:mm"), "%Y-%m-%d %H:%M");
}

#[test]
fn test_momentjs_to_chrono_short_year() {
    assert_eq!(momentjs_to_chrono("DD/MM/YY"), "%d/%m/%y");
}

#[test]
fn test_momentjs_to_chrono_month_names() {
    assert_eq!(momentjs_to_chrono("MMMM DD, YYYY"), "%B %d, %Y");
    assert_eq!(momentjs_to_chrono("MMM DD"), "%b %d");
}

#[test]
fn test_momentjs_to_chrono_no_leading_zero() {
    assert_eq!(momentjs_to_chrono("M/D/YYYY"), "%-m/%-d/%Y");
}

#[test]
fn test_default_settings() {
    let settings = DailyNoteSettings::default();
    assert_eq!(settings.folder, "");
    assert_eq!(settings.format, "YYYY-MM-DD");
    assert_eq!(settings.template, "");
    assert!(!settings.autorun);
}

#[test]
fn test_replace_in_section_basic_replace() {
    let doc = "# Daily\n\n## ✅ Todos\n- [ ] [Old](https://youtube.com/watch?v=abc)\n  > old summary\n  #old\n\n## 📋 Log\n";
    let replacement = "- [ ] [New](https://youtube.com/watch?v=abc) — [[transcripts/new]]\n  > new summary\n  #new";
    let result = replace_in_section_by_url(doc, "## ✅ Todos", "https://youtube.com/watch?v=abc", replacement);
    assert!(result.contains(replacement));
    assert!(!result.contains("old summary"));
    assert!(result.contains("## 📋 Log"));
}

#[test]
fn test_replace_in_section_heading_variant_replaces_four_lines() {
    let doc = "# Daily\n\n## ✅ Todos\n### Video Name\n- [ ] [Old](https://youtube.com/watch?v=abc)\n  > old summary\n  #tag1 #tag2\n\n## 📋 Log\n";
    let replacement = "### Video Name\n- [ ] [New](https://youtube.com/watch?v=abc) — [[transcripts/new]]\n  > updated summary\n  #new";
    let result = replace_in_section_by_url(doc, "## ✅ Todos", "https://youtube.com/watch?v=abc", replacement);
    assert!(result.contains(replacement));
    assert!(!result.contains("#tag1 #tag2"));
    assert!(!result.contains("old summary"));
}

#[test]
fn test_replace_in_section_no_tags_variant_replaces_two_lines() {
    let doc = "# Daily\n\n## ✅ Todos\n- [ ] [Old](https://youtube.com/watch?v=abc)\n  > old summary\n\n## 📋 Log\n";
    let replacement = "- [ ] [New](https://youtube.com/watch?v=abc)\n  > new summary";
    let result = replace_in_section_by_url(doc, "## ✅ Todos", "https://youtube.com/watch?v=abc", replacement);
    assert!(result.contains(replacement));
    assert!(!result.contains("old summary"));
}

#[test]
fn test_replace_in_section_transcript_link_variant() {
    let doc = "# Daily\n\n## ✅ Todos\n- [ ] [Old](https://youtube.com/watch?v=abc) — [[transcripts/old]]\n  > old summary\n  #video\n\n## 📋 Log\n";
    let replacement = "- [ ] [Old](https://youtube.com/watch?v=abc) — [[transcripts/new]]\n  > new transcript summary\n  #video";
    let result = replace_in_section_by_url(doc, "## ✅ Todos", "https://youtube.com/watch?v=abc", replacement);
    assert!(result.contains("[[transcripts/new]]"));
    assert!(!result.contains("[[transcripts/old]]"));
    assert!(!result.contains("old summary"));
}

#[test]
fn test_replace_in_section_url_not_found_no_op() {
    let doc = "# Daily\n\n## ✅ Todos\n- [ ] [Old](https://youtube.com/watch?v=abc)\n  > old summary\n\n## 📋 Log\n";
    let result = replace_in_section_by_url(
        doc,
        "## ✅ Todos",
        "https://youtube.com/watch?v=missing",
        "- [ ] [New](https://youtube.com/watch?v=missing)\n  > replacement",
    );
    assert_eq!(result, doc);
}

#[test]
fn test_replace_url_not_found() {
    let doc = "# Daily\n\n## ✅ Todos\n- [ ] [Old](https://youtube.com/watch?v=abc)\n  > old summary\n\n## 📋 Log\n";
    let result = replace_in_section_by_url(
        doc,
        "## ✅ Todos",
        "https://youtube.com/watch?v=missing",
        "- [ ] [New](https://youtube.com/watch?v=missing)\n  > replacement",
    );
    assert_eq!(result, doc);
}

#[test]
fn test_replace_in_section_multiple_entries_only_matching_url_replaced() {
    let doc = "# Daily\n\n## ✅ Todos\n- [ ] [First](https://youtube.com/watch?v=aaa)\n  > first summary\n\n- [ ] [Second](https://youtube.com/watch?v=bbb)\n  > second summary\n  #tag\n\n## 📋 Log\n";
    let replacement = "- [ ] [Second Updated](https://youtube.com/watch?v=bbb)\n  > second updated";
    let result = replace_in_section_by_url(doc, "## ✅ Todos", "https://youtube.com/watch?v=bbb", replacement);
    assert!(result.contains("first summary"));
    assert!(result.contains(replacement));
    assert!(!result.contains("second summary"));
}

#[test]
fn test_replace_in_section_entry_at_end_of_section() {
    let doc = "# Daily\n\n## ✅ Todos\n- [ ] [End](https://youtube.com/watch?v=end)\n  > end summary\n  #tag\n";
    let replacement = "- [ ] [End Updated](https://youtube.com/watch?v=end)\n  > updated end summary\n  #done";
    let result = replace_in_section_by_url(doc, "## ✅ Todos", "https://youtube.com/watch?v=end", replacement);
    assert!(result.contains(replacement));
    assert!(!result.contains("  > end summary"));
    assert!(result.contains("## ✅ Todos"));
}

#[test]
fn test_chrono_format_default() {
    let settings = DailyNoteSettings::default();
    assert_eq!(settings.chrono_format(), "%Y-%m-%d");
}

fn note(category: NoteCategory, markdown: &str, tags: Vec<String>, summary: &str) -> ClassifiedNote {
    ClassifiedNote { category, markdown: s(markdown), tags, summary: s(summary), frontmatter: None }
}

#[test]
fn test_format_todo() {
    let n = note(NoteCategory::Todo, "- [ ] Buy groceries", vec![s("shopping")], "Buy groceries");
    let (section, content) = format_for_daily_note(&n);
    assert_eq!(section, "## ✅ Todos");
    assert!(content.contains("- [ ] Buy groceries"));
    assert!(content.contains("#shopping"));
}

#[test]
fn test_format_log() {
    let n = note(NoteCategory::Log, "- Team meeting", vec![s("work")], "Team meeting");
    let (section, content) = format_for_daily_note(&n);
    assert_eq!(section, "## 📋 Log");
    assert!(content.starts_with("- "));
    assert!(content.contains(" — Team meeting"));
    assert!(content.contains("#work"));
}

#[test]
fn test_format_log_with_timestamp() {
    let n = note(NoteCategory::Log, "- Went for a run", vec![], "Running");
    let (section, content) = format_for_daily_note(&n);
    assert_eq!(section, "## 📋 Log");
    assert!(content.starts_with("- "), "Should start with '- ', got: {}", content);
    assert!(content.contains(" — Went for a run"), "Should contain ' — Went for a run', got: {}", content);
    let after_dash = &content[2..7];
    assert!(after_dash.contains(':'), "Should have HH:MM format, got: {}", after_dash);
}

#[test]
fn entries_at_a_given_time_are_exact() {
    let n = note(NoteCategory::Log, "- - Ran 5k  ", vec![s("run"), s("health")], "Ran");
    assert_eq!(format_entry_at(&n, "07:05"), "- 07:05 — Ran 5k #run #health");
    let t = note(NoteCategory::Note, "An idea", vec![], "Idea");
    assert_eq!(format_entry_at(&t, "07:05"), "An idea");
    assert_eq!(format_raw_entry_at("hello", "23:59"), "- 23:59 — hello");
    let (section, raw) = format_raw_entry("hello");
    assert_eq!(section, "## 📋 Log");
    assert!(raw.starts_with("- ") && raw.ends_with(" — hello") && raw.len() == "- 00:00 — hello".len());
}

#[test]
fn test_format_url_todo_full() {
    let (section, content) = format_url_todo(
        "https://example.com",
        Some("Example"),
        Some("This is a summary"),
        &vec![s("web"), s("example")],
        Some("transcripts/2026-03-25-video-title"),
        None,
    );
    assert_eq!(section, "## ✅ Todos");
    assert!(content.contains("- [ ] [Example](https://example.com) — [[transcripts/2026-03-25-video-title]]"));
    assert!(content.contains("> This is a summary"));
    assert!(content.contains("#web"));
    assert!(content.contains("#example"));
}

#[test]
fn test_format_url_todo_no_transcript() {
    let (section, content) = format_url_todo("https://example.com", Some("Example"), Some("Summary"), &vec![s("web")], None, None);
    assert_eq!(section, "## ✅ Todos");
    assert!(content.contains("- [ ] [Example](https://example.com)"));
    assert!(!content.contains("—"));
    assert!(content.contains("> Summary"));
    assert!(content.contains("#web"));
}

#[test]
fn test_format_url_todo_no_tags() {
    let (section, content) = format_url_todo("https://example.com", Some("Example"), Some("Summary"), &vec![], None, None);
    assert_eq!(section, "## ✅ Todos");
    assert!(content.contains("- [ ] [Example](https://example.com)"));
    assert!(content.contains("> Summary"));
    let lines: Vec<&str> = content.lines().collect();
    assert_eq!(lines.len(), 2);
}

#[test]
fn test_format_url_todo_no_summary() {
    let (section, content) = format_url_todo("https://example.com", Some("Example"), None, &vec![s("web")], None, None);
    assert_eq!(section, "## ✅ Todos");
    assert!(content.contains("- [ ] [Example](https://example.com)"));
    assert!(content.contains("> ⚠️ Could not fetch page content"));
    assert!(content.contains("#web"));
}

#[test]
fn test_format_url_todo_no_title() {
    let (section, content) = format_url_todo("https://example.com", None, Some("Summary"), &vec![s("web")], None, None);
    assert_eq!(section, "## ✅ Todos");
    assert!(content.contains("- [ ] https://example.com"));
    assert!(content.contains("> Summary"));
    assert!(content.contains("#web"));
}

#[test]
fn test_format_url_todo_url_only() {
    let (section, content) = format_url_todo("https://example.com", None, None, &vec![], None, None);
    assert_eq!(section, "## ✅ Todos");
    assert!(content.contains("- [ ] https://example.com"));
    assert!(content.contains("> ⚠️ Could not fetch page content"));
    let lines: Vec<&str> = content.lines().collect();
    assert_eq!(lines.len(), 2);
}

#[test]
fn test_format_url_todo_special_chars() {
    let (section, content) = format_url_todo("https://example.com", Some("Example [with] brackets"), Some("Summary"), &vec![], None, None);
    assert_eq!(section, "## ✅ Todos");
    assert!(content.contains("- [ ] [Example [with] brackets](https://example.com)"));
    assert!(content.contains("> Summary"));
}

#[test]
fn test_format_url_todo_with_video_name() {
    let (section, content) = format_url_todo(
        "https://youtube.com/watch?v=abc123",
        Some("Cool Tutorial"),
        Some("Learn Rust"),
        &vec![],
        None,
        Some("My Awesome Video"),
    );
    assert_eq!(section, "## ✅ Todos");
    assert!(content.starts_with("### My Awesome Video\n"));
    assert!(content.contains("- [ ] [Cool Tutorial]"));
    assert!(content.contains("> Learn Rust"));
    assert_eq!(content.lines().count(), 3);
}

#[test]
fn test_format_url_todo_with_video_name_and_all_fields() {
    let (section, content) = format_url_todo(
        "https://youtube.com/watch?v=xyz789",
        Some("Advanced Rust Patterns"),
        Some("Deep dive into Rust performance optimization"),
        &vec![s("rust"), s("performance")],
        Some("transcripts/2026-03-25-rust-patterns"),
        Some("Rust Conference Talk"),
    );
    assert_eq!(section, "## ✅ Todos");
    assert!(content.starts_with("### Rust Conference Talk\n"));
    assert!(content.contains("- [ ] [Advanced Rust Patterns](https://youtube.com/watch?v=xyz789) — [[transcripts/2026-03-25-rust-patterns]]"));
    assert!(content.contains("> Deep dive into Rust performance optimization"));
    assert!(content.contains("#rust"));
    assert!(content.contains("#performance"));
    assert_eq!(content.lines().count(), 4);
}

#[test]
fn test_format_url_todo_with_video_name_special_chars() {
    let (section, content) = format_url_todo(
        "https://example.com",
        Some("Tutorial [Beginner]"),
        Some("Learn basics"),
        &vec![],
        None,
        Some("Video #1: Introduction"),
    );
    assert_eq!(section, "## ✅ Todos");
    assert!(content.starts_with("### Video #1: Introduction\n"));
    assert!(content.contains("- [ ] [Tutorial [Beginner]]"));
    assert!(content.contains("> Learn basics"));
}

#[test]
fn test_format_url_todo_without_video_name_unchanged() {
    let (section, content) = format_url_todo("https://example.com", Some("Example"), Some("Summary"), &vec![s("web")], None, None);
    assert_eq!(section, "## ✅ Todos");
    assert!(!content.starts_with("###"));
    assert!(content.starts_with("- [ ]"));
    assert!(content.contains("- [ ] [Example](https://example.com)"));
    assert!(content.contains("> Summary"));
    assert!(content.contains("#web"));
    assert_eq!(content.lines().count(), 3);
}

#[test]
fn url_todo_exact_text() {
    let (_, content) = format_url_todo("u", Some("T"), None, &vec![s("a"), s("b")], Some("l"), Some("V"));
    assert_eq!(content, "### V\n- [ ] [T](u) — [[l]]\n  > ⚠️ Could not fetch page content\n  #a #b");
}

#[test]
fn test_transcript_file_path_generation() {
    let plan = plan_transcript("/vault", "transcripts", "id", "My Cool Video", "s", "t", "2026-03-25");
    assert!(plan.path.ends_with("2026-03-25-my-cool-video.md"));
    assert!(plan.path.contains("transcripts"));
    assert_eq!(plan.path, "/vault/transcripts/2026-03-25-my-cool-video.md");
    assert_eq!(plan.dir, "/vault/transcripts");
}

#[test]
fn test_slug_generation_from_title() {
    assert_eq!(sanitize_slug("My Cool Video!"), "my-cool-video");
    assert_eq!(sanitize_slug("Video: Part 1 (2026)"), "video-part-1-2026");
    assert_eq!(sanitize_slug("Test@#$%Video"), "test-video");
    assert_eq!(sanitize_slug("multiple---dashes"), "multiple-dashes");
    assert_eq!(sanitize_slug("  Leading and trailing  "), "leading-and-trailing");
}

#[test]
fn test_wiki_link_format() {
    let link = wiki_link("transcripts", "2026-03-25-my-video");
    assert_eq!(link, "[[transcripts/2026-03-25-my-video]]");
    assert!(!link.contains(".md"));
}

#[test]
fn test_slug_truncation() {
    let long_title = "A".repeat(100);
    let slug = sanitize_slug(&long_title);
    assert_eq!(slug.len(), 50);
    assert_eq!(slug, "a".repeat(50));
}

#[test]
fn test_transcript_file_content_structure() {
    let content = transcript_content("dQw4w9WgXcQ", "2026-03-25", "Test Video", "This is a test summary.", "Line 1\nLine 2\nLine 3");
    assert!(content.starts_with("---\n"));
    assert!(content.contains("source: https://youtube.com/watch?v=dQw4w9WgXcQ"));
    assert!(content.contains("video_id: dQw4w9WgXcQ"));
    assert!(content.contains("date: 2026-03-25"));
    assert!(content.contains("tags: [transcript, youtube]"));
    assert!(content.contains("# Test Video"));
    assert!(content.contains("## Summary"));
    assert!(content.contains("This is a test summary."));
    assert!(content.contains("## Transcript"));
    assert!(content.contains("Line 1\nLine 2\nLine 3"));
}

#[test]
fn test_special_characters_in_title() {
    let plan = plan_transcript("/v", "transcripts", "test123", "Video: Part 1 (2026) — Special!", "Summary", "Transcript", "2026-03-25");
    assert!(plan.path.ends_with("2026-03-25-video-part-1-2026-special.md"));
    assert_eq!(plan.wiki_link, "[[transcripts/2026-03-25-video-part-1-2026-special]]");
    assert!(plan.content.contains("# Video: Part 1 (2026) — Special!"));
}

#[test]
fn unicode_titles_keep_their_letters() {
    assert_eq!(sanitize_slug("Schöne Grüße"), "schöne-grüße");
    assert_eq!(sanitize_slug("---"), "");
}

#[test]
fn path_join_follows_unix_rules() {
    assert_eq!(path_join("/vault", "notes"), "/vault/notes");
    assert_eq!(path_join("/vault/", "notes"), "/vault/notes");
    assert_eq!(path_join("", "notes"), "notes");
    assert_eq!(path_join("/vault", "/abs"), "/abs");
}

#[test]
fn manager_paths() {
    let mut settings = DailyNoteSettings::default();
    settings.folder = s("Daily Notes");
    let m = DailyNoteManager::new(s("/vault"), s("%Y-%m-%d"), settings);
    assert_eq!(m.daily_notes_dir(), "/vault/Daily Notes");
    assert_eq!(m.path_for_date("2026-03-24"), "/vault/Daily Notes/2026-03-24.md");
    let t = LocalDateTime { year: 2026, month: 3, day: 24, hour: 9, minute: 5, second: 0 };
    assert_eq!(m.path_at(&t), Some(s("/vault/Daily Notes/2026-03-24.md")));
    let m2 = DailyNoteManager::new(s("/vault"), s("%Y-%m-%d"), DailyNoteSettings::default());
    assert_eq!(m2.daily_notes_dir(), "/vault");
    let mut nested = DailyNoteSettings::default();
    nested.folder = s("Daily Notes");
    nested.format = s("YYYY/MM/YYYY-MM-DD");
    let m3 = DailyNoteManager::new(s("/vault"), s("%Y-%m-%d"), nested);
    assert_eq!(m3.path_at(&t), Some(s("/vault/Daily Notes/2026/03/2026-03-24.md")));
    let content = m.note_content_at(None, &t).unwrap();
    assert!(content.starts_with("---\ndate: 2026-03-24\ntags: [daily]\n---\n\n# 2026-03-24\n"));
    assert!(m.today_path().unwrap().starts_with("/vault/Daily Notes/"));
}

#[test]
fn settings_defaults_applied() {
    let raw = DailyNoteSettings { folder: s("  Journal "), format: s("   "), template: s(" T/daily "), autorun: true };
    let n = raw.with_defaults_applied();
    assert_eq!(n.folder, "Journal");
    assert_eq!(n.format, "YYYY-MM-DD");
    assert_eq!(n.template, "T/daily");
    assert!(n.autorun);
}

#[test]
fn template_variables_are_filled() {
    assert_eq!(render_template("{{date}} at {{time}}: {{title}}", "D", "T"), "D at T: D");
    assert!(fallback_template().contains("## ✅ Todos"));
}

#[test]
fn clock_formatting() {
    let t = LocalDateTime { year: 2024, month: 2, day: 29, hour: 7, minute: 3, second: 9 };
    let m = DailyNoteManager::new(s("/vault"), s("%Y/%m/%d"), DailyNoteSettings::default());
    assert_eq!(m.path_at(&t), Some(s("/vault/2024-02-29.md")));
    assert_eq!(
        m.note_content_at(Some("{{date}} {{time}}"), &t),
        Some(s("2024/02/29 07:03"))
    );
    let bad = LocalDateTime { year: 2023, month: 2, day: 29, hour: 7, minute: 3, second: 9 };
    assert_eq!(m.path_at(&bad), None);
}

#[test]
fn frontmatter_split_and_frame() {
    assert_eq!(
        split_frontmatter("---\ndate: 2026-03-16\ntags: [daily]\n---\n# Title"),
        Some((s("date: 2026-03-16\ntags: [daily]\n"), s("# Title")))
    );
    assert_eq!(split_frontmatter("# Title\nContent"), None);
    assert_eq!(split_frontmatter("---\r\nk: v\r\n---\r\nbody"), Some((s("k: v\r\n"), s("body"))));
    assert_eq!(split_frontmatter("---\nno end"), None);
    assert_eq!(frame_frontmatter("key: value\n"), "---\nkey: value\n---\n");
    assert_eq!(frame_frontmatter("---\nkey: value"), "---\nkey: value\n---\n");
    assert_eq!(frame_frontmatter("key: value\n..."), "---\nkey: value\n---\n");
    assert_eq!(updated_note("a: 1\n", "# Body"), "---\na: 1\n---\n# Body");
    assert!(is_protected_key("date") && is_protected_key("tags") && !is_protected_key("gewicht"));
}

#[test]
fn url_todo_has_one_line_per_part() {
    let tags = vec!["a".to_string(), "b".to_string()];
    let (_, todo) = format_url_todo("https://e.x", Some("T"), Some("S"), &tags, Some("t/x"), Some("Vid"));
    let lines: Vec<&str> = todo.lines().collect();
    assert_eq!(lines, vec!["### Vid", "- [ ] [T](https://e.x) — [[t/x]]", "  > S", "  #a #b"]);
    let (_, bare) = format_url_todo("https://e.x", None, None, &[], None, None);
    assert_eq!(bare.lines().count(), 2);
    assert!(!bare.starts_with("### "));
}
