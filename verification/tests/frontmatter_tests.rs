use obsidian_ai_agent::json::JsonValue;
use obsidian_ai_agent::vault::daily_note::replace_in_section_by_url;
use obsidian_ai_agent::vault::frontmatter::{
    merge_frontmatter, parse_frontmatter, serialize_frontmatter, update_note_frontmatter, updated_note,
};
use obsidian_ai_agent::vault::yaml::{yaml_from_json, yaml_get, YamlValue};

fn yaml(text: &str) -> YamlValue {
    let (v, _) = parse_frontmatter(&format!("---\n{}\n---\n", text));
    v.expect("valid YAML")
}

fn has(v: &YamlValue, key: &str) -> bool {
    yaml_get(v, key).is_some()
}

fn num(text: &str) -> JsonValue {
    JsonValue::Number(text.to_string())
}

fn entry_count(v: &YamlValue) -> usize {
    match v {
        YamlValue::Mapping(es) => es.len(),
        _ => 0,
    }
}

const PROTECTED: &[&str] = &["date", "tags"];

#[test]
fn test_parse_frontmatter() {
    let content = "---\ndate: 2026-03-16\ntags: [daily]\n---\n# Title";
    let (yaml, body) = parse_frontmatter(content);

    assert_eq!(body, "# Title");
    let yaml = yaml.expect("expected frontmatter to parse");
    assert!(has(&yaml, "date"));
    assert!(has(&yaml, "tags"));
}

#[test]
fn test_parse_no_frontmatter() {
    let content = "# Title\nContent";
    let (yaml, body) = parse_frontmatter(content);

    assert!(yaml.is_none());
    assert_eq!(body, content);
}

#[test]
fn test_parse_malformed_frontmatter() {
    let content = "---\ninvalid: [unclosed\n---";
    let (yaml, body) = parse_frontmatter(content);

    assert!(yaml.is_none());
    assert_eq!(body, content);
}

#[test]
fn parse_frontmatter_needs_a_closing_line() {
    let content = "---\nkey: value\nno closing";
    let (yaml, body) = parse_frontmatter(content);
    assert!(yaml.is_none());
    assert_eq!(body, content);
    let (y2, b2) = parse_frontmatter("---\r\nk: v\r\n---\r\nbody");
    assert!(y2.is_some());
    assert_eq!(b2, "body");
}

#[test]
fn test_merge_upsert() {
    let mut existing = yaml("date: 2026-03-16\ntags: [daily]");
    let new = vec![("gewicht".to_string(), num("80.2"))];

    merge_frontmatter(&mut existing, &new, PROTECTED);

    assert!(has(&existing, "date"));
    assert!(has(&existing, "tags"));
    assert_eq!(yaml_get(&existing, "gewicht"), Some(&YamlValue::Number("80.2".to_string())));
    assert_eq!(entry_count(&existing), 3);
}

#[test]
fn test_merge_overwrite_allowed() {
    let mut existing = yaml("gewicht: 79.0");
    let new = vec![("gewicht".to_string(), num("80.2"))];

    merge_frontmatter(&mut existing, &new, PROTECTED);

    assert_eq!(yaml_get(&existing, "gewicht"), Some(&YamlValue::Number("80.2".to_string())));
    assert_eq!(entry_count(&existing), 1);
}

#[test]
fn test_merge_protected_keys() {
    let mut existing = yaml("date: 2026-03-16\ntags: [daily]");
    let new = vec![
        ("date".to_string(), JsonValue::Str("2099-01-01".to_string())),
        ("tags".to_string(), JsonValue::Array(vec![JsonValue::Str("modified".to_string())])),
    ];

    merge_frontmatter(&mut existing, &new, PROTECTED);

    assert_eq!(yaml_get(&existing, "date"), Some(&YamlValue::Text("2026-03-16".to_string())));
    assert_eq!(
        yaml_get(&existing, "tags"),
        Some(&YamlValue::Sequence(vec![YamlValue::Text("daily".to_string())]))
    );
}

#[test]
fn merge_keeps_positions_and_last_update_wins() {
    let mut v = yaml("a: 1\nb: 2");
    merge_frontmatter(
        &mut v,
        &vec![("b".to_string(), num("20")), ("c".to_string(), num("3")), ("b".to_string(), num("200"))],
        &["a"],
    );
    assert_eq!(v, yaml("a: 1\nb: 200\nc: 3"));
    merge_frontmatter(&mut v, &vec![("a".to_string(), num("9"))], &["a"]);
    assert_eq!(v, yaml("a: 1\nb: 200\nc: 3"));
}

#[test]
fn merge_turns_a_non_mapping_into_a_mapping() {
    let mut v = YamlValue::Text("plain".to_string());
    merge_frontmatter(&mut v, &vec![("k".to_string(), JsonValue::Bool(true))], PROTECTED);
    assert_eq!(v, YamlValue::Mapping(vec![(YamlValue::Text("k".to_string()), YamlValue::Bool(true))]));
}

#[test]
fn json_fields_become_yaml_values() {
    let j = JsonValue::Object(vec![
        ("n".to_string(), num("1")),
        ("l".to_string(), JsonValue::Array(vec![JsonValue::Null, JsonValue::Str("x".to_string())])),
    ]);
    assert_eq!(yaml_from_json(&j), yaml("n: 1\nl: [null, x]"));
}

#[test]
fn test_serialize_frontmatter() {
    let value = yaml("key: value");
    let serialized = serialize_frontmatter(&value);

    assert!(serialized.starts_with("---\n"));
    assert!(serialized.contains("key: value"));
    assert!(serialized.ends_with("---\n"));
    assert_eq!(serialized, "---\nkey: value\n---\n");
}

#[test]
fn parse_reads_the_mapping_in_order() {
    let (v, body) = parse_frontmatter("---\ndate: 2026-03-16\ntags: [daily]\nn: 5\n---\nrest");
    assert_eq!(body, "rest");
    assert_eq!(
        v,
        Some(YamlValue::Mapping(vec![
            (YamlValue::Text("date".to_string()), YamlValue::Text("2026-03-16".to_string())),
            (YamlValue::Text("tags".to_string()), YamlValue::Sequence(vec![YamlValue::Text("daily".to_string())])),
            (YamlValue::Text("n".to_string()), YamlValue::Number("5".to_string())),
        ]))
    );
}

#[test]
fn test_roundtrip() {
    let original = "---\ngewicht: 79.0\n---\n# Daily\nBody";
    let new = vec![
        ("vetpercentage".to_string(), num("22.1")),
        ("tags".to_string(), JsonValue::Array(vec![JsonValue::Str("daily".to_string())])),
    ];

    let updated = update_note_frontmatter(original, &new);
    let (yaml, body) = parse_frontmatter(&updated);

    let yaml = yaml.expect("expected frontmatter");
    assert!(has(&yaml, "gewicht"));
    assert!(has(&yaml, "vetpercentage"));
    assert!(!has(&yaml, "tags"));
    assert_eq!(body, "# Daily\nBody");
}

#[test]
fn test_insert_frontmatter_into_no_frontmatter_doc() {
    let content = "# Title\nBody";
    let new = vec![("gewicht".to_string(), num("80.2"))];

    let updated = update_note_frontmatter(content, &new);

    assert!(updated.starts_with("---\n"));
    assert!(updated.contains("gewicht: 80.2"));
    assert!(updated.contains("# Title\nBody"));
    assert_eq!(updated, updated_note("gewicht: 80.2\n", "# Title\nBody"));
}

#[test]
fn update_keeps_malformed_frontmatter_as_body() {
    let content = "---\ninvalid: [unclosed\n---\nBody";
    let updated = update_note_frontmatter(content, &vec![("k".to_string(), num("1"))]);
    assert_eq!(updated, format!("---\nk: 1\n---\n{}", content));
}

#[test]
fn replace_without_link_leaves_document_alone() {
    let doc = "## Todos\n- [ ] [A](https://a.example)\n  > a\n";
    assert_eq!(replace_in_section_by_url(doc, "## Todos", "https://b.example", "X"), doc);
}

#[test]
fn framed_note_splits_back_into_yaml_and_body() {
    let note = obsidian_ai_agent::vault::frontmatter::updated_note("---\nmood: good\ntags:\n- a\n", "# Day\ntext\n");
    assert_eq!(note, "---\nmood: good\ntags:\n- a\n---\n# Day\ntext\n");
    let split = obsidian_ai_agent::vault::frontmatter::split_frontmatter(&note);
    assert_eq!(split, Some(("mood: good\ntags:\n- a\n".to_string(), "# Day\ntext\n".to_string())));
}

#[test]
fn test_update_frontmatter_adds_new_fields() {
    let note_content = "---\ndate: 2026-03-24\ntags: [daily]\n---\n# Daily Note\n\nContent";
    let updated = update_note_frontmatter(note_content, &vec![("gewicht".to_string(), num("80.2"))]);
    assert!(updated.contains("gewicht: 80.2"));
    assert!(updated.contains("2026-03-24"));
    assert!(updated.contains("tags:"));
}

#[test]
fn test_update_frontmatter_empty_hashmap_no_op() {
    let note_content = "---\ndate: 2026-03-24\n---\n# Daily Note\n\nContent";
    let updated = update_note_frontmatter(note_content, &Vec::new());
    assert!(updated.starts_with("---\n"));
    assert!(updated.contains("2026-03-24"));
    assert!(updated.contains("# Daily Note"));
}

#[test]
fn test_update_frontmatter_protected_keys_ignored() {
    let note_content = "---\ndate: 2026-03-24\n---\n# Daily Note\n\nContent";
    let updated =
        update_note_frontmatter(note_content, &vec![("date".to_string(), JsonValue::Str("9999-01-01".to_string()))]);
    assert!(updated.contains("2026-03-24"));
    assert!(!updated.contains("9999-01-01"));
}
