//! AI help with git merge conflicts: the request made for each conflicted
//! file and the reading of the answer.
use vstd::prelude::*;
use crate::json::{entry, json_array, json_object, json_str, json_string, json_u64, json_view, JsonValue, JsonView};
use crate::text::{
    chars_of, chars_of_string, has_prefix, join, join_parts, lines, push_all, push_str,
    split_lines, starts_with, string_of, trim, trimmed, views,
};
use crate::utils::{fitting_prefix_len, utf8_len};

verus! {

/// Result of AI analyzing a single conflicted file
#[derive(Debug, Clone)]
pub struct ConflictAnalysis {
    pub summary: String,
    pub recommendation: String,
    pub confidence: String,
}

/// `s` cut to at most `max_bytes` UTF-8 bytes at a character boundary and
/// marked as truncated, or `s` itself when it fits; `k` is the number of
/// characters kept.
pub open spec fn truncated_excerpt(s: Seq<char>, max_bytes: nat, k: int) -> Seq<char> {
    if utf8_len(s) <= max_bytes {
        s
    } else {
        s.take(k) + "... (truncated)"@
    }
}

/// The longest character prefix of `s` within `max_bytes` bytes has `k` characters.
pub open spec fn fitting_prefix(s: Seq<char>, max_bytes: nat, k: int) -> bool {
    &&& 0 <= k <= s.len()
    &&& utf8_len(s.take(k)) <= max_bytes
    &&& k < s.len() ==> utf8_len(s.take(k + 1)) > max_bytes
}

/// Truncate a string to `max_chars` bytes, respecting UTF-8 char boundaries,
/// and mark the cut.
pub fn truncate_content(s: &str, max_chars: usize) -> (r: String)
    ensures
        exists|k: int| fitting_prefix(s@, max_chars as nat, k) && r@ == truncated_excerpt(s@, max_chars as nat, k),
{
    let chars = chars_of(s);
    let k = fitting_prefix_len(&chars, max_chars);
    if k == chars.len() {
        assert(chars@.take(k as int) =~= chars@);
        assert(fitting_prefix(s@, max_chars as nat, k as int));
        return s.to_owned();
    }
    let mut out: Vec<char> = Vec::new();
    let mut i: usize = 0;
    while i < k
        invariant
            i <= k <= chars.len(),
            out@ == chars@.take(i as int),
        decreases k - i,
    {
        out.push(chars[i]);
        i = i + 1;
        assert(out@ =~= chars@.take(i as int));
    }
    push_str(&mut out, "... (truncated)");
    proof {
        crate::utils::lemma_utf8_len_prefix_le(chars@, chars.len() as int);
        assert(chars@.take(chars.len() as int) =~= chars@);
        assert(utf8_len(chars@.take(k + 1)) <= utf8_len(chars@.take(chars.len() as int)));
    }
    assert(fitting_prefix(s@, max_chars as nat, k as int));
    assert(out@ == truncated_excerpt(s@, max_chars as nat, k as int));
    string_of(&out)
}

/// The fields read from the lines of an answer so far: the value after the
/// last `SUMMARY:`, `RECOMMENDATION:` and `CONFIDENCE:` seen, trimmed.
pub open spec fn analysis_fields(ls: Seq<Seq<char>>) -> (Seq<char>, Seq<char>, Seq<char>)
    decreases ls.len(),
{
    if ls.len() == 0 {
        (Seq::empty(), Seq::empty(), Seq::empty())
    } else {
        let (s, r, c) = analysis_fields(ls.drop_last());
        let t = trim(ls.last());
        if starts_with(t, "SUMMARY:"@) {
            (trim(t.skip("SUMMARY:"@.len() as int)), r, c)
        } else if starts_with(t, "RECOMMENDATION:"@) {
            (s, trim(t.skip("RECOMMENDATION:"@.len() as int)), c)
        } else if starts_with(t, "CONFIDENCE:"@) {
            (s, r, trim(t.skip("CONFIDENCE:"@.len() as int)))
        } else {
            (s, r, c)
        }
    }
}

/// The analysis read from an answer: the three fields, the confidence
/// `unknown` when absent; when no field is found at all, the whole trimmed
/// answer as the summary.
pub open spec fn analysis_of(text: Seq<char>) -> (Seq<char>, Seq<char>, Seq<char>) {
    let (s, r, c) = analysis_fields(lines(text));
    if s.len() == 0 && r.len() == 0 && c.len() == 0 {
        (trim(text), Seq::empty(), "unknown"@)
    } else {
        (s, r, if c.len() == 0 { "unknown"@ } else { c })
    }
}

/// The prefix that marks field `f` of an analysis (0: summary,
/// 1: recommendation, 2: confidence).
pub open spec fn analysis_prefix(f: int) -> Seq<char> {
    if f == 0 {
        "SUMMARY:"@
    } else if f == 1 {
        "RECOMMENDATION:"@
    } else {
        "CONFIDENCE:"@
    }
}

/// Field `f` of the three fields of an analysis.
pub open spec fn field_of(t: (Seq<char>, Seq<char>, Seq<char>), f: int) -> Seq<char> {
    if f == 0 {
        t.0
    } else if f == 1 {
        t.1
    } else {
        t.2
    }
}

/// Whether a line carries field `f`: trimmed, it starts with the prefix.
pub open spec fn carries(l: Seq<char>, f: int) -> bool {
    starts_with(trim(l), analysis_prefix(f))
}

/// The value a line gives its field: the trimmed rest after the prefix.
pub open spec fn carried_value(l: Seq<char>, f: int) -> Seq<char> {
    trim(trim(l).skip(analysis_prefix(f).len() as int))
}

proof fn lemma_prefixes_exclusive(t: Seq<char>)
    ensures
        !(starts_with(t, "SUMMARY:"@) && starts_with(t, "RECOMMENDATION:"@)),
        !(starts_with(t, "SUMMARY:"@) && starts_with(t, "CONFIDENCE:"@)),
        !(starts_with(t, "RECOMMENDATION:"@) && starts_with(t, "CONFIDENCE:"@)),
{
    reveal_strlit("SUMMARY:");
    reveal_strlit("RECOMMENDATION:");
    reveal_strlit("CONFIDENCE:");
    if starts_with(t, "SUMMARY:"@) {
        assert(t.subrange(0, 8)[0] == 'S');
    }
    if starts_with(t, "RECOMMENDATION:"@) {
        assert(t.subrange(0, 15)[0] == 'R');
    }
    if starts_with(t, "CONFIDENCE:"@) {
        assert(t.subrange(0, 11)[0] == 'C');
    }
}

/// How the last line of an answer changes field `f`.
proof fn lemma_field_step(ls: Seq<Seq<char>>, f: int)
    requires
        ls.len() > 0,
        0 <= f < 3,
    ensures
        field_of(analysis_fields(ls), f) == if carries(ls.last(), f) {
            carried_value(ls.last(), f)
        } else {
            field_of(analysis_fields(ls.drop_last()), f)
        },
{
    lemma_prefixes_exclusive(trim(ls.last()));
}

/// Each field of an answer is the value on the last line that carries it.
pub proof fn lemma_analysis_field_last_line(ls: Seq<Seq<char>>, f: int, k: int)
    requires
        0 <= f < 3,
        0 <= k < ls.len(),
        carries(ls[k], f),
        forall|j: int| k < j < ls.len() ==> !carries(#[trigger] ls[j], f),
    ensures
        field_of(analysis_fields(ls), f) == carried_value(ls[k], f),
    decreases ls.len(),
{
    lemma_field_step(ls, f);
    if k < ls.len() - 1 {
        assert(!carries(ls[ls.len() - 1], f));
        let d = ls.drop_last();
        assert forall|j: int| k < j < d.len() implies !carries(#[trigger] d[j], f) by {
            assert(d[j] == ls[j]);
        }
        assert(d[k] == ls[k]);
        lemma_analysis_field_last_line(d, f, k);
    }
}

/// A field that no line carries with a non-blank value is empty.
pub proof fn lemma_analysis_field_blank(ls: Seq<Seq<char>>, f: int)
    requires
        0 <= f < 3,
        forall|j: int| 0 <= j < ls.len() && carries(#[trigger] ls[j], f) ==> carried_value(ls[j], f).len() == 0,
    ensures
        field_of(analysis_fields(ls), f).len() == 0,
    decreases ls.len(),
{
    if ls.len() > 0 {
        lemma_field_step(ls, f);
        let d = ls.drop_last();
        assert forall|j: int| 0 <= j < d.len() && carries(#[trigger] d[j], f) implies carried_value(d[j], f).len() == 0 by {
            assert(d[j] == ls[j]);
        }
        assert(ls.last() == ls[ls.len() - 1]);
        lemma_analysis_field_blank(d, f);
    }
}

/// An answer in which no line carries a field with a non-blank value is
/// read as the whole trimmed answer for the summary, no recommendation and
/// confidence `unknown`.
pub proof fn lemma_analysis_fallback(text: Seq<char>)
    requires
        forall|f: int, j: int|
            0 <= f < 3 && 0 <= j < lines(text).len() && #[trigger] carries(lines(text)[j], f)
                ==> carried_value(lines(text)[j], f).len() == 0,
    ensures
        analysis_of(text) == (trim(text), Seq::<char>::empty(), "unknown"@),
{
    let ls = lines(text);
    assert forall|j: int| 0 <= j < ls.len() && carries(#[trigger] ls[j], 0) implies carried_value(ls[j], 0).len() == 0 by {
        assert(carries(lines(text)[j], 0));
    }
    assert forall|j: int| 0 <= j < ls.len() && carries(#[trigger] ls[j], 1) implies carried_value(ls[j], 1).len() == 0 by {
        assert(carries(lines(text)[j], 1));
    }
    assert forall|j: int| 0 <= j < ls.len() && carries(#[trigger] ls[j], 2) implies carried_value(ls[j], 2).len() == 0 by {
        assert(carries(lines(text)[j], 2));
    }
    lemma_analysis_field_blank(ls, 0);
    lemma_analysis_field_blank(ls, 1);
    lemma_analysis_field_blank(ls, 2);
}

/// When some line carries field `f`, the field read is the value on the
/// last such line (for the confidence: `unknown` when that value is blank
/// and some other field was found).
pub proof fn lemma_analysis_reads_last_line(text: Seq<char>, f: int, k: int)
    requires
        0 <= f < 3,
        0 <= k < lines(text).len(),
        carries(lines(text)[k], f),
        carried_value(lines(text)[k], f).len() > 0,
        forall|j: int| k < j < lines(text).len() ==> !carries(#[trigger] lines(text)[j], f),
    ensures
        field_of(analysis_of(text), f) == carried_value(lines(text)[k], f),
{
    lemma_analysis_field_last_line(lines(text), f, k);
}

/// The value on the last line that carries field `f`; empty when no line
/// carries it (or that line's value is blank).
pub open spec fn last_value(ls: Seq<Seq<char>>, f: int) -> Seq<char>
    decreases ls.len(),
{
    if ls.len() == 0 {
        Seq::empty()
    } else if carries(ls.last(), f) {
        carried_value(ls.last(), f)
    } else {
        last_value(ls.drop_last(), f)
    }
}

proof fn lemma_fields_are_last_values(ls: Seq<Seq<char>>, f: int)
    requires
        0 <= f < 3,
    ensures
        field_of(analysis_fields(ls), f) == last_value(ls, f),
    decreases ls.len(),
{
    if ls.len() > 0 {
        lemma_field_step(ls, f);
        lemma_fields_are_last_values(ls.drop_last(), f);
    }
}

/// How an answer is read, for every answer: each field takes the value on
/// the last line carrying it, blank or not. When all three are empty
/// (no line carries a field, or the last line carrying each has a blank
/// value), the answer falls back to the whole trimmed text for the
/// summary, no recommendation and confidence `unknown`; otherwise the
/// fields are those values, with confidence `unknown` when its value is
/// empty.
pub proof fn lemma_analysis_by_last_values(text: Seq<char>)
    ensures
        ({
            let ls = lines(text);
            let s = last_value(ls, 0);
            let r = last_value(ls, 1);
            let c = last_value(ls, 2);
            analysis_of(text) == if s.len() == 0 && r.len() == 0 && c.len() == 0 {
                (trim(text), Seq::<char>::empty(), "unknown"@)
            } else {
                (s, r, if c.len() == 0 { "unknown"@ } else { c })
            }
        }),
{
    let ls = lines(text);
    lemma_fields_are_last_values(ls, 0);
    lemma_fields_are_last_values(ls, 1);
    lemma_fields_are_last_values(ls, 2);
}

/// When the last line carrying field `f` has a blank value, the field is
/// read as empty (`unknown` for the confidence), or the whole answer falls
/// back when the other two fields are empty as well.
pub proof fn lemma_analysis_blank_last_line(text: Seq<char>, f: int, k: int)
    requires
        0 <= f < 3,
        0 <= k < lines(text).len(),
        carries(lines(text)[k], f),
        carried_value(lines(text)[k], f).len() == 0,
        forall|j: int| k < j < lines(text).len() ==> !carries(#[trigger] lines(text)[j], f),
    ensures
        last_value(lines(text), f).len() == 0,
        field_of(analysis_of(text), f) == if last_value(lines(text), 0).len() == 0 && last_value(lines(text), 1).len()
            == 0 && last_value(lines(text), 2).len() == 0 {
            field_of((trim(text), Seq::<char>::empty(), "unknown"@), f)
        } else if f == 2 {
            "unknown"@
        } else {
            Seq::<char>::empty()
        },
{
    lemma_analysis_field_last_line(lines(text), f, k);
    lemma_fields_are_last_values(lines(text), f);
    lemma_analysis_by_last_values(text);
}

/// The trimmed rest of `t` after a prefix of `n` characters.
fn value_after(t: &Vec<char>, n: usize) -> (r: Vec<char>)
    requires
        n <= t.len(),
    ensures
        r@ == trim(t@.skip(n as int)),
{
    let rest = crate::text::slice_of(t, n, t.len());
    assert(rest@ =~= t@.skip(n as int));
    trimmed(&rest)
}

/// Parse AI response text into structured ConflictAnalysis
pub fn parse_analysis_response(text: &str) -> (r: ConflictAnalysis)
    ensures
        (r.summary@, r.recommendation@, r.confidence@) == analysis_of(text@),
{
    let all = chars_of(text);
    let ls = split_lines(&all);
    let ghost lsv = views(ls@);
    let p_sum = chars_of("SUMMARY:");
    let p_rec = chars_of("RECOMMENDATION:");
    let p_conf = chars_of("CONFIDENCE:");
    let mut summary: Vec<char> = Vec::new();
    let mut recommendation: Vec<char> = Vec::new();
    let mut confidence: Vec<char> = Vec::new();
    let mut i: usize = 0;
    while i < ls.len()
        invariant
            i <= ls.len(),
            lsv == views(ls@),
            p_sum@ == "SUMMARY:"@,
            p_rec@ == "RECOMMENDATION:"@,
            p_conf@ == "CONFIDENCE:"@,
            (summary@, recommendation@, confidence@) == analysis_fields(lsv.take(i as int)),
        decreases ls.len() - i,
    {
        let t = trimmed(&ls[i]);
        assert(lsv.take(i + 1).drop_last() =~= lsv.take(i as int));
        assert(lsv.take(i + 1).last() == ls@[i as int]@);
        if has_prefix(&t, &p_sum) {
            summary = value_after(&t, p_sum.len());
        } else if has_prefix(&t, &p_rec) {
            recommendation = value_after(&t, p_rec.len());
        } else if has_prefix(&t, &p_conf) {
            confidence = value_after(&t, p_conf.len());
        }
        i = i + 1;
    }
    assert(lsv.take(ls.len() as int) =~= lsv);
    if summary.len() == 0 && recommendation.len() == 0 && confidence.len() == 0 {
        return ConflictAnalysis {
            summary: string_of(&trimmed(&all)),
            recommendation: String::new(),
            confidence: "unknown".to_owned(),
        };
    }
    ConflictAnalysis {
        summary: string_of(&summary),
        recommendation: string_of(&recommendation),
        confidence: if confidence.len() == 0 {
            "unknown".to_owned()
        } else {
            string_of(&confidence)
        },
    }
}

/// The instructions given to the model for a conflicted file.
pub fn conflict_system_prompt() -> (r: &'static str)
    ensures
        r@ == conflict_system_prompt_text(),
{
    "You are analyzing a git merge conflict in an Obsidian vault (markdown notes). Explain what's different between the two versions in simple terms. Recommend which version to keep. Be concise — max 3 sentences for summary, 1 sentence for recommendation.\n\nFormat your response EXACTLY as:\nSUMMARY: <your summary>\nRECOMMENDATION: <your recommendation>\nCONFIDENCE: <high|medium|low>"
}

/// The text of the conflict instructions.
pub open spec fn conflict_system_prompt_text() -> Seq<char> {
    "You are analyzing a git merge conflict in an Obsidian vault (markdown notes). Explain what's different between the two versions in simple terms. Recommend which version to keep. Be concise — max 3 sentences for summary, 1 sentence for recommendation.\n\nFormat your response EXACTLY as:\nSUMMARY: <your summary>\nRECOMMENDATION: <your recommendation>\nCONFIDENCE: <high|medium|low>"@
}

/// The user prompt for a conflicted file, from the file name and the
/// (already truncated) two versions and diff.
pub open spec fn conflict_user_prompt_text(
    file_name: Seq<char>,
    ours: Seq<char>,
    theirs: Seq<char>,
    diff: Seq<char>,
) -> Seq<char> {
    "File: "@ + file_name + "\n\nYOUR version (local):\n"@ + ours + "\n\nSERVER version (remote):\n"@
        + theirs + "\n\nDiff:\n"@ + diff
}

/// The user prompt for a conflicted file: both versions cut to 2000 bytes
/// and the diff to 1000 bytes.
pub fn conflict_user_prompt(file_name: &str, ours: &str, theirs: &str, diff: &str) -> (r: String)
    ensures
        exists|ko: int, kt: int, kd: int|
            fitting_prefix(ours@, 2000, ko) && fitting_prefix(theirs@, 2000, kt) && fitting_prefix(
                diff@,
                1000,
                kd,
            ) && r@ == conflict_user_prompt_text(
                file_name@,
                truncated_excerpt(ours@, 2000, ko),
                truncated_excerpt(theirs@, 2000, kt),
                truncated_excerpt(diff@, 1000, kd),
            ),
{
    let o = truncate_content(ours, 2000);
    let t = truncate_content(theirs, 2000);
    let d = truncate_content(diff, 1000);
    let mut out = chars_of("File: ");
    push_str(&mut out, file_name);
    push_str(&mut out, "\n\nYOUR version (local):\n");
    push_str(&mut out, o.as_str());
    push_str(&mut out, "\n\nSERVER version (remote):\n");
    push_str(&mut out, t.as_str());
    push_str(&mut out, "\n\nDiff:\n");
    push_str(&mut out, d.as_str());
    proof {
        let ko = choose|k: int| fitting_prefix(ours@, 2000, k) && o@ == truncated_excerpt(ours@, 2000, k);
        let kt = choose|k: int| fitting_prefix(theirs@, 2000, k) && t@ == truncated_excerpt(theirs@, 2000, k);
        let kd = choose|k: int| fitting_prefix(diff@, 1000, k) && d@ == truncated_excerpt(diff@, 1000, k);
        assert(out@ =~= conflict_user_prompt_text(file_name@, o@, t@, d@));
        assert(fitting_prefix(ours@, 2000, ko) && fitting_prefix(theirs@, 2000, kt) && fitting_prefix(diff@, 1000, kd));
    }
    string_of(&out)
}

/// A chat message `{"role": role, "content": content}`.
pub open spec fn message_view(role: Seq<char>, content: Seq<char>) -> JsonView {
    JsonView::Object(seq![("role"@, JsonView::Str(role)), ("content"@, JsonView::Str(content))])
}

/// A chat message object.
pub fn message_json(role: &str, content: String) -> (r: JsonValue)
    ensures
        json_view(r) == message_view(role@, content@),
{
    let mut es: Vec<(String, JsonValue)> = Vec::new();
    es.push(entry("role", json_str(role)));
    es.push(entry("content", json_string(content)));
    let r = json_object(es);
    assert(crate::json::entry_views(es@) =~= seq![("role"@, JsonView::Str(role@)), ("content"@, JsonView::Str(content@))]);
    r
}

/// The chat request for a conflicted file: the model, the system and user
/// messages, and at most 512 tokens.
pub open spec fn conflict_request_view(model: Seq<char>, user_prompt: Seq<char>) -> JsonView {
    JsonView::Object(
        seq![
            ("model"@, JsonView::Str(model)),
            ("messages"@, JsonView::Array(seq![message_view("system"@, conflict_system_prompt_text()), message_view("user"@, user_prompt)])),
            ("max_tokens"@, JsonView::Number(crate::text::decimal(512))),
        ],
    )
}

/// The chat request asking the model about a conflicted file with the given user prompt.
pub fn conflict_request_body(model: &str, user_prompt: String) -> (r: JsonValue)
    ensures
        json_view(r) == conflict_request_view(model@, user_prompt@),
{
    let ghost up = user_prompt@;
    let mut msgs: Vec<JsonValue> = Vec::new();
    msgs.push(message_json("system", conflict_system_prompt().to_owned()));
    msgs.push(message_json("user", user_prompt));
    let messages = json_array(msgs);
    assert(crate::json::json_views(msgs@) =~= seq![message_view("system"@, conflict_system_prompt_text()), message_view("user"@, up)]);
    let mut es: Vec<(String, JsonValue)> = Vec::new();
    es.push(entry("model", json_str(model)));
    es.push(entry("messages", messages));
    es.push(entry("max_tokens", json_u64(512)));
    let r = json_object(es);
    assert(crate::json::entry_views(es@) =~= seq![
        ("model"@, JsonView::Str(model@)),
        ("messages"@, JsonView::Array(seq![message_view("system"@, conflict_system_prompt_text()), message_view("user"@, up)])),
        ("max_tokens"@, JsonView::Number(crate::text::decimal(512))),
    ]);
    r
}

/// The paragraph reporting the analysis of one file.
pub open spec fn analysis_entry_text(file_name: Seq<char>, a: ConflictAnalysis) -> Seq<char> {
    "📄 **"@ + file_name + "**\n"@ + a.summary@ + "\n💡 "@ + a.recommendation@ + "\n(confidence: "@
        + a.confidence@ + ")"@
}

/// The paragraph reporting the analysis of one file.
pub fn analysis_entry(file_name: &str, a: &ConflictAnalysis) -> (r: String)
    ensures
        r@ == analysis_entry_text(file_name@, *a),
{
    let mut out = chars_of("📄 **");
    push_str(&mut out, file_name);
    push_str(&mut out, "**\n");
    push_str(&mut out, a.summary.as_str());
    push_str(&mut out, "\n💡 ");
    push_str(&mut out, a.recommendation.as_str());
    push_str(&mut out, "\n(confidence: ");
    push_str(&mut out, a.confidence.as_str());
    push_str(&mut out, ")");
    string_of(&out)
}

/// The paragraph reporting that one file could not be analyzed.
pub open spec fn analysis_failed_text(file_name: Seq<char>, error: Seq<char>) -> Seq<char> {
    "📄 **"@ + file_name + "**\nAI analysis unavailable: "@ + error
}

/// The paragraph reporting that one file could not be analyzed.
pub fn analysis_failed_entry(file_name: &str, error: &str) -> (r: String)
    ensures
        r@ == analysis_failed_text(file_name@, error@),
{
    let mut out = chars_of("📄 **");
    push_str(&mut out, file_name);
    push_str(&mut out, "**\nAI analysis unavailable: ");
    push_str(&mut out, error);
    string_of(&out)
}

/// The report over all conflicted files: their paragraphs separated by a
/// blank line, or a note that there is nothing to analyze.
pub open spec fn conflicts_report(entries: Seq<Seq<char>>) -> Seq<char> {
    if entries.len() == 0 {
        "No conflicted files to analyze."@
    } else {
        join(entries, "\n\n"@)
    }
}

/// Combines the per-file paragraphs into the report.
pub fn combine_analyses(entries: &Vec<String>) -> (r: String)
    ensures
        r@ == conflicts_report(crate::text::string_views(entries@)),
{
    if entries.len() == 0 {
        return "No conflicted files to analyze.".to_owned();
    }
    let mut parts: Vec<Vec<char>> = Vec::new();
    let mut i: usize = 0;
    while i < entries.len()
        invariant
            i <= entries.len(),
            views(parts@) == crate::text::string_views(entries@).take(i as int),
        decreases entries.len() - i,
    {
        let ghost before = views(parts@);
        parts.push(chars_of_string(&entries[i]));
        assert(views(parts@) =~= before.push(entries@[i as int]@));
        i = i + 1;
        assert(views(parts@) =~= crate::text::string_views(entries@).take(i as int));
    }
    assert(crate::text::string_views(entries@).take(entries.len() as int) =~= crate::text::string_views(entries@));
    let sep = chars_of("\n\n");
    string_of(&join_parts(&parts, &sep))
}

} // verus!
