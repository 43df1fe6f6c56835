//! YAML frontmatter of notes: where it sits in a note, which keys may be
//! updated, and how a serialized block is framed back into the note.
use vstd::prelude::*;
use crate::json::{JsonValue, json_view};
use crate::vault::yaml::{
    find_text_key, json_as_yaml, opt_yaml_view, parse_yaml, yaml_entries, yaml_from_json, yaml_of,
    yaml_serialized, yaml_text, yaml_view, YamlValue, YamlView,
};
use crate::text::{
    chars_of, ends_with, has_prefix, has_suffix, index_of, push_all, push_str, slice_of,
    starts_with, string_of,
};

verus! {

/// The index of the first line feed at or after `s`, or the length.
pub open spec fn next_newline(c: Seq<char>, s: int) -> int
    decreases c.len() - s,
{
    if s >= c.len() {
        c.len() as int
    } else if c[s] == '\n' {
        s
    } else {
        next_newline(c, s + 1)
    }
}

/// Where the next newline search ends.
pub proof fn lemma_next_newline(c: Seq<char>, s: int)
    requires
        0 <= s <= c.len(),
    ensures
        s <= next_newline(c, s) <= c.len(),
        next_newline(c, s) < c.len() ==> c[next_newline(c, s)] == '\n',
    decreases c.len() - s,
{
    if s < c.len() && c[s] != '\n' {
        lemma_next_newline(c, s + 1);
    }
}

/// A closing delimiter line `---` (with or without a carriage return).
pub open spec fn is_delimiter(line: Seq<char>) -> bool {
    line == "---"@ || line == "---\r"@
}

/// The start of the closing delimiter line at or after line start `s`, and
/// where the body after it starts.
pub open spec fn closing_from(c: Seq<char>, s: int) -> Option<(int, int)>
    decreases c.len() - s,
{
    if s < 0 || s > c.len() {
        None
    } else {
        let e = next_newline(c, s);
        if is_delimiter(c.subrange(s, e)) {
            Some((s, if e < c.len() { e + 1 } else { c.len() as int }))
        } else if e < c.len() {
            proof {
                lemma_next_newline(c, s);
            }
            closing_from(c, e + 1)
        } else {
            None
        }
    }
}

/// The length of the opening delimiter line (`---` and a line break), if
/// the note starts with one.
pub open spec fn opening_len(c: Seq<char>) -> Option<int> {
    if starts_with(c, "---\n"@) {
        Some("---\n"@.len() as int)
    } else if starts_with(c, "---\r\n"@) {
        Some("---\r\n"@.len() as int)
    } else {
        None
    }
}

/// The YAML text between the delimiter lines and the body after them, if
/// the note has a frontmatter block.
pub open spec fn frontmatter_split(c: Seq<char>) -> Option<(Seq<char>, Seq<char>)> {
    match opening_len(c) {
        None => None,
        Some(a) => match closing_from(c, a) {
            None => None,
            Some((s, b)) => Some((c.subrange(a, s), c.skip(b))),
        },
    }
}

/// Splits a note into its frontmatter YAML text and its body.
pub fn split_frontmatter(content: &str) -> (r: Option<(String, String)>)
    ensures
        match frontmatter_split(content@) {
            Some((y, b)) => r matches Some((ry, rb)) && ry@ == y && rb@ == b,
            None => r is None,
        },
{
    let c = chars_of(content);
    let open_lf = chars_of("---\n");
    let open_crlf = chars_of("---\r\n");
    let after: usize = if has_prefix(&c, &open_lf) {
        open_lf.len()
    } else if has_prefix(&c, &open_crlf) {
        open_crlf.len()
    } else {
        return None;
    };
    let d1 = chars_of("---");
    let d2 = chars_of("---\r");
    let mut s = after;
    while s <= c.len()
        invariant
            after <= s <= c.len() + 1,
            after <= c.len(),
            c@ == content@,
            opening_len(c@) == Some(after as int),
            d1@ == "---"@,
            d2@ == "---\r"@,
            closing_from(c@, after as int) == closing_from(c@, s as int),
        decreases c.len() + 1 - s,
    {
        let rest = slice_of(&c, s, c.len());
        proof {
            crate::text::lemma_first_index(rest@, '\n');
        }
        let e: usize = match index_of(&rest, '\n') {
            Some(k) => s + k,
            None => c.len(),
        };
        proof {
            assert(rest@ =~= c@.skip(s as int));
            lemma_next_newline(c@, s as int);
            lemma_next_newline_is_first(c@, s as int);
        }
        let line = slice_of(&c, s, e);
        if crate::url::detect::same_chars(&line, &d1) || crate::url::detect::same_chars(&line, &d2) {
            let yaml = slice_of(&c, after, s);
            let b: usize = if e < c.len() { e + 1 } else { c.len() };
            let body = slice_of(&c, b, c.len());
            assert(body@ =~= c@.skip(b as int));
            return Some((string_of(&yaml), string_of(&body)));
        }
        if e >= c.len() {
            return None;
        }
        s = e + 1;
    }
    None
}

/// The first line feed found by a scan from `s` is the first one after `s`.
proof fn lemma_next_newline_is_first(c: Seq<char>, s: int)
    requires
        0 <= s <= c.len(),
    ensures
        match crate::text::first_index(c.skip(s), '\n') {
            Some(k) => next_newline(c, s) == s + k,
            None => next_newline(c, s) == c.len(),
        },
    decreases c.len() - s,
{
    crate::text::lemma_first_index(c.skip(s), '\n');
    lemma_next_newline(c, s);
    let n = next_newline(c, s);
    lemma_next_newline_none_before(c, s);
    match crate::text::first_index(c.skip(s), '\n') {
        Some(k) => {
            assert(c.skip(s)[k] == c[s + k]);
            if n < s + k {
                assert(c.skip(s)[n - s] == c[n]);
            }
            if n > s + k {
                assert(c[s + k] != '\n');
            }
        },
        None => {
            if n < c.len() {
                assert(c.skip(s)[n - s] == c[n]);
            }
        },
    }
}

proof fn lemma_next_newline_none_before(c: Seq<char>, s: int)
    requires
        0 <= s <= c.len(),
    ensures
        forall|j: int| s <= j < next_newline(c, s) ==> c[j] != '\n',
    decreases c.len() - s,
{
    if s < c.len() && c[s] != '\n' {
        lemma_next_newline_none_before(c, s + 1);
    }
}

/// The YAML text of a serialized block as it is framed: a leading document
/// marker and a trailing end marker removed, a final line break ensured.
pub open spec fn frame_inner(serialized: Seq<char>) -> Seq<char> {
    let a = if starts_with(serialized, "---\n"@) {
        serialized.skip("---\n"@.len() as int)
    } else if starts_with(serialized, "---\r\n"@) {
        serialized.skip("---\r\n"@.len() as int)
    } else {
        serialized
    };
    let b = if ends_with(a, "\n..."@) {
        a.take(a.len() - "\n..."@.len())
    } else if ends_with(a, "\n...\n"@) {
        a.take(a.len() - "\n...\n"@.len())
    } else {
        a
    };
    if b.len() > 0 && b.last() == '\n' {
        b
    } else {
        b.push('\n')
    }
}

/// A serialized YAML block framed as frontmatter: its text as framed, with
/// `---` lines around it.
pub open spec fn framed_frontmatter(serialized: Seq<char>) -> Seq<char> {
    "---\n"@ + frame_inner(serialized) + "---\n"@
}

/// A position where a line of `c` starts.
pub open spec fn line_start(c: Seq<char>, s: int) -> bool {
    0 <= s < c.len() && (s == 0 || c[s - 1] == '\n')
}

/// No line of `c` is a closing delimiter.
pub open spec fn no_delimiter_line(c: Seq<char>) -> bool {
    forall|s: int| line_start(c, s) ==> !is_delimiter(#[trigger] c.subrange(s, next_newline(c, s)))
}

proof fn lemma_next_newline_le(c: Seq<char>, s: int, k: int)
    requires
        0 <= s <= k < c.len(),
        c[k] == '\n',
    ensures
        next_newline(c, s) <= k,
    decreases k - s,
{
    if c[s] != '\n' {
        lemma_next_newline_le(c, s + 1, k);
    }
}

proof fn lemma_next_newline_shift(p: Seq<char>, c: Seq<char>, q: Seq<char>, s: int)
    requires
        0 <= s < c.len(),
        next_newline(c, s) < c.len(),
    ensures
        next_newline(p + c + q, s + p.len()) == next_newline(c, s) + p.len(),
    decreases c.len() - s,
{
    let f = p + c + q;
    assert(f[s + p.len()] == c[s]);
    if c[s] != '\n' {
        assert(next_newline(c, s) == next_newline(c, s + 1));
        lemma_next_newline_shift(p, c, q, s + 1);
    }
}

proof fn lemma_closing_scan(c: Seq<char>, body: Seq<char>, s: int)
    requires
        c.len() > 0,
        c.last() == '\n',
        no_delimiter_line(c),
        0 <= s <= c.len(),
        s == c.len() || line_start(c, s),
    ensures
        closing_from("---\n"@ + c + ("---\n"@ + body), s + 4) == Some((c.len() as int + 4, c.len() as int + 8)),
    decreases c.len() - s,
{
    reveal_strlit("---\n");
    reveal_strlit("---");
    reveal_strlit("---\r");
    let p = "---\n"@;
    let q = "---\n"@ + body;
    let f = p + c + q;
    assert(f =~= "---\n"@ + c + ("---\n"@ + body));
    if s == c.len() {
        let t = s + 4;
        assert(f[t] == '-' && f[t + 1] == '-' && f[t + 2] == '-' && f[t + 3] == '\n');
        assert(next_newline(f, t + 3) == t + 3);
        assert(next_newline(f, t + 2) == t + 3);
        assert(next_newline(f, t + 1) == t + 3);
        assert(next_newline(f, t) == t + 3);
        assert(f.subrange(t, t + 3) =~= "---"@);
    } else {
        lemma_next_newline_le(c, s, c.len() - 1);
        let e = next_newline(c, s);
        lemma_next_newline(c, s);
        lemma_next_newline_shift(p, c, q, s);
        assert(f.subrange(s + 4, e + 4) =~= c.subrange(s, e));
        assert(!is_delimiter(c.subrange(s, e)));
        assert(c[e] == '\n');
        lemma_closing_scan(c, body, e + 1);
    }
}

/// Writing frontmatter keeps the note readable: a framed block followed by
/// a body splits back into the framed YAML text and that body, unless a
/// line of the YAML text is itself a closing `---` line.
pub proof fn lemma_framed_note_splits(serialized: Seq<char>, body: Seq<char>)
    requires
        no_delimiter_line(frame_inner(serialized)),
    ensures
        frontmatter_split(framed_frontmatter(serialized) + body) == Some((frame_inner(serialized), body)),
{
    reveal_strlit("---\n");
    let c = frame_inner(serialized);
    let f = framed_frontmatter(serialized) + body;
    assert(c.len() > 0 && c.last() == '\n');
    assert(f =~= "---\n"@ + c + ("---\n"@ + body));
    assert(f.subrange(0, 4) =~= "---\n"@);
    assert(opening_len(f) == Some(4int));
    lemma_closing_scan(c, body, 0);
    assert(f.subrange(4, c.len() as int + 4) =~= c);
    assert(f.skip(c.len() as int + 8) =~= body);
}

/// Frames the serialized YAML of a frontmatter block with `---` lines.
pub fn frame_frontmatter(serialized: &str) -> (r: String)
    ensures
        r@ == framed_frontmatter(serialized@),
{
    let v = chars_of(serialized);
    let p1 = chars_of("---\n");
    let p2 = chars_of("---\r\n");
    let a = if has_prefix(&v, &p1) {
        let x = slice_of(&v, p1.len(), v.len());
        assert(x@ =~= serialized@.skip("---\n"@.len() as int));
        x
    } else if has_prefix(&v, &p2) {
        let x = slice_of(&v, p2.len(), v.len());
        assert(x@ =~= serialized@.skip("---\r\n"@.len() as int));
        x
    } else {
        v
    };
    let s1 = chars_of("\n...");
    let s2 = chars_of("\n...\n");
    let mut b = if has_suffix(&a, &s1) {
        let x = slice_of(&a, 0, a.len() - s1.len());
        assert(x@ =~= a@.take(a@.len() - "\n..."@.len()));
        x
    } else if has_suffix(&a, &s2) {
        let x = slice_of(&a, 0, a.len() - s2.len());
        assert(x@ =~= a@.take(a@.len() - "\n...\n"@.len()));
        x
    } else {
        a
    };
    if !(b.len() > 0 && b[b.len() - 1] == '\n') {
        b.push('\n');
    }
    let mut out = chars_of("---\n");
    push_all(&mut out, &b);
    push_str(&mut out, "---\n");
    string_of(&out)
}

/// Keys the daily note owns and updates never change.
pub open spec fn protected_key(key: Seq<char>) -> bool {
    key == "date"@ || key == "tags"@
}

/// Whether a frontmatter key is protected from updates (`date`, `tags`).
pub fn is_protected_key(key: &str) -> (r: bool)
    ensures
        r == protected_key(key@),
{
    let k = chars_of(key);
    crate::url::detect::same_chars(&k, &chars_of("date")) || crate::url::detect::same_chars(
        &k,
        &chars_of("tags"),
    )
}

/// The index of the first entry named `key`, if any.
pub open spec fn entry_index<K, V>(es: Seq<(K, V)>, key: K) -> Option<int>
    decreases es.len(),
{
    if es.len() == 0 {
        None
    } else if es[0].0 == key {
        Some(0)
    } else {
        match entry_index(es.drop_first(), key) {
            Some(i) => Some(i + 1),
            None => None,
        }
    }
}

/// The entries after one update: a protected key is ignored; otherwise the
/// first entry with the key takes the new value in place, or the entry is
/// appended when the key is new.
pub open spec fn with_update<K, V>(
    es: Seq<(K, V)>,
    u: (K, V),
    protected: Seq<K>,
) -> Seq<(K, V)> {
    if protected.contains(u.0) {
        es
    } else {
        match entry_index(es, u.0) {
            Some(i) => es.update(i, u),
            None => es.push(u),
        }
    }
}

/// The entries after the updates, applied in order.
pub open spec fn merged<K, V>(
    es: Seq<(K, V)>,
    us: Seq<(K, V)>,
    protected: Seq<K>,
) -> Seq<(K, V)>
    decreases us.len(),
{
    if us.len() == 0 {
        es
    } else {
        with_update(merged(es, us.drop_last(), protected), us.last(), protected)
    }
}

/// The texts of the protected keys.
pub open spec fn key_texts(keys: Seq<&str>) -> Seq<Seq<char>> {
    Seq::new(keys.len(), |i: int| keys[i]@)
}

pub(crate) proof fn lemma_entry_index<K, V>(es: Seq<(K, V)>, key: K)
    ensures
        match entry_index(es, key) {
            Some(i) => 0 <= i < es.len() && es[i].0 == key && forall|j: int| 0 <= j < i ==> es[j].0 != key,
            None => forall|j: int| 0 <= j < es.len() ==> es[j].0 != key,
        },
    decreases es.len(),
{
    if es.len() > 0 && es[0].0 != key {
        lemma_entry_index(es.drop_first(), key);
        assert forall|j: int| 1 <= j < es.len() implies #[trigger] es[j].0 == es.drop_first()[j - 1].0 by {}
    }
}

/// The first entry named `key` is the one a scan finds.
pub(crate) proof fn lemma_entry_index_is<K, V>(es: Seq<(K, V)>, key: K, k: int)
    requires
        0 <= k <= es.len(),
        forall|j: int| 0 <= j < k ==> es[j].0 != key,
        k < es.len() ==> es[k].0 == key,
    ensures
        entry_index(es, key) == if k < es.len() { Some(k) } else { None::<int> },
{
    lemma_entry_index(es, key);
    match entry_index(es, key) {
        Some(i) => {
            if i < k {
                assert(es[i].0 != key);
            }
            if k < i {
                assert(es[k].0 != key);
            }
        },
        None => {
            if k < es.len() {
                assert(es[k].0 != key);
            }
        },
    }
}

fn is_listed(keys: &[&str], key: &str) -> (r: bool)
    ensures
        r == key_texts(keys@).contains(key@),
{
    let k = chars_of(key);
    let mut i: usize = 0;
    while i < keys.len()
        invariant
            i <= keys.len(),
            k@ == key@,
            forall|j: int| 0 <= j < i ==> key_texts(keys@)[j] != key@,
        decreases keys.len() - i,
    {
        if crate::url::detect::same_chars(&chars_of(keys[i]), &k) {
            assert(key_texts(keys@)[i as int] == key@);
            return true;
        }
        i = i + 1;
    }
    false
}

/// Merging never touches a protected key: where its first entry was, and
/// with which value, stays as it was (and it stays absent when absent).
pub proof fn lemma_merge_keeps_protected<K, V>(
    es: Seq<(K, V)>,
    us: Seq<(K, V)>,
    protected: Seq<K>,
    key: K,
)
    requires
        protected.contains(key),
    ensures
        entry_index(merged(es, us, protected), key) == entry_index(es, key),
        match entry_index(es, key) {
            Some(i) => merged(es, us, protected)[i] == es[i],
            None => true,
        },
    decreases us.len(),
{
    if us.len() > 0 {
        let m = merged(es, us.drop_last(), protected);
        lemma_merge_keeps_protected(es, us.drop_last(), protected, key);
        let u = us.last();
        if !protected.contains(u.0) {
            assert(u.0 != key);
            lemma_entry_index(m, u.0);
            lemma_entry_index(m, key);
            match entry_index(m, u.0) {
                Some(i) => {
                    lemma_entry_index_update(m, i, u, key);
                },
                None => {
                    lemma_entry_index_push(m, u, key);
                },
            }
        }
    }
}

/// Merging leaves a key that no update names as it was: where its first
/// entry was, and with which value (and it stays absent when absent).
pub proof fn lemma_merge_keeps_unnamed<K, V>(
    es: Seq<(K, V)>,
    us: Seq<(K, V)>,
    protected: Seq<K>,
    key: K,
)
    requires
        forall|l: int| 0 <= l < us.len() ==> us[l].0 != key,
    ensures
        entry_index(merged(es, us, protected), key) == entry_index(es, key),
        match entry_index(es, key) {
            Some(i) => merged(es, us, protected)[i] == es[i],
            None => true,
        },
    decreases us.len(),
{
    if us.len() > 0 {
        let m = merged(es, us.drop_last(), protected);
        assert forall|l: int| 0 <= l < us.drop_last().len() implies us.drop_last()[l].0 != key by {
            assert(us.drop_last()[l] == us[l]);
        }
        lemma_merge_keeps_unnamed(es, us.drop_last(), protected, key);
        let u = us.last();
        assert(u == us[us.len() - 1]);
        if !protected.contains(u.0) {
            assert(u.0 != key);
            lemma_entry_index(m, u.0);
            lemma_entry_index(m, key);
            match entry_index(m, u.0) {
                Some(i) => {
                    lemma_entry_index_update(m, i, u, key);
                },
                None => {
                    lemma_entry_index_push(m, u, key);
                },
            }
        }
    }
}

proof fn lemma_entry_index_update<K, V>(es: Seq<(K, V)>, i: int, u: (K, V), key: K)
    requires
        0 <= i < es.len(),
        es[i].0 == u.0,
    ensures
        entry_index(es.update(i, u), key) == entry_index(es, key),
{
    let e2 = es.update(i, u);
    lemma_entry_index(es, key);
    assert forall|j: int| 0 <= j < es.len() implies #[trigger] e2[j].0 == es[j].0 by {}
    match entry_index(es, key) {
        Some(a) => {
            lemma_entry_index_is(e2, key, a);
        },
        None => {
            lemma_entry_index_is(e2, key, es.len() as int);
        },
    }
}

proof fn lemma_entry_index_push<K, V>(es: Seq<(K, V)>, u: (K, V), key: K)
    requires
        u.0 != key,
    ensures
        entry_index(es.push(u), key) == entry_index(es, key),
{
    let e2 = es.push(u);
    lemma_entry_index(es, key);
    match entry_index(es, key) {
        Some(a) => {
            lemma_entry_index_is(e2, key, a);
        },
        None => {
            lemma_entry_index_is(e2, key, e2.len() as int);
        },
    }
}

/// Every update that is not protected, and not followed by another update
/// of the same key, is in the result: the key's first entry holds its value.
pub proof fn lemma_merge_applies_update<K, V>(
    es: Seq<(K, V)>,
    us: Seq<(K, V)>,
    protected: Seq<K>,
    j: int,
)
    requires
        0 <= j < us.len(),
        !protected.contains(us[j].0),
        forall|l: int| j < l < us.len() ==> us[l].0 != us[j].0,
    ensures
        match entry_index(merged(es, us, protected), us[j].0) {
            Some(i) => merged(es, us, protected)[i].1 == us[j].1,
            None => false,
        },
    decreases us.len(),
{
    let key = us[j].0;
    let m = merged(es, us.drop_last(), protected);
    let u = us.last();
    if j == us.len() - 1 {
        lemma_entry_index(m, key);
        match entry_index(m, key) {
            Some(i) => {
                lemma_entry_index_update(m, i, u, key);
            },
            None => {
                lemma_entry_index_is(m.push(u), key, m.len() as int);
            },
        }
    } else {
        assert(us.drop_last()[j] == us[j]);
        lemma_merge_applies_update(es, us.drop_last(), protected, j);
        assert(u.0 != key);
        if !protected.contains(u.0) {
            lemma_entry_index(m, u.0);
            match entry_index(m, u.0) {
                Some(i) => {
                    lemma_entry_index_update(m, i, u, key);
                    lemma_entry_index(m, key);
                },
                None => {
                    lemma_entry_index_push(m, u, key);
                    lemma_entry_index(m, key);
                },
            }
        }
    }
}

/// The frontmatter of a note parsed as YAML, and the body after it; no
/// value and the whole note when there is no closed frontmatter block or
/// serde_yml does not accept its text.
pub fn parse_frontmatter(content: &str) -> (r: (Option<YamlValue>, String))
    ensures
        match frontmatter_split(content@) {
            Some((y, b)) => match yaml_of(y) {
                Some(v) => opt_yaml_view(r.0) == Some(v) && r.1@ == b,
                None => r.0 is None && r.1@ == content@,
            },
            None => r.0 is None && r.1@ == content@,
        },
{
    match split_frontmatter(content) {
        Some((yaml, body)) => match parse_yaml(yaml.as_str()) {
            Some(v) => (Some(v), body),
            None => (None, content.to_owned()),
        },
        None => (None, content.to_owned()),
    }
}

/// A value serialized as a frontmatter block: serde_yml's text for it,
/// framed by `---` lines.
pub fn serialize_frontmatter(yaml: &YamlValue) -> (r: String)
    ensures
        r@ == framed_frontmatter(yaml_serialized(yaml@)),
{
    let t = yaml_text(yaml);
    frame_frontmatter(t.as_str())
}

/// The entries of a mapping; none for any other value.
pub open spec fn mapping_entries(v: YamlView) -> Seq<(YamlView, YamlView)> {
    match v {
        YamlView::Mapping(es) => es,
        _ => Seq::empty(),
    }
}

/// Keys as YAML text keys.
pub open spec fn text_keys(keys: Seq<&str>) -> Seq<YamlView> {
    Seq::new(keys.len(), |i: int| YamlView::Text(keys[i]@))
}

/// New fields as YAML entries keyed by text.
pub open spec fn field_entries(fields: Seq<(String, JsonValue)>) -> Seq<(YamlView, YamlView)> {
    Seq::new(fields.len(), |i: int| (YamlView::Text(fields[i].0@), json_as_yaml(json_view(fields[i].1))))
}

proof fn lemma_text_keys_contain(keys: Seq<&str>, key: Seq<char>)
    ensures
        text_keys(keys).contains(YamlView::Text(key)) == key_texts(keys).contains(key),
{
    if key_texts(keys).contains(key) {
        let i = choose|i: int| 0 <= i < key_texts(keys).len() && key_texts(keys)[i] == key;
        assert(text_keys(keys)[i] == YamlView::Text(key));
    }
    if text_keys(keys).contains(YamlView::Text(key)) {
        let i = choose|i: int| 0 <= i < text_keys(keys).len() && text_keys(keys)[i] == YamlView::Text(key);
        assert(key_texts(keys)[i] == key);
    }
}

/// Merge new fields into a frontmatter value: a value that is not a
/// mapping becomes an empty mapping; then each field whose key is not
/// protected replaces the value of its text key in place, or is appended
/// when the key is new; protected keys are left alone.
pub fn merge_frontmatter(existing: &mut YamlValue, new: &Vec<(String, JsonValue)>, protected_keys: &[&str])
    ensures
        final(existing)@ == YamlView::Mapping(
            merged(mapping_entries(old(existing)@), field_entries(new@), text_keys(protected_keys@)),
        ),
{
    let ghost base = mapping_entries(old(existing)@);
    let ghost all = field_entries(new@);
    let ghost prot = text_keys(protected_keys@);
    let mut current = YamlValue::Null;
    std::mem::swap(&mut current, existing);
    let mut es: Vec<(YamlValue, YamlValue)> = match current {
        YamlValue::Mapping(es) => {
            assert(yaml_entries(es@) =~= base);
            es
        },
        _ => {
            let es: Vec<(YamlValue, YamlValue)> = Vec::new();
            assert(yaml_entries(es@) =~= base);
            es
        },
    };
    assert(all.take(0) =~= Seq::<(YamlView, YamlView)>::empty());
    let mut n: usize = 0;
    while n < new.len()
        invariant
            n <= new.len(),
            all == field_entries(new@),
            prot == text_keys(protected_keys@),
            yaml_entries(es@) == merged(base, all.take(n as int), prot),
        decreases new.len() - n,
    {
        assert(all.take(n + 1).drop_last() =~= all.take(n as int));
        assert(all.take(n + 1).last() == all[n as int]);
        let key = new[n].0.as_str();
        let ghost before = yaml_entries(es@);
        proof {
            lemma_text_keys_contain(protected_keys@, key@);
        }
        if !is_listed(protected_keys, key) {
            let y = yaml_from_json(&new[n].1);
            let k = YamlValue::Text(string_of(&chars_of(key)));
            match find_text_key(&es, key) {
                Some(i) => {
                    es.set(i, (k, y));
                    assert(yaml_entries(es@) =~= before.update(i as int, all[n as int]));
                },
                None => {
                    es.push((k, y));
                    assert(yaml_entries(es@) =~= before.push(all[n as int]));
                },
            }
        }
        n = n + 1;
    }
    assert(all.take(n as int) =~= all);
    *existing = YamlValue::Mapping(es);
    assert(yaml_view(*existing)->Mapping_0 =~= yaml_entries(es@));
}

/// The keys a daily note owns: `date` and `tags`.
pub open spec fn note_protected_keys() -> Seq<YamlView> {
    seq![YamlView::Text("date"@), YamlView::Text("tags"@)]
}

/// The entries of a note's frontmatter, when it parses as a mapping.
pub open spec fn note_entries(c: Seq<char>) -> Seq<(YamlView, YamlView)> {
    match frontmatter_split(c) {
        Some((y, b)) => match yaml_of(y) {
            Some(v) => mapping_entries(v),
            None => Seq::empty(),
        },
        None => Seq::empty(),
    }
}

/// A note's body after a frontmatter block serde_yml accepts; the whole
/// note otherwise.
pub open spec fn note_body(c: Seq<char>) -> Seq<char> {
    match frontmatter_split(c) {
        Some((y, b)) => if yaml_of(y) is Some {
            b
        } else {
            c
        },
        None => c,
    }
}

/// A note with fields merged into its frontmatter: the entries of its
/// frontmatter mapping (none when it has no frontmatter serde_yml accepts,
/// or the value is not a mapping), updated by the fields except `date` and
/// `tags`, printed by serde_yml as a framed block, then the body.
pub fn update_note_frontmatter(content: &str, fields: &Vec<(String, JsonValue)>) -> (r: String)
    ensures
        r@ == framed_frontmatter(
            yaml_serialized(YamlView::Mapping(merged(note_entries(content@), field_entries(fields@), note_protected_keys()))),
        ) + note_body(content@),
{
    let (yaml, body) = parse_frontmatter(content);
    let mut value = match yaml {
        Some(v) => v,
        None => YamlValue::Mapping(Vec::new()),
    };
    assert(mapping_entries(value@) =~= note_entries(content@));
    let mut keys: Vec<&str> = Vec::new();
    keys.push("date");
    keys.push("tags");
    assert(text_keys(keys@) =~= note_protected_keys());
    merge_frontmatter(&mut value, fields, keys.as_slice());
    let block = serialize_frontmatter(&value);
    let mut out = chars_of(block.as_str());
    push_str(&mut out, body.as_str());
    string_of(&out)
}

/// The note after a frontmatter update: the framed block, then the body.
pub fn updated_note(serialized_yaml: &str, body: &str) -> (r: String)
    ensures
        r@ == framed_frontmatter(serialized_yaml@) + body@,
{
    let mut out = chars_of_string_framed(serialized_yaml);
    push_str(&mut out, body);
    string_of(&out)
}

fn chars_of_string_framed(serialized_yaml: &str) -> (r: Vec<char>)
    ensures
        r@ == framed_frontmatter(serialized_yaml@),
{
    let f = frame_frontmatter(serialized_yaml);
    chars_of(f.as_str())
}

} // verus!
