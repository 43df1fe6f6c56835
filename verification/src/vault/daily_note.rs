//! Daily note layout: Obsidian date formats, section insertion and the
//! replacement of URL entries inside a section.
use vstd::prelude::*;
use crate::clock::{chrono_formatted, format_date_time, is_hh_mm, local_now, valid_date_time, LocalDateTime};
use crate::text::{
    lemma_join_contains_part, push_all, replace_all, replace_chars,
    chars_of, contains, occurs_at, has_prefix, has_substring, join, join_parts, lines, matches_at, push_str,
    slice_of, split_lines, starts_with, string_of, trim, trim_start, trimmed, trimmed_start, views,
};

verus! {

/// The first index `i` in `from..to` whose line satisfies `p`, or `to`.
pub open spec fn first_in(
    lines: Seq<Seq<char>>,
    from: int,
    to: int,
    p: spec_fn(Seq<char>) -> bool,
) -> int
    decreases to - from,
{
    if from >= to {
        to
    } else if p(lines[from]) {
        from
    } else {
        first_in(lines, from + 1, to, p)
    }
}

/// Characterises `first_in` by the index a left-to-right scan stops at.
pub proof fn lemma_first_in(
    lines: Seq<Seq<char>>,
    from: int,
    to: int,
    p: spec_fn(Seq<char>) -> bool,
    i: int,
)
    requires
        from <= i <= to,
        forall|k: int| from <= k < i ==> !p(lines[k]),
        i < to ==> p(lines[i]),
    ensures
        first_in(lines, from, to, p) == i,
    decreases i - from,
{
    if from < i {
        lemma_first_in(lines, from + 1, to, p, i);
    }
}

/// The first index at or after `from` and before `to` satisfying `p` lies in range.
pub proof fn lemma_first_in_bounds(
    lines: Seq<Seq<char>>,
    from: int,
    to: int,
    p: spec_fn(Seq<char>) -> bool,
)
    requires
        from <= to,
    ensures
        from <= first_in(lines, from, to, p) <= to,
        first_in(lines, from, to, p) < to ==> p(lines[first_in(lines, from, to, p)]),
        forall|k: int| from <= k < first_in(lines, from, to, p) ==> !p(lines[k]),
    decreases to - from,
{
    if from < to && !p(lines[from]) {
        lemma_first_in_bounds(lines, from + 1, to, p);
    }
}

/// A line that is the given heading, up to surrounding whitespace.
pub open spec fn is_heading_line(heading: Seq<char>) -> spec_fn(Seq<char>) -> bool {
    |line: Seq<char>| trim(line) == trim(heading)
}

/// A line that opens a level-two section (`## `).
pub open spec fn is_section_line() -> spec_fn(Seq<char>) -> bool {
    |line: Seq<char>| starts_with(trim(line), "## "@)
}

/// The line separator of a note.
pub open spec fn nl() -> Seq<char> {
    seq!['\n']
}

/// `document` with `content` placed at the end of the section opened by
/// `heading`, followed by an empty line; when no line is the heading, an
/// empty line and `content` are appended at the end.
pub open spec fn inserted_after_heading(
    document: Seq<char>,
    heading: Seq<char>,
    content: Seq<char>,
) -> Seq<char> {
    let ls = lines(document);
    let h = first_in(ls, 0, ls.len() as int, is_heading_line(heading));
    if h < ls.len() {
        let e = first_in(ls, h + 1, ls.len() as int, is_section_line());
        join(ls.take(e) + seq![content, Seq::<char>::empty()] + ls.skip(e), nl())
    } else {
        join(ls + seq![Seq::<char>::empty(), content], nl())
    }
}

/// What is appended to a section is in the note afterwards.
pub proof fn lemma_inserted_entry_present(document: Seq<char>, heading: Seq<char>, content: Seq<char>)
    ensures
        contains(inserted_after_heading(document, heading, content), content),
{
    let ls = lines(document);
    let h = first_in(ls, 0, ls.len() as int, is_heading_line(heading));
    lemma_first_in_bounds(ls, 0, ls.len() as int, is_heading_line(heading));
    if h < ls.len() {
        let e = first_in(ls, h + 1, ls.len() as int, is_section_line());
        lemma_first_in_bounds(ls, h + 1, ls.len() as int, is_section_line());
        let parts = ls.take(e) + seq![content, Seq::<char>::empty()] + ls.skip(e);
        assert(parts[e] == content);
        lemma_join_contains_part(parts, nl(), e);
    } else {
        let parts = ls + seq![Seq::<char>::empty(), content];
        assert(parts[ls.len() as int + 1] == content);
        lemma_join_contains_part(parts, nl(), ls.len() as int + 1);
    }
}

/// Where an entry goes: when line `h` is the first line that is the
/// heading and `e` the first `## ` line after it (or the end of the note),
/// the entry comes after every line of the note before `e`, so after the
/// section's existing entries, and is followed by an empty line and then
/// line `e` and the rest of the note. When no line is the heading, the
/// note gets an empty line and the entry at its end.
pub proof fn lemma_insert_at_section_end(document: Seq<char>, heading: Seq<char>, content: Seq<char>, h: int, e: int)
    requires
        0 <= h < e <= lines(document).len(),
        trim(lines(document)[h]) == trim(heading),
        forall|j: int| 0 <= j < h ==> trim(#[trigger] lines(document)[j]) != trim(heading),
        forall|j: int| h < j < e ==> !starts_with(trim(#[trigger] lines(document)[j]), "## "@),
        e < lines(document).len() ==> starts_with(trim(lines(document)[e]), "## "@),
    ensures
        inserted_after_heading(document, heading, content) == join(
            lines(document).take(e) + seq![content, Seq::<char>::empty()] + lines(document).skip(e),
            seq!['\n'],
        ),
{
    let ls = lines(document);
    assert forall|j: int| 0 <= j < h implies !is_heading_line(heading)(#[trigger] ls[j]) by {}
    lemma_first_in(ls, 0, ls.len() as int, is_heading_line(heading), h);
    assert forall|j: int| h + 1 <= j < e implies !is_section_line()(#[trigger] ls[j]) by {}
    lemma_first_in(ls, h + 1, ls.len() as int, is_section_line(), e);
}

/// When no line of the note is the heading, the entry is appended at the
/// end after an empty line.
pub proof fn lemma_insert_without_heading(document: Seq<char>, heading: Seq<char>, content: Seq<char>)
    requires
        forall|j: int| 0 <= j < lines(document).len() ==> trim(#[trigger] lines(document)[j]) != trim(heading),
    ensures
        inserted_after_heading(document, heading, content) == join(
            lines(document) + seq![Seq::<char>::empty(), content],
            seq!['\n'],
        ),
{
    let ls = lines(document);
    assert forall|j: int| 0 <= j < ls.len() implies !is_heading_line(heading)(#[trigger] ls[j]) by {}
    lemma_first_in(ls, 0, ls.len() as int, is_heading_line(heading), ls.len() as int);
}

/// Appending to a section loses nothing: every line of the note is still in it.
pub proof fn lemma_insert_keeps_lines(document: Seq<char>, heading: Seq<char>, content: Seq<char>, k: int)
    requires
        0 <= k < lines(document).len(),
    ensures
        contains(inserted_after_heading(document, heading, content), lines(document)[k]),
{
    let ls = lines(document);
    let h = first_in(ls, 0, ls.len() as int, is_heading_line(heading));
    lemma_first_in_bounds(ls, 0, ls.len() as int, is_heading_line(heading));
    if h < ls.len() {
        let e = first_in(ls, h + 1, ls.len() as int, is_section_line());
        lemma_first_in_bounds(ls, h + 1, ls.len() as int, is_section_line());
        let parts = ls.take(e) + seq![content, Seq::<char>::empty()] + ls.skip(e);
        if k < e {
            assert(parts[k] == ls[k]);
            lemma_join_contains_part(parts, nl(), k);
        } else {
            assert(parts[k + 2] == ls[k]);
            lemma_join_contains_part(parts, nl(), k + 2);
        }
    } else {
        let parts = ls + seq![Seq::<char>::empty(), content];
        assert(parts[k] == ls[k]);
        lemma_join_contains_part(parts, nl(), k);
    }
}

/// Whether `line` trimmed equals `t`.
fn line_is_heading(line: &Vec<char>, t: &Vec<char>) -> (r: bool)
    ensures
        r == is_heading_line_t(t@)(line@),
{
    let lt = trimmed(line);
    if lt.len() == t.len() && matches_at(&lt, 0, t) {
        assert(lt@.subrange(0, t@.len() as int) =~= lt@);
        true
    } else {
        proof {
            if lt@ == t@ {
                assert(lt@.subrange(0, t@.len() as int) =~= lt@);
            }
        }
        false
    }
}

/// Whether `line` opens a `## ` section.
fn line_opens_section(line: &Vec<char>) -> (r: bool)
    ensures
        r == is_section_line()(line@),
{
    let marker = chars_of("## ");
    let lt = trimmed(line);
    has_prefix(&lt, &marker)
}

/// Index of the first line of `ls[from..]` that satisfies the heading test.
fn find_heading(ls: &Vec<Vec<char>>, from: usize, heading_trimmed: &Vec<char>) -> (i: usize)
    requires
        from <= ls.len(),
    ensures
        i as int == first_in(views(ls@), from as int, ls.len() as int, is_heading_line_t(heading_trimmed@)),
{
    let mut i = from;
    while i < ls.len() && !line_is_heading(&ls[i], heading_trimmed)
        invariant
            from <= i <= ls.len(),
            forall|k: int| from <= k < i ==> !is_heading_line_t(heading_trimmed@)(views(ls@)[k]),
        decreases ls.len() - i,
    {
        i = i + 1;
    }
    proof {
        lemma_first_in(views(ls@), from as int, ls.len() as int, is_heading_line_t(heading_trimmed@), i as int);
    }
    i
}

/// A line whose trimmed form is `t`.
pub open spec fn is_heading_line_t(t: Seq<char>) -> spec_fn(Seq<char>) -> bool {
    |line: Seq<char>| trim(line) == t
}

/// Index of the first line of `ls[from..to]` that opens a `## ` section, or `to`.
fn find_section_end(ls: &Vec<Vec<char>>, from: usize, to: usize) -> (i: usize)
    requires
        from <= to <= ls.len(),
    ensures
        i as int == first_in(views(ls@), from as int, to as int, is_section_line()),
{
    let mut i = from;
    while i < to && !line_opens_section(&ls[i])
        invariant
            from <= i <= to,
            to <= ls.len(),
            forall|k: int| from <= k < i ==> !is_section_line()(views(ls@)[k]),
        decreases to - i,
    {
        i = i + 1;
    }
    proof {
        lemma_first_in(views(ls@), from as int, to as int, is_section_line(), i as int);
    }
    i
}

/// Appends one line to `out`.
pub fn push_line(out: &mut Vec<Vec<char>>, line: Vec<char>)
    ensures
        views(final(out)@) == views(old(out)@).push(line@),
{
    out.push(line);
    assert(views(out@) =~= views(old(out)@).push(line@));
}

/// Copies `ls[lo..hi]` onto the end of `out`.
fn push_lines(out: &mut Vec<Vec<char>>, ls: &Vec<Vec<char>>, lo: usize, hi: usize)
    requires
        lo <= hi <= ls.len(),
    ensures
        views(final(out)@) == views(old(out)@) + views(ls@).subrange(lo as int, hi as int),
{
    let ghost start = views(out@);
    let mut i = lo;
    while i < hi
        invariant
            lo <= i <= hi,
            hi <= ls.len(),
            views(out@) == start + views(ls@).subrange(lo as int, i as int),
        decreases hi - i,
    {
        let line = slice_of(&ls[i], 0, ls[i].len());
        assert(ls@[i as int]@.subrange(0, ls@[i as int]@.len() as int) =~= ls@[i as int]@);
        push_line(out, line);
        i = i + 1;
        assert(views(out@) =~= start + views(ls@).subrange(lo as int, i as int));
    }
}

/// Insert content after a specific heading in a markdown document.
/// If the heading is not found, append to the end.
pub fn insert_after_heading(document: &str, heading: &str, content: &str) -> (r: String)
    ensures
        r@ == inserted_after_heading(document@, heading@, content@),
{
    let doc = chars_of(document);
    let ls = split_lines(&doc);
    let head = chars_of(heading);
    let head_t = trimmed(&head);
    let body = chars_of(content);
    let ghost lsv = views(ls@);
    let h = find_heading(&ls, 0, &head_t);
    assert(is_heading_line_t(head_t@) == is_heading_line(head@));
    let mut parts: Vec<Vec<char>> = Vec::new();
    let newline = chars_of("\n");
    if h < ls.len() {
        let e = find_section_end(&ls, h + 1, ls.len());
        proof {
            lemma_first_in_bounds(lsv, h + 1, ls.len() as int, is_section_line());
        }
        push_lines(&mut parts, &ls, 0, e);
        push_line(&mut parts, body);
        push_line(&mut parts, Vec::new());
        push_lines(&mut parts, &ls, e, ls.len());
        assert(views(parts@) =~= lsv.take(e as int) + seq![content@, Seq::<char>::empty()]
            + lsv.skip(e as int));
    } else {
        push_lines(&mut parts, &ls, 0, ls.len());
        assert(lsv.subrange(0, ls.len() as int) =~= lsv);
        push_line(&mut parts, Vec::new());
        push_line(&mut parts, body);
        assert(views(parts@) =~= lsv + seq![Seq::<char>::empty(), content@]);
    }
    assert(newline@ == nl()) by {
        reveal_strlit("\n");
    }
    let joined = join_parts(&parts, &newline);
    string_of(&joined)
}


/// A line continuing an entry: a quoted summary (`  >`) or a tag line (`  #`).
pub open spec fn is_entry_detail_line() -> spec_fn(Seq<char>) -> bool {
    |line: Seq<char>| starts_with(line, "  >"@) || starts_with(line, "  #"@)
}

/// A line that ends an entry's details.
pub open spec fn is_not_entry_detail_line() -> spec_fn(Seq<char>) -> bool {
    |line: Seq<char>| !(starts_with(line, "  >"@) || starts_with(line, "  #"@))
}

/// The markdown link target `](url)`.
pub open spec fn link_target(url: Seq<char>) -> Seq<char> {
    "]("@ + url + ")"@
}

/// A line holding a markdown link to `url`.
pub open spec fn links_to(url: Seq<char>) -> spec_fn(Seq<char>) -> bool {
    |line: Seq<char>| contains(line, link_target(url))
}

/// Walking up from line `j - 1` while above `lo`: the index of the first
/// line that opens an entry (`- [ ]` or `### `), or `dflt` when an empty
/// line or `lo` comes first.
pub open spec fn scan_back(ls: Seq<Seq<char>>, lo: int, j: int, dflt: int) -> int
    decreases j - lo,
{
    if j <= lo {
        dflt
    } else {
        let c = trim_start(ls[j - 1]);
        if c.len() == 0 {
            dflt
        } else if starts_with(c, "- [ ]"@) || starts_with(c, "### "@) {
            j - 1
        } else {
            scan_back(ls, lo, j - 1, dflt)
        }
    }
}

/// First line of the entry whose link sits on line `u` of a section
/// starting at line `s0`: a `### ` heading directly above belongs to it;
/// otherwise, unless the line above is a `- [ ]` item, the nearest entry
/// opener above within the same paragraph.
pub open spec fn entry_start(ls: Seq<Seq<char>>, s0: int, u: int) -> int {
    if u > s0 {
        let prev = trim_start(ls[u - 1]);
        if starts_with(prev, "### "@) {
            u - 1
        } else if !starts_with(prev, "- [ ]"@) {
            scan_back(ls, s0, u, u)
        } else {
            u
        }
    } else {
        u
    }
}

/// `document` with the entry that links to `url` inside the section opened
/// by `heading` replaced by the lines of `new_content`; `document` itself
/// when the heading or such an entry is missing.
pub open spec fn replaced_in_section(
    document: Seq<char>,
    heading: Seq<char>,
    url: Seq<char>,
    new_content: Seq<char>,
) -> Seq<char> {
    let ls = lines(document);
    let h = first_in(ls, 0, ls.len() as int, is_heading_line(heading));
    if h >= ls.len() {
        document
    } else {
        let s0 = h + 1;
        let se = first_in(ls, s0, ls.len() as int, is_section_line());
        let u = first_in(ls, s0, se, links_to(url));
        if u >= se {
            document
        } else {
            let a = entry_start(ls, s0, u);
            let b = first_in(ls, u + 1, se, is_not_entry_detail_line());
            join(ls.take(a) + lines(new_content) + ls.skip(b), nl())
        }
    }
}

/// A document that nowhere links to `url` is left unchanged, whatever the
/// section and the new content.
pub proof fn lemma_replace_without_link_is_identity(
    document: Seq<char>,
    heading: Seq<char>,
    url: Seq<char>,
    new_content: Seq<char>,
)
    requires
        !contains(document, link_target(url)),
    ensures
        replaced_in_section(document, heading, url, new_content) == document,
{
    let ls = lines(document);
    lemma_first_in_bounds(ls, 0, ls.len() as int, is_heading_line(heading));
    let h = first_in(ls, 0, ls.len() as int, is_heading_line(heading));
    if h < ls.len() {
        let s0 = h + 1;
        lemma_first_in_bounds(ls, s0, ls.len() as int, is_section_line());
        let se = first_in(ls, s0, ls.len() as int, is_section_line());
        lemma_first_in_bounds(ls, s0, se, links_to(url));
        let u = first_in(ls, s0, se, links_to(url));
        if u < se {
            assert(links_to(url)(ls[u]));
            crate::text::lemma_line_in_text(document, u, link_target(url));
        }
    }
}

/// The line of the note that opens the section `heading` (the number of
/// lines when there is none).
pub open spec fn heading_line(document: Seq<char>, heading: Seq<char>) -> int {
    let ls = lines(document);
    first_in(ls, 0, ls.len() as int, is_heading_line(heading))
}

/// The line where the section `heading` ends: the next `## ` line after
/// its heading, or the number of lines.
pub open spec fn section_end(document: Seq<char>, heading: Seq<char>) -> int {
    let ls = lines(document);
    first_in(ls, heading_line(document, heading) + 1, ls.len() as int, is_section_line())
}

/// The section `heading` exists and holds a line linking to `url`.
pub open spec fn has_linked_entry(document: Seq<char>, heading: Seq<char>, url: Seq<char>) -> bool {
    let ls = lines(document);
    let h = heading_line(document, heading);
    h < ls.len() && first_in(ls, h + 1, section_end(document, heading), links_to(url)) < section_end(
        document,
        heading,
    )
}

proof fn lemma_scan_back_ge(ls: Seq<Seq<char>>, lo: int, j: int, dflt: int)
    requires
        lo <= dflt,
    ensures
        lo <= scan_back(ls, lo, j, dflt),
    decreases j - lo,
{
    if j > lo {
        lemma_scan_back_ge(ls, lo, j - 1, dflt);
    }
}

/// A text contains each of its lines.
proof fn lemma_text_contains_line(s: Seq<char>, k: int)
    requires
        0 <= k < lines(s).len(),
    ensures
        contains(s, lines(s)[k]),
{
    let l = lines(s)[k];
    assert(l.subrange(0, l.len() as int) =~= l);
    assert(occurs_at(l, l, 0));
    crate::text::lemma_line_in_text(s, k, l);
}

/// Replacing the entry of a link loses nothing outside its section: every
/// line up to the section's heading and from the next section on is still
/// in the note.
pub proof fn lemma_replace_keeps_outside_lines(
    document: Seq<char>,
    heading: Seq<char>,
    url: Seq<char>,
    new_content: Seq<char>,
    k: int,
)
    requires
        0 <= k < lines(document).len(),
        k <= heading_line(document, heading) || k >= section_end(document, heading),
    ensures
        contains(replaced_in_section(document, heading, url, new_content), lines(document)[k]),
{
    let ls = lines(document);
    lemma_first_in_bounds(ls, 0, ls.len() as int, is_heading_line(heading));
    let h = heading_line(document, heading);
    if h >= ls.len() {
        lemma_text_contains_line(document, k);
        return;
    }
    let s0 = h + 1;
    lemma_first_in_bounds(ls, s0, ls.len() as int, is_section_line());
    let se = section_end(document, heading);
    lemma_first_in_bounds(ls, s0, se, links_to(url));
    let u = first_in(ls, s0, se, links_to(url));
    if u >= se {
        lemma_text_contains_line(document, k);
        return;
    }
    let a = entry_start(ls, s0, u);
    if u > s0 {
        lemma_scan_back_ge(ls, s0, u, u);
        lemma_scan_back_le(ls, s0, u, u);
    }
    assert(s0 <= a <= u);
    lemma_first_in_bounds(ls, u + 1, se, is_not_entry_detail_line());
    let b = first_in(ls, u + 1, se, is_not_entry_detail_line());
    let nls = lines(new_content);
    let parts = ls.take(a) + nls + ls.skip(b);
    assert(parts.len() == a + nls.len() + (ls.len() - b));
    if k <= h {
        assert(parts[k] == ls[k]);
        lemma_join_contains_part(parts, nl(), k);
    } else {
        let i = a + nls.len() + (k - b);
        assert(parts[i] == ls[k]);
        lemma_join_contains_part(parts, nl(), i);
    }
}

/// Replacing the entry of a link writes the new content: when the section
/// holds a line linking to the URL, every line of the new content is in
/// the note afterwards.
pub proof fn lemma_replace_writes_new_content(
    document: Seq<char>,
    heading: Seq<char>,
    url: Seq<char>,
    new_content: Seq<char>,
    j: int,
)
    requires
        has_linked_entry(document, heading, url),
        0 <= j < lines(new_content).len(),
    ensures
        contains(replaced_in_section(document, heading, url, new_content), lines(new_content)[j]),
{
    let ls = lines(document);
    lemma_first_in_bounds(ls, 0, ls.len() as int, is_heading_line(heading));
    let h = heading_line(document, heading);
    let s0 = h + 1;
    lemma_first_in_bounds(ls, s0, ls.len() as int, is_section_line());
    let se = section_end(document, heading);
    lemma_first_in_bounds(ls, s0, se, links_to(url));
    let u = first_in(ls, s0, se, links_to(url));
    let a = entry_start(ls, s0, u);
    if u > s0 {
        lemma_scan_back_ge(ls, s0, u, u);
        lemma_scan_back_le(ls, s0, u, u);
    }
    lemma_first_in_bounds(ls, u + 1, se, is_not_entry_detail_line());
    let b = first_in(ls, u + 1, se, is_not_entry_detail_line());
    let nls = lines(new_content);
    let parts = ls.take(a) + nls + ls.skip(b);
    assert(parts[a + j] == nls[j]);
    lemma_join_contains_part(parts, nl(), a + j);
}

/// A line that opens an entry: trimmed at the start, a `- [ ]` item or a
/// `### ` heading.
pub open spec fn opens_entry(line: Seq<char>) -> bool {
    starts_with(trim_start(line), "- [ ]"@) || starts_with(trim_start(line), "### "@)
}

proof fn lemma_scan_back_opens(ls: Seq<Seq<char>>, lo: int, j: int, dflt: int)
    requires
        j <= ls.len(),
    ensures
        scan_back(ls, lo, j, dflt) == dflt || (lo <= scan_back(ls, lo, j, dflt) < j && opens_entry(
            ls[scan_back(ls, lo, j, dflt)],
        )),
    decreases j - lo,
{
    if j > lo {
        lemma_scan_back_opens(ls, lo, j - 1, dflt);
    }
}

/// The whole replacement: a note without the section or without a line
/// linking to the URL in it stays as it is; otherwise the lines from the
/// entry's first line `s` (the linking line `k`, or an entry opener above it
/// in the section) up to `e` (past the `  >` and `  #` detail lines after
/// `k`) are replaced by the lines of the new content, every other line
/// staying where it was.
pub proof fn lemma_replace_shape(document: Seq<char>, heading: Seq<char>, url: Seq<char>, new_content: Seq<char>)
    ensures
        !has_linked_entry(document, heading, url) ==> replaced_in_section(document, heading, url, new_content)
            == document,
        has_linked_entry(document, heading, url) ==> ({
            let ls = lines(document);
            let h = heading_line(document, heading);
            let se = section_end(document, heading);
            let k = first_in(ls, h + 1, se, links_to(url));
            exists|s: int, e: int|
                #![trigger ls.take(s), ls.skip(e)]
                h < s <= k < e <= se && se <= ls.len() && replaced_in_section(document, heading, url, new_content)
                    == join(ls.take(s) + lines(new_content) + ls.skip(e), nl()) && (s < k ==> opens_entry(ls[s]))
                    && (forall|j: int| k < j < e ==> is_entry_detail_line()(#[trigger] ls[j])) && (e < se
                    ==> !is_entry_detail_line()(ls[e]))
        }),
{
    let ls = lines(document);
    lemma_first_in_bounds(ls, 0, ls.len() as int, is_heading_line(heading));
    let h = heading_line(document, heading);
    if h < ls.len() {
        let s0 = h + 1;
        lemma_first_in_bounds(ls, s0, ls.len() as int, is_section_line());
        let se = section_end(document, heading);
        lemma_first_in_bounds(ls, s0, se, links_to(url));
        let u = first_in(ls, s0, se, links_to(url));
        if u < se {
            let a = entry_start(ls, s0, u);
            if u > s0 {
                lemma_scan_back_ge(ls, s0, u, u);
                lemma_scan_back_le(ls, s0, u, u);
                lemma_scan_back_opens(ls, s0, u, u);
                let prev = trim_start(ls[u - 1]);
                if starts_with(prev, "### "@) {
                    assert(opens_entry(ls[u - 1]));
                }
            }
            lemma_first_in_bounds(ls, u + 1, se, is_not_entry_detail_line());
            let b = first_in(ls, u + 1, se, is_not_entry_detail_line());
            assert forall|j: int| u < j < b implies is_entry_detail_line()(#[trigger] ls[j]) by {
                assert(!is_not_entry_detail_line()(ls[j]));
            }
            if b < se {
                assert(is_not_entry_detail_line()(ls[b]));
            }
            assert(h < a <= u < b <= se);
            assert(replaced_in_section(document, heading, url, new_content) == join(
                ls.take(a) + lines(new_content) + ls.skip(b),
                nl(),
            ));
        }
    }
}

/// Whether `line` holds `target`.
fn line_holds(line: &Vec<char>, target: &Vec<char>, url: Ghost<Seq<char>>) -> (r: bool)
    requires
        target@ == link_target(url@),
    ensures
        r == links_to(url@)(line@),
{
    has_substring(line, target)
}

/// Whether `line` is an entry detail line.
fn line_is_detail(line: &Vec<char>) -> (r: bool)
    ensures
        r == is_entry_detail_line()(line@),
{
    let quote = chars_of("  >");
    let tag = chars_of("  #");
    has_prefix(line, &quote) || has_prefix(line, &tag)
}

/// Executable `scan_back`.
fn scan_back_exec(ls: &Vec<Vec<char>>, lo: usize, j: usize, dflt: usize) -> (r: usize)
    requires
        j <= ls.len(),
    ensures
        r as int == scan_back(views(ls@), lo as int, j as int, dflt as int),
    decreases j,
{
    if j <= lo {
        dflt
    } else {
        let c = trimmed_start(&ls[j - 1]);
        let todo = chars_of("- [ ]");
        let h3 = chars_of("### ");
        if c.len() == 0 {
            dflt
        } else if has_prefix(&c, &todo) || has_prefix(&c, &h3) {
            j - 1
        } else {
            scan_back_exec(ls, lo, j - 1, dflt)
        }
    }
}

/// Replace an entry inside a section by matching URL in markdown link format.
/// Returns the document unchanged when no matching URL is found in the section.
pub fn replace_in_section_by_url(
    document: &str,
    section_heading: &str,
    url: &str,
    new_content: &str,
) -> (r: String)
    ensures
        r@ == replaced_in_section(document@, section_heading@, url@, new_content@),
{
    let doc = chars_of(document);
    let ls = split_lines(&doc);
    let ghost lsv = views(ls@);
    let head = chars_of(section_heading);
    let head_t = trimmed(&head);
    assert(is_heading_line_t(head_t@) == is_heading_line(section_heading@));
    let h = find_heading(&ls, 0, &head_t);
    if h >= ls.len() {
        return document.to_owned();
    }
    let s0 = h + 1;
    let se = find_section_end(&ls, s0, ls.len());
    proof {
        lemma_first_in_bounds(lsv, s0 as int, ls.len() as int, is_section_line());
    }
    let mut target: Vec<char> = Vec::new();
    push_str(&mut target, "](");
    push_str(&mut target, url);
    push_str(&mut target, ")");
    let mut u = s0;
    while u < se && !line_holds(&ls[u], &target, Ghost(url@))
        invariant
            s0 <= u <= se,
            se <= ls.len(),
            target@ == link_target(url@),
            lsv == views(ls@),
            forall|k: int| s0 <= k < u ==> !links_to(url@)(lsv[k]),
        decreases se - u,
    {
        u = u + 1;
    }
    proof {
        lemma_first_in(lsv, s0 as int, se as int, links_to(url@), u as int);
    }
    if u >= se {
        return document.to_owned();
    }
    let mut a = u;
    if u > s0 {
        let prev = trimmed_start(&ls[u - 1]);
        let todo = chars_of("- [ ]");
        let h3 = chars_of("### ");
        if has_prefix(&prev, &h3) {
            a = u - 1;
        } else if !has_prefix(&prev, &todo) {
            a = scan_back_exec(&ls, s0, u, u);
        }
    }
    assert(a as int == entry_start(lsv, s0 as int, u as int));
    proof {
        assert(scan_back(lsv, s0 as int, u as int, u as int) <= u) by {
            lemma_scan_back_le(lsv, s0 as int, u as int, u as int);
        }
    }
    let mut b = u + 1;
    while b < se && line_is_detail(&ls[b])
        invariant
            u + 1 <= b <= se,
            se <= ls.len(),
            lsv == views(ls@),
            forall|k: int| u + 1 <= k < b ==> !is_not_entry_detail_line()(lsv[k]),
        decreases se - b,
    {
        b = b + 1;
    }
    proof {
        lemma_first_in(lsv, u + 1, se as int, is_not_entry_detail_line(), b as int);
    }
    let fresh = chars_of(new_content);
    let fresh_lines = split_lines(&fresh);
    let mut parts: Vec<Vec<char>> = Vec::new();
    push_lines(&mut parts, &ls, 0, a);
    push_lines(&mut parts, &fresh_lines, 0, fresh_lines.len());
    push_lines(&mut parts, &ls, b, ls.len());
    assert(views(fresh_lines@).subrange(0, fresh_lines.len() as int) =~= lines(new_content@));
    assert(views(parts@) =~= lsv.take(a as int) + lines(new_content@) + lsv.skip(b as int));
    let newline = chars_of("\n");
    assert(newline@ == nl()) by {
        reveal_strlit("\n");
    }
    let joined = join_parts(&parts, &newline);
    string_of(&joined)
}

/// `scan_back` never moves below its default when that default bounds the scan.
pub proof fn lemma_scan_back_le(ls: Seq<Seq<char>>, lo: int, j: int, dflt: int)
    requires
        j <= dflt,
    ensures
        scan_back(ls, lo, j, dflt) <= dflt,
    decreases j - lo,
{
    if j > lo {
        lemma_scan_back_le(ls, lo, j - 1, dflt);
    }
}


/// The chrono replacement for the Moment.js token at position `i` of `s`
/// and the number of characters it consumes (zero when no token starts
/// there). Longer tokens are tried first.
pub open spec fn moment_token(s: Seq<char>, i: int) -> (Seq<char>, int) {
    if occurs_at(s, seq!['Y', 'Y', 'Y', 'Y'], i) {
        ("%Y"@, 4)
    } else if occurs_at(s, seq!['d', 'd', 'd', 'd'], i) {
        ("%A"@, 4)
    } else if occurs_at(s, seq!['M', 'M', 'M', 'M'], i) {
        ("%B"@, 4)
    } else if occurs_at(s, seq!['M', 'M', 'M'], i) {
        ("%b"@, 3)
    } else if occurs_at(s, seq!['d', 'd', 'd'], i) {
        ("%a"@, 3)
    } else if occurs_at(s, seq!['D', 'D', 'D'], i) {
        ("%-j"@, 3)
    } else if occurs_at(s, seq!['Y', 'Y'], i) {
        ("%y"@, 2)
    } else if occurs_at(s, seq!['M', 'M'], i) {
        ("%m"@, 2)
    } else if occurs_at(s, seq!['D', 'D'], i) {
        ("%d"@, 2)
    } else if occurs_at(s, seq!['d', 'd'], i) {
        ("%a"@, 2)
    } else if occurs_at(s, seq!['H', 'H'], i) {
        ("%H"@, 2)
    } else if occurs_at(s, seq!['h', 'h'], i) {
        ("%I"@, 2)
    } else if occurs_at(s, seq!['m', 'm'], i) {
        ("%M"@, 2)
    } else if occurs_at(s, seq!['s', 's'], i) {
        ("%S"@, 2)
    } else if occurs_at(s, seq!['D', 'o'], i) {
        ("%d"@, 2)
    } else if 0 <= i < s.len() {
        let c = s[i];
        let repeated = i + 1 < s.len() && s[i + 1] == c;
        if c == 'M' && !repeated {
            ("%-m"@, 1)
        } else if c == 'D' && !repeated {
            ("%-d"@, 1)
        } else if c == 'H' && !repeated {
            ("%-H"@, 1)
        } else if c == 'h' && !repeated {
            ("%-I"@, 1)
        } else if c == 'm' && !repeated {
            ("%-M"@, 1)
        } else if c == 's' && !repeated {
            ("%-S"@, 1)
        } else if c == 'A' {
            ("%p"@, 1)
        } else if c == 'a' {
            ("%P"@, 1)
        } else if c == 'X' {
            ("%s"@, 1)
        } else {
            (Seq::<char>::empty(), 0)
        }
    } else {
        (Seq::<char>::empty(), 0)
    }
}

/// The chrono format for the Moment.js format `s` from position `i` on:
/// each recognised token replaced, every other character kept.
pub open spec fn moment_to_chrono_from(s: Seq<char>, i: int) -> Seq<char>
    decreases s.len() - i,
{
    if i < 0 || i >= s.len() {
        seq![]
    } else {
        let (t, n) = moment_token(s, i);
        if n > 0 {
            t + moment_to_chrono_from(s, i + n)
        } else {
            seq![s[i]] + moment_to_chrono_from(s, i + 1)
        }
    }
}

/// The chrono strftime format equivalent to the Moment.js format `s`.
pub open spec fn moment_to_chrono(s: Seq<char>) -> Seq<char> {
    moment_to_chrono_from(s, 0)
}

/// The chrono specifier with the same meaning as a Moment.js token: the
/// year in four or two digits, the month as full name, short name, two
/// digits or plain number, the day of the year, the day of the month in
/// two digits, plain or ordinal, the weekday as full or short name, the
/// hour on the 24- and 12-hour clock, the minute and the second in two
/// digits or plain, the meridiem in upper or lower case, and the Unix
/// timestamp.
pub open spec fn moment_meaning(m: Seq<char>) -> Option<Seq<char>> {
    if m == seq!['Y', 'Y', 'Y', 'Y'] {
        Some("%Y"@)
    } else if m == seq!['Y', 'Y'] {
        Some("%y"@)
    } else if m == seq!['M', 'M', 'M', 'M'] {
        Some("%B"@)
    } else if m == seq!['M', 'M', 'M'] {
        Some("%b"@)
    } else if m == seq!['M', 'M'] {
        Some("%m"@)
    } else if m == seq!['M'] {
        Some("%-m"@)
    } else if m == seq!['D', 'D', 'D'] {
        Some("%-j"@)
    } else if m == seq!['D', 'D'] {
        Some("%d"@)
    } else if m == seq!['D'] {
        Some("%-d"@)
    } else if m == seq!['D', 'o'] {
        Some("%d"@)
    } else if m == seq!['d', 'd', 'd', 'd'] {
        Some("%A"@)
    } else if m == seq!['d', 'd', 'd'] {
        Some("%a"@)
    } else if m == seq!['d', 'd'] {
        Some("%a"@)
    } else if m == seq!['H', 'H'] {
        Some("%H"@)
    } else if m == seq!['H'] {
        Some("%-H"@)
    } else if m == seq!['h', 'h'] {
        Some("%I"@)
    } else if m == seq!['h'] {
        Some("%-I"@)
    } else if m == seq!['m', 'm'] {
        Some("%M"@)
    } else if m == seq!['m'] {
        Some("%-M"@)
    } else if m == seq!['s', 's'] {
        Some("%S"@)
    } else if m == seq!['s'] {
        Some("%-S"@)
    } else if m == seq!['A'] {
        Some("%p"@)
    } else if m == seq!['a'] {
        Some("%P"@)
    } else if m == seq!['X'] {
        Some("%s"@)
    } else {
        None
    }
}

/// `s` would run on into a longer token after `m`.
pub open spec fn extends_token(m: Seq<char>, s: Seq<char>) -> bool {
    s.len() > 0 && m.len() > 0 && (s[0] == m.last() || (m == seq!['D'] && s[0] == 'o'))
}

proof fn lemma_occurs_at_iff(x: Seq<char>, t: Seq<char>, i: int)
    requires
        0 <= i,
    ensures
        occurs_at(x, t, i) <==> (i + t.len() <= x.len() && forall|j: int| 0 <= j < t.len() ==> #[trigger] x[i + j] == t[j]),
{
    if i + t.len() <= x.len() {
        if forall|j: int| 0 <= j < t.len() ==> #[trigger] x[i + j] == t[j] {
            assert forall|k: int| 0 <= k < t.len() implies x.subrange(i, i + t.len())[k] == t[k] by {
                assert(x[i + k] == t[k]);
            }
            assert(x.subrange(i, i + t.len()) =~= t);
        }
        if occurs_at(x, t, i) {
            assert forall|j: int| 0 <= j < t.len() implies #[trigger] x[i + j] == t[j] by {
                assert(x.subrange(i, i + t.len())[j] == x[i + j]);
            }
        }
    }
}

proof fn lemma_occurs_at_shift(p: Seq<char>, s: Seq<char>, t: Seq<char>, i: int)
    requires
        0 <= i,
    ensures
        occurs_at(p + s, t, p.len() + i) == occurs_at(s, t, i),
{
    let x = p + s;
    if i + t.len() <= s.len() {
        assert(x.subrange(p.len() + i, p.len() + i + t.len()) =~= s.subrange(i, i + t.len()));
    }
}

#[verifier::rlimit(100)]
#[verifier::spinoff_prover]
proof fn lemma_moment_token_shift(p: Seq<char>, s: Seq<char>, i: int)
    requires
        0 <= i,
    ensures
        moment_token(p + s, p.len() + i) == moment_token(s, i),
{
    lemma_occurs_at_shift(p, s, seq!['Y', 'Y', 'Y', 'Y'], i);
    lemma_occurs_at_shift(p, s, seq!['d', 'd', 'd', 'd'], i);
    lemma_occurs_at_shift(p, s, seq!['M', 'M', 'M', 'M'], i);
    lemma_occurs_at_shift(p, s, seq!['M', 'M', 'M'], i);
    lemma_occurs_at_shift(p, s, seq!['d', 'd', 'd'], i);
    lemma_occurs_at_shift(p, s, seq!['D', 'D', 'D'], i);
    lemma_occurs_at_shift(p, s, seq!['Y', 'Y'], i);
    lemma_occurs_at_shift(p, s, seq!['M', 'M'], i);
    lemma_occurs_at_shift(p, s, seq!['D', 'D'], i);
    lemma_occurs_at_shift(p, s, seq!['d', 'd'], i);
    lemma_occurs_at_shift(p, s, seq!['H', 'H'], i);
    lemma_occurs_at_shift(p, s, seq!['h', 'h'], i);
    lemma_occurs_at_shift(p, s, seq!['m', 'm'], i);
    lemma_occurs_at_shift(p, s, seq!['s', 's'], i);
    lemma_occurs_at_shift(p, s, seq!['D', 'o'], i);
    if 0 <= i < s.len() {
        assert((p + s)[p.len() + i] == s[i]);
        if i + 1 < s.len() {
            assert((p + s)[p.len() + i + 1] == s[i + 1]);
        }
    }
}

proof fn lemma_moment_from_shift(p: Seq<char>, s: Seq<char>, i: int)
    requires
        0 <= i,
    ensures
        moment_to_chrono_from(p + s, p.len() + i) == moment_to_chrono_from(s, i),
    decreases s.len() - i,
{
    if i < s.len() {
        lemma_moment_token_shift(p, s, i);
        let (t, n) = moment_token(s, i);
        if n > 0 {
            lemma_moment_token_bounds(s, i);
            lemma_moment_from_shift(p, s, i + n);
            assert(p.len() + i + n == p.len() + (i + n));
        } else {
            assert((p + s)[p.len() + i] == s[i]);
            lemma_moment_from_shift(p, s, i + 1);
        }
    }
}

proof fn lemma_moment_token_bounds(s: Seq<char>, i: int)
    requires
        0 <= i < s.len(),
    ensures
        moment_token(s, i).1 >= 0,
{
}

proof fn lemma_moment_token_at_start(m: Seq<char>, s: Seq<char>)
    requires
        moment_meaning(m) is Some,
        !extends_token(m, s),
    ensures
        moment_token(m + s, 0) == (moment_meaning(m)->0, m.len() as int),
{
    let x = m + s;
    assert forall|j: int| 0 <= j < m.len() implies #[trigger] x[j] == m[j] by {}
    if s.len() > 0 {
        assert(x[m.len() as int] == s[0]);
    }
    lemma_occurs_at_iff(x, seq!['Y', 'Y', 'Y', 'Y'], 0);
    lemma_occurs_at_iff(x, seq!['d', 'd', 'd', 'd'], 0);
    lemma_occurs_at_iff(x, seq!['M', 'M', 'M', 'M'], 0);
    lemma_occurs_at_iff(x, seq!['M', 'M', 'M'], 0);
    lemma_occurs_at_iff(x, seq!['d', 'd', 'd'], 0);
    lemma_occurs_at_iff(x, seq!['D', 'D', 'D'], 0);
    lemma_occurs_at_iff(x, seq!['Y', 'Y'], 0);
    lemma_occurs_at_iff(x, seq!['M', 'M'], 0);
    lemma_occurs_at_iff(x, seq!['D', 'D'], 0);
    lemma_occurs_at_iff(x, seq!['d', 'd'], 0);
    lemma_occurs_at_iff(x, seq!['H', 'H'], 0);
    lemma_occurs_at_iff(x, seq!['h', 'h'], 0);
    lemma_occurs_at_iff(x, seq!['m', 'm'], 0);
    lemma_occurs_at_iff(x, seq!['s', 's'], 0);
    lemma_occurs_at_iff(x, seq!['D', 'o'], 0);
}

/// Each Moment.js token converts to the chrono specifier of the same
/// meaning: a format starting with the token converts to that specifier
/// followed by the conversion of the rest, whenever the rest does not run
/// on into a longer token. So `ddd` (short weekday) becomes `%a` and
/// `dddd` (full weekday) `%A`, `MMM` `%b` and `MMMM` `%B`, and so on.
#[verifier::rlimit(100)]
#[verifier::spinoff_prover]
pub proof fn lemma_moment_token_meaning(m: Seq<char>, s: Seq<char>)
    requires
        moment_meaning(m) is Some,
        !extends_token(m, s),
    ensures
        moment_to_chrono(m + s) == moment_meaning(m)->0 + moment_to_chrono(s),
{
    lemma_moment_token_at_start(m, s);
    lemma_moment_from_shift(m, s, 0);
    assert(m.len() + 0 == m.len());
}

/// Whether the characters `t` occur in `v` at position `i`.
fn at_seq2(v: &Vec<char>, i: usize, a: char, b: char) -> (r: bool)
    ensures
        r == occurs_at(v@, seq![a, b], i as int),
{
    if i < v.len() && v.len() - i >= 2 && v[i] == a && v[i + 1] == b {
        assert(v@.subrange(i as int, i + 2) =~= seq![a, b]);
        true
    } else {
        proof {
            if occurs_at(v@, seq![a, b], i as int) {
                assert(v@.subrange(i as int, i + 2)[0] == a);
                assert(v@.subrange(i as int, i + 2)[1] == b);
            }
        }
        false
    }
}

fn at_seq3(v: &Vec<char>, i: usize, a: char, b: char, c: char) -> (r: bool)
    ensures
        r == occurs_at(v@, seq![a, b, c], i as int),
{
    if i < v.len() && v.len() - i >= 3 && v[i] == a && v[i + 1] == b && v[i + 2] == c {
        assert(v@.subrange(i as int, i + 3) =~= seq![a, b, c]);
        true
    } else {
        proof {
            if occurs_at(v@, seq![a, b, c], i as int) {
                assert(v@.subrange(i as int, i + 3)[0] == a);
                assert(v@.subrange(i as int, i + 3)[1] == b);
                assert(v@.subrange(i as int, i + 3)[2] == c);
            }
        }
        false
    }
}

fn at_seq4(v: &Vec<char>, i: usize, a: char, b: char, c: char, d: char) -> (r: bool)
    ensures
        r == occurs_at(v@, seq![a, b, c, d], i as int),
{
    if i < v.len() && v.len() - i >= 4 && v[i] == a && v[i + 1] == b && v[i + 2] == c && v[i
        + 3] == d {
        assert(v@.subrange(i as int, i + 4) =~= seq![a, b, c, d]);
        true
    } else {
        proof {
            if occurs_at(v@, seq![a, b, c, d], i as int) {
                assert(v@.subrange(i as int, i + 4)[0] == a);
                assert(v@.subrange(i as int, i + 4)[1] == b);
                assert(v@.subrange(i as int, i + 4)[2] == c);
                assert(v@.subrange(i as int, i + 4)[3] == d);
            }
        }
        false
    }
}

/// Try to match a Moment.js token starting at position `i`.
/// Returns (chrono_replacement, chars_consumed) or None.
pub fn match_moment_token(chars: &Vec<char>, i: usize, len: usize) -> (r: Option<(&'static str, usize)>)
    requires
        len == chars.len(),
        i < len,
    ensures
        r matches Some((t, n)) ==> t@ == moment_token(chars@, i as int).0 && n as int
            == moment_token(chars@, i as int).1 && 0 < n <= len - i,
        r is None ==> moment_token(chars@, i as int).1 == 0,
{
    if at_seq4(chars, i, 'Y', 'Y', 'Y', 'Y') {
        return Some(("%Y", 4));
    }
    if at_seq4(chars, i, 'd', 'd', 'd', 'd') {
        return Some(("%A", 4));
    }
    if at_seq4(chars, i, 'M', 'M', 'M', 'M') {
        return Some(("%B", 4));
    }
    if at_seq3(chars, i, 'M', 'M', 'M') {
        return Some(("%b", 3));
    }
    if at_seq3(chars, i, 'd', 'd', 'd') {
        return Some(("%a", 3));
    }
    if at_seq3(chars, i, 'D', 'D', 'D') {
        return Some(("%-j", 3));
    }
    if at_seq2(chars, i, 'Y', 'Y') {
        return Some(("%y", 2));
    }
    if at_seq2(chars, i, 'M', 'M') {
        return Some(("%m", 2));
    }
    if at_seq2(chars, i, 'D', 'D') {
        return Some(("%d", 2));
    }
    if at_seq2(chars, i, 'd', 'd') {
        return Some(("%a", 2));
    }
    if at_seq2(chars, i, 'H', 'H') {
        return Some(("%H", 2));
    }
    if at_seq2(chars, i, 'h', 'h') {
        return Some(("%I", 2));
    }
    if at_seq2(chars, i, 'm', 'm') {
        return Some(("%M", 2));
    }
    if at_seq2(chars, i, 's', 's') {
        return Some(("%S", 2));
    }
    if at_seq2(chars, i, 'D', 'o') {
        return Some(("%d", 2));
    }
    let c = chars[i];
    let repeated = i + 1 < len && chars[i + 1] == c;
    if c == 'M' && !repeated {
        Some(("%-m", 1))
    } else if c == 'D' && !repeated {
        Some(("%-d", 1))
    } else if c == 'H' && !repeated {
        Some(("%-H", 1))
    } else if c == 'h' && !repeated {
        Some(("%-I", 1))
    } else if c == 'm' && !repeated {
        Some(("%-M", 1))
    } else if c == 's' && !repeated {
        Some(("%-S", 1))
    } else if c == 'A' {
        Some(("%p", 1))
    } else if c == 'a' {
        Some(("%P", 1))
    } else if c == 'X' {
        Some(("%s", 1))
    } else {
        None
    }
}

/// Convert a Moment.js date format string to a chrono strftime format string.
///
/// Supports the most common tokens used in Obsidian daily note formats.
/// Tokens are replaced longest-match-first to avoid partial replacement issues
/// (e.g. "YYYY" before "YY").
pub fn momentjs_to_chrono(moment_fmt: &str) -> (r: String)
    ensures
        r@ == moment_to_chrono(moment_fmt@),
{
    let chars = chars_of(moment_fmt);
    let len = chars.len();
    let mut out: Vec<char> = Vec::new();
    let mut i: usize = 0;
    while i < len
        invariant
            i <= len,
            len == chars.len(),
            out@ + moment_to_chrono_from(chars@, i as int) == moment_to_chrono(chars@),
        decreases len - i,
    {
        let ghost before = out@;
        let ghost i0 = i as int;
        match match_moment_token(&chars, i, len) {
            Some((token, consumed)) => {
                push_str(&mut out, token);
                i = i + consumed;
            },
            None => {
                out.push(chars[i]);
                i = i + 1;
            },
        }
        assert(out@ + moment_to_chrono_from(chars@, i as int) =~= before
            + moment_to_chrono_from(chars@, i0));
    }
    string_of(&out)
}

/// The Moment.js date format Obsidian uses when none is configured.
pub open spec fn default_note_format() -> Seq<char> {
    "YYYY-MM-DD"@
}

/// Settings deserialized from `.obsidian/daily-notes.json`
#[derive(Debug, Clone)]
pub struct DailyNoteSettings {
    /// Folder path relative to vault root (default: "" = vault root)
    pub folder: String,
    /// Date format in Moment.js syntax (default: "YYYY-MM-DD")
    pub format: String,
    /// Template file path relative to vault root, without .md extension (default: "" = no template)
    pub template: String,
    /// Whether to auto-open daily note on startup (kept as read, not used)
    pub autorun: bool,
}

impl Default for DailyNoteSettings {
    fn default() -> (r: Self)
        ensures
            r.folder@ == Seq::<char>::empty(),
            r.format@ == default_note_format(),
            r.template@ == Seq::<char>::empty(),
            !r.autorun,
    {
        DailyNoteSettings {
            folder: String::new(),
            format: "YYYY-MM-DD".to_owned(),
            template: String::new(),
            autorun: false,
        }
    }
}

/// Settings as read from the vault, with Obsidian's defaults applied: an
/// empty (or blank) format becomes `YYYY-MM-DD`, folder and template are trimmed.
pub open spec fn settings_normalized(
    folder: Seq<char>,
    format: Seq<char>,
    template: Seq<char>,
) -> (Seq<char>, Seq<char>, Seq<char>) {
    (trim(folder), if trim(format).len() == 0 {
        default_note_format()
    } else {
        format
    }, trim(template))
}

impl DailyNoteSettings {
    /// These settings with the defaults for empty fields applied (matching
    /// Obsidian): a blank format becomes `YYYY-MM-DD`, and folder and template
    /// are trimmed.
    pub fn with_defaults_applied(self) -> (r: Self)
        ensures
            (r.folder@, r.format@, r.template@) == settings_normalized(
                self.folder@,
                self.format@,
                self.template@,
            ),
            r.autorun == self.autorun,
    {
        let format_chars = chars_of(self.format.as_str());
        let format_t = trimmed(&format_chars);
        let format = if format_t.len() == 0 {
            "YYYY-MM-DD".to_owned()
        } else {
            self.format
        };
        let folder_chars = chars_of(self.folder.as_str());
        let template_chars = chars_of(self.template.as_str());
        let folder = string_of(&trimmed(&folder_chars));
        let template = string_of(&trimmed(&template_chars));
        DailyNoteSettings { folder, format, template, autorun: self.autorun }
    }

    /// Convert the Moment.js date format to a chrono format string.
    /// Obsidian uses Moment.js tokens; chrono uses strftime-style tokens.
    pub fn chrono_format(&self) -> (r: String)
        ensures
            r@ == moment_to_chrono(self.format@),
    {
        momentjs_to_chrono(self.format.as_str())
    }
}

/// `base` joined with `p` as a Unix path: an absolute `p` replaces `base`,
/// otherwise a `/` separates them unless `base` is empty or already ends in one.
pub open spec fn join_path(base: Seq<char>, p: Seq<char>) -> Seq<char> {
    if p.len() > 0 && p[0] == '/' {
        p
    } else if base.len() == 0 || base.last() == '/' {
        base + p
    } else {
        base + seq!['/'] + p
    }
}

/// Joins two Unix paths (`Path::join`).
pub fn path_join(base: &str, p: &str) -> (r: String)
    ensures
        r@ == join_path(base@, p@),
{
    let b = chars_of(base);
    let q = chars_of(p);
    if q.len() > 0 && q[0] == '/' {
        return string_of(&q);
    }
    let mut out = b;
    if out.len() > 0 && out[out.len() - 1] != '/' {
        out.push('/');
    }
    push_all(&mut out, &q);
    string_of(&out)
}

/// The built-in template used when no daily note template is configured.
pub fn fallback_template() -> (r: &'static str)
    ensures
        r@ == fallback_template_text(),
{
    "---\ndate: {{date}}\ntags: [daily]\n---\n\n# {{date}}\n\n## 📝 Notes\n\n## ✅ Todos\n\n## 📋 Log\n\n"
}

/// The text of the built-in daily note template.
pub open spec fn fallback_template_text() -> Seq<char> {
    "---\ndate: {{date}}\ntags: [daily]\n---\n\n# {{date}}\n\n## 📝 Notes\n\n## ✅ Todos\n\n## 📋 Log\n\n"@
}

/// A template with its Obsidian variables filled in: `{{date}}` and
/// `{{title}}` become the display date, `{{time}}` the time of day.
pub open spec fn rendered_template(template: Seq<char>, date: Seq<char>, time: Seq<char>) -> Seq<char> {
    replace_all(
        replace_all(replace_all(template, "{{date}}"@, date), "{{time}}"@, time),
        "{{title}}"@,
        date,
    )
}

/// Replaces the Obsidian template variables `{{date}}`, `{{time}}` and `{{title}}`.
pub fn render_template(template: &str, date: &str, time: &str) -> (r: String)
    ensures
        r@ == rendered_template(template@, date@, time@),
{
    let t = chars_of(template);
    let d = chars_of(date);
    let tm = chars_of(time);
    let date_var = chars_of("{{date}}");
    let time_var = chars_of("{{time}}");
    let title_var = chars_of("{{title}}");
    proof {
        reveal_strlit("{{date}}");
        reveal_strlit("{{time}}");
        reveal_strlit("{{title}}");
    }
    let a = replace_chars(&t, &date_var, &d);
    let b = replace_chars(&a, &time_var, &tm);
    let c = replace_chars(&b, &title_var, &d);
    string_of(&c)
}

/// Manages the daily note files of an Obsidian vault: where they live and
/// what a new one holds.
#[derive(Debug, Clone)]
pub struct DailyNoteManager {
    pub vault_path: String,
    pub settings: DailyNoteSettings,
    /// Chrono strftime format for {{date}}/{{title}} in templates
    pub date_display_format: String,
}

/// The folder holding the daily notes.
pub open spec fn notes_dir(vault: Seq<char>, folder: Seq<char>) -> Seq<char> {
    if folder.len() == 0 {
        vault
    } else {
        join_path(vault, folder)
    }
}

/// The file of the daily note whose formatted date is `date`.
pub open spec fn note_path(vault: Seq<char>, folder: Seq<char>, date: Seq<char>) -> Seq<char> {
    join_path(notes_dir(vault, folder), date + ".md"@)
}

impl DailyNoteManager {
    /// A manager for the vault at `vault_path` with the given settings.
    pub fn new(vault_path: String, date_display_format: String, settings: DailyNoteSettings) -> (r: Self)
        ensures
            r.vault_path@ == vault_path@,
            r.date_display_format@ == date_display_format@,
            r.settings == settings,
    {
        DailyNoteManager { vault_path, settings, date_display_format }
    }

    /// Get the folder path for daily notes.
    pub fn daily_notes_dir(&self) -> (r: String)
        ensures
            r@ == notes_dir(self.vault_path@, self.settings.folder@),
    {
        if self.settings.folder.as_str().is_empty() {
            self.vault_path.clone()
        } else {
            path_join(self.vault_path.as_str(), self.settings.folder.as_str())
        }
    }

    /// Get the path to a daily note for a specific date string (YYYY-MM-DD)
    pub fn path_for_date(&self, date: &str) -> (r: String)
        ensures
            r@ == note_path(self.vault_path@, self.settings.folder@, date@),
    {
        let dir = self.daily_notes_dir();
        let mut name = chars_of(date);
        push_str(&mut name, ".md");
        let file = string_of(&name);
        path_join(dir.as_str(), file.as_str())
    }

    /// The path of the daily note for the date of `t`, or `None` where chrono
    /// cannot format that date with the configured format.
    pub fn path_at(&self, t: &LocalDateTime) -> (r: Option<String>)
        ensures
            match chrono_formatted(*t, moment_to_chrono(self.settings.format@)) {
                Some(d) => r matches Some(p) && p@ == note_path(self.vault_path@, self.settings.folder@, d),
                None => r is None,
            },
    {
        let fmt = self.settings.chrono_format();
        match format_date_time(t, fmt.as_str()) {
            Some(d) => Some(self.path_for_date(d.as_str())),
            None => None,
        }
    }

    /// Get the path to today's daily note (`None` where the configured format
    /// cannot be rendered by chrono).
    pub fn today_path(&self) -> (r: Option<String>)
        ensures
            exists|t: LocalDateTime|
                valid_date_time(t) && match chrono_formatted(t, moment_to_chrono(self.settings.format@)) {
                    Some(d) => r matches Some(p) && p@ == note_path(self.vault_path@, self.settings.folder@, d),
                    None => r is None,
                },
    {
        let now = local_now();
        self.path_at(&now)
    }

    /// The content of a new daily note created at `t` from `template` (the
    /// built-in template when `None`), or `None` where chrono cannot format
    /// the display date.
    pub fn note_content_at(&self, template: Option<&str>, t: &LocalDateTime) -> (r: Option<String>)
        requires
            valid_date_time(*t),
        ensures
            match chrono_formatted(*t, self.date_display_format@) {
                Some(d) => r matches Some(c) && exists|time: Seq<char>|
                    is_hh_mm(time) && chrono_formatted(*t, "%H:%M"@) == Some(time)
                        && c@ == rendered_template(
                        match template {
                            Some(s) => s@,
                            None => fallback_template_text(),
                        },
                        d,
                        time,
                    ),
                None => r is None,
            },
    {
        let display = format_date_time(t, self.date_display_format.as_str());
        let display = match display {
            Some(d) => d,
            None => return None,
        };
        let time = match format_date_time(t, "%H:%M") {
            Some(tm) => tm,
            None => return None,
        };
        let tpl = match template {
            Some(s) => s,
            None => fallback_template(),
        };
        Some(render_template(tpl, display.as_str(), time.as_str()))
    }

    /// The content of today's new daily note from `template` (the built-in
    /// template when `None`).
    pub fn today_note_content(&self, template: Option<&str>) -> (r: Option<String>)
        ensures
            exists|t: LocalDateTime|
                valid_date_time(t) && match chrono_formatted(t, self.date_display_format@) {
                    Some(d) => r matches Some(c) && exists|time: Seq<char>|
                        is_hh_mm(time) && c@ == rendered_template(
                            match template {
                                Some(s) => s@,
                                None => fallback_template_text(),
                            },
                            d,
                            time,
                        ),
                    None => r is None,
                },
    {
        let now = local_now();
        self.note_content_at(template, &now)
    }
}

} // verus!
