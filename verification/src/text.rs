//! Character-level text primitives shared by the note, prompt and message
//! builders: conversions between `str`/`String` and character vectors,
//! whitespace handling, prefix and substring tests, line splitting, joining
//! and literal replacement.
use vstd::prelude::*;

verus! {

/// Appends one character to a string (std `String::push`).
#[verifier::external_body]
pub(crate) fn push_char(s: &mut String, c: char)
    ensures
        final(s)@ == old(s)@.push(c),
{
    s.push(c);
}

/// The characters of a string slice, in order.
pub fn chars_of(s: &str) -> (v: Vec<char>)
    ensures
        v@ == s@,
{
    let mut v: Vec<char> = Vec::new();
    for c in it: s.chars()
        invariant
            v@ == it.seq().take(it.index() as int),
    {
        v.push(c);
    }
    v
}

/// A string holding exactly the given characters.
pub fn string_of(v: &Vec<char>) -> (s: String)
    ensures
        s@ == v@,
{
    let mut s = String::new();
    let mut i: usize = 0;
    while i < v.len()
        invariant
            i <= v.len(),
            s@ == v@.take(i as int),
        decreases v.len() - i,
    {
        push_char(&mut s, v[i]);
        i = i + 1;
        assert(s@ =~= v@.take(i as int));
    }
    assert(v@.take(v.len() as int) =~= v@);
    s
}

/// Appends the characters of `src` to `out`.
pub fn push_all(out: &mut Vec<char>, src: &Vec<char>)
    ensures
        final(out)@ == old(out)@ + src@,
{
    let ghost start = out@;
    let mut i: usize = 0;
    while i < src.len()
        invariant
            i <= src.len(),
            out@ == start + src@.take(i as int),
        decreases src.len() - i,
    {
        out.push(src[i]);
        i = i + 1;
        assert(out@ =~= start + src@.take(i as int));
    }
    assert(src@.take(src.len() as int) =~= src@);
}

/// Appends the characters of a string slice to `out`.
pub fn push_str(out: &mut Vec<char>, s: &str)
    ensures
        final(out)@ == old(out)@ + s@,
{
    let v = chars_of(s);
    push_all(out, &v);
}

/// The characters `v[lo..hi]` as a new vector.
pub fn slice_of(v: &Vec<char>, lo: usize, hi: usize) -> (r: Vec<char>)
    requires
        lo <= hi <= v.len(),
    ensures
        r@ == v@.subrange(lo as int, hi as int),
{
    let mut r: Vec<char> = Vec::new();
    let mut i: usize = lo;
    while i < hi
        invariant
            lo <= i <= hi,
            hi <= v.len(),
            r@ == v@.subrange(lo as int, i as int),
        decreases hi - i,
    {
        r.push(v[i]);
        i = i + 1;
        assert(r@ =~= v@.subrange(lo as int, i as int));
    }
    r
}

/// An ASCII decimal digit.
pub open spec fn is_ascii_digit_spec(c: char) -> bool {
    '0' <= c && c <= '9'
}

/// An ASCII letter or digit.
pub open spec fn is_ascii_alnum_spec(c: char) -> bool {
    ('0' <= c && c <= '9') || ('a' <= c && c <= 'z') || ('A' <= c && c <= 'Z')
}

/// `c` with ASCII upper-case letters mapped to lower case.
pub open spec fn ascii_lower_spec(c: char) -> char {
    if 'A' <= c && c <= 'Z' {
        ((c as u32) + 32) as char
    } else {
        c
    }
}

/// Whether `c` is an ASCII digit.
pub fn is_ascii_digit(c: char) -> (r: bool)
    ensures
        r == is_ascii_digit_spec(c),
{
    '0' <= c && c <= '9'
}

/// Whether `c` is an ASCII letter or digit.
pub fn is_ascii_alnum(c: char) -> (r: bool)
    ensures
        r == is_ascii_alnum_spec(c),
{
    ('0' <= c && c <= '9') || ('a' <= c && c <= 'z') || ('A' <= c && c <= 'Z')
}

/// `c` with an ASCII upper-case letter mapped to lower case.
pub fn ascii_lower(c: char) -> (r: char)
    ensures
        r == ascii_lower_spec(c),
{
    if 'A' <= c && c <= 'Z' {
        let b: u8 = (c as u8) + 32;
        b as char
    } else {
        c
    }
}

/// Unicode `White_Space` (the property behind `char::is_whitespace`).
pub open spec fn is_ws(c: char) -> bool {
    let u = c as u32;
    ||| (0x09 <= u && u <= 0x0D)
    ||| u == 0x20
    ||| u == 0x85
    ||| u == 0xA0
    ||| u == 0x1680
    ||| (0x2000 <= u && u <= 0x200A)
    ||| u == 0x2028
    ||| u == 0x2029
    ||| u == 0x202F
    ||| u == 0x205F
    ||| u == 0x3000
}

/// Whether `c` is Unicode whitespace.
pub fn is_whitespace(c: char) -> (r: bool)
    ensures
        r == is_ws(c),
{
    let u = c as u32;
    (0x09 <= u && u <= 0x0D) || u == 0x20 || u == 0x85 || u == 0xA0 || u == 0x1680 || (0x2000
        <= u && u <= 0x200A) || u == 0x2028 || u == 0x2029 || u == 0x202F || u == 0x205F || u
        == 0x3000
}

/// `s` without its leading whitespace.
pub open spec fn trim_start(s: Seq<char>) -> Seq<char>
    decreases s.len(),
{
    if s.len() > 0 && is_ws(s[0]) {
        trim_start(s.drop_first())
    } else {
        s
    }
}

/// `s` without its trailing whitespace.
pub open spec fn trim_end(s: Seq<char>) -> Seq<char>
    decreases s.len(),
{
    if s.len() > 0 && is_ws(s.last()) {
        trim_end(s.drop_last())
    } else {
        s
    }
}

/// `s` without leading and trailing whitespace (`str::trim`).
pub open spec fn trim(s: Seq<char>) -> Seq<char> {
    trim_end(trim_start(s))
}

/// Index of the first non-whitespace character of `v[lo..hi]` (or `hi`).
fn skip_ws_forward(v: &Vec<char>, lo: usize, hi: usize) -> (i: usize)
    requires
        lo <= hi <= v.len(),
    ensures
        lo <= i <= hi,
        trim_start(v@.subrange(lo as int, hi as int)) == v@.subrange(i as int, hi as int),
{
    let mut i = lo;
    while i < hi && is_whitespace(v[i])
        invariant
            lo <= i <= hi,
            hi <= v.len(),
            trim_start(v@.subrange(lo as int, hi as int)) == trim_start(
                v@.subrange(i as int, hi as int),
            ),
        decreases hi - i,
    {
        assert(v@.subrange(i as int, hi as int).drop_first() =~= v@.subrange(
            i + 1,
            hi as int,
        ));
        i = i + 1;
    }
    i
}

/// End index after dropping the trailing whitespace of `v[lo..hi]`.
fn skip_ws_backward(v: &Vec<char>, lo: usize, hi: usize) -> (j: usize)
    requires
        lo <= hi <= v.len(),
    ensures
        lo <= j <= hi,
        trim_end(v@.subrange(lo as int, hi as int)) == v@.subrange(lo as int, j as int),
{
    let mut j = hi;
    while j > lo && is_whitespace(v[j - 1])
        invariant
            lo <= j <= hi,
            hi <= v.len(),
            trim_end(v@.subrange(lo as int, hi as int)) == trim_end(
                v@.subrange(lo as int, j as int),
            ),
        decreases j - lo,
    {
        assert(v@.subrange(lo as int, j as int).drop_last() =~= v@.subrange(
            lo as int,
            j - 1,
        ));
        j = j - 1;
    }
    j
}

/// Bounds `(a, b)` such that `v[a..b]` is `v[lo..hi]` trimmed.
pub fn trim_bounds(v: &Vec<char>, lo: usize, hi: usize) -> (r: (usize, usize))
    requires
        lo <= hi <= v.len(),
    ensures
        lo <= r.0 <= r.1 <= hi,
        v@.subrange(r.0 as int, r.1 as int) == trim(v@.subrange(lo as int, hi as int)),
{
    let a = skip_ws_forward(v, lo, hi);
    let b = skip_ws_backward(v, a, hi);
    (a, b)
}

/// `v` without its leading whitespace.
pub fn trimmed_start(v: &Vec<char>) -> (r: Vec<char>)
    ensures
        r@ == trim_start(v@),
{
    let a = skip_ws_forward(v, 0, v.len());
    assert(v@.subrange(0, v.len() as int) =~= v@);
    slice_of(v, a, v.len())
}

/// `v` trimmed of surrounding whitespace.
pub fn trimmed(v: &Vec<char>) -> (r: Vec<char>)
    ensures
        r@ == trim(v@),
{
    let (a, b) = trim_bounds(v, 0, v.len());
    assert(v@.subrange(0, v.len() as int) =~= v@);
    slice_of(v, a, b)
}

/// `p` occurs in `s` starting at position `i`.
pub open spec fn occurs_at(s: Seq<char>, p: Seq<char>, i: int) -> bool {
    0 <= i && i + p.len() <= s.len() && s.subrange(i, i + p.len()) == p
}

/// `s` starts with `p`.
pub open spec fn starts_with(s: Seq<char>, p: Seq<char>) -> bool {
    occurs_at(s, p, 0)
}

/// `s` ends with `p`.
pub open spec fn ends_with(s: Seq<char>, p: Seq<char>) -> bool {
    p.len() <= s.len() && s.subrange(s.len() - p.len(), s.len() as int) == p
}

/// `p` occurs somewhere in `s`.
pub open spec fn contains(s: Seq<char>, p: Seq<char>) -> bool {
    exists|i: int| occurs_at(s, p, i)
}

/// Whether `p` occurs in `v` at position `i`.
pub fn matches_at(v: &Vec<char>, i: usize, p: &Vec<char>) -> (r: bool)
    ensures
        r == occurs_at(v@, p@, i as int),
{
    if i > v.len() || p.len() > v.len() - i {
        return false;
    }
    let mut k: usize = 0;
    while k < p.len()
        invariant
            i + p.len() <= v.len(),
            k <= p.len(),
            forall|t: int| 0 <= t < k ==> v@[i + t] == p@[t],
        decreases p.len() - k,
    {
        if v[i + k] != p[k] {
            assert(v@.subrange(i as int, i + p.len())[k as int] != p@[k as int]);
            return false;
        }
        k = k + 1;
    }
    assert(v@.subrange(i as int, i + p.len()) =~= p@);
    true
}

/// Whether `v` starts with `p`.
pub fn has_prefix(v: &Vec<char>, p: &Vec<char>) -> (r: bool)
    ensures
        r == starts_with(v@, p@),
{
    matches_at(v, 0, p)
}

/// Whether `v` ends with `p`.
pub fn has_suffix(v: &Vec<char>, p: &Vec<char>) -> (r: bool)
    ensures
        r == ends_with(v@, p@),
{
    if p.len() > v.len() {
        false
    } else {
        matches_at(v, v.len() - p.len(), p)
    }
}

/// Position of the first occurrence of `p` in `v` at or after `from`.
pub fn find_from(v: &Vec<char>, p: &Vec<char>, from: usize) -> (r: Option<usize>)
    requires
        from <= v.len(),
    ensures
        r matches Some(i) ==> from <= i && occurs_at(v@, p@, i as int) && forall|j: int|
            from <= j < i ==> !occurs_at(v@, p@, j),
        r is None ==> forall|j: int| from <= j ==> !occurs_at(v@, p@, j),
{
    if p.len() > v.len() {
        return None;
    }
    let mut i = from;
    while i <= v.len() - p.len()
        invariant
            from <= i,
            p.len() <= v.len(),
            forall|j: int| from <= j < i ==> !occurs_at(v@, p@, j),
        decreases v.len() - p.len() + 1 - i,
    {
        if matches_at(v, i, p) {
            return Some(i);
        }
        if i == v.len() - p.len() {
            return None;
        }
        i = i + 1;
    }
    None
}

/// Whether `p` occurs anywhere in `v`.
pub fn has_substring(v: &Vec<char>, p: &Vec<char>) -> (r: bool)
    ensures
        r == contains(v@, p@),
{
    match find_from(v, p, 0) {
        Some(_) => true,
        None => {
            assert forall|j: int| !occurs_at(v@, p@, j) by {
                if 0 <= j {
                }
            }
            false
        },
    }
}


/// The decimal digit character for `d < 10`.
pub open spec fn digit_char(d: nat) -> char {
    if d == 0 { '0' } else if d == 1 { '1' } else if d == 2 { '2' } else if d == 3 { '3' }
    else if d == 4 { '4' } else if d == 5 { '5' } else if d == 6 { '6' } else if d == 7 { '7' }
    else if d == 8 { '8' } else { '9' }
}

/// The decimal representation of `n`, without leading zeros.
pub open spec fn decimal(n: nat) -> Seq<char>
    decreases n,
{
    if n < 10 {
        seq![digit_char(n)]
    } else {
        decimal(n / 10).push(digit_char(n % 10))
    }
}

fn digit_of(d: u64) -> (c: char)
    requires
        d < 10,
    ensures
        c == digit_char(d as nat),
{
    if d == 0 { '0' } else if d == 1 { '1' } else if d == 2 { '2' } else if d == 3 { '3' }
    else if d == 4 { '4' } else if d == 5 { '5' } else if d == 6 { '6' } else if d == 7 { '7' }
    else if d == 8 { '8' } else { '9' }
}

/// The decimal digits of `n`.
pub fn decimal_chars(n: u64) -> (r: Vec<char>)
    ensures
        r@ == decimal(n as nat),
    decreases n,
{
    if n < 10 {
        let mut v: Vec<char> = Vec::new();
        v.push(digit_of(n));
        v
    } else {
        let mut v = decimal_chars(n / 10);
        v.push(digit_of(n % 10));
        v
    }
}

/// Appends the decimal digits of `n` to `out`.
pub fn push_decimal(out: &mut Vec<char>, n: u64)
    ensures
        final(out)@ == old(out)@ + decimal(n as nat),
{
    let d = decimal_chars(n);
    push_all(out, &d);
}

/// The whitespace-separated words of `s[..n]` joined by single spaces, and
/// whether a space is pending after the last word.
pub open spec fn squeeze_ws_scan(s: Seq<char>, n: int) -> (Seq<char>, bool)
    decreases n,
{
    if n <= 0 {
        (Seq::empty(), false)
    } else {
        let (out, pending) = squeeze_ws_scan(s, n - 1);
        if is_ws(s[n - 1]) {
            (out, out.len() > 0)
        } else if pending {
            (out.push(' ').push(s[n - 1]), false)
        } else {
            (out.push(s[n - 1]), false)
        }
    }
}

/// The whitespace-separated words of `s` joined by single spaces
/// (`split_whitespace` joined with `" "`).
pub open spec fn squeeze_ws(s: Seq<char>) -> Seq<char> {
    squeeze_ws_scan(s, s.len() as int).0
}

/// The words of `v` joined by single spaces.
pub fn squeezed_ws(v: &Vec<char>) -> (r: Vec<char>)
    ensures
        r@ == squeeze_ws(v@),
{
    let mut out: Vec<char> = Vec::new();
    let mut pending = false;
    let mut j: usize = 0;
    while j < v.len()
        invariant
            j <= v.len(),
            (out@, pending) == squeeze_ws_scan(v@, j as int),
        decreases v.len() - j,
    {
        let c = v[j];
        if is_whitespace(c) {
            pending = out.len() > 0;
        } else {
            if pending {
                out.push(' ');
            }
            out.push(c);
            pending = false;
        }
        j = j + 1;
    }
    out
}

/// Index of the first `>` in `s` at or after `from` (or the length).
pub open spec fn first_gt(s: Seq<char>, from: int) -> int
    decreases s.len() - from,
{
    if from >= s.len() {
        s.len() as int
    } else if s[from] == '>' {
        from
    } else {
        first_gt(s, from + 1)
    }
}

/// A tag `<...>` (at least one character other than `>` inside) starts `s`.
pub open spec fn tag_at_start(s: Seq<char>) -> bool {
    s.len() > 1 && s[0] == '<' && s[1] != '>' && first_gt(s, 1) < s.len()
}

/// `s` with every `<...>` tag removed, scanning from the left (the regex
/// `<[^>]+>` replaced by nothing).
pub open spec fn strip_tags(s: Seq<char>) -> Seq<char>
    decreases s.len(),
{
    if s.len() == 0 {
        s
    } else if tag_at_start(s) {
        proof {
            lemma_first_gt_bounds(s, 1);
        }
        strip_tags(s.skip(first_gt(s, 1) + 1))
    } else {
        seq![s[0]] + strip_tags(s.drop_first())
    }
}

/// Where the first `>` search ends.
pub proof fn lemma_first_gt_bounds(s: Seq<char>, from: int)
    requires
        0 <= from,
    ensures
        from <= first_gt(s, from) || from > s.len(),
        first_gt(s, from) <= s.len(),
        first_gt(s, from) < s.len() ==> s[first_gt(s, from)] == '>',
    decreases s.len() - from,
{
    if from < s.len() && s[from] != '>' {
        lemma_first_gt_bounds(s, from + 1);
    }
}

/// The `>` search commutes with dropping a prefix.
pub proof fn lemma_first_gt_shift(s: Seq<char>, i: int, from: int)
    requires
        0 <= i <= s.len(),
        0 <= from,
    ensures
        first_gt(s.skip(i), from) == first_gt(s, i + from) - i,
    decreases s.len() - i - from,
{
    if i + from < s.len() && s[i + from] != '>' {
        lemma_first_gt_shift(s, i, from + 1);
    }
}

/// Position of the first `>` in `v` at or after `from` (or the length).
fn find_gt(v: &Vec<char>, from: usize) -> (r: usize)
    requires
        from <= v.len(),
    ensures
        r == first_gt(v@, from as int),
{
    let mut j = from;
    while j < v.len() && v[j] != '>'
        invariant
            from <= j <= v.len(),
            first_gt(v@, from as int) == first_gt(v@, j as int),
        decreases v.len() - j,
    {
        j = j + 1;
    }
    j
}

/// `v` with its `<...>` tags removed.
pub fn stripped_tags(v: &Vec<char>) -> (r: Vec<char>)
    ensures
        r@ == strip_tags(v@),
{
    let mut out: Vec<char> = Vec::new();
    let mut i: usize = 0;
    assert(v@.skip(0) =~= v@);
    while i < v.len()
        invariant
            i <= v.len(),
            out@ + strip_tags(v@.skip(i as int)) == strip_tags(v@),
        decreases v.len() - i,
    {
        let ghost rest = v@.skip(i as int);
        let mut is_tag = false;
        let mut end: usize = i;
        if v[i] == '<' && i + 1 < v.len() && v[i + 1] != '>' {
            end = find_gt(v, i + 1);
            is_tag = end < v.len();
        }
        proof {
            lemma_first_gt_shift(v@, i as int, 1);
            lemma_first_gt_bounds(v@, i + 1);
        }
        if is_tag {
            assert(tag_at_start(rest));
            assert(rest.skip(first_gt(rest, 1) + 1) =~= v@.skip(end + 1));
            i = end + 1;
        } else {
            assert(!tag_at_start(rest));
            assert(rest.drop_first() =~= v@.skip(i + 1));
            let ghost before = out@;
            out.push(v[i]);
            assert(out@ + strip_tags(v@.skip(i + 1)) =~= before + (seq![rest[0]] + strip_tags(
                rest.drop_first(),
            )));
            i = i + 1;
        }
    }
    assert(v@.skip(v.len() as int) =~= Seq::<char>::empty());
    assert(out@ + Seq::<char>::empty() =~= out@);
    out
}

/// Every character of `s` is an ASCII digit.
pub open spec fn all_ascii_digits(s: Seq<char>) -> bool {
    forall|i: int| 0 <= i < s.len() ==> is_ascii_digit_spec(#[trigger] s[i])
}

/// Whether every character of `v` is an ASCII digit.
pub fn only_ascii_digits(v: &Vec<char>) -> (r: bool)
    ensures
        r == all_ascii_digits(v@),
{
    let mut i: usize = 0;
    while i < v.len()
        invariant
            i <= v.len(),
            forall|k: int| 0 <= k < i ==> is_ascii_digit_spec(#[trigger] v@[k]),
        decreases v.len() - i,
    {
        if !is_ascii_digit(v[i]) {
            return false;
        }
        i = i + 1;
    }
    true
}

/// What `str::to_lowercase` gives for `s` (Unicode lower-case mapping).
pub uninterp spec fn unicode_lowercase(s: Seq<char>) -> Seq<char>;

/// Every character of `s` is ASCII.
pub open spec fn all_ascii(s: Seq<char>) -> bool {
    forall|i: int| 0 <= i < s.len() ==> (s[i] as u32) < 128
}

/// `s` with ASCII upper-case letters mapped to lower case.
pub open spec fn ascii_lowercased(s: Seq<char>) -> Seq<char> {
    Seq::new(s.len(), |i: int| ascii_lower_spec(s[i]))
}

/// `s` in lower case (std `str::to_lowercase`); on ASCII text the mapping is
/// the ASCII one.
#[verifier::external_body]
pub(crate) fn to_lowercase(s: &str) -> (r: String)
    ensures
        r@ == unicode_lowercase(s@),
        all_ascii(s@) ==> r@ == ascii_lowercased(s@),
{
    s.to_lowercase()
}

/// What `str::to_uppercase` gives for `s` (Unicode upper-case mapping).
pub uninterp spec fn unicode_uppercase(s: Seq<char>) -> Seq<char>;

/// `s` in upper case (std `str::to_uppercase`).
#[verifier::external_body]
pub(crate) fn to_uppercase(s: &str) -> (r: String)
    ensures
        r@ == unicode_uppercase(s@),
{
    s.to_uppercase()
}

/// The value of a string of ASCII digits.
pub open spec fn digits_value(s: Seq<char>) -> nat
    decreases s.len(),
{
    if s.len() == 0 {
        0
    } else {
        digits_value(s.drop_last()) * 10 + ((s.last() as nat) - ('0' as nat)) as nat
    }
}

/// The unsigned integer `s` denotes as std's `from_str` reads it (an
/// optional `+`, then at least one ASCII digit), if it is at most `max`.
pub open spec fn parsed_unsigned(s: Seq<char>, max: nat) -> Option<nat> {
    let d = if s.len() > 0 && s[0] == '+' {
        s.drop_first()
    } else {
        s
    };
    if d.len() > 0 && all_ascii_digits(d) && digits_value(d) <= max {
        Some(digits_value(d))
    } else {
        None
    }
}

/// A longer digit string never has a smaller value.
pub proof fn lemma_digits_value_mono(s: Seq<char>, k: int)
    requires
        0 <= k <= s.len(),
        all_ascii_digits(s),
    ensures
        digits_value(s.take(k)) <= digits_value(s),
    decreases s.len() - k,
{
    if k < s.len() {
        lemma_digits_value_mono(s, k + 1);
        assert(s.take(k + 1).drop_last() =~= s.take(k));
        assert(is_ascii_digit_spec(s[k]));
    } else {
        assert(s.take(k) =~= s);
    }
}

/// The unsigned integer written in `s`, if it is at most `max`.
pub fn parse_unsigned(s: &str, max: u64) -> (r: Option<u64>)
    ensures
        match parsed_unsigned(s@, max as nat) {
            Some(n) => r == Some(n as u64),
            None => r is None,
        },
{
    let v = chars_of(s);
    let start: usize = if v.len() > 0 && v[0] == '+' { 1 } else { 0 };
    let d = slice_of(&v, start, v.len());
    assert(start == 1 ==> d@ =~= v@.drop_first());
    assert(start == 0 ==> d@ =~= v@);
    if d.len() == 0 || !only_ascii_digits(&d) {
        return None;
    }
    let mut value: u128 = 0;
    let mut i: usize = 0;
    assert(d@.take(0) =~= Seq::<char>::empty());
    assert(parsed_unsigned(s@, max as nat) == (if digits_value(d@) <= max { Some(digits_value(d@)) } else { None::<nat> }));
    while i < d.len()
        invariant
            i <= d.len(),
            all_ascii_digits(d@),
            parsed_unsigned(s@, max as nat) == (if digits_value(d@) <= max { Some(digits_value(d@)) } else { None::<nat> }),
            value == digits_value(d@.take(i as int)),
            value <= max,
        decreases d.len() - i,
    {
        assert(d@.take(i + 1).drop_last() =~= d@.take(i as int));
        assert(is_ascii_digit_spec(d@[i as int]));
        let digit = (d[i] as u32 - '0' as u32) as u128;
        value = value * 10 + digit;
        i = i + 1;
        if value > max as u128 {
            proof {
                lemma_digits_value_mono(d@, i as int);
            }
            return None;
        }
    }
    assert(d@.take(d.len() as int) =~= d@);
    Some(value as u64)
}

/// The index of the first `c` in `s`, if any.
pub open spec fn first_index(s: Seq<char>, c: char) -> Option<int>
    decreases s.len(),
{
    if s.len() == 0 {
        None
    } else if s[0] == c {
        Some(0)
    } else {
        match first_index(s.drop_first(), c) {
            Some(i) => Some(i + 1),
            None => None,
        }
    }
}

/// Where `first_index` points.
pub proof fn lemma_first_index(s: Seq<char>, c: char)
    ensures
        match first_index(s, c) {
            Some(i) => 0 <= i < s.len() && s[i] == c && forall|j: int| 0 <= j < i ==> s[j] != c,
            None => forall|j: int| 0 <= j < s.len() ==> s[j] != c,
        },
    decreases s.len(),
{
    if s.len() > 0 && s[0] != c {
        lemma_first_index(s.drop_first(), c);
        match first_index(s.drop_first(), c) {
            Some(i) => {
                assert forall|j: int| 0 <= j < i + 1 implies s[j] != c by {
                    if j > 0 {
                        assert(s[j] == s.drop_first()[j - 1]);
                    }
                }
            },
            None => {
                assert forall|j: int| 0 <= j < s.len() implies s[j] != c by {
                    if j > 0 {
                        assert(s[j] == s.drop_first()[j - 1]);
                    }
                }
            },
        }
    }
}

/// The index of the first `c` in `v`, if any.
pub fn index_of(v: &Vec<char>, c: char) -> (r: Option<usize>)
    ensures
        match r {
            Some(i) => first_index(v@, c) == Some(i as int),
            None => first_index(v@, c) is None,
        },
{
    let mut i: usize = 0;
    while i < v.len() && v[i] != c
        invariant
            i <= v.len(),
            forall|j: int| 0 <= j < i ==> v@[j] != c,
        decreases v.len() - i,
    {
        i = i + 1;
    }
    proof {
        lemma_first_index(v@, c);
    }
    if i < v.len() {
        proof {
            match first_index(v@, c) {
                Some(k) => {
                    if k < i {
                        assert(v@[k] != c);
                    }
                    if k > i {
                        assert(v@[i as int] != c);
                    }
                },
                None => {
                    assert(v@[i as int] != c);
                },
            }
        }
        Some(i)
    } else {
        proof {
            match first_index(v@, c) {
                Some(k) => {
                    assert(v@[k] != c);
                },
                None => {},
            }
        }
        None
    }
}

/// The pieces of `cur + rest` between the separators `c` (`str::split`),
/// where `cur` is the piece under construction.
pub open spec fn split_from(cur: Seq<char>, rest: Seq<char>, c: char) -> Seq<Seq<char>>
    decreases rest.len(),
{
    if rest.len() == 0 {
        seq![cur]
    } else if rest[0] == c {
        seq![cur] + split_from(Seq::empty(), rest.drop_first(), c)
    } else {
        split_from(cur.push(rest[0]), rest.drop_first(), c)
    }
}

/// The pieces of `s` between the separators `c`; there is always at least one.
pub open spec fn split_on(s: Seq<char>, c: char) -> Seq<Seq<char>> {
    split_from(Seq::empty(), s, c)
}

/// Splits `v` at every `c`.
pub fn split_at_char(v: &Vec<char>, c: char) -> (r: Vec<Vec<char>>)
    ensures
        views(r@) == split_on(v@, c),
{
    let mut out: Vec<Vec<char>> = Vec::new();
    let mut cur: Vec<char> = Vec::new();
    let mut i: usize = 0;
    assert(v@.skip(0) =~= v@);
    while i < v.len()
        invariant
            i <= v.len(),
            views(out@) + split_from(cur@, v@.skip(i as int), c) == split_on(v@, c),
        decreases v.len() - i,
    {
        let ghost rest = v@.skip(i as int);
        assert(rest.drop_first() =~= v@.skip(i + 1));
        if v[i] == c {
            let ghost before = views(out@);
            let ghost old_cur = cur@;
            out.push(cur);
            assert(views(out@) =~= before.push(old_cur));
            cur = Vec::new();
            assert(views(out@) + split_from(cur@, v@.skip(i + 1), c) =~= before + (seq![old_cur]
                + split_from(Seq::empty(), rest.drop_first(), c)));
        } else {
            cur.push(v[i]);
        }
        i = i + 1;
    }
    let ghost before = views(out@);
    let ghost last = cur@;
    out.push(cur);
    assert(views(out@) =~= before.push(last));
    assert(v@.skip(i as int) =~= Seq::<char>::empty());
    assert(views(out@) =~= before + seq![last]);
    out
}

/// The words of `cur + rest` (maximal runs of non-whitespace), where `cur`
/// is the word under construction (`str::split_whitespace`).
pub open spec fn words_from(cur: Seq<char>, rest: Seq<char>) -> Seq<Seq<char>>
    decreases rest.len(),
{
    if rest.len() == 0 {
        if cur.len() > 0 {
            seq![cur]
        } else {
            seq![]
        }
    } else if is_ws(rest[0]) {
        (if cur.len() > 0 {
            seq![cur]
        } else {
            seq![]
        }) + words_from(Seq::empty(), rest.drop_first())
    } else {
        words_from(cur.push(rest[0]), rest.drop_first())
    }
}

/// The whitespace-separated words of `s`.
pub open spec fn ws_words(s: Seq<char>) -> Seq<Seq<char>> {
    words_from(Seq::empty(), s)
}

/// Splits `v` into its whitespace-separated words.
pub fn split_words(v: &Vec<char>) -> (r: Vec<Vec<char>>)
    ensures
        views(r@) == ws_words(v@),
{
    let mut out: Vec<Vec<char>> = Vec::new();
    let mut cur: Vec<char> = Vec::new();
    let mut i: usize = 0;
    assert(v@.skip(0) =~= v@);
    while i < v.len()
        invariant
            i <= v.len(),
            views(out@) + words_from(cur@, v@.skip(i as int)) == ws_words(v@),
        decreases v.len() - i,
    {
        let ghost rest = v@.skip(i as int);
        assert(rest.drop_first() =~= v@.skip(i + 1));
        if is_whitespace(v[i]) {
            let ghost before = views(out@);
            let ghost old_cur = cur@;
            if cur.len() > 0 {
                out.push(cur);
                assert(views(out@) =~= before + seq![old_cur]);
            } else {
                assert(views(out@) =~= before + Seq::<Seq<char>>::empty());
            }
            cur = Vec::new();
            assert(views(out@) + words_from(cur@, v@.skip(i + 1)) =~= before + ((if old_cur.len()
                > 0 {
                seq![old_cur]
            } else {
                seq![]
            }) + words_from(Seq::empty(), rest.drop_first())));
        } else {
            cur.push(v[i]);
        }
        i = i + 1;
    }
    assert(v@.skip(i as int) =~= Seq::<char>::empty());
    if cur.len() > 0 {
        let ghost before = views(out@);
        let ghost last = cur@;
        out.push(cur);
        assert(views(out@) =~= before + seq![last]);
    } else {
        assert(views(out@) + words_from(cur@, v@.skip(i as int)) =~= views(out@));
    }
    out
}

/// `s` with every trailing occurrence of the non-empty `p` removed
/// (`str::trim_end_matches`).
pub open spec fn strip_trailing(s: Seq<char>, p: Seq<char>) -> Seq<char>
    decreases s.len(),
{
    if p.len() > 0 && ends_with(s, p) {
        strip_trailing(s.take(s.len() - p.len()), p)
    } else {
        s
    }
}

/// `v` with every trailing occurrence of the non-empty `p` removed.
pub fn stripped_trailing(v: &Vec<char>, p: &Vec<char>) -> (r: Vec<char>)
    ensures
        r@ == strip_trailing(v@, p@),
{
    let mut n: usize = v.len();
    assert(v@.take(n as int) =~= v@);
    while p.len() > 0 && p.len() <= n && matches_at(v, n - p.len(), p)
        invariant
            n <= v.len(),
            strip_trailing(v@, p@) == strip_trailing(v@.take(n as int), p@),
        decreases n,
    {
        let ghost t = v@.take(n as int);
        assert(t.subrange(t.len() - p.len(), t.len() as int) =~= v@.subrange(n - p.len(), n as int));
        assert(t.take(t.len() - p.len()) =~= v@.take(n - p.len()));
        n = n - p.len();
    }
    proof {
        let t = v@.take(n as int);
        if p.len() > 0 && p.len() <= n {
            assert(t.subrange(t.len() - p.len(), t.len() as int) =~= v@.subrange(n - p.len(), n as int));
        }
    }
    slice_of(v, 0, n)
}

/// The character sequences held by a sequence of strings.
pub open spec fn string_views(v: Seq<String>) -> Seq<Seq<char>> {
    Seq::new(v.len(), |i: int| v[i]@)
}

/// The characters of an optional string slice.
pub open spec fn opt_str_view(o: Option<&str>) -> Option<Seq<char>> {
    match o {
        Some(s) => Some(s@),
        None => None,
    }
}

/// The characters of an optional string.
pub open spec fn opt_string_view(o: Option<String>) -> Option<Seq<char>> {
    match o {
        Some(s) => Some(s@),
        None => None,
    }
}

/// `s` with every leading occurrence of the non-empty `p` removed
/// (`str::trim_start_matches`).
pub open spec fn strip_leading(s: Seq<char>, p: Seq<char>) -> Seq<char>
    decreases s.len(),
{
    if p.len() > 0 && starts_with(s, p) {
        strip_leading(s.skip(p.len() as int), p)
    } else {
        s
    }
}

/// `v` with every leading occurrence of the non-empty `p` removed.
pub fn stripped_leading(v: &Vec<char>, p: &Vec<char>) -> (r: Vec<char>)
    ensures
        r@ == strip_leading(v@, p@),
{
    let mut i: usize = 0;
    assert(v@.skip(0) =~= v@);
    while p.len() > 0 && matches_at(v, i, p)
        invariant
            i <= v.len(),
            strip_leading(v@, p@) == strip_leading(v@.skip(i as int), p@),
        decreases v.len() - i,
    {
        assert(v@.skip(i as int).subrange(0, p.len() as int) =~= v@.subrange(i as int, i + p.len()));
        assert(v@.skip(i as int).skip(p.len() as int) =~= v@.skip(i + p.len()));
        i = i + p.len();
    }
    proof {
        if p.len() > 0 && i + p.len() <= v.len() {
            assert(v@.skip(i as int).subrange(0, p.len() as int) =~= v@.subrange(i as int, i + p.len()));
        }
    }
    assert(v@.subrange(i as int, v.len() as int) =~= v@.skip(i as int));
    slice_of(v, i, v.len())
}

/// The characters of a string as a vector.
pub fn chars_of_string(s: &String) -> (v: Vec<char>)
    ensures
        v@ == s@,
{
    chars_of(s.as_str())
}

/// The character sequences held by a vector of character vectors.
pub open spec fn views(v: Seq<Vec<char>>) -> Seq<Seq<char>> {
    Seq::new(v.len(), |i: int| v[i]@)
}

/// `line` without one trailing carriage return.
pub open spec fn strip_cr(line: Seq<char>) -> Seq<char> {
    if line.len() > 0 && line.last() == '\r' {
        line.drop_last()
    } else {
        line
    }
}

/// The lines of `cur + rest`, where `cur` is a line under construction
/// that holds no line feed.
pub open spec fn lines_from(cur: Seq<char>, rest: Seq<char>) -> Seq<Seq<char>>
    decreases rest.len(),
{
    if rest.len() == 0 {
        if cur.len() == 0 {
            seq![]
        } else {
            seq![cur]
        }
    } else if rest[0] == '\n' {
        seq![strip_cr(cur)] + lines_from(seq![], rest.drop_first())
    } else {
        lines_from(cur.push(rest[0]), rest.drop_first())
    }
}

/// The lines of `s` as `str::lines` yields them: split at `\n`, a `\r`
/// directly before a `\n` dropped, no empty line after a final `\n`.
pub open spec fn lines(s: Seq<char>) -> Seq<Seq<char>> {
    lines_from(seq![], s)
}

/// What occurs in `a` occurs at the same place in `a + b`, and what occurs
/// in `b` occurs shifted in `a + b`.
pub proof fn lemma_contains_concat(a: Seq<char>, b: Seq<char>, p: Seq<char>)
    ensures
        contains(a, p) ==> contains(a + b, p),
        contains(b, p) ==> contains(a + b, p),
{
    if contains(a, p) {
        let i = choose|i: int| occurs_at(a, p, i);
        assert((a + b).subrange(i, i + p.len()) =~= a.subrange(i, i + p.len()));
        assert(occurs_at(a + b, p, i));
    }
    if contains(b, p) {
        let i = choose|i: int| occurs_at(b, p, i);
        let j = i + a.len();
        assert((a + b).subrange(j, j + p.len()) =~= b.subrange(i, i + p.len()));
        assert(occurs_at(a + b, p, j));
    }
}

proof fn lemma_lines_from_in(cur: Seq<char>, rest: Seq<char>, k: int, p: Seq<char>)
    requires
        0 <= k < lines_from(cur, rest).len(),
        contains(lines_from(cur, rest)[k], p),
    ensures
        contains(cur + rest, p),
    decreases rest.len(),
{
    if rest.len() == 0 {
        assert(cur + rest =~= cur);
    } else if rest[0] == '\n' {
        let tail = lines_from(seq![], rest.drop_first());
        if k == 0 {
            let line = strip_cr(cur);
            if line != cur {
                assert(cur =~= line + seq!['\r']);
                lemma_contains_concat(line, seq!['\r'], p);
            }
            lemma_contains_concat(cur, rest, p);
        } else {
            assert(lines_from(cur, rest)[k] == tail[k - 1]);
            lemma_lines_from_in(seq![], rest.drop_first(), k - 1, p);
            assert(seq![] + rest.drop_first() =~= rest.drop_first());
            lemma_contains_concat(seq!['\n'], rest.drop_first(), p);
            assert(seq!['\n'] + rest.drop_first() =~= rest);
            lemma_contains_concat(cur, rest, p);
        }
    } else {
        lemma_lines_from_in(cur.push(rest[0]), rest.drop_first(), k, p);
        assert(cur.push(rest[0]) + rest.drop_first() =~= cur + rest);
    }
}

/// What a line of a text contains, the text contains.
pub proof fn lemma_line_in_text(s: Seq<char>, k: int, p: Seq<char>)
    requires
        0 <= k < lines(s).len(),
        contains(lines(s)[k], p),
    ensures
        contains(s, p),
{
    lemma_lines_from_in(seq![], s, k, p);
    assert(seq![] + s =~= s);
}

/// Splits `v` into its lines.
pub fn split_lines(v: &Vec<char>) -> (r: Vec<Vec<char>>)
    ensures
        views(r@) == lines(v@),
{
    let mut out: Vec<Vec<char>> = Vec::new();
    let mut cur: Vec<char> = Vec::new();
    let mut i: usize = 0;
    assert(v@.skip(0) =~= v@);
    while i < v.len()
        invariant
            i <= v.len(),
            views(out@) + lines_from(cur@, v@.skip(i as int)) == lines(v@),
        decreases v.len() - i,
    {
        let c = v[i];
        let ghost rest = v@.skip(i as int);
        assert(rest.drop_first() =~= v@.skip(i + 1));
        let ghost old_cur = cur@;
        if c == '\n' {
            let ghost before = views(out@);
            let line = if cur.len() > 0 && cur[cur.len() - 1] == '\r' {
                slice_of(&cur, 0, cur.len() - 1)
            } else {
                slice_of(&cur, 0, cur.len())
            };
            assert(cur@.subrange(0, cur@.len() as int) =~= cur@);
            assert(cur@.len() > 0 ==> cur@.subrange(0, cur@.len() - 1) =~= cur@.drop_last());
            assert(line@ == strip_cr(cur@));
            out.push(line);
            assert(views(out@) =~= before + seq![strip_cr(cur@)]);
            cur = Vec::new();
            assert(views(out@) + lines_from(cur@, v@.skip(i + 1)) =~= before + (seq![
                strip_cr(old_cur)] + lines_from(seq![], rest.drop_first()))) by {
                assert(cur@ =~= Seq::<char>::empty());
            }
        } else {
            cur.push(c);
        }
        i = i + 1;
    }
    if cur.len() > 0 {
        let ghost before = views(out@);
        out.push(cur);
        assert(views(out@) =~= before + seq![cur@]);
    } else {
        assert(views(out@) + lines_from(cur@, v@.skip(i as int)) =~= views(out@));
    }
    out
}

/// The parts joined with `sep` between consecutive parts.
pub open spec fn join(parts: Seq<Seq<char>>, sep: Seq<char>) -> Seq<char>
    decreases parts.len(),
{
    if parts.len() == 0 {
        seq![]
    } else if parts.len() == 1 {
        parts[0]
    } else {
        join(parts.drop_last(), sep) + sep + parts.last()
    }
}

/// Every part of a join occurs in it.
pub proof fn lemma_join_contains_part(parts: Seq<Seq<char>>, sep: Seq<char>, k: int)
    requires
        0 <= k < parts.len(),
    ensures
        contains(join(parts, sep), parts[k]),
    decreases parts.len(),
{
    let p = parts[k];
    assert(p.subrange(0, p.len() as int) =~= p);
    assert(occurs_at(p, p, 0));
    if parts.len() == 1 {
    } else if k == parts.len() - 1 {
        lemma_contains_concat(join(parts.drop_last(), sep) + sep, parts.last(), p);
    } else {
        lemma_join_contains_part(parts.drop_last(), sep, k);
        assert(parts.drop_last()[k] == p);
        lemma_contains_concat(join(parts.drop_last(), sep), sep, p);
        lemma_contains_concat(join(parts.drop_last(), sep) + sep, parts.last(), p);
    }
}

/// Joins the parts with `sep`.
pub fn join_parts(parts: &Vec<Vec<char>>, sep: &Vec<char>) -> (r: Vec<char>)
    ensures
        r@ == join(views(parts@), sep@),
{
    let mut out: Vec<char> = Vec::new();
    if parts.len() == 0 {
        return out;
    }
    push_all(&mut out, &parts[0]);
    assert(views(parts@).take(1) =~= seq![parts@[0]@]);
    let mut i: usize = 1;
    while i < parts.len()
        invariant
            1 <= i <= parts.len(),
            out@ == join(views(parts@).take(i as int), sep@),
        decreases parts.len() - i,
    {
        push_all(&mut out, sep);
        push_all(&mut out, &parts[i]);
        assert(views(parts@).take(i + 1).drop_last() =~= views(parts@).take(i as int));
        i = i + 1;
    }
    assert(views(parts@).take(parts.len() as int) =~= views(parts@));
    out
}

/// `s` with every non-overlapping occurrence of the non-empty `p`,
/// scanned from the left, replaced by `r` (`str::replace`).
pub open spec fn replace_all(s: Seq<char>, p: Seq<char>, r: Seq<char>) -> Seq<char>
    decreases s.len(),
{
    if p.len() == 0 || s.len() < p.len() {
        s
    } else if s.take(p.len() as int) == p {
        r + replace_all(s.skip(p.len() as int), p, r)
    } else {
        seq![s[0]] + replace_all(s.drop_first(), p, r)
    }
}

/// Replaces every occurrence of `p` in `v` by `r`.
pub fn replace_chars(v: &Vec<char>, p: &Vec<char>, r: &Vec<char>) -> (out: Vec<char>)
    requires
        p.len() > 0,
    ensures
        out@ == replace_all(v@, p@, r@),
{
    let mut out: Vec<char> = Vec::new();
    let mut i: usize = 0;
    assert(v@.skip(0) =~= v@);
    while i < v.len()
        invariant
            i <= v.len(),
            p.len() > 0,
            out@ + replace_all(v@.skip(i as int), p@, r@) == replace_all(v@, p@, r@),
        decreases v.len() - i,
    {
        let ghost rest = v@.skip(i as int);
        if matches_at(v, i, p) {
            assert(rest.take(p.len() as int) =~= v@.subrange(i as int, i + p.len()));
            assert(rest.skip(p.len() as int) =~= v@.skip(i + p.len()));
            let ghost before = out@;
            push_all(&mut out, r);
            assert(out@ + replace_all(v@.skip(i + p.len()), p@, r@) =~= before + (r@
                + replace_all(rest.skip(p.len() as int), p@, r@)));
            i = i + p.len();
        } else {
            proof {
                if rest.len() >= p.len() {
                    assert(rest.take(p.len() as int) =~= v@.subrange(i as int, i + p.len()));
                }
            }
            assert(rest.drop_first() =~= v@.skip(i + 1));
            let ghost before = out@;
            out.push(v[i]);
            assert(out@ + replace_all(v@.skip(i + 1), p@, r@) =~= before + (seq![rest[0]]
                + replace_all(rest.drop_first(), p@, r@)));
            i = i + 1;
        }
    }
    assert(v@.skip(v.len() as int) =~= Seq::<char>::empty());
    assert(out@ + Seq::<char>::empty() =~= out@);
    out
}

} // verus!
