//! Names and data URIs for photos saved into the vault.
use vstd::prelude::*;
use crate::text::{
    ascii_lower, ascii_lower_spec, chars_of, is_ascii_alnum, is_ascii_alnum_spec, push_all,
    push_str, string_of,
};
use base64::Engine;

verus! {

/// The slug built from `s[..n]` in one left-to-right pass, and whether the
/// last character written was a hyphen (true before anything is written):
/// ASCII letters and digits are kept in lower case, any other run of
/// characters becomes one hyphen, none at the start.
pub open spec fn ascii_slug_scan(s: Seq<char>, n: int) -> (Seq<char>, bool)
    decreases n,
{
    if n <= 0 {
        (Seq::empty(), true)
    } else {
        let (out, last_hyphen) = ascii_slug_scan(s, n - 1);
        let c = s[n - 1];
        if is_ascii_alnum_spec(c) {
            (out.push(ascii_lower_spec(c)), false)
        } else if !last_hyphen {
            (out.push('-'), true)
        } else {
            (out, last_hyphen)
        }
    }
}

/// `s` without one trailing hyphen.
pub open spec fn drop_trailing_hyphen(s: Seq<char>) -> Seq<char> {
    if s.len() > 0 && s.last() == '-' {
        s.drop_last()
    } else {
        s
    }
}

/// The ASCII slug of `raw`: the scanned slug without a trailing hyphen,
/// cut to 50 characters (and a trailing hyphen dropped again after a cut).
pub open spec fn ascii_slug(raw: Seq<char>) -> Seq<char> {
    let s = drop_trailing_hyphen(ascii_slug_scan(raw, raw.len() as int).0);
    if s.len() > 50 {
        drop_trailing_hyphen(s.take(50))
    } else {
        s
    }
}

/// A character a slug may hold: an ASCII lower-case letter, a digit or a hyphen.
pub open spec fn slug_char(c: char) -> bool {
    ('a' <= c && c <= 'z') || ('0' <= c && c <= '9') || c == '-'
}

/// The shape every slug has: only slug characters, no hyphen at either
/// end, no two hyphens in a row, at most 50 characters.
pub open spec fn is_slug(s: Seq<char>) -> bool {
    &&& s.len() <= 50
    &&& forall|i: int| 0 <= i < s.len() ==> slug_char(#[trigger] s[i])
    &&& (s.len() > 0 ==> s[0] != '-' && s.last() != '-')
    &&& forall|i: int| 0 <= i < s.len() - 1 ==> !(#[trigger] s[i] == '-' && s[i + 1] == '-')
}

/// Lower-casing an ASCII letter or digit gives a slug character other than a hyphen.
proof fn lemma_ascii_lower_slug_char(c: char)
    requires
        is_ascii_alnum_spec(c),
    ensures
        slug_char(ascii_lower_spec(c)),
        ascii_lower_spec(c) != '-',
{
    if 'A' <= c && c <= 'Z' {
        assert(((c as u32 + 32) as char) as u32 == c as u32 + 32);
    }
}

/// What a prefix scan produces: slug characters, no leading hyphen, no
/// doubled hyphen, and the flag telling whether it is empty or ends in one.
proof fn lemma_ascii_slug_scan(s: Seq<char>, n: int)
    requires
        0 <= n <= s.len(),
    ensures
        ({
            let (o, last) = ascii_slug_scan(s, n);
            &&& forall|i: int| 0 <= i < o.len() ==> slug_char(#[trigger] o[i])
            &&& (o.len() > 0 ==> o[0] != '-')
            &&& forall|i: int| 0 <= i < o.len() - 1 ==> !(#[trigger] o[i] == '-' && o[i + 1] == '-')
            &&& (last <==> (o.len() == 0 || o.last() == '-'))
        }),
    decreases n,
{
    if n > 0 {
        lemma_ascii_slug_scan(s, n - 1);
        let c = s[n - 1];
        if is_ascii_alnum_spec(c) {
            lemma_ascii_lower_slug_char(c);
        }
        let (o, last) = ascii_slug_scan(s, n - 1);
        let (o2, last2) = ascii_slug_scan(s, n);
        assert forall|i: int| 0 <= i < o2.len() - 1 implies !(#[trigger] o2[i] == '-' && o2[i + 1] == '-') by {
            if i < o.len() - 1 {
                assert(o2[i] == o[i] && o2[i + 1] == o[i + 1]);
            }
        }
    }
}

/// Every ASCII slug has the slug shape.
pub proof fn lemma_ascii_slug_is_slug(raw: Seq<char>)
    ensures
        is_slug(ascii_slug(raw)),
{
    lemma_ascii_slug_scan(raw, raw.len() as int);
    let o = ascii_slug_scan(raw, raw.len() as int).0;
    let s = drop_trailing_hyphen(o);
    assert forall|i: int| 0 <= i < s.len() - 1 implies !(#[trigger] s[i] == '-' && s[i + 1] == '-') by {
        assert(s[i] == o[i] && s[i + 1] == o[i + 1]);
    }
    assert forall|i: int| 0 <= i < s.len() implies slug_char(#[trigger] s[i]) by {
        assert(s[i] == o[i]);
    }
    if s.len() > 0 {
        assert(s[0] == o[0]);
        if o.len() > 0 && o.last() == '-' {
            assert(s.last() == o[o.len() - 2]);
            assert(!(o[o.len() - 2] == '-' && o[o.len() - 1] == '-'));
        }
    }
    if s.len() > 50 {
        let t = s.take(50);
        let u = drop_trailing_hyphen(t);
        assert forall|i: int| 0 <= i < u.len() - 1 implies !(#[trigger] u[i] == '-' && u[i + 1] == '-') by {
            assert(u[i] == s[i] && u[i + 1] == s[i + 1]);
        }
        assert forall|i: int| 0 <= i < u.len() implies slug_char(#[trigger] u[i]) by {
            assert(u[i] == s[i]);
        }
        if u.len() > 0 {
            assert(u[0] == s[0]);
            if t.last() == '-' {
                assert(u.last() == s[48]);
                assert(!(s[48] == '-' && s[49] == '-'));
            }
        }
    }
}

/// Whether `raw` holds an ASCII letter or digit.
pub open spec fn has_ascii_alnum(raw: Seq<char>) -> bool {
    exists|i: int| 0 <= i < raw.len() && #[trigger] is_ascii_alnum_spec(raw[i])
}

/// A prefix scan writes something exactly when the prefix holds an ASCII
/// letter or digit.
proof fn lemma_scan_empty(s: Seq<char>, n: int)
    requires
        0 <= n <= s.len(),
    ensures
        has_ascii_alnum(s.take(n)) ==> ascii_slug_scan(s, n).0.len() > 0,
        !has_ascii_alnum(s.take(n)) ==> ascii_slug_scan(s, n).0.len() == 0 && ascii_slug_scan(s, n).1,
    decreases n,
{
    if n > 0 {
        lemma_scan_empty(s, n - 1);
        let c = s[n - 1];
        assert(s.take(n)[n - 1] == c);
        if has_ascii_alnum(s.take(n)) && !is_ascii_alnum_spec(c) {
            let i = choose|i: int| 0 <= i < s.take(n).len() && #[trigger] is_ascii_alnum_spec(s.take(n)[i]);
            assert(s.take(n - 1)[i] == s.take(n)[i]);
        }
        if !has_ascii_alnum(s.take(n)) {
            assert forall|i: int| 0 <= i < s.take(n - 1).len() implies !#[trigger] is_ascii_alnum_spec(s.take(n - 1)[i]) by {
                assert(s.take(n - 1)[i] == s.take(n)[i]);
            }
        }
    }
}

/// A slug is empty exactly when the text holds no ASCII letter or digit.
pub proof fn lemma_slug_empty_iff(raw: Seq<char>)
    ensures
        (ascii_slug(raw).len() == 0) == !has_ascii_alnum(raw),
{
    let n = raw.len() as int;
    assert(raw.take(n) =~= raw);
    lemma_scan_empty(raw, n);
    lemma_ascii_slug_scan(raw, n);
    let o = ascii_slug_scan(raw, n).0;
    let s = drop_trailing_hyphen(o);
    if o.len() > 0 {
        if o.len() == 1 {
            assert(o.last() == o[0]);
        }
        assert(s.len() > 0);
        assert(s[0] == o[0]);
        if s.len() > 50 {
            let t = s.take(50);
            assert(t[0] == s[0]);
            if t.last() == '-' {
                assert(drop_trailing_hyphen(t).len() == 49);
            }
        }
    }
}

/// Scanning a slug writes it back unchanged, ending on a hyphen exactly
/// where the slug does.
proof fn lemma_scan_of_slug(x: Seq<char>, n: int)
    requires
        is_slug(x),
        0 <= n <= x.len(),
    ensures
        ascii_slug_scan(x, n).0 == x.take(n),
        ascii_slug_scan(x, n).1 == (n == 0 || x[n - 1] == '-'),
    decreases n,
{
    if n > 0 {
        lemma_scan_of_slug(x, n - 1);
        let c = x[n - 1];
        assert(slug_char(c));
        if c == '-' {
            if n - 1 > 0 {
                assert(!(x[n - 2] == '-' && x[n - 1] == '-'));
            }
        }
        assert(x.take(n) =~= x.take(n - 1).push(c));
    }
}

/// Slugging a slug gives it back, so slugging twice is slugging once.
pub proof fn lemma_slug_idempotent(raw: Seq<char>)
    ensures
        ascii_slug(ascii_slug(raw)) == ascii_slug(raw),
{
    let x = ascii_slug(raw);
    lemma_ascii_slug_is_slug(raw);
    lemma_scan_of_slug(x, x.len() as int);
    assert(x.take(x.len() as int) =~= x);
    if x.len() > 0 {
        assert(x.last() == x[x.len() - 1]);
    }
}

/// Turns a caption or title into a file-name slug: ASCII letters and digits
/// in lower case, every other run of characters one hyphen, no hyphen at
/// either end, at most 50 characters.
pub fn sanitize_slug(raw: &str) -> (r: String)
    ensures
        r@ == ascii_slug(raw@),
        is_slug(r@),
{
    proof {
        lemma_ascii_slug_is_slug(raw@);
    }
    let cs = chars_of(raw);
    let mut slug: Vec<char> = Vec::new();
    let mut last_was_hyphen = true;
    let mut i: usize = 0;
    while i < cs.len()
        invariant
            i <= cs.len(),
            (slug@, last_was_hyphen) == ascii_slug_scan(cs@, i as int),
        decreases cs.len() - i,
    {
        let c = cs[i];
        if is_ascii_alnum(c) {
            slug.push(ascii_lower(c));
            last_was_hyphen = false;
        } else if !last_was_hyphen {
            slug.push('-');
            last_was_hyphen = true;
        }
        i = i + 1;
    }
    if slug.len() > 0 && slug[slug.len() - 1] == '-' {
        slug.pop();
    }
    if slug.len() > 50 {
        slug.truncate(50);
        if slug[slug.len() - 1] == '-' {
            slug.pop();
        }
    }
    string_of(&slug)
}

/// A lower-case hexadecimal digit.
pub open spec fn is_lower_hex(c: char) -> bool {
    ('0' <= c && c <= '9') || ('a' <= c && c <= 'f')
}

/// The hyphenated lower-case form of a UUID (`8-4-4-4-12` hex digits).
pub open spec fn is_uuid_text(s: Seq<char>) -> bool {
    &&& s.len() == 36
    &&& forall|i: int|
        0 <= i < 36 ==> if i == 8 || i == 13 || i == 18 || i == 23 {
            s[i] == '-'
        } else {
            is_lower_hex(#[trigger] s[i])
        }
}

/// A fresh random (version 4) UUID in its hyphenated lower-case text form
/// (uuid `Uuid::new_v4` and its `Display`). Which UUID comes back is left
/// open; only its textual shape is stated.
#[verifier::external_body]
pub(crate) fn random_uuid() -> (r: String)
    ensures
        is_uuid_text(r@),
{
    uuid::Uuid::new_v4().to_string()
}

/// The first four hex digits of a fresh random UUID.
pub fn random_suffix() -> (r: String)
    ensures
        r@.len() == 4,
        forall|i: int| 0 <= i < 4 ==> is_lower_hex(#[trigger] r@[i]),
{
    let u = random_uuid();
    let cs = chars_of(u.as_str());
    assert(is_lower_hex(cs@[0]) && is_lower_hex(cs@[1]) && is_lower_hex(cs@[2]) && is_lower_hex(cs@[3]));
    let mut out: Vec<char> = Vec::new();
    out.push(cs[0]);
    out.push(cs[1]);
    out.push(cs[2]);
    out.push(cs[3]);
    string_of(&out)
}

/// `s` with every `/` and `\` replaced by `-`.
pub open spec fn slashes_to_hyphens(s: Seq<char>) -> Seq<char> {
    Seq::new(s.len(), |i: int| if s[i] == '/' || s[i] == '\\' { '-' } else { s[i] })
}

/// The characters of `s` with `/` and `\` replaced by `-`.
pub fn replace_slashes(s: &str) -> (r: Vec<char>)
    ensures
        r@ == slashes_to_hyphens(s@),
{
    let cs = chars_of(s);
    let mut out: Vec<char> = Vec::new();
    let mut i: usize = 0;
    while i < cs.len()
        invariant
            i <= cs.len(),
            out@ == slashes_to_hyphens(cs@).take(i as int),
        decreases cs.len() - i,
    {
        let c = cs[i];
        if c == '/' || c == '\\' {
            out.push('-');
        } else {
            out.push(c);
        }
        i = i + 1;
        assert(out@ =~= slashes_to_hyphens(cs@).take(i as int));
    }
    assert(slashes_to_hyphens(cs@).take(cs.len() as int) =~= slashes_to_hyphens(cs@));
    out
}

/// The image file name `date-slug-xxxx.jpg` for a given four-character suffix.
pub open spec fn image_file_name(date: Seq<char>, slug: Seq<char>, suffix: Seq<char>) -> Seq<char> {
    slashes_to_hyphens(date) + "-"@ + ascii_slug(slug) + "-"@ + suffix + ".jpg"@
}

/// A file name for a photo: the date with path separators turned into
/// hyphens, the slug, four random hex digits, and `.jpg`.
pub fn generate_filename(date: &str, slug: &str) -> (r: String)
    ensures
        exists|suffix: Seq<char>|
            suffix.len() == 4 && (forall|i: int| 0 <= i < 4 ==> is_lower_hex(#[trigger] suffix[i]))
                && r@ == image_file_name(date@, slug@, suffix),
{
    let mut out = replace_slashes(date);
    let sanitized = sanitize_slug(slug);
    let suffix = random_suffix();
    push_str(&mut out, "-");
    push_str(&mut out, sanitized.as_str());
    push_str(&mut out, "-");
    push_str(&mut out, suffix.as_str());
    push_str(&mut out, ".jpg");
    assert(out@ =~= image_file_name(date@, slug@, suffix@));
    string_of(&out)
}

/// The character of a six-bit value in the standard base64 alphabet.
pub open spec fn b64_char(v: int) -> char {
    if v < 26 {
        (65 + v) as char
    } else if v < 52 {
        (97 + v - 26) as char
    } else if v < 62 {
        (48 + v - 52) as char
    } else if v == 62 {
        '+'
    } else {
        '/'
    }
}

/// The standard (padded) base64 text of `bytes`: each group of three bytes
/// as four characters of six bits each, a last group of one or two bytes
/// padded with `=` to four characters.
pub open spec fn base64_standard(b: Seq<u8>) -> Seq<char>
    decreases b.len(),
{
    if b.len() == 0 {
        Seq::empty()
    } else if b.len() == 1 {
        seq![b64_char(b[0] as int / 4), b64_char((b[0] as int % 4) * 16), '=', '=']
    } else if b.len() == 2 {
        seq![
            b64_char(b[0] as int / 4),
            b64_char((b[0] as int % 4) * 16 + b[1] as int / 16),
            b64_char((b[1] as int % 16) * 4),
            '=',
        ]
    } else {
        seq![
            b64_char(b[0] as int / 4),
            b64_char((b[0] as int % 4) * 16 + b[1] as int / 16),
            b64_char((b[1] as int % 16) * 4 + b[2] as int / 64),
            b64_char(b[2] as int % 64),
        ] + base64_standard(b.skip(3))
    }
}

/// A character of the standard base64 alphabet, or the padding `=`.
pub open spec fn is_base64_char(c: char) -> bool {
    ('A' <= c && c <= 'Z') || ('a' <= c && c <= 'z') || ('0' <= c && c <= '9') || c == '+' || c == '/'
        || c == '='
}

proof fn lemma_b64_char(v: int)
    requires
        0 <= v < 64,
    ensures
        is_base64_char(b64_char(v)),
{
}

/// Base64 text has four characters for every started group of three
/// bytes, all from the base64 alphabet.
pub proof fn lemma_base64_shape(b: Seq<u8>)
    ensures
        base64_standard(b).len() == (b.len() + 2) / 3 * 4,
        forall|i: int| 0 <= i < base64_standard(b).len() ==> is_base64_char(#[trigger] base64_standard(b)[i]),
    decreases b.len(),
{
    if b.len() > 0 {
        lemma_b64_char(b[0] as int / 4);
        if b.len() == 1 {
            lemma_b64_char((b[0] as int % 4) * 16);
        } else if b.len() == 2 {
            lemma_b64_char((b[0] as int % 4) * 16 + b[1] as int / 16);
            lemma_b64_char((b[1] as int % 16) * 4);
        } else {
            lemma_b64_char((b[0] as int % 4) * 16 + b[1] as int / 16);
            lemma_b64_char((b[1] as int % 16) * 4 + b[2] as int / 64);
            lemma_b64_char(b[2] as int % 64);
            lemma_base64_shape(b.skip(3));
            let head = seq![
                b64_char(b[0] as int / 4),
                b64_char((b[0] as int % 4) * 16 + b[1] as int / 16),
                b64_char((b[1] as int % 16) * 4 + b[2] as int / 64),
                b64_char(b[2] as int % 64),
            ];
            let t = base64_standard(b.skip(3));
            assert(base64_standard(b) == head + t);
            assert forall|i: int| 0 <= i < (head + t).len() implies is_base64_char(#[trigger] (head + t)[i]) by {
                if i >= 4 {
                    assert((head + t)[i] == t[i - 4]);
                }
            }
        }
    }
}

/// Standard base64 with padding (base64 `STANDARD.encode`).
#[verifier::external_body]
fn base64_encode(bytes: &[u8]) -> (r: String)
    requires
        bytes@.len() <= usize::MAX / 2,
    ensures
        r@ == base64_standard(bytes@),
{
    base64::engine::general_purpose::STANDARD.encode(bytes)
}

/// The JPEG data URI prefix.
pub open spec fn jpeg_data_uri_prefix() -> Seq<char> {
    "data:image/jpeg;base64,"@
}

/// The bytes of a JPEG as a `data:image/jpeg;base64,...` URI.
pub fn encode_base64(bytes: &[u8]) -> (r: String)
    requires
        bytes@.len() <= usize::MAX / 2,
    ensures
        r@ == jpeg_data_uri_prefix() + base64_standard(bytes@),
{
    let encoded = base64_encode(bytes);
    let mut out = chars_of("data:image/jpeg;base64,");
    push_str(&mut out, encoded.as_str());
    string_of(&out)
}

} // verus!
