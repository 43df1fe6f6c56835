//! Byte- and character-bounded truncation of strings.
use vstd::prelude::*;
use vstd::string::StrSliceExecFns;
use vstd::utf8::{encode_scalar, encode_utf8, has_width_1_encoding, has_width_2_encoding, has_width_3_encoding};
use crate::text::{push_char};

verus! {

/// The number of UTF-8 bytes of `s`.
pub open spec fn utf8_len(s: Seq<char>) -> nat {
    encode_utf8(s).len()
}

/// The UTF-8 encoding of a concatenation is the concatenation of the encodings.
pub proof fn lemma_encode_utf8_concat(a: Seq<char>, b: Seq<char>)
    ensures
        encode_utf8(a + b) == encode_utf8(a) + encode_utf8(b),
    decreases a.len(),
{
    if a.len() == 0 {
        assert(a + b =~= b);
        assert(encode_utf8(a) =~= Seq::<u8>::empty());
        assert(encode_utf8(a) + encode_utf8(b) =~= encode_utf8(b));
    } else {
        lemma_encode_utf8_concat(a.drop_first(), b);
        assert((a + b).drop_first() =~= a.drop_first() + b);
        assert(encode_utf8(a + b) =~= encode_scalar(a[0] as u32) + encode_utf8(a.drop_first() + b));
    }
}

/// Encoding one more character adds that character's encoding.
pub proof fn lemma_utf8_len_push(s: Seq<char>, k: int)
    requires
        0 <= k < s.len(),
    ensures
        utf8_len(s.take(k + 1)) == utf8_len(s.take(k)) + encode_scalar(s[k] as u32).len(),
{
    assert(s.take(k + 1) =~= s.take(k) + seq![s[k]]);
    lemma_encode_utf8_concat(s.take(k), seq![s[k]]);
    assert(seq![s[k]].drop_first() =~= Seq::<char>::empty());
    assert(encode_utf8(seq![s[k]]) =~= encode_scalar(s[k] as u32) + encode_utf8(Seq::<char>::empty()));
}

/// Dropping characters never lengthens the encoding.
pub proof fn lemma_utf8_len_prefix_le(s: Seq<char>, k: int)
    requires
        0 <= k <= s.len(),
    ensures
        forall|j: int| 0 <= j <= k ==> utf8_len(#[trigger] s.take(j)) <= utf8_len(s.take(k)),
    decreases k,
{
    if k > 0 {
        lemma_utf8_len_prefix_le(s, k - 1);
        lemma_utf8_len_push(s, k - 1);
    }
}

/// The number of leading characters of `s` a scan from `k` keeps within `max` bytes.
pub open spec fn fit_len_from(s: Seq<char>, max: nat, k: int) -> int
    decreases s.len() - k,
{
    if 0 <= k < s.len() && utf8_len(s.take(k + 1)) <= max {
        fit_len_from(s, max, k + 1)
    } else {
        k
    }
}

/// The number of leading characters of `s` that fit in `max` UTF-8 bytes.
pub open spec fn fit_len(s: Seq<char>, max: nat) -> int {
    fit_len_from(s, max, 0)
}

/// `s` cut at the last character boundary within `max` bytes.
pub open spec fn byte_prefix(s: Seq<char>, max: nat) -> Seq<char> {
    s.take(fit_len(s, max))
}

/// The longest fitting prefix is the one the scan finds.
pub proof fn lemma_fit_len(s: Seq<char>, max: nat, k: int)
    requires
        0 <= k <= s.len(),
        utf8_len(s.take(k)) <= max,
        k < s.len() ==> utf8_len(s.take(k + 1)) > max,
    ensures
        fit_len(s, max) == k,
{
    lemma_utf8_len_prefix_le(s, k);
    lemma_fit_len_from(s, max, k, 0);
}

proof fn lemma_fit_len_from(s: Seq<char>, max: nat, k: int, j: int)
    requires
        0 <= j <= k <= s.len(),
        utf8_len(s.take(k)) <= max,
        k < s.len() ==> utf8_len(s.take(k + 1)) > max,
        forall|i: int| 0 <= i <= k ==> utf8_len(#[trigger] s.take(i)) <= utf8_len(s.take(k)),
    ensures
        fit_len_from(s, max, j) == k,
    decreases k - j,
{
    if j < k {
        assert(utf8_len(s.take(j + 1)) <= utf8_len(s.take(k)));
        lemma_fit_len_from(s, max, k, j + 1);
    }
}

proof fn lemma_fit_len_from_bounds(s: Seq<char>, max: nat, k: int)
    requires
        0 <= k <= s.len(),
        utf8_len(s.take(k)) <= max,
    ensures
        k <= fit_len_from(s, max, k) <= s.len(),
        utf8_len(s.take(fit_len_from(s, max, k))) <= max,
        fit_len_from(s, max, k) < s.len() ==> utf8_len(s.take(fit_len_from(s, max, k) + 1)) > max,
    decreases s.len() - k,
{
    if k < s.len() && utf8_len(s.take(k + 1)) <= max {
        lemma_fit_len_from_bounds(s, max, k + 1);
    }
}

/// Cutting at a character boundary within `max` bytes keeps a prefix that
/// fits in `max` bytes, and the longest such prefix: one more character
/// would not fit.
pub proof fn lemma_byte_prefix_fits(s: Seq<char>, max: nat)
    ensures
        0 <= fit_len(s, max) <= s.len(),
        byte_prefix(s, max) == s.take(fit_len(s, max)),
        utf8_len(byte_prefix(s, max)) <= max,
        fit_len(s, max) < s.len() ==> utf8_len(s.take(fit_len(s, max) + 1)) > max,
{
    assert(s.take(0) =~= Seq::<char>::empty());
    assert(encode_utf8(Seq::<char>::empty()) =~= Seq::<u8>::empty());
    lemma_fit_len_from_bounds(s, max, 0);
}

/// The characters of `s` cut at the last character boundary within `max`
/// bytes (the whole of `s` when it fits).
pub fn prefix_within(chars: &Vec<char>, max: usize) -> (r: Vec<char>)
    ensures
        r@ == byte_prefix(chars@, max as nat),
        utf8_len(r@) <= max,
{
    let k = fitting_prefix_len(chars, max);
    proof {
        lemma_fit_len(chars@, max as nat, k as int);
    }
    let mut r: Vec<char> = Vec::new();
    let mut i: usize = 0;
    while i < k
        invariant
            i <= k <= chars.len(),
            r@ == chars@.take(i as int),
        decreases k - i,
    {
        r.push(chars[i]);
        i = i + 1;
        assert(r@ =~= chars@.take(i as int));
    }
    r
}

/// Number of bytes in the UTF-8 encoding of `c`.
pub fn utf8_width(c: char) -> (w: usize)
    ensures
        w == encode_scalar(c as u32).len(),
        1 <= w <= 4,
{
    let u = c as u32;
    if u <= 0x7F {
        assert(has_width_1_encoding(u));
        1
    } else if u <= 0x7FF {
        assert(has_width_2_encoding(u));
        2
    } else if u <= 0xFFFF {
        proof {
            vstd::utf8::char_is_scalar(c);
        }
        assert(has_width_3_encoding(u));
        3
    } else {
        proof {
            vstd::utf8::char_is_scalar(c);
        }
        4
    }
}

/// The number of leading characters of `s` whose encoding fits in `max_bytes`.
pub fn fitting_prefix_len(chars: &Vec<char>, max_bytes: usize) -> (k: usize)
    ensures
        k <= chars.len(),
        utf8_len(chars@.take(k as int)) <= max_bytes,
        k < chars.len() ==> utf8_len(chars@.take(k + 1)) > max_bytes,
{
    let mut k: usize = 0;
    let mut used: usize = 0;
    assert(chars@.take(0) =~= Seq::<char>::empty());
    assert(encode_utf8(Seq::<char>::empty()) =~= Seq::<u8>::empty());
    while k < chars.len()
        invariant
            k <= chars.len(),
            used == utf8_len(chars@.take(k as int)),
            used <= max_bytes,
        decreases chars.len() - k,
    {
        let w = utf8_width(chars[k]);
        proof {
            lemma_utf8_len_push(chars@, k as int);
        }
        if w > max_bytes - used {
            return k;
        }
        used = used + w;
        k = k + 1;
    }
    k
}

/// The number of UTF-8 bytes of the characters `v`.
pub fn utf8_len_of(v: &Vec<char>) -> (n: usize)
    ensures
        n as nat == utf8_len(v@) || (n == usize::MAX && utf8_len(v@) >= usize::MAX),
{
    let mut n: usize = 0;
    let mut i: usize = 0;
    assert(v@.take(0) =~= Seq::<char>::empty());
    assert(encode_utf8(Seq::<char>::empty()) =~= Seq::<u8>::empty());
    while i < v.len()
        invariant
            i <= v.len(),
            n as nat == utf8_len(v@.take(i as int)),
        decreases v.len() - i,
    {
        let w = utf8_width(v[i]);
        proof {
            lemma_utf8_len_push(v@, i as int);
        }
        if w > usize::MAX - n {
            proof {
                lemma_utf8_len_prefix_le(v@, v.len() as int);
                assert(v@.take(v.len() as int) =~= v@);
                assert(utf8_len(v@.take(i + 1)) <= utf8_len(v@.take(v.len() as int)));
            }
            return usize::MAX;
        }
        n = n + w;
        i = i + 1;
    }
    assert(v@.take(v.len() as int) =~= v@);
    n
}

/// Over text of one-byte characters, the prefix fitting `n` bytes is `n` characters long.
pub proof fn lemma_ascii_prefix_len(s: Seq<char>, n: int)
    requires
        0 <= n <= s.len(),
        forall|i: int| 0 <= i < n ==> (s[i] as u32) < 128,
    ensures
        forall|k: int| 0 <= k <= n ==> utf8_len(#[trigger] s.take(k)) == k,
{
    assert forall|k: int| 0 <= k <= n implies utf8_len(#[trigger] s.take(k)) == k by {
        lemma_ascii_prefix_len_at(s, k);
    }
}

proof fn lemma_ascii_prefix_len_at(s: Seq<char>, k: int)
    requires
        0 <= k <= s.len(),
        forall|i: int| 0 <= i < k ==> (s[i] as u32) < 128,
    ensures
        utf8_len(s.take(k)) == k,
    decreases k,
{
    if k == 0 {
        assert(s.take(0) =~= Seq::<char>::empty());
        assert(encode_utf8(Seq::<char>::empty()) =~= Seq::<u8>::empty());
    } else {
        lemma_ascii_prefix_len_at(s, k - 1);
        lemma_utf8_len_push(s, k - 1);
        assert(has_width_1_encoding(s[k - 1] as u32));
    }
}

/// Returns a prefix of `s` that is at most `max_bytes` long and ends at a valid UTF-8 character boundary.
pub fn safe_truncate(s: &str, max_bytes: usize) -> (r: &str)
    ensures
        r@.len() <= s@.len(),
        r@ == s@.take(r@.len() as int),
        utf8_len(r@) <= max_bytes,
        r@.len() < s@.len() ==> utf8_len(s@.take(r@.len() as int + 1)) > max_bytes,
{
    let chars = crate::text::chars_of(s);
    let k = fitting_prefix_len(&chars, max_bytes);
    let r = s.substring_char(0, k);
    assert(s@.subrange(0, k as int) =~= s@.take(k as int));
    r
}

/// Returns a string containing at most the first `max_chars` characters of `s`.
pub fn truncate_chars(s: &str, max_chars: usize) -> (r: String)
    ensures
        r@ == s@.take(if max_chars < s@.len() { max_chars as int } else { s@.len() as int }),
{
    let chars = crate::text::chars_of(s);
    let mut r = String::new();
    let mut i: usize = 0;
    while i < chars.len() && i < max_chars
        invariant
            i <= chars.len(),
            i <= max_chars,
            r@ == chars@.take(i as int),
        decreases chars.len() - i,
    {
        push_char(&mut r, chars[i]);
        i = i + 1;
        assert(r@ =~= chars@.take(i as int));
    }
    r
}

} // verus!
