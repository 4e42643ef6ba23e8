//! Building and inspecting text: ASCII byte strings, decimal and hexadecimal
//! numerals.

use vstd::prelude::*;
use vstd::string::{StrSliceExecFns, StringExecFns};
use vstd::utf8::*;

verus! {

/// Every byte is an ASCII code (below 128).
pub open spec fn is_ascii_bytes(b: Seq<u8>) -> bool {
    forall|i: int| 0 <= i < b.len() ==> #[trigger] b[i] < 128
}

/// The characters that ASCII bytes stand for.
pub open spec fn ascii_text(b: Seq<u8>) -> Seq<char> {
    b.map_values(|x: u8| x as char)
}

/// What `String::from_utf8_lossy` makes of the given bytes.
pub uninterp spec fn lossy_utf8(bytes: Seq<u8>) -> Seq<char>;

/// ASCII bytes are valid UTF-8 and decode to the characters of the same codes.
pub proof fn lemma_ascii_decode(b: Seq<u8>)
    requires
        is_ascii_bytes(b),
    ensures
        valid_utf8(b),
        decode_utf8(b) == ascii_text(b),
    decreases b.len(),
{
    if b.len() > 0 {
        let rest = b.subrange(1, b.len() as int);
        assert(is_ascii_bytes(rest)) by {
            assert forall|i: int| 0 <= i < rest.len() implies #[trigger] rest[i] < 128 by {
                assert(rest[i] == b[i + 1]);
            }
        }
        lemma_ascii_decode(rest);
        let b0 = b[0];
        assert(b0 < 128);
        assert((b0 & 0x7f) == b0) by (bit_vector)
            requires
                b0 < 128,
        ;
        assert(pop_first_scalar(b) =~= rest);
        assert(ascii_text(b) =~= seq![b0 as char] + ascii_text(rest));
    }
}

/// `String::from_utf8_lossy`: decodes UTF-8, putting U+FFFD in place of each
/// invalid sequence. Its documentation states that valid UTF-8 comes back
/// unchanged; what it makes of other input is named, not stated.
#[verifier::external_body]
fn string_from_utf8_lossy(bytes: &[u8]) -> (s: String)
    ensures
        s@ == lossy_utf8(bytes@),
        valid_utf8(bytes@) ==> s@ == decode_utf8(bytes@),
{
    String::from_utf8_lossy(bytes).into_owned()
}

/// Text decoded from bytes as `String::from_utf8_lossy` does it.
pub fn text_from_bytes(bytes: &[u8]) -> (s: String)
    ensures
        s@ == lossy_utf8(bytes@),
        is_ascii_bytes(bytes@) ==> s@ == ascii_text(bytes@),
{
    proof {
        if is_ascii_bytes(bytes@) {
            lemma_ascii_decode(bytes@);
        }
    }
    string_from_utf8_lossy(bytes)
}


/// The ASCII decimal numeral of `n`, most significant digit first.
pub open spec fn decimal_digits(n: nat) -> Seq<u8>
    decreases n,
{
    if n < 10 {
        seq![(48 + n) as u8]
    } else {
        decimal_digits(n / 10) + seq![(48 + n % 10) as u8]
    }
}

/// The decimal numeral of `n` as text.
pub open spec fn decimal_text(n: nat) -> Seq<char> {
    ascii_text(decimal_digits(n))
}

/// Decimal numerals are non-empty ASCII.
pub proof fn lemma_decimal_digits_ascii(n: nat)
    ensures
        is_ascii_bytes(decimal_digits(n)),
        decimal_digits(n).len() >= 1,
    decreases n,
{
    if n >= 10 {
        lemma_decimal_digits_ascii(n / 10);
    }
}

/// Appends the decimal numeral of `n` to `out`.
pub fn push_decimal(n: u64, out: &mut Vec<u8>)
    ensures
        final(out)@ == old(out)@ + decimal_digits(n as nat),
    decreases n,
{
    if n >= 10 {
        push_decimal(n / 10, out);
    }
    let d = (n % 10) as u8;
    out.push(48 + d);
    proof {
        if n >= 10 {
            assert(old(out)@ + decimal_digits(n as nat) =~= old(out)@ + decimal_digits((n / 10) as nat)
                + seq![(48 + n % 10) as u8]);
        } else {
            assert(decimal_digits(n as nat) =~= seq![(48 + n) as u8]);
        }
    }
}

/// Text from bytes that are known to be ASCII.
pub fn ascii_string(bytes: &[u8]) -> (s: String)
    requires
        is_ascii_bytes(bytes@),
    ensures
        s@ == ascii_text(bytes@),
{
    text_from_bytes(bytes)
}

/// The decimal numeral of `n`, as `n.to_string()` writes it.
pub fn decimal_string(n: u64) -> (s: String)
    ensures
        s@ == decimal_text(n as nat),
{
    let mut digits: Vec<u8> = Vec::new();
    push_decimal(n, &mut digits);
    proof {
        lemma_decimal_digits_ascii(n as nat);
        assert(digits@ =~= decimal_digits(n as nat));
    }
    ascii_string(digits.as_slice())
}

/// The lower-case hexadecimal digit for a value below 16.
pub open spec fn hex_digit(d: nat) -> u8 {
    if d < 10 {
        (48 + d) as u8
    } else {
        (87 + d) as u8
    }
}

/// Two lower-case hexadecimal digits per byte, high nibble first: what
/// `format!("{:x}", ...)` writes for a digest.
pub open spec fn hex_digits(b: Seq<u8>) -> Seq<u8>
    decreases b.len(),
{
    if b.len() == 0 {
        seq![]
    } else {
        hex_digits(b.drop_last()) + seq![
            hex_digit((b.last() / 16) as nat),
            hex_digit((b.last() % 16) as nat),
        ]
    }
}

/// Hex numerals are ASCII and twice as long as the bytes they spell.
pub proof fn lemma_hex_digits(b: Seq<u8>)
    ensures
        is_ascii_bytes(hex_digits(b)),
        hex_digits(b).len() == 2 * b.len(),
    decreases b.len(),
{
    if b.len() > 0 {
        lemma_hex_digits(b.drop_last());
    }
}

/// Lower-case hexadecimal spelling of `bytes`.
pub fn hex_lower(bytes: &[u8]) -> (s: String)
    ensures
        s@ == ascii_text(hex_digits(bytes@)),
        s@.len() == 2 * bytes@.len(),
{
    let mut out: Vec<u8> = Vec::new();
    let mut i: usize = 0;
    while i < bytes.len()
        invariant
            i <= bytes.len(),
            out@ == hex_digits(bytes@.subrange(0, i as int)),
        decreases bytes.len() - i,
    {
        let b = bytes[i];
        let hi = b / 16;
        let lo = b % 16;
        let c_hi: u8 = if hi < 10 { 48 + hi } else { 87 + hi };
        let c_lo: u8 = if lo < 10 { 48 + lo } else { 87 + lo };
        out.push(c_hi);
        out.push(c_lo);
        proof {
            let next = bytes@.subrange(0, i + 1);
            assert(next.drop_last() =~= bytes@.subrange(0, i as int));
            assert(next.last() == b);
        }
        i = i + 1;
    }
    proof {
        assert(bytes@.subrange(0, bytes.len() as int) =~= bytes@);
        lemma_hex_digits(bytes@);
    }
    ascii_string(out.as_slice())
}


/// `needle` occurs in `hay` starting at byte `i`.
pub open spec fn occurs_at(hay: Seq<u8>, needle: Seq<u8>, i: int) -> bool {
    &&& 0 <= i
    &&& i + needle.len() <= hay.len()
    &&& hay.subrange(i, i + needle.len()) == needle
}

/// `needle` occurs somewhere in `hay`.
pub open spec fn contains_bytes(hay: Seq<u8>, needle: Seq<u8>) -> bool {
    exists|i: int| occurs_at(hay, needle, i)
}

/// The two byte sequences are equal (equal length, equal bytes).
pub fn bytes_equal(a: &[u8], b: &[u8]) -> (r: bool)
    ensures
        r == (a@ == b@),
{
    if a.len() != b.len() {
        return false;
    }
    let mut i: usize = 0;
    while i < a.len()
        invariant
            i <= a.len(),
            a@.len() == b@.len(),
            forall|j: int| 0 <= j < i ==> a@[j] == b@[j],
        decreases a.len() - i,
    {
        if a[i] != b[i] {
            return false;
        }
        i = i + 1;
    }
    assert(a@ =~= b@);
    true
}

/// Whether `needle` occurs in `hay` at byte `i`.
fn occurs_at_exec(hay: &[u8], needle: &[u8], i: usize) -> (r: bool)
    ensures
        r == occurs_at(hay@, needle@, i as int),
{
    if i > hay.len() || needle.len() > hay.len() - i {
        return false;
    }
    let mut j: usize = 0;
    while j < needle.len()
        invariant
            i + needle@.len() <= hay@.len(),
            hay@.len() == hay.len(),
            needle@.len() == needle.len(),
            j <= needle@.len(),
            forall|k: int| 0 <= k < j ==> hay@[i + k] == needle@[k],
        decreases needle.len() - j,
    {
        if hay[i + j] != needle[j] {
            assert(hay@.subrange(i as int, i + needle@.len())[j as int] != needle@[j as int]);
            return false;
        }
        j = j + 1;
    }
    assert(hay@.subrange(i as int, i + needle@.len()) =~= needle@);
    true
}

/// The first byte position at which `needle` occurs in `hay`, as
/// `str::find` reports it.
pub fn find_bytes(hay: &[u8], needle: &[u8]) -> (r: Option<usize>)
    ensures
        match r {
            Some(i) => occurs_at(hay@, needle@, i as int) && forall|j: int|
                0 <= j < i ==> !occurs_at(hay@, needle@, j),
            None => !contains_bytes(hay@, needle@),
        },
{
    if needle.len() > hay.len() {
        return None;
    }
    let last = hay.len() - needle.len();
    let mut i: usize = 0;
    loop
        invariant
            i <= last,
            last == hay@.len() - needle@.len(),
            forall|j: int| 0 <= j < i ==> !occurs_at(hay@, needle@, j),
        ensures
            forall|j: int| 0 <= j <= last ==> !occurs_at(hay@, needle@, j),
        decreases last - i,
    {
        if occurs_at_exec(hay, needle, i) {
            return Some(i);
        }
        if i == last {
            break;
        }
        i = i + 1;
    }
    assert forall|j: int| !occurs_at(hay@, needle@, j) by {
        if 0 <= j <= last {
        }
    }
    None
}

/// `needle` occurs in the UTF-8 bytes of `text`, as `str::contains` tests.
pub fn text_contains(text: &str, needle: &str) -> (r: bool)
    ensures
        r == contains_bytes(encode_utf8(text@), encode_utf8(needle@)),
{
    let found = find_bytes(text.as_bytes(), needle.as_bytes());
    match found {
        Some(_) => true,
        None => false,
    }
}

/// Whether a character has the Unicode White_Space property, as
/// `char::is_whitespace` reports it: the controls U+0009 to U+000D, the
/// space, U+0085, U+00A0, U+1680, U+2000 to U+200A, U+2028, U+2029, U+202F,
/// U+205F and U+3000.
pub open spec fn is_unicode_whitespace(c: char) -> bool {
    let v = c as u32;
    ||| 0x09 <= v <= 0x0D
    ||| v == 0x20
    ||| v == 0x85
    ||| v == 0xA0
    ||| v == 0x1680
    ||| 0x2000 <= v <= 0x200A
    ||| v == 0x2028
    ||| v == 0x2029
    ||| v == 0x202F
    ||| v == 0x205F
    ||| v == 0x3000
}

/// Whether a character has the Unicode White_Space property.
fn char_is_whitespace(c: char) -> (b: bool)
    ensures
        b == is_unicode_whitespace(c),
{
    let v = c as u32;
    (0x09 <= v && v <= 0x0D) || v == 0x20 || v == 0x85 || v == 0xA0 || v == 0x1680 || (0x2000 <= v
        && v <= 0x200A) || v == 0x2028 || v == 0x2029 || v == 0x202F || v == 0x205F || v == 0x3000
}

/// The text with trailing whitespace removed, as `str::trim_end` does.
pub open spec fn trim_end_chars(s: Seq<char>) -> Seq<char>
    decreases s.len(),
{
    if s.len() > 0 && is_unicode_whitespace(s.last()) {
        trim_end_chars(s.drop_last())
    } else {
        s
    }
}

/// `trim_end_chars` keeps a prefix.
proof fn lemma_trim_end_prefix(s: Seq<char>, k: int)
    requires
        0 <= k <= s.len(),
        forall|j: int| k <= j < s.len() ==> is_unicode_whitespace(#[trigger] s[j]),
    ensures
        trim_end_chars(s) == trim_end_chars(s.subrange(0, k)),
    decreases s.len() - k,
{
    if k < s.len() {
        assert(s.drop_last() =~= s.subrange(0, s.len() - 1));
        lemma_trim_end_prefix(s.drop_last(), k);
        assert(s.drop_last().subrange(0, k) =~= s.subrange(0, k));
    } else {
        assert(s.subrange(0, k) =~= s);
    }
}

/// The text with trailing whitespace removed.
pub fn trim_end_text(text: &str) -> (r: String)
    ensures
        r@ == trim_end_chars(text@),
{
    let n = text.unicode_len();
    let mut k = n;
    while k > 0 && char_is_whitespace(text.get_char(k - 1))
        invariant
            n == text@.len(),
            k <= n,
            forall|j: int| k <= j < n ==> is_unicode_whitespace(#[trigger] text@[j]),
        decreases k,
    {
        k = k - 1;
    }
    proof {
        lemma_trim_end_prefix(text@, k as int);
        let t = text@.subrange(0, k as int);
        if k > 0 {
            assert(t.last() == text@[k - 1]);
        }
    }
    String::from_str(text.substring_char(0, k))
}


/// The text with leading whitespace removed, as `str::trim_start` does.
pub open spec fn trim_start_chars(s: Seq<char>) -> Seq<char>
    decreases s.len(),
{
    if s.len() > 0 && is_unicode_whitespace(s[0]) {
        trim_start_chars(s.drop_first())
    } else {
        s
    }
}

/// `trim_start_chars` keeps a suffix.
proof fn lemma_trim_start_suffix(s: Seq<char>, k: int)
    requires
        0 <= k <= s.len(),
        forall|j: int| 0 <= j < k ==> is_unicode_whitespace(#[trigger] s[j]),
    ensures
        trim_start_chars(s) == trim_start_chars(s.subrange(k, s.len() as int)),
    decreases k,
{
    if k > 0 {
        assert(s.drop_first().subrange(k - 1, s.drop_first().len() as int) =~= s.subrange(k, s.len() as int));
        lemma_trim_start_suffix(s.drop_first(), k - 1);
    } else {
        assert(s.subrange(0, s.len() as int) =~= s);
    }
}

/// The text with leading and trailing whitespace removed (`str::trim`).
pub open spec fn trim_chars(s: Seq<char>) -> Seq<char> {
    trim_start_chars(trim_end_chars(s))
}

/// The text with leading and trailing whitespace removed.
pub fn trim_text(text: &str) -> (r: String)
    ensures
        r@ == trim_chars(text@),
{
    let end_trimmed = trim_end_text(text);
    let t = end_trimmed.as_str();
    let n = t.unicode_len();
    let mut k: usize = 0;
    while k < n && char_is_whitespace(t.get_char(k))
        invariant
            n == t@.len(),
            k <= n,
            forall|j: int| 0 <= j < k ==> is_unicode_whitespace(#[trigger] t@[j]),
        decreases n - k,
    {
        k = k + 1;
    }
    proof {
        lemma_trim_start_suffix(t@, k as int);
        let r = t@.subrange(k as int, n as int);
        if k < n {
            assert(r[0] == t@[k as int]);
        }
    }
    String::from_str(t.substring_char(k, n))
}

/// `a` followed by `b`.
pub fn concat_text(a: &str, b: &str) -> (s: String)
    ensures
        s@ == a@ + b@,
{
    let mut s = String::from_str(a);
    s.append(b);
    s
}

/// The encoding of joined texts is the joined encodings.
pub proof fn lemma_encode_utf8_concat(a: Seq<char>, b: Seq<char>)
    ensures
        encode_utf8(a + b) == encode_utf8(a) + encode_utf8(b),
    decreases a.len(),
{
    if a.len() == 0 {
        assert(a + b =~= b);
    } else {
        lemma_encode_utf8_concat(a.drop_first(), b);
        assert((a + b).drop_first() =~= a.drop_first() + b);
        assert((a + b)[0] == a[0]);
    }
}

/// The text with every character lowered as Unicode defines it
/// (`str::to_lowercase`).
pub uninterp spec fn unicode_lowercase(s: Seq<char>) -> Seq<char>;

/// `str::to_lowercase`: lowers each character by the Unicode case tables
/// (a character may become several, and final sigma is treated apart). The
/// tables are named, not restated.
#[verifier::external_body]
pub(crate) fn text_to_lowercase(s: &str) -> (r: String)
    ensures
        r@ == unicode_lowercase(s@),
{
    s.to_lowercase()
}

} // verus!
