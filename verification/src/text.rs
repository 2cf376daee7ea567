//! Decoding and trimming of the strings that probes report.
use vstd::prelude::*;

verus! {

/// The characters that lossy UTF-8 decoding makes of `bytes`: valid sequences
/// decode as usual and each invalid one becomes U+FFFD.
pub uninterp spec fn utf8_lossy(bytes: Seq<u8>) -> Seq<char>;

/// `c` has the Unicode property White_Space.
pub open spec fn is_white_space(c: char) -> bool {
    let n = c as int;
    ||| 0x09 <= n <= 0x0d
    ||| n == 0x20
    ||| n == 0x85
    ||| n == 0xa0
    ||| n == 0x1680
    ||| 0x2000 <= n <= 0x200a
    ||| n == 0x2028
    ||| n == 0x2029
    ||| n == 0x202f
    ||| n == 0x205f
    ||| n == 0x3000
}

/// `s` without its trailing Unicode white space.
pub open spec fn trim_end_whitespace(s: Seq<char>) -> Seq<char>
    decreases s.len(),
{
    if s.len() > 0 && is_white_space(s.last()) {
        trim_end_whitespace(s.drop_last())
    } else {
        s
    }
}

/// Decodes `bytes` as UTF-8, replacing invalid sequences by U+FFFD.
///
/// Calls `String::from_utf8_lossy`. Its contract claims that the result is
/// `utf8_lossy` of the bytes, and, as the function's documentation states, that
/// valid UTF-8 decodes to exactly the characters it encodes.
#[verifier::external_body]
pub(crate) fn string_from_utf8_lossy(bytes: &[u8]) -> (r: String)
    ensures
        r@ == utf8_lossy(bytes@),
        vstd::utf8::valid_utf8(bytes@) ==> r@ == vstd::utf8::decode_utf8(bytes@),
{
    String::from_utf8_lossy(bytes).into_owned()
}

/// `s` without trailing white space.
///
/// Calls `str::trim_end`. Its contract claims that the result is
/// `trim_end_whitespace` of `s` (trailing characters with the Unicode
/// White_Space property removed), and that it is a prefix of `s`, as the
/// documentation states.
#[verifier::external_body]
pub(crate) fn str_trim_end<'a>(s: &'a str) -> (r: &'a str)
    ensures
        r@ == trim_end_whitespace(s@),
        r@.len() <= s@.len(),
        r@ == s@.subrange(0, r@.len() as int),
{
    s.trim_end()
}

/// `s` without its trailing NUL characters.
pub open spec fn trim_trailing_nul(s: Seq<char>) -> Seq<char>
    decreases s.len(),
{
    if s.len() > 0 && s.last() == '\0' {
        trim_trailing_nul(s.drop_last())
    } else {
        s
    }
}

/// `b` without its trailing zero bytes.
pub open spec fn trim_trailing_zeros(b: Seq<u8>) -> Seq<u8>
    decreases b.len(),
{
    if b.len() > 0 && b.last() == 0 {
        trim_trailing_zeros(b.drop_last())
    } else {
        b
    }
}

/// The probe-string cleanup applied to a reported string: trailing NULs are
/// removed, and a string that ends up empty counts as absent.
pub open spec fn clean_probe_string(s: Seq<char>) -> Option<Seq<char>> {
    if trim_trailing_nul(s).len() == 0 {
        None
    } else {
        Some(trim_trailing_nul(s))
    }
}

/// The characters of an optional string.
pub open spec fn opt_view(o: Option<String>) -> Option<Seq<char>> {
    match o {
        Some(s) => Some(s@),
        None => None,
    }
}

/// A copy of `s` without its trailing NUL characters.
pub fn trim_nul_chars(s: &str) -> (r: String)
    ensures
        r@ == trim_trailing_nul(s@),
{
    let mut k = s.unicode_len();
    assert(s@.subrange(0, k as int) =~= s@);
    while k > 0 && s.get_char(k - 1) == '\0'
        invariant
            k <= s@.len(),
            trim_trailing_nul(s@) == trim_trailing_nul(s@.subrange(0, k as int)),
        decreases k,
    {
        assert(s@.subrange(0, k as int).drop_last() =~= s@.subrange(0, k - 1));
        k = k - 1;
    }
    String::from_str(s.substring_char(0, k))
}

/// Cleans up a string reported by the probe: trailing NULs are removed and an
/// empty result is dropped.
pub fn trim_probe_string(value: Option<String>) -> (r: Option<String>)
    ensures
        opt_view(r) == match value {
            Some(v) => clean_probe_string(v@),
            None => None,
        },
{
    match value {
        None => None,
        Some(v) => {
            let t = trim_nul_chars(v.as_str());
            if t.as_str().unicode_len() == 0 {
                None
            } else {
                Some(t)
            }
        },
    }
}

/// Decodes a NUL-padded byte field: trailing zero bytes are dropped, the rest
/// is decoded lossily as UTF-8 and trailing white space is removed.
pub fn trim_ascii_nul(bytes: Vec<u8>) -> (r: String)
    ensures
        r@ == trim_end_whitespace(utf8_lossy(trim_trailing_zeros(bytes@))),
{
    let mut bytes = bytes;
    let ghost original = bytes@;
    while bytes.len() > 0 && bytes[bytes.len() - 1] == 0
        invariant
            trim_trailing_zeros(original) == trim_trailing_zeros(bytes@),
        decreases bytes@.len(),
    {
        let _ = bytes.pop();
    }
    let decoded = string_from_utf8_lossy(bytes.as_slice());
    String::from_str(str_trim_end(decoded.as_str()))
}

/// The characters of ASCII bytes.
pub open spec fn ascii_chars(b: Seq<u8>) -> Seq<char> {
    b.map_values(|x: u8| x as char)
}

/// Every byte is ASCII.
pub open spec fn all_ascii(b: Seq<u8>) -> bool {
    forall|i: int| 0 <= i < b.len() ==> #[trigger] b[i] < 128
}

#[verifier::external_type_specification]
#[verifier::external_body]
pub struct ExFromUtf8Error(std::string::FromUtf8Error);

/// Takes `bytes` as a UTF-8 string.
///
/// Calls `String::from_utf8`. Its contract claims what the function's
/// documentation states: valid UTF-8 is accepted and decodes to the
/// characters it encodes, and only valid UTF-8 is accepted.
#[verifier::external_body]
pub(crate) fn string_from_utf8(bytes: Vec<u8>) -> (r: Result<String, std::string::FromUtf8Error>)
    ensures
        vstd::utf8::valid_utf8(bytes@) ==> r is Ok && r->Ok_0@ == vstd::utf8::decode_utf8(bytes@),
        r is Ok ==> vstd::utf8::valid_utf8(bytes@),
{
    String::from_utf8(bytes)
}

/// ASCII bytes are valid UTF-8 that decodes to the same characters.
pub proof fn lemma_ascii_decodes(b: Seq<u8>)
    requires
        all_ascii(b),
    ensures
        vstd::utf8::valid_utf8(b),
        vstd::utf8::decode_utf8(b) == ascii_chars(b),
{
    let chars = ascii_chars(b);
    assert(vstd::utf8::is_ascii_chars(chars)) by {
        assert forall|i: int| 0 <= i < chars.len() implies '\0' <= #[trigger] chars[i] <= '\u{7f}' by {
            assert(b[i] < 128);
        }
    }
    vstd::utf8::is_ascii_chars_encode_utf8(chars);
    assert forall|i: int| 0 <= i < b.len() implies #[trigger] vstd::utf8::encode_utf8(chars)[i] == b[i] by {
        assert(chars[i] as u8 == vstd::utf8::encode_utf8(chars)[i]);
        assert(b[i] < 128);
    }
    assert(vstd::utf8::encode_utf8(chars) =~= b);
    vstd::utf8::encode_utf8_valid_utf8(chars);
    vstd::utf8::encode_utf8_decode_utf8(chars);
}

/// The string of ASCII bytes.
pub fn ascii_string(bytes: Vec<u8>) -> (r: String)
    requires
        all_ascii(bytes@),
    ensures
        r@ == ascii_chars(bytes@),
{
    proof {
        lemma_ascii_decodes(bytes@);
    }
    match string_from_utf8(bytes) {
        Ok(s) => s,
        Err(_) => {
            assert(false);
            String::new()
        },
    }
}

/// A cleaned-up probe string is a non-empty prefix of the reported string
/// that does not end in NUL; only NULs were removed.
pub proof fn lemma_clean_probe_string(s: Seq<char>)
    ensures
        clean_probe_string(s) matches Some(t) ==> t.len() > 0 && t.last() != '\0' && t
            == s.subrange(0, t.len() as int) && forall|i: int|
            t.len() <= i < s.len() ==> s[i] == '\0',
{
    lemma_trim_trailing_nul(s);
}

/// Trimming NULs keeps a prefix whose removed part is all NULs, and leaves no
/// trailing NUL behind.
proof fn lemma_trim_trailing_nul(s: Seq<char>)
    ensures
        trim_trailing_nul(s).len() <= s.len(),
        trim_trailing_nul(s) == s.subrange(0, trim_trailing_nul(s).len() as int),
        trim_trailing_nul(s).len() > 0 ==> trim_trailing_nul(s).last() != '\0',
        forall|i: int| trim_trailing_nul(s).len() <= i < s.len() ==> s[i] == '\0',
    decreases s.len(),
{
    if s.len() > 0 && s.last() == '\0' {
        lemma_trim_trailing_nul(s.drop_last());
        let t = trim_trailing_nul(s.drop_last());
        assert(t == s.drop_last().subrange(0, t.len() as int));
        assert(s.drop_last().subrange(0, t.len() as int) =~= s.subrange(0, t.len() as int));
        assert forall|i: int| t.len() <= i < s.len() implies s[i] == '\0' by {
            if i < s.len() - 1 {
                assert(s.drop_last()[i] == s[i]);
            }
        }
    } else {
        assert(s.subrange(0, s.len() as int) =~= s);
    }
}

} // verus!
