//! Texts and byte strings: comparison, joining, decimal numbers, and UTF-8.

use vstd::prelude::*;

verus! {

/// Whether two texts hold the same characters.
pub fn same_text(a: &str, b: &str) -> (r: bool)
    ensures
        r == (a@ == b@),
{
    proof {
        vstd::utf8::encode_utf8_decode_utf8(a@);
        vstd::utf8::encode_utf8_decode_utf8(b@);
    }
    same_bytes(a.as_bytes(), b.as_bytes())
}

/// Tests a prefix with `str::starts_with` of the standard library: the result
/// says whether the characters of `prefix` are the first characters of `s`.
#[verifier::external_body]
pub(crate) fn has_prefix(s: &str, prefix: &str) -> (r: bool)
    ensures
        r == prefix@.is_prefix_of(s@),
{
    s.starts_with(prefix)
}

/// The message of the error that `String::from_utf8` gives for bytes that are
/// no UTF-8.
pub uninterp spec fn utf8_error_text(bytes: Seq<u8>) -> Seq<char>;

/// The text that bytes stand for: what they spell in UTF-8, or, where they
/// are no UTF-8, the message that says so.
pub open spec fn payload_text(bytes: Seq<u8>) -> Seq<char> {
    if vstd::utf8::valid_utf8(bytes) {
        vstd::utf8::decode_utf8(bytes)
    } else {
        utf8_error_text(bytes)
    }
}

/// Calls `String::from_utf8` of the standard library, which gives the text
/// that the bytes spell where they are UTF-8 and an error otherwise; the
/// error is turned into its message.
#[verifier::external_body]
pub(crate) fn read_utf8(bytes: Vec<u8>) -> (r: Result<String, String>)
    ensures
        r is Ok <==> vstd::utf8::valid_utf8(bytes@),
        r matches Ok(text) ==> text@ == vstd::utf8::decode_utf8(bytes@),
        r matches Err(message) ==> message@ == utf8_error_text(bytes@),
{
    match String::from_utf8(bytes) {
        Ok(text) => Ok(text),
        Err(e) => Err(e.to_string()),
    }
}

/// The text that bytes stand for.
pub fn text_or_error(bytes: Vec<u8>) -> (r: String)
    ensures
        r@ == payload_text(bytes@),
{
    match read_utf8(bytes) {
        Ok(text) => text,
        Err(message) => message,
    }
}

/// Three texts in a row.
pub fn join3(a: &str, b: &str, c: &str) -> (r: String)
    ensures
        r@ == a@ + b@ + c@,
{
    let mut text = a.to_string();
    text.append(b);
    text.append(c);
    text
}

/// The bytes of a text in UTF-8.
pub open spec fn text_bytes(text: Seq<char>) -> Seq<u8> {
    vstd::utf8::encode_utf8(text)
}

/// The character that stands for a digit.
pub open spec fn digit_text(d: int) -> Seq<char> {
    if d == 0 {
        "0"@
    } else if d == 1 {
        "1"@
    } else if d == 2 {
        "2"@
    } else if d == 3 {
        "3"@
    } else if d == 4 {
        "4"@
    } else if d == 5 {
        "5"@
    } else if d == 6 {
        "6"@
    } else if d == 7 {
        "7"@
    } else if d == 8 {
        "8"@
    } else {
        "9"@
    }
}

/// A natural number in decimal digits, without leading zeros.
pub open spec fn decimal_text(n: nat) -> Seq<char>
    decreases n,
{
    if n < 10 {
        digit_text(n as int)
    } else {
        decimal_text(n / 10) + digit_text((n % 10) as int)
    }
}

/// An integer in decimal digits, with a minus sign where it is negative.
pub open spec fn signed_decimal_text(i: int) -> Seq<char> {
    if i < 0 {
        "-"@ + decimal_text((-i) as nat)
    } else {
        decimal_text(i as nat)
    }
}

fn digit(d: u64) -> (r: &'static str)
    requires
        d < 10,
    ensures
        r@ == digit_text(d as int),
{
    if d == 0 {
        "0"
    } else if d == 1 {
        "1"
    } else if d == 2 {
        "2"
    } else if d == 3 {
        "3"
    } else if d == 4 {
        "4"
    } else if d == 5 {
        "5"
    } else if d == 6 {
        "6"
    } else if d == 7 {
        "7"
    } else if d == 8 {
        "8"
    } else {
        "9"
    }
}

/// A natural number in decimal digits.
pub fn decimal(n: u64) -> (r: String)
    ensures
        r@ == decimal_text(n as nat),
    decreases n,
{
    if n < 10 {
        digit(n).to_string()
    } else {
        let mut text = decimal(n / 10);
        text.append(digit(n % 10));
        text
    }
}

/// An integer in decimal digits.
pub fn signed_decimal(i: i64) -> (r: String)
    ensures
        r@ == signed_decimal_text(i as int),
{
    if i < 0 {
        let magnitude: u64 = (-(i + 1)) as u64 + 1;
        let mut text = "-".to_string();
        text.append(decimal(magnitude).as_str());
        text
    } else {
        decimal(i as u64)
    }
}

/// Whether two byte strings hold the same bytes.
pub fn same_bytes(a: &[u8], b: &[u8]) -> (r: bool)
    ensures
        r == (a@ == b@),
{
    if a.len() != b.len() {
        return false;
    }
    let mut i: usize = 0;
    while i < a.len()
        invariant
            i <= a.len(),
            a.len() == b.len(),
            forall|q: int| 0 <= q < i ==> a@[q] == b@[q],
        decreases a.len() - i,
    {
        if a[i] != b[i] {
            return false;
        }
        i += 1;
    }
    assert(a@ =~= b@);
    true
}

/// A copy of a byte string.
pub fn copy_bytes(a: &[u8]) -> (r: Vec<u8>)
    ensures
        r@ == a@,
{
    let mut copy: Vec<u8> = Vec::new();
    let mut i: usize = 0;
    while i < a.len()
        invariant
            i <= a.len(),
            copy@ == a@.subrange(0, i as int),
        decreases a.len() - i,
    {
        copy.push(a[i]);
        i += 1;
    }
    copy
}

} // verus!
