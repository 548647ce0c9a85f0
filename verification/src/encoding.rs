//! Text encodings used to build the `Authorization` header: percent-encoding
//! and base64. Both are computed by outside crates; this module states what
//! they return.

use vstd::prelude::*;
use vstd::string::*;

verus! {

/// The bytes that percent-encoding leaves as they are: ASCII letters and
/// digits, and `-`, `.`, `_`, `~`.
pub open spec fn is_unreserved(byte: u8) -> bool {
    ||| 0x30 <= byte <= 0x39
    ||| 0x41 <= byte <= 0x5a
    ||| 0x61 <= byte <= 0x7a
    ||| byte == 0x2d
    ||| byte == 0x2e
    ||| byte == 0x5f
    ||| byte == 0x7e
}

/// The upper-case hexadecimal digit for a value below 16.
pub open spec fn hex_digit(value: int) -> char
    recommends
        0 <= value < 16,
{
    if value < 10 {
        (0x30 + value) as char
    } else {
        (0x41 + value - 10) as char
    }
}

/// What one byte becomes: itself if unreserved, else `%` and two hex digits.
pub open spec fn percent_escape(byte: u8) -> Seq<char> {
    if is_unreserved(byte) {
        seq![byte as char]
    } else {
        seq!['%', hex_digit(byte as int / 16), hex_digit(byte as int % 16)]
    }
}

/// The percent-encoding of a byte string.
pub open spec fn percent_encoded(bytes: Seq<u8>) -> Seq<char>
    decreases bytes.len(),
{
    if bytes.len() == 0 {
        Seq::empty()
    } else {
        percent_escape(bytes[0]) + percent_encoded(bytes.drop_first())
    }
}

/// The symbol of the standard base64 alphabet for a value below 64.
pub open spec fn base64_symbol(value: int) -> char
    recommends
        0 <= value < 64,
{
    if value < 26 {
        (0x41 + value) as char
    } else if value < 52 {
        (0x61 + value - 26) as char
    } else if value < 62 {
        (0x30 + value - 52) as char
    } else if value == 62 {
        '+'
    } else {
        '/'
    }
}

/// Standard base64 with padding: each group of three bytes gives four
/// symbols, and a last group of one or two bytes is filled up with `=`.
pub open spec fn base64_text(bytes: Seq<u8>) -> Seq<char>
    decreases bytes.len(),
{
    if bytes.len() == 0 {
        Seq::empty()
    } else if bytes.len() == 1 {
        seq![
            base64_symbol(bytes[0] as int / 4),
            base64_symbol(bytes[0] as int % 4 * 16),
            '=',
            '=',
        ]
    } else if bytes.len() == 2 {
        seq![
            base64_symbol(bytes[0] as int / 4),
            base64_symbol(bytes[0] as int % 4 * 16 + bytes[1] as int / 16),
            base64_symbol(bytes[1] as int % 16 * 4),
            '=',
        ]
    } else {
        seq![
            base64_symbol(bytes[0] as int / 4),
            base64_symbol(bytes[0] as int % 4 * 16 + bytes[1] as int / 16),
            base64_symbol(bytes[1] as int % 16 * 4 + bytes[2] as int / 64),
            base64_symbol(bytes[2] as int % 64),
        ] + base64_text(bytes.skip(3))
    }
}

/// Calls `urlencoding::encode`. Trusted: the result is the percent-encoding
/// of the UTF-8 bytes of `text`: every byte but the unreserved ones becomes
/// `%` and its two hexadecimal digits in upper case.
#[verifier::external_body]
pub(crate) fn percent_encode(text: &str) -> (encoded: String)
    ensures
        encoded@ == percent_encoded(text.spec_bytes()),
{
    urlencoding::encode(text).into_owned()
}

/// Calls `base64::Engine::encode` on the engine `STANDARD`. Trusted: the
/// result is the base64 text of the UTF-8 bytes of `text`, in the standard
/// alphabet and with padding. The call has no precondition: it panics only
/// where the length of the result overflows `usize`, and a string slice, which
/// holds at most `isize::MAX` bytes, is too short for that.
#[verifier::external_body]
pub(crate) fn base64_encode(text: &str) -> (encoded: String)
    ensures
        encoded@ == base64_text(text.spec_bytes()),
{
    base64::Engine::encode(&base64::engine::general_purpose::STANDARD, text)
}

} // verus!
