//! What the library takes from the standard library and from other crates
//! without proof.
//!
//! Each item names the function it stands for and says what is claimed of it.
//! Everything else in the crate is proved.
use vstd::prelude::*;
use vstd::utf8::{decode_utf8, is_ascii_chars, valid_utf8};

use base64::Engine as _;

use crate::text::{ascii_lower, hex_digit, occurs_at};

verus! {

// ---- the standard library -------------------------------------------------

/// `std::string::String::push` appends the character at the end of the string.
pub assume_specification[ std::string::String::push ](s: &mut std::string::String, c: char)
    ensures
        final(s)@ == old(s)@.push(c),
;

/// The text that `str::to_lowercase` makes of a text.
pub uninterp spec fn lowercase(s: Seq<char>) -> Seq<char>;

/// `str::to_lowercase` maps a text to its lower-case equivalent by the Unicode
/// tables. The result depends on the text alone and is named; of a text that is
/// all ASCII it is the text with its capitals in lower case.
#[verifier::external_body]
pub(crate) fn to_lowercase(s: &str) -> (r: String)
    ensures
        r@ == lowercase(s@),
        is_ascii_chars(s@) ==> r@ == ascii_lower(s@),
{
    s.to_lowercase()
}

/// The text that `String::from_utf8_lossy` makes of bytes.
pub uninterp spec fn lossy(bytes: Seq<u8>) -> Seq<char>;

/// `String::from_utf8_lossy` decodes bytes as UTF-8 and puts U+FFFD in the place
/// of what is invalid. Valid bytes decode to their text; of others the result,
/// which depends on the bytes alone, is named.
#[verifier::external_body]
pub(crate) fn from_utf8_lossy(bytes: &[u8]) -> (r: String)
    ensures
        r@ == lossy(bytes@),
        valid_utf8(bytes@) ==> r@ == decode_utf8(bytes@),
{
    String::from_utf8_lossy(bytes).into_owned()
}

/// The clock reading of `std::time::SystemTime`.
#[verifier::external_type_specification]
#[verifier::external_body]
pub struct ExSystemTime(std::time::SystemTime);

/// The error of `SystemTime::duration_since`.
#[verifier::external_type_specification]
#[verifier::external_body]
pub struct ExSystemTimeError(std::time::SystemTimeError);

/// `std::time::SystemTime::now` reads the system clock; nothing is claimed of
/// what it reads.
pub assume_specification[ std::time::SystemTime::now ]() -> (r: std::time::SystemTime)
;

/// `std::time::SystemTime::duration_since` gives the time between two readings,
/// or an error where the second is the later one; nothing is claimed of either.
pub assume_specification[ std::time::SystemTime::duration_since ](
    later: &std::time::SystemTime,
    earlier: std::time::SystemTime,
) -> (r: Result<std::time::Duration, std::time::SystemTimeError>)
;

/// `std::time::UNIX_EPOCH`, the start of 1970 in UTC.
#[verifier::external_body]
pub(crate) fn unix_epoch() -> (r: std::time::SystemTime) {
    std::time::UNIX_EPOCH
}

/// `std::time::Duration::as_millis` gives the whole milliseconds of a duration,
/// which is made of at most `u64::MAX` seconds and less than one second more.
pub assume_specification[ std::time::Duration::as_millis ](d: &std::time::Duration) -> (r: u128)
    ensures
        r <= u64::MAX as u128 * 1000 + 999,
;

// ---- getrandom ------------------------------------------------------------

/// The error of `getrandom::getrandom`.
#[verifier::external_type_specification]
#[verifier::external_body]
pub struct ExGetrandomError(getrandom::Error);

/// `getrandom::getrandom` overwrites the bytes it is given with random ones or
/// fails. Their number stays; nothing is claimed of their values.
pub assume_specification[ getrandom::getrandom ](dest: &mut [u8]) -> (r: Result<
    (),
    getrandom::Error,
>)
    ensures
        final(dest)@.len() == old(dest)@.len(),
;

/// The text of a `getrandom::Error`, by its `Display`. It comes from the
/// operating system; nothing is claimed of it.
#[verifier::external_body]
pub(crate) fn getrandom_error_text(e: &getrandom::Error) -> (r: String) {
    e.to_string()
}

// ---- serde_json -----------------------------------------------------------

/// How one character stands in a JSON string.
pub open spec fn json_escape(c: char) -> Seq<char> {
    if c == '"' {
        seq!['\\', '"']
    } else if c == '\\' {
        seq!['\\', '\\']
    } else if c == '\u{8}' {
        seq!['\\', 'b']
    } else if c == '\t' {
        seq!['\\', 't']
    } else if c == '\n' {
        seq!['\\', 'n']
    } else if c == '\u{c}' {
        seq!['\\', 'f']
    } else if c == '\r' {
        seq!['\\', 'r']
    } else if (c as int) < 0x20 {
        seq!['\\', 'u', '0', '0', hex_digit((c as int) / 16), hex_digit((c as int) % 16)]
    } else {
        seq![c]
    }
}

/// How a text stands in a JSON string, between the quotation marks.
pub open spec fn json_escaped(s: Seq<char>) -> Seq<char>
    decreases s.len(),
{
    if s.len() == 0 {
        seq![]
    } else {
        json_escaped(s.drop_last()) + json_escape(s.last())
    }
}

/// The JSON string of a text.
pub open spec fn json_quoted(s: Seq<char>) -> Seq<char> {
    seq!['"'] + json_escaped(s) + seq!['"']
}

/// The error of `serde_json`.
#[verifier::external_type_specification]
#[verifier::external_body]
pub struct ExSerdeJsonError(serde_json::Error);

/// `serde_json::to_string` of a string writes the JSON string of it: the text
/// between quotation marks, with quotation marks, backslashes and control
/// characters escaped. Writing to memory does not fail.
#[verifier::external_body]
pub(crate) fn json_string(s: &str) -> (r: Result<String, serde_json::Error>)
    ensures
        r is Ok,
        r->Ok_0@ == json_quoted(s@),
{
    serde_json::to_string(s)
}

// ---- base64 ---------------------------------------------------------------

/// The digit of base64 for a value of six bits.
pub open spec fn base64_digit(v: int) -> char {
    if v < 26 {
        ('A' as int + v) as char
    } else if v < 52 {
        ('a' as int + (v - 26)) as char
    } else if v < 62 {
        ('0' as int + (v - 52)) as char
    } else if v == 62 {
        '+'
    } else {
        '/'
    }
}

/// The byte at a position, or 0 behind the last one.
pub open spec fn byte_or_zero(bytes: Seq<u8>, k: int) -> int {
    if 0 <= k < bytes.len() {
        bytes[k] as int
    } else {
        0
    }
}

/// The six bits that the digit at a position stands for: four digits share three
/// bytes.
pub open spec fn six_bits(bytes: Seq<u8>, i: int) -> int {
    let k = 3 * (i / 4);
    if i % 4 == 0 {
        byte_or_zero(bytes, k) / 4
    } else if i % 4 == 1 {
        (byte_or_zero(bytes, k) % 4) * 16 + byte_or_zero(bytes, k + 1) / 16
    } else if i % 4 == 2 {
        (byte_or_zero(bytes, k + 1) % 16) * 4 + byte_or_zero(bytes, k + 2) / 64
    } else {
        byte_or_zero(bytes, k + 2) % 64
    }
}

/// The standard base64 text of bytes: a digit for each six bits begun, filled up
/// with `=` to a multiple of four.
pub open spec fn base64_text(bytes: Seq<u8>) -> Seq<char> {
    Seq::new(
        4 * ((bytes.len() + 2) / 3),
        |i: int|
            if 6 * i >= 8 * bytes.len() {
                '='
            } else {
                base64_digit(six_bits(bytes, i))
            },
    )
}

/// `base64::Engine::encode` of the engine `STANDARD` writes bytes in base64 with
/// the standard alphabet and padding. The call panics on a text too long for
/// memory, so such bytes are left out.
#[verifier::external_body]
pub(crate) fn base64_encode(bytes: &[u8]) -> (r: String)
    requires
        4 * ((bytes@.len() + 2) / 3) <= isize::MAX,
    ensures
        r@ == base64_text(bytes@),
{
    base64::engine::general_purpose::STANDARD.encode(bytes)
}

// ---- regex ----------------------------------------------------------------

/// Whether a regular expression matches somewhere in a text; `None` if it is not
/// a regular expression.
pub uninterp spec fn regex_found(pattern: Seq<char>, text: Seq<char>) -> Option<bool>;

/// A character that `\w` matches, among those of ASCII.
pub open spec fn ascii_word_char(c: char) -> bool {
    ('0' <= c <= '9') || ('A' <= c <= 'Z') || ('a' <= c <= 'z') || c == '_'
}

/// The word stands in `s` at `i`, and neither neighbour is an ASCII letter,
/// digit or underscore.
pub open spec fn no_ascii_neighbour(s: Seq<char>, word: Seq<char>, i: int) -> bool {
    &&& occurs_at(s, word, i)
    &&& i > 0 ==> !ascii_word_char(s[i - 1])
    &&& i + word.len() < s.len() ==> !ascii_word_char(s[i + word.len()])
}

/// The word stands in `s` at `i`, and each neighbour is of ASCII, but no letter,
/// digit or underscore.
pub open spec fn ascii_bounded(s: Seq<char>, word: Seq<char>, i: int) -> bool {
    &&& no_ascii_neighbour(s, word, i)
    &&& i > 0 ==> (s[i - 1] as int) < 0x80
    &&& i + word.len() < s.len() ==> (s[i + word.len()] as int) < 0x80
}

/// `regex::Regex::new` and `regex::Regex::is_match`: whether the pattern matches
/// somewhere in the text. The answer depends on the two alone and is named. Of
/// the pattern of the word `return` between two word boundaries it is claimed
/// that it is a regular expression, that it matches where `return` stands
/// between ASCII characters that are no word characters or at an end of the
/// text, and that it matches nowhere else but beside characters outside ASCII,
/// of which Unicode says whether they are word characters.
#[verifier::external_body]
pub(crate) fn regex_is_match(pattern: &str, text: &str) -> (r: Option<bool>)
    ensures
        r == regex_found(pattern@, text@),
        pattern@ == "\\breturn\\b"@ ==> {
            &&& r is Some
            &&& (exists|i: int| ascii_bounded(text@, "return"@, i)) ==> r == Some(true)
            &&& r == Some(true) ==> exists|i: int| no_ascii_neighbour(text@, "return"@, i)
        },
{
    regex::Regex::new(pattern).ok().map(|re| re.is_match(text))
}

}
