//! Encodings the services put on the wire: URL-safe base64 without padding,
//! JSON arrays of strings, and UTF-8.
use vstd::prelude::*;

verus! {

/// The character sequences of a sequence of strings.
pub open spec fn texts(strings: Seq<String>) -> Seq<Seq<char>> {
    strings.map_values(|s: String| s@)
}

/// The character of a six-bit value in the URL-safe base64 alphabet: `A`-`Z`, `a`-`z`,
/// `0`-`9`, `-`, `_`.
pub open spec fn base64url_digit(v: int) -> char {
    if v < 26 {
        (65 + v) as char
    } else if v < 52 {
        (97 + (v - 26)) as char
    } else if v < 62 {
        (48 + (v - 52)) as char
    } else if v == 62 {
        '-'
    } else {
        '_'
    }
}

/// The URL-safe base64 text of a byte sequence, without padding: each group of three
/// bytes gives four characters of six bits each, most significant first; a last group of
/// one or two bytes gives two or three characters, its missing bits taken as zero.
pub open spec fn base64url_text(bytes: Seq<u8>) -> Seq<char>
    decreases bytes.len(),
{
    if bytes.len() == 0 {
        Seq::empty()
    } else if bytes.len() == 1 {
        seq![base64url_digit((bytes[0] as int) / 4), base64url_digit(((bytes[0] as int) % 4) * 16)]
    } else if bytes.len() == 2 {
        seq![
            base64url_digit((bytes[0] as int) / 4),
            base64url_digit(((bytes[0] as int) % 4) * 16 + (bytes[1] as int) / 16),
            base64url_digit(((bytes[1] as int) % 16) * 4),
        ]
    } else {
        seq![
            base64url_digit((bytes[0] as int) / 4),
            base64url_digit(((bytes[0] as int) % 4) * 16 + (bytes[1] as int) / 16),
            base64url_digit(((bytes[1] as int) % 16) * 4 + (bytes[2] as int) / 64),
            base64url_digit((bytes[2] as int) % 64),
        ] + base64url_text(bytes.skip(3))
    }
}

/// The bytes that URL-safe, unpadded base64 decoding gives of a text, `None` where the
/// `base64` crate rejects the text.
pub uninterp spec fn base64url_bytes(text: Seq<char>) -> Option<Seq<u8>>;

/// A lower-case hexadecimal digit.
pub open spec fn hex_digit(v: int) -> char {
    if v < 10 {
        (48 + v) as char
    } else {
        (97 + (v - 10)) as char
    }
}

/// How a character stands inside a JSON string in compact output: `"` and `\` and the
/// control characters below U+0020 are escaped (with the short forms `\b`, `\t`, `\n`,
/// `\f`, `\r` where they exist, else `\u00` and two lower-case hex digits); every other
/// character stands for itself.
pub open spec fn json_escaped_char(c: char) -> Seq<char> {
    if c == '"' {
        seq!['\\', '"']
    } else if c == '\\' {
        seq!['\\', '\\']
    } else if c == '\u{8}' {
        seq!['\\', 'b']
    } else if c == '\t' {
        seq!['\\', 't']
    } else if c == '\n' {
        seq!['\\', 'n']
    } else if c == '\u{c}' {
        seq!['\\', 'f']
    } else if c == '\r' {
        seq!['\\', 'r']
    } else if (c as int) < 0x20 {
        seq!['\\', 'u', '0', '0', hex_digit((c as int) / 16), hex_digit((c as int) % 16)]
    } else {
        seq![c]
    }
}

/// The escaped characters of a text.
pub open spec fn json_escaped(text: Seq<char>) -> Seq<char>
    decreases text.len(),
{
    if text.len() == 0 {
        Seq::empty()
    } else {
        json_escaped_char(text[0]) + json_escaped(text.skip(1))
    }
}

/// The elements of a JSON array of strings, separated by commas.
pub open spec fn json_string_items(strings: Seq<Seq<char>>) -> Seq<char>
    decreases strings.len(),
{
    if strings.len() == 0 {
        Seq::empty()
    } else {
        let item = seq!['"'] + json_escaped(strings[0]) + seq!['"'];
        if strings.len() == 1 {
            item
        } else {
            item + seq![','] + json_string_items(strings.skip(1))
        }
    }
}

/// The compact JSON text, as UTF-8 bytes, of an array of strings: `[`, the quoted and
/// escaped strings separated by commas, `]`, with no white space.
pub open spec fn json_of_strings(strings: Seq<Seq<char>>) -> Seq<u8> {
    vstd::utf8::encode_utf8(seq!['['] + json_string_items(strings) + seq![']'])
}

/// The array of strings that `serde_json` reads from JSON bytes, `None` where the bytes
/// are not a JSON array of strings.
pub uninterp spec fn strings_of_json(bytes: Seq<u8>) -> Option<Seq<Seq<char>>>;

#[verifier::external_type_specification]
#[verifier::external_body]
pub struct ExDecodeError(base64::DecodeError);

#[verifier::external_type_specification]
#[verifier::external_body]
pub struct ExJsonError(serde_json::Error);

/// Calls `base64::encode_config` with `URL_SAFE_NO_PAD`.
/// Claims: the result is the encoding that [`base64url_text`] states, and decoding it with the same
/// configuration gives the bytes back (the crate's round-trip property, exercised by its
/// `roundtrip_random` tests). It does not panic: a byte slice never exceeds `isize::MAX`,
/// so the size computation cannot overflow.
#[verifier::external_body]
pub fn encode_base64url(bytes: &[u8]) -> (text: String)
    ensures
        text@ == base64url_text(bytes@),
        base64url_bytes(text@) == Some(bytes@),
{
    base64::encode_config(bytes, base64::URL_SAFE_NO_PAD)
}

/// Calls `base64::decode_config` with `URL_SAFE_NO_PAD`.
/// Claims only that the outcome is the named decoding of the text; the error is passed on.
#[verifier::external_body]
pub fn decode_base64url(text: &str) -> (bytes: Result<Vec<u8>, base64::DecodeError>)
    ensures
        match bytes {
            Ok(b) => base64url_bytes(text@) == Some(b@),
            Err(_) => base64url_bytes(text@) is None,
        },
{
    base64::decode_config(text, base64::URL_SAFE_NO_PAD)
}

/// Calls `serde_json::to_vec` on a slice of strings.
/// Claims: it succeeds (a string always serializes, and writing into a `Vec` never
/// fails), its bytes are the compact JSON text that [`json_of_strings`] states, and
/// `serde_json` reads the same strings back from them (strings are written escaped and
/// read unescaped).
#[verifier::external_body]
pub fn json_encode_strings(strings: &[String]) -> (json: Result<Vec<u8>, serde_json::Error>)
    ensures
        json is Ok,
        match json {
            Ok(b) => b@ == json_of_strings(texts(strings@)) && strings_of_json(b@) == Some(texts(strings@)),
            Err(_) => false,
        },
{
    serde_json::to_vec(strings)
}

/// Calls `serde_json::from_slice::<Vec<String>>`; the error is passed on.
/// Claims only that the outcome is the named reading of the bytes.
#[verifier::external_body]
pub fn json_decode_strings(bytes: &[u8]) -> (strings: Result<Vec<String>, serde_json::Error>)
    ensures
        match strings {
            Ok(v) => strings_of_json(bytes@) == Some(texts(v@)),
            Err(_) => strings_of_json(bytes@) is None,
        },
{
    serde_json::from_slice::<Vec<String>>(bytes)
}

/// Calls `String::from_utf8`; an error becomes `None`.
/// Claims what std documents: the bytes are accepted exactly when they are valid
/// UTF-8, and the string holds the characters they encode.
#[verifier::external_body]
pub fn utf8_to_string(bytes: Vec<u8>) -> (s: Option<String>)
    ensures
        s is Some <==> vstd::utf8::valid_utf8(bytes@),
        s matches Some(t) ==> t@ == vstd::utf8::decode_utf8(bytes@),
{
    String::from_utf8(bytes).ok()
}

} // verus!
