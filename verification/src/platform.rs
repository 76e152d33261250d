//! Calls into outside crates and into std functions that vstd does not
//! specify, with the spec functions their contracts are stated over. The
//! `external_body` functions and the spec functions without a body are
//! trusted: their contracts are what the called code's source and
//! documentation show, and nothing checks them but reading.

use crate::web_bridge::WebMessage;
use base64::Engine as _;
use vstd::prelude::*;

verus! {

/// The character of a six-bit value in the standard base64 alphabet:
/// `A`-`Z`, `a`-`z`, `0`-`9`, `+`, `/`.
pub open spec fn base64_symbol(v: int) -> char {
    if v < 26 {
        (65 + v) as char
    } else if v < 52 {
        (97 + v - 26) as char
    } else if v < 62 {
        (48 + v - 52) as char
    } else if v == 62 {
        '+'
    } else {
        '/'
    }
}

/// Standard base64 with `=` padding (RFC 4648, section 4), as the base64
/// crate's STANDARD engine writes it: each group of three bytes, read as a
/// 24-bit number, becomes four symbols of six bits, most significant first;
/// a final group of one or two bytes is filled with zero bits and its
/// missing symbols are written as `=`.
pub open spec fn base64_standard_encoding(bytes: Seq<u8>) -> Seq<char> {
    Seq::new(
        (4 * ((bytes.len() + 2) / 3)) as nat,
        |j: int|
            {
                let g = j / 4;
                let k = j % 4;
                let has1 = 3 * g + 1 < bytes.len();
                let has2 = 3 * g + 2 < bytes.len();
                let b1: int = if has1 { bytes[3 * g + 1] as int } else { 0 };
                let b2: int = if has2 { bytes[3 * g + 2] as int } else { 0 };
                let word = 65536 * bytes[3 * g] + 256 * b1 + b2;
                if (k == 2 && !has1) || (k == 3 && !has2) {
                    '='
                } else if k == 0 {
                    base64_symbol(word / 262144)
                } else if k == 1 {
                    base64_symbol((word / 4096) % 64)
                } else if k == 2 {
                    base64_symbol((word / 64) % 64)
                } else {
                    base64_symbol(word % 64)
                }
            },
    )
}

/// No six-bit symbol is the padding character.
proof fn lemma_symbol_not_padding(v: int)
    requires
        0 <= v < 64,
    ensures
        base64_symbol(v) != '=',
{
}

/// Distinct six-bit values have distinct symbols.
proof fn lemma_symbol_injective(v: int, w: int)
    requires
        0 <= v < 64,
        0 <= w < 64,
        base64_symbol(v) == base64_symbol(w),
    ensures
        v == w,
{
}

/// The four six-bit digits of a group of three bytes determine the bytes;
/// a digit that a short group writes as padding is zero for every group of
/// that length.
proof fn lemma_group_digits(x0: u32, x1: u32, x2: u32, y0: u32, y1: u32, y2: u32, has1: bool, has2: bool)
    by (bit_vector)
    requires
        x0 < 256 && x1 < 256 && x2 < 256,
        y0 < 256 && y1 < 256 && y2 < 256,
        !has1 ==> x1 == 0 && y1 == 0 && !has2,
        !has2 ==> x2 == 0 && y2 == 0,
        (65536 * x0 + 256 * x1 + x2) / 262144 == (65536 * y0 + 256 * y1 + y2) / 262144,
        ((65536 * x0 + 256 * x1 + x2) / 4096) % 64 == ((65536 * y0 + 256 * y1 + y2) / 4096) % 64,
        has1 ==> ((65536 * x0 + 256 * x1 + x2) / 64) % 64 == ((65536 * y0 + 256 * y1 + y2) / 64)
            % 64,
        has2 ==> (65536 * x0 + 256 * x1 + x2) % 64 == (65536 * y0 + 256 * y1 + y2) % 64,
    ensures
        x0 == y0 && x1 == y1 && x2 == y2,
{
}

/// The group of three bytes at group `g` of `bytes`, a missing byte read as
/// zero, and whether its second and third bytes are present.
spec fn group_of(bytes: Seq<u8>, g: int) -> (u32, u32, u32, bool, bool) {
    let has1 = 3 * g + 1 < bytes.len();
    let has2 = 3 * g + 2 < bytes.len();
    (
        bytes[3 * g] as u32,
        if has1 { bytes[3 * g + 1] as u32 } else { 0u32 },
        if has2 { bytes[3 * g + 2] as u32 } else { 0u32 },
        has1,
        has2,
    )
}

/// Two byte sequences of the same length whose encodings agree on the four
/// symbols of group `g` agree on the bytes of that group.
proof fn lemma_group_agrees(b1: Seq<u8>, b2: Seq<u8>, g: int)
    requires
        b1.len() == b2.len(),
        0 <= 3 * g < b1.len(),
        base64_standard_encoding(b1) == base64_standard_encoding(b2),
    ensures
        forall|i: int| 3 * g <= i < 3 * g + 3 && i < b1.len() ==> b1[i] == b2[i],
{
    let e1 = base64_standard_encoding(b1);
    let e2 = base64_standard_encoding(b2);
    let (x0, x1, x2, has1, has2) = group_of(b1, g);
    let (y0, y1, y2, _h1, _h2) = group_of(b2, g);
    assert(4 * g + 3 < e1.len());
    let wx = 65536 * (x0 as int) + 256 * (x1 as int) + (x2 as int);
    let wy = 65536 * (y0 as int) + 256 * (y1 as int) + (y2 as int);
    assert(0 <= wx < 16777216 && 0 <= wy < 16777216);
    assert(e1[4 * g] == e2[4 * g]);
    assert(e1[4 * g] == base64_symbol(wx / 262144));
    assert(e2[4 * g] == base64_symbol(wy / 262144));
    lemma_symbol_injective(wx / 262144, wy / 262144);
    assert(e1[4 * g + 1] == e2[4 * g + 1]);
    lemma_symbol_injective((wx / 4096) % 64, (wy / 4096) % 64);
    if has1 {
        assert(e1[4 * g + 2] == e2[4 * g + 2]);
        lemma_symbol_injective((wx / 64) % 64, (wy / 64) % 64);
    }
    if has2 {
        assert(e1[4 * g + 3] == e2[4 * g + 3]);
        lemma_symbol_injective(wx % 64, wy % 64);
    }
    lemma_group_digits(x0, x1, x2, y0, y1, y2, has1, has2);
}

/// Distinct byte sequences have distinct encodings.
pub proof fn lemma_base64_encoding_injective(b1: Seq<u8>, b2: Seq<u8>)
    requires
        base64_standard_encoding(b1) == base64_standard_encoding(b2),
    ensures
        b1 == b2,
{
    let e1 = base64_standard_encoding(b1);
    let e2 = base64_standard_encoding(b2);
    let n1 = b1.len() as int;
    let n2 = b2.len() as int;
    let groups = (n1 + 2) / 3;
    assert(e1.len() == e2.len());
    assert((n2 + 2) / 3 == groups);
    if groups > 0 {
        let j = 4 * (groups - 1);
        assert(e1[j + 2] == e2[j + 2] && e1[j + 3] == e2[j + 3]);
        let w1 = group_of(b1, groups - 1);
        let w2 = group_of(b2, groups - 1);
        let v1 = 65536 * (w1.0 as int) + 256 * (w1.1 as int) + (w1.2 as int);
        let v2 = 65536 * (w2.0 as int) + 256 * (w2.1 as int) + (w2.2 as int);
        assert(0 <= v1 < 16777216 && 0 <= v2 < 16777216);
        lemma_symbol_not_padding((v1 / 64) % 64);
        lemma_symbol_not_padding(v1 % 64);
        lemma_symbol_not_padding((v2 / 64) % 64);
        lemma_symbol_not_padding(v2 % 64);
        assert(n1 == n2);
    }
    assert forall|i: int| 0 <= i < n1 implies b1[i] == b2[i] by {
        lemma_group_agrees(b1, b2, i / 3);
    }
    assert(b1 =~= b2);
}

/// Standard base64 decoding with canonical padding: the bytes whose
/// standard encoding the text is, or `None` where the text is the encoding
/// of no bytes. There is at most one such byte sequence
/// (`lemma_base64_encoding_injective`).
pub open spec fn base64_standard_decoding(text: Seq<char>) -> Option<Seq<u8>> {
    if exists|bytes: Seq<u8>| base64_standard_encoding(bytes) == text {
        Some(choose|bytes: Seq<u8>| base64_standard_encoding(bytes) == text)
    } else {
        None
    }
}

/// A text that encodes some bytes decodes to them, and is at least a third
/// longer than they are.
pub proof fn lemma_base64_decodes_to(bytes: Seq<u8>, text: Seq<char>)
    requires
        base64_standard_encoding(bytes) == text,
    ensures
        base64_standard_decoding(text) == Some(bytes),
        4 * bytes.len() <= 3 * text.len(),
{
    let chosen = choose|b: Seq<u8>| base64_standard_encoding(b) == text;
    lemma_base64_encoding_injective(chosen, bytes);
    let n = bytes.len() as int;
    assert(4 * n <= 3 * (4 * ((n + 2) / 3)));
}

/// Decoding the standard encoding of bytes gives them back.
pub proof fn lemma_base64_roundtrip(bytes: Seq<u8>)
    ensures
        base64_standard_decoding(base64_standard_encoding(bytes)) == Some(bytes),
{
    lemma_base64_decodes_to(bytes, base64_standard_encoding(bytes));
}

/// The message of the base64 crate's `DecodeError` for a text that the
/// STANDARD engine rejects.
pub uninterp spec fn base64_decode_error(text: Seq<char>) -> Seq<char>;

/// Hexadecimal digit `n` (`0..16`) in lower case.
pub open spec fn hex_digit(n: int) -> char {
    if n < 10 {
        (48 + n) as char
    } else {
        (97 + n - 10) as char
    }
}

/// Index among the 32 hex digits of the character at `pos` of the
/// hyphenated form (hyphens stand at 8, 13, 18 and 23).
pub open spec fn uuid_digit_index(pos: int) -> int {
    if pos < 8 {
        pos
    } else if pos < 13 {
        pos - 1
    } else if pos < 18 {
        pos - 2
    } else if pos < 23 {
        pos - 3
    } else {
        pos - 4
    }
}

/// The hyphenated lower-case text of the UUID whose 128-bit value is `id`:
/// its 32 hex digits, most significant first, grouped 8-4-4-4-12.
pub open spec fn uuid_text_spec(id: u128) -> Seq<char> {
    Seq::new(
        36,
        |pos: int|
            if pos == 8 || pos == 13 || pos == 18 || pos == 23 {
                '-'
            } else {
                hex_digit(((id >> ((4 * (31 - uuid_digit_index(pos))) as u128)) & 0xf) as int)
            },
    )
}

/// What `std::path::Path::extension` returns for a path given as text: the
/// part of the final component after its last `.` (none for a component
/// without an inner dot, or one made of a leading dot alone).
pub uninterp spec fn path_extension_of(path: Seq<char>) -> Option<Seq<char>>;

/// `base64::engine::general_purpose::STANDARD.encode`. Claims that the text
/// is `base64_standard_encoding` of the bytes. The crate panics when the
/// encoded length overflows `usize`, which no slice of at most `isize::MAX`
/// bytes reaches.
#[verifier::external_body]
fn standard_encode(bytes: &[u8]) -> (text: String)
    requires
        bytes@.len() <= isize::MAX,
    ensures
        text@ == base64_standard_encoding(bytes@),
{
    base64::engine::general_purpose::STANDARD.encode(bytes)
}

/// `base64::engine::general_purpose::STANDARD.decode`, with the error's
/// `Display` on failure. The engine requires canonical padding and rejects
/// nonzero trailing bits, so it accepts exactly the standard encodings.
/// Claims that what it returns encodes back to the text; that it fails only
/// on a text that is the encoding of no bytes; and that the error's message
/// is `base64_decode_error` of the text.
#[verifier::external_body]
fn standard_decode(text: &str) -> (result: Result<Vec<u8>, String>)
    ensures
        result matches Ok(bytes) ==> base64_standard_encoding(bytes@) == text@,
        result is Err ==> base64_standard_decoding(text@) is None,
        result matches Err(message) ==> message@ == base64_decode_error(text@),
{
    base64::engine::general_purpose::STANDARD.decode(text).map_err(|e| e.to_string())
}

/// Encode bytes as standard base64; decoding the text gives them back.
pub(crate) fn base64_encode(bytes: &[u8]) -> (text: String)
    requires
        bytes@.len() <= isize::MAX,
    ensures
        text@ == base64_standard_encoding(bytes@),
        base64_standard_decoding(text@) == Some(bytes@),
{
    proof {
        lemma_base64_roundtrip(bytes@);
    }
    standard_encode(bytes)
}

/// Decode standard base64: the bytes the text encodes, or the decoder's
/// message where it encodes none. The bytes are at most three for every
/// four characters of text.
pub(crate) fn base64_decode(text: &str) -> (result: Result<Vec<u8>, String>)
    ensures
        result is Ok <==> base64_standard_decoding(text@) is Some,
        result matches Ok(bytes) ==> bytes@ == base64_standard_decoding(text@)->0 && 4
            * bytes@.len() <= 3 * text@.len(),
        result matches Err(message) ==> message@ == base64_decode_error(text@),
{
    let result = standard_decode(text);
    proof {
        if result is Ok {
            lemma_base64_decodes_to(result->Ok_0@, text@);
        }
    }
    result
}

/// `std::time::SystemTime::now`, measured against `UNIX_EPOCH` with
/// `duration_since`: whether the clock reads at or after the epoch, and how
/// far from the epoch it reads, in whole microseconds (before the epoch,
/// the distance that the error's `duration` reports). It depends on the
/// clock: nothing is claimed.
#[verifier::external_body]
pub(crate) fn system_clock_micros() -> (bool, u128) {
    match std::time::SystemTime::now().duration_since(std::time::UNIX_EPOCH) {
        Ok(elapsed) => (true, elapsed.as_micros()),
        Err(e) => (false, e.duration().as_micros()),
    }
}

/// `uuid::Uuid::new_v4`, as its 128-bit value. Random: nothing is claimed.
#[verifier::external_body]
pub(crate) fn new_session_id() -> u128 {
    uuid::Uuid::new_v4().as_u128()
}

/// `<uuid::Uuid as Display>::fmt` through `to_string`, for the UUID with
/// the given 128-bit value: the hyphenated lower-case form.
#[verifier::external_body]
pub(crate) fn uuid_text(id: u128) -> (text: String)
    ensures
        text@ == uuid_text_spec(id),
{
    uuid::Uuid::from_u128(id).to_string()
}

/// `std::path::Path::extension` on a path given as text, converted back to
/// text. Claims that the result is the name `path_extension_of` of the path.
#[verifier::external_body]
pub(crate) fn path_extension(path: &str) -> (extension: Option<String>)
    ensures
        match extension {
            Some(e) => path_extension_of(path@) == Some(e@),
            None => path_extension_of(path@) is None,
        },
{
    let extension = std::path::Path::new(path).extension()?;
    Some(extension.to_string_lossy().into_owned())
}

/// What serde_json reads of a text as a JSON value for a web client's
/// message: `None` where the text is not JSON; otherwise its `type` and
/// `data` members, each present only where it is a JSON string.
pub uninterp spec fn web_json_fields(text: Seq<char>) -> Option<(Option<Seq<char>>, Option<Seq<char>>)>;

/// The message of serde_json's error for a text that is not JSON.
pub uninterp spec fn json_error_text(text: Seq<char>) -> Seq<char>;

/// What serde_json reads of a text as a message from Vertex AI: `None`
/// where the text is not JSON; `Some(None)` where it has no array at
/// `serverContent.modelTurn.parts`; otherwise, for each element of that
/// array in order, its `inlineData.data` member where that is a string.
pub uninterp spec fn vertex_inline_data(text: Seq<char>) -> Option<Option<Seq<Option<Seq<char>>>>>;

/// The view of an optional text.
pub open spec fn optional_text_view(text: Option<String>) -> Option<Seq<char>> {
    match text {
        Some(t) => Some(t@),
        None => None,
    }
}

/// The view of what `read_vertex_json` returns.
pub open spec fn inline_data_view(read: Option<Option<Vec<Option<String>>>>) -> Option<
    Option<Seq<Option<Seq<char>>>>,
> {
    match read {
        None => None,
        Some(None) => Some(None),
        Some(Some(parts)) => Some(Some(parts@.map_values(|p: Option<String>| optional_text_view(p)))),
    }
}

/// `serde_json::from_str::<serde_json::Value>` on a web client's message,
/// reading its string members `type` and `data`, and the error's `Display`
/// on failure. Claims that it succeeds exactly where `web_json_fields` of
/// the text is some pair, and then returns that pair; and that the error's
/// message is `json_error_text` of the text.
#[verifier::external_body]
pub(crate) fn parse_web_json(text: &str) -> (parsed: Result<WebMessage, String>)
    ensures
        match parsed {
            Ok(message) => web_json_fields(text@) == Some(
                (optional_text_view(message.msg_type), optional_text_view(message.data)),
            ),
            Err(error) => web_json_fields(text@) is None && error@ == json_error_text(text@),
        },
{
    match serde_json::from_str::<serde_json::Value>(text) {
        Ok(val) => Ok(WebMessage {
            msg_type: val["type"].as_str().map(str::to_string),
            data: val["data"].as_str().map(str::to_string),
        }),
        Err(e) => Err(e.to_string()),
    }
}

/// `serde_json::from_str::<serde_json::Value>` on a message from Vertex AI,
/// reading `serverContent.modelTurn.parts` and each part's
/// `inlineData.data`. Claims that the result is `vertex_inline_data` of the
/// text.
#[verifier::external_body]
pub(crate) fn read_vertex_json(text: &str) -> (read: Option<Option<Vec<Option<String>>>>)
    ensures
        inline_data_view(read) == vertex_inline_data(text@),
{
    let parsed: serde_json::Value = serde_json::from_str(text).ok()?;
    let parts = parsed.get("serverContent").and_then(|sc| sc.get("modelTurn"))
        .and_then(|mt| mt.get("parts")).and_then(|p| p.as_array());
    Some(parts.map(|parts| parts.iter().map(|part| {
        part.get("inlineData").and_then(|id| id.get("data")).and_then(|d| d.as_str())
            .map(str::to_string)
    }).collect()))
}

} // verus!
