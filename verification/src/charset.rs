//! Encoding text in a labelled charset, and the form in which it travels.

use vstd::prelude::*;

verus! {

/// The longest text, in characters, that is handed to an encoder.
pub const MAX_TEXT: usize = 0x00ff_ffff;

/// The longest byte sequence that is handed to a decoder.
pub const MAX_BYTES: usize = 0x0fff_ffff;

/// Whether `label` names an encoding, as the Encoding Standard matches labels.
pub uninterp spec fn known_label(label: Seq<u8>) -> bool;

/// The bytes that the encoding named by `label` gives for `text`.
pub uninterp spec fn encoded(label: Seq<u8>, text: Seq<char>) -> Seq<u8>;

/// The text that the encoding named by `label` reads from `bytes`.
pub uninterp spec fn decoded(label: Seq<u8>, bytes: Seq<u8>) -> Seq<char>;

/// The text that is read from `bytes`, which are not valid UTF-8, when each
/// malformed sequence is replaced.
pub uninterp spec fn utf8_lossy(bytes: Seq<u8>) -> Seq<char>;

/// The text that `bytes` hold as UTF-8: the text that they encode where they
/// are valid, else what is left when each malformed sequence is replaced.
pub open spec fn utf8_text(bytes: Seq<u8>) -> Seq<char> {
    if vstd::utf8::valid_utf8(bytes) {
        vstd::utf8::decode_utf8(bytes)
    } else {
        utf8_lossy(bytes)
    }
}

/// Whether `b` is an ASCII letter or digit.
pub open spec fn is_alphanumeric(b: u8) -> bool {
    (48 <= b <= 57) || (65 <= b <= 90) || (97 <= b <= 122)
}

/// The upper-case hexadecimal digit for `n`, for `n` below sixteen.
pub open spec fn hex_digit(n: u8) -> char {
    if n < 10 {
        ((48 + n) as u8) as char
    } else {
        ((55 + n) as u8) as char
    }
}

/// One byte, percent-encoded unless it is an ASCII letter or digit.
pub open spec fn escaped_byte(b: u8) -> Seq<char> {
    if is_alphanumeric(b) {
        seq![b as char]
    } else {
        seq!['%', hex_digit(b / 16), hex_digit(b % 16)]
    }
}

/// `bytes` with every byte but ASCII letters and digits percent-encoded.
pub open spec fn escaped(bytes: Seq<u8>) -> Seq<char>
    decreases bytes.len(),
{
    if bytes.len() == 0 {
        Seq::empty()
    } else {
        escaped(bytes.drop_last()) + escaped_byte(bytes.last())
    }
}

/// Whether `c` may stand in a percent-encoded text: a percent sign, or an
/// ASCII letter or digit.
pub open spec fn is_plain(c: char) -> bool {
    c == '%' || (48 <= c as u32 <= 57) || (65 <= c as u32 <= 90) || (97 <= c as u32 <= 122)
}

/// A percent-encoded text holds percent signs, ASCII letters and digits only:
/// nothing in it can be taken for a separator of a form, a header or a cookie.
pub proof fn escaped_is_plain(bytes: Seq<u8>)
    ensures
        forall|i: int| 0 <= i < escaped(bytes).len() ==> is_plain(#[trigger] escaped(bytes)[i]),
    decreases bytes.len(),
{
    if bytes.len() > 0 {
        escaped_is_plain(bytes.drop_last());
        let b = bytes.last();
        let tail = escaped_byte(b);
        assert(is_plain(hex_digit(b / 16)) && is_plain(hex_digit(b % 16)));
        assert forall|k: int| 0 <= k < tail.len() implies is_plain(#[trigger] tail[k]) by {
            if is_alphanumeric(b) {
                assert(tail[0] == b as char);
            }
        }
        let head = escaped(bytes.drop_last());
        assert forall|i: int| 0 <= i < escaped(bytes).len() implies is_plain(
            #[trigger] escaped(bytes)[i],
        ) by {
            if i < head.len() {
                assert(escaped(bytes)[i] == head[i]);
            } else {
                assert(escaped(bytes)[i] == tail[i - head.len()]);
            }
        }
    }
}

/// Looks `label` up with `encoding_rs::Encoding::for_label` and, where it
/// names an encoding, encodes `text` with `Encoding::encode`, keeping the bytes
/// of the result. The contract names both outcomes and claims nothing else;
/// the bound on `text` keeps the encoder's buffer size within `usize`.
#[verifier::external_body]
fn encode_with(label: &[u8], text: &str) -> (r: Option<Vec<u8>>)
    requires
        text@.len() <= MAX_TEXT,
    ensures
        r is Some == known_label(label@),
        r matches Some(bytes) ==> bytes@ == encoded(label@, text@),
{
    match encoding_rs::Encoding::for_label(label) {
        Some(encoding) => Some(encoding.encode(text).0.into_owned()),
        None => None,
    }
}

/// Looks `label` up with `encoding_rs::Encoding::for_label` and, where it
/// names an encoding, decodes `bytes` with `Encoding::decode`, keeping the text
/// of the result. The contract names both outcomes and claims nothing else;
/// the bound on `bytes` keeps the decoder's buffer size within `usize`.
#[verifier::external_body]
pub(crate) fn decode_with(label: &[u8], bytes: &[u8]) -> (r: Option<String>)
    requires
        bytes@.len() <= MAX_BYTES,
    ensures
        r is Some == known_label(label@),
        r matches Some(text) ==> text@ == decoded(label@, bytes@),
{
    match encoding_rs::Encoding::for_label(label) {
        Some(encoding) => Some(encoding.decode(bytes).0.into_owned()),
        None => None,
    }
}

/// Calls `String::from_utf8_lossy` and keeps the text. Valid UTF-8 comes
/// back as the text that it encodes; of any other input the contract only
/// names the result.
#[verifier::external_body]
pub(crate) fn decode_utf8_lossy(bytes: &[u8]) -> (r: String)
    ensures
        vstd::utf8::valid_utf8(bytes@) ==> r@ == vstd::utf8::decode_utf8(bytes@),
        !vstd::utf8::valid_utf8(bytes@) ==> r@ == utf8_lossy(bytes@),
{
    String::from_utf8_lossy(bytes).into_owned()
}

/// Calls `percent_encoding::percent_encode` with the set `NON_ALPHANUMERIC`
/// and collects the result. That set holds every ASCII byte but letters and
/// digits, bytes above 127 are always encoded, and an encoded byte is written
/// as `%` and two upper-case hexadecimal digits: this is `escaped`.
#[verifier::external_body]
fn percent_encode_bytes(bytes: &[u8]) -> (r: String)
    ensures
        r@ == escaped(bytes@),
{
    percent_encoding::percent_encode(bytes, percent_encoding::NON_ALPHANUMERIC).to_string()
}

/// The bytes of a label that is given as text: its UTF-8 encoding.
pub open spec fn label_bytes(label: Seq<char>) -> Seq<u8> {
    vstd::utf8::encode_utf8(label)
}

/// The form in which `text` travels to a forum that reads `label`: encoded in
/// that charset, then percent-encoded byte by byte.
pub open spec fn form_value(label: Seq<u8>, text: Seq<char>) -> Seq<char> {
    escaped(encoded(label, text))
}

/// Encodes `text` in the charset that `label` names and percent-encodes the
/// bytes that result; `None` where `label` names no encoding.
pub fn charset_percent_encode(label: &str, text: &str) -> (r: Option<String>)
    requires
        text@.len() <= MAX_TEXT,
    ensures
        r is Some == known_label(label_bytes(label@)),
        r matches Some(value) ==> value@ == form_value(label_bytes(label@), text@),
{
    match encode_with(label.as_bytes(), text) {
        Some(bytes) => Some(percent_encode_bytes(bytes.as_slice())),
        None => None,
    }
}

/// What a server's answer reads as for diagnosis: decoded with the charset
/// that `label` names, or as UTF-8 where it names none.
pub open spec fn reply_text(label: Seq<u8>, body: Seq<u8>) -> Seq<char> {
    if known_label(label) {
        decoded(label, body)
    } else {
        utf8_text(body)
    }
}

/// Decodes a server's answer for diagnosis.
pub fn decode_reply(label: &str, body: &[u8]) -> (r: String)
    requires
        body@.len() <= MAX_BYTES,
    ensures
        r@ == reply_text(label_bytes(label@), body@),
{
    match decode_with(label.as_bytes(), body) {
        Some(text) => text,
        None => decode_utf8_lossy(body),
    }
}

} // verus!
