//! Calls into outside crates (percent-encoding, base64, serde_json, rsa, sha2) and into the
//! parts of std that vstd does not specify, each with the contract Verus believes of it.
use vstd::prelude::*;
use vstd::string::StringSliceAdditionalSpecFns;
use vstd::utf8::{valid_utf8, decode_utf8};
use rsa::pkcs8::DecodePrivateKey;
use rsa::signature::{SignatureEncoding, Signer};
use base64::Engine;

verus! {

// ---------------------------------------------------------------------------
// Percent-encoding

/// The sets of bytes that are percent-encoded.
#[derive(Clone, Copy)]
pub enum EncodeSet {
    /// Every byte that is not an ASCII letter or digit (`percent_encoding::NON_ALPHANUMERIC`).
    NonAlphanumeric,
    /// As `NonAlphanumeric`, but `-`, `_`, `.`, `~` and `,` are kept (query parameter values).
    QueryValue,
}

/// An ASCII letter or digit.
pub open spec fn is_ascii_alnum(b: u8) -> bool {
    (48 <= b <= 57) || (65 <= b <= 90) || (97 <= b <= 122)
}

/// The punctuation that query parameter values keep.
pub open spec fn is_query_punct(b: u8) -> bool {
    b == 45 || b == 95 || b == 46 || b == 126 || b == 44
}

/// Whether a byte is written as it is (otherwise it is percent-encoded).
pub open spec fn keeps_byte(set: EncodeSet, b: u8) -> bool {
    is_ascii_alnum(b) || (set is QueryValue && is_query_punct(b))
}

/// The upper-case hexadecimal digit for `d < 16`.
pub open spec fn hex_upper(d: nat) -> char {
    if d < 10 {
        ((48 + d) as u32) as char
    } else {
        ((55 + d) as u32) as char
    }
}

/// How one byte is written.
pub open spec fn encoded_byte(set: EncodeSet, b: u8) -> Seq<char> {
    if keeps_byte(set, b) {
        seq![(b as u32) as char]
    } else {
        seq!['%', hex_upper((b / 16) as nat), hex_upper((b % 16) as nat)]
    }
}

/// The percent-encoding of a byte sequence.
pub open spec fn percent_encoded(set: EncodeSet, bytes: Seq<u8>) -> Seq<char>
    decreases bytes.len(),
{
    if bytes.len() == 0 {
        Seq::empty()
    } else {
        percent_encoded(set, bytes.drop_last()) + encoded_byte(set, bytes.last())
    }
}

/// `percent_encoding::utf8_percent_encode(s, set).to_string()`: every byte of the UTF-8 encoding
/// of `s` that is not kept by `set` (non-ASCII bytes are never kept) becomes `%` and two
/// upper-case hexadecimal digits; kept bytes stay as they are. The query set is built per call
/// (the crate takes a set that lives for the whole program, so it is leaked: 16 bytes).
#[verifier::external_body]
pub fn percent_encode(s: &str, set: EncodeSet) -> (res: String)
    ensures
        res@ == percent_encoded(set, s.spec_bytes()),
{
    let ascii_set = match set {
        EncodeSet::NonAlphanumeric => percent_encoding::NON_ALPHANUMERIC,
        EncodeSet::QueryValue => Box::leak(Box::new(
            percent_encoding::NON_ALPHANUMERIC.remove(b'-').remove(b'_').remove(b'.').remove(b'~').remove(b','),
        )),
    };
    percent_encoding::utf8_percent_encode(s, ascii_set).to_string()
}

// ---------------------------------------------------------------------------
// Base64

/// The base64 engines in use.
#[derive(Clone, Copy)]
pub enum Base64Engine {
    /// `base64::engine::general_purpose::STANDARD`: alphabet `A-Z a-z 0-9 + /`, padded with `=`.
    Standard,
    /// `base64::engine::general_purpose::URL_SAFE_NO_PAD`: alphabet `A-Z a-z 0-9 - _`, unpadded.
    UrlSafeNoPad,
}

/// A byte result by the views of its parts.
pub open spec fn bytes_result_view(r: Result<Vec<u8>, String>) -> Result<Seq<u8>, Seq<char>> {
    match r {
        Ok(v) => Ok(v@),
        Err(e) => Err(e@),
    }
}

/// A text result by the views of its parts.
pub open spec fn text_result_view(r: Result<String, String>) -> Result<Seq<char>, Seq<char>> {
    match r {
        Ok(v) => Ok(v@),
        Err(e) => Err(e@),
    }
}

/// The text that `engine.encode(data)` gives.
pub uninterp spec fn base64_text(engine: Base64Engine, data: Seq<u8>) -> Seq<char>;

/// What `STANDARD.decode(text)` gives: the bytes, or the message of the decoding error.
pub uninterp spec fn base64_standard_decoded(text: Seq<u8>) -> Result<Seq<u8>, Seq<char>>;

/// A character of the URL-safe base64 alphabet.
pub open spec fn is_url_safe_base64_char(c: char) -> bool {
    ('A' <= c <= 'Z') || ('a' <= c <= 'z') || ('0' <= c <= '9') || c == '-' || c == '_'
}

/// The longest input whose encoding has a length that fits in `usize`.
pub open spec fn base64_encodable(len: nat) -> bool {
    len / 3 * 4 + 4 <= usize::MAX
}

/// `engine.encode(data)` of the base64 crate. The result is named by `base64_text`; the
/// URL-safe unpadded engine writes only characters of its alphabet (its documentation lists
/// the alphabet). The encoding algorithm itself is not restated here.
#[verifier::external_body]
pub fn base64_encode(engine: Base64Engine, data: &[u8]) -> (res: String)
    requires
        base64_encodable(data@.len()),
    ensures
        res@ == base64_text(engine, data@),
        engine is UrlSafeNoPad ==> forall|i: int|
            0 <= i < res@.len() ==> is_url_safe_base64_char(#[trigger] res@[i]),
{
    match engine {
        Base64Engine::Standard => base64::engine::general_purpose::STANDARD.encode(data),
        Base64Engine::UrlSafeNoPad => base64::engine::general_purpose::URL_SAFE_NO_PAD.encode(data),
    }
}

/// Decoding the standard encoding of some bytes gave those bytes back.
pub open spec fn decodes_back(r: Result<Vec<u8>, String>, text: Seq<char>) -> bool {
    forall|x: Seq<u8>|
        text == #[trigger] base64_text(Base64Engine::Standard, x) ==> (r matches Ok(v) && v@ == x)
}

/// `STANDARD.decode(text)` of the base64 crate: the decoded bytes, or the `Display` text of the
/// `DecodeError`. Decoding gives back the bytes whose standard encoding `text` is (the crate's
/// documented round trip).
#[verifier::external_body]
pub fn base64_decode_standard(text: &str) -> (res: Result<Vec<u8>, String>)
    ensures
        base64_standard_decoded(text.spec_bytes()) == bytes_result_view(res),
        decodes_back(res, text@),
{
    match base64::engine::general_purpose::STANDARD.decode(text) {
        Ok(v) => Ok(v),
        Err(e) => Err(e.to_string()),
    }
}

// ---------------------------------------------------------------------------
// JSON strings

/// The lower-case hexadecimal digit for `d < 16`.
pub open spec fn hex_lower(d: nat) -> char {
    if d < 10 {
        ((48 + d) as u32) as char
    } else {
        ((87 + d) as u32) as char
    }
}

/// How serde_json writes one character inside a string literal.
pub open spec fn json_escaped_char(c: char) -> Seq<char> {
    if c == '"' {
        seq!['\\', '"']
    } else if c == '\\' {
        seq!['\\', '\\']
    } else if (c as u32) == 8 {
        seq!['\\', 'b']
    } else if (c as u32) == 12 {
        seq!['\\', 'f']
    } else if c == '\n' {
        seq!['\\', 'n']
    } else if c == '\r' {
        seq!['\\', 'r']
    } else if c == '\t' {
        seq!['\\', 't']
    } else if (c as u32) < 32 {
        seq!['\\', 'u', '0', '0', hex_lower(((c as u32) / 16) as nat), hex_lower(((c as u32) % 16) as nat)]
    } else {
        seq![c]
    }
}

/// The escaped contents of a JSON string literal.
pub open spec fn json_escaped(s: Seq<char>) -> Seq<char>
    decreases s.len(),
{
    if s.len() == 0 {
        Seq::empty()
    } else {
        json_escaped(s.drop_last()) + json_escaped_char(s.last())
    }
}

/// The JSON string literal for `s`.
pub open spec fn json_quoted(s: Seq<char>) -> Seq<char> {
    seq!['"'] + json_escaped(s) + seq!['"']
}

/// `serde_json::to_string(s)` for a string: the literal in quotes, where `"` and `\` are
/// escaped with a backslash, backspace, form feed, newline, carriage return and tab as
/// `\b \f \n \r \t`, the other characters below U+0020 as `\u00` and two lower-case hex
/// digits, and every other character kept (serde_json's `ESCAPE` table). Serializing a
/// string into memory does not fail.
#[verifier::external_body]
pub fn json_quote(s: &str) -> (res: String)
    ensures
        res@ == json_quoted(s@),
{
    match serde_json::to_string(s) {
        Ok(t) => t,
        Err(_) => String::new(),
    }
}

/// What parsing `text` as a JSON value and writing the value back compactly gives: the
/// written value, or the `Display` text of the parse error.
pub uninterp spec fn json_reencoded(text: Seq<char>) -> Result<Seq<char>, Seq<char>>;

/// `serde_json::from_str::<serde_json::Value>(text)`, then the value's compact `to_string()`;
/// on a parse error, the error's `Display` text. The result is named by `json_reencoded`.
#[verifier::external_body]
pub fn json_reencode(text: &str) -> (res: Result<String, String>)
    ensures
        json_reencoded(text@) == text_result_view(res),
{
    match serde_json::from_str::<serde_json::Value>(text) {
        Ok(v) => Ok(v.to_string()),
        Err(e) => Err(e.to_string()),
    }
}

// ---------------------------------------------------------------------------
// Text from bytes

/// What `String::from_utf8_lossy(bytes)` gives.
pub uninterp spec fn utf8_lossy_text(bytes: Seq<u8>) -> Seq<char>;

/// `String::from_utf8_lossy(bytes)`: named by `utf8_lossy_text`; on valid UTF-8 it is the
/// decoded text (its documentation: invalid sequences are replaced, valid input is kept).
#[verifier::external_body]
pub fn utf8_lossy(bytes: &[u8]) -> (res: String)
    ensures
        res@ == utf8_lossy_text(bytes@),
        valid_utf8(bytes@) ==> res@ == decode_utf8(bytes@),
{
    String::from_utf8_lossy(bytes).into_owned()
}

// ---------------------------------------------------------------------------
// RS256 signatures

/// Why a signature could not be made.
pub enum SignError {
    /// The PEM text is not a PKCS#8 RSA private key; the message of the parse error.
    InvalidKey(String),
    /// The key cannot sign with RSASSA-PKCS1-v1_5 over SHA-256 (it is too small).
    SigningFailed,
}

/// What `rsa::RsaPrivateKey::from_pkcs8_pem(pem)` gives: `None` for a key, or the `Display`
/// text of the parse error.
pub uninterp spec fn pkcs8_pem_error(pem: Seq<char>) -> Option<Seq<char>>;

/// The RSASSA-PKCS1-v1_5 SHA-256 signature of `msg` under the key in `pem`, or `None` where
/// the key cannot make one.
pub uninterp spec fn rs256_signature(pem: Seq<char>, msg: Seq<u8>) -> Option<Seq<u8>>;

/// The signature a signing result holds, if any.
pub open spec fn signature_view(r: Result<Vec<u8>, SignError>) -> Option<Seq<u8>> {
    match r {
        Ok(v) => Some(v@),
        Err(_) => None,
    }
}

/// Parses the PKCS#8 PEM private key `pem` (`RsaPrivateKey::from_pkcs8_pem`) and signs `msg`
/// with `SigningKey::<Sha256>::new(key).try_sign(msg)`, giving the signature bytes. The parse
/// outcome is named by `pkcs8_pem_error`, the signature by `rs256_signature` (PKCS#1 v1.5
/// signing uses no randomness: the signature is a function of key and message). The text of
/// a signing error is dropped.
#[verifier::external_body]
pub fn rs256_sign(pem: &str, msg: &[u8]) -> (res: Result<Vec<u8>, SignError>)
    ensures
        pkcs8_pem_error(pem@) is Some <==> res matches Err(SignError::InvalidKey(_)),
        res matches Err(SignError::InvalidKey(m)) ==> pkcs8_pem_error(pem@) == Some(m@),
        pkcs8_pem_error(pem@) is None ==> signature_view(res) == rs256_signature(pem@, msg@),
{
    let key = match rsa::RsaPrivateKey::from_pkcs8_pem(pem) {
        Ok(k) => k,
        Err(e) => return Err(SignError::InvalidKey(e.to_string())),
    };
    let signing_key = rsa::pkcs1v15::SigningKey::<sha2::Sha256>::new(key);
    match signing_key.try_sign(msg) {
        Ok(sig) => Ok(sig.to_bytes().to_vec()),
        Err(_) => Err(SignError::SigningFailed),
    }
}

} // verus!

verus! {

/// A character that percent-encoded text may hold: an ASCII letter or digit, `%`, or one of
/// `-`, `_`, `.`, `~`, `,`.
pub open spec fn is_encoded_text_char(c: char) -> bool {
    ('0' <= c <= '9') || ('A' <= c <= 'Z') || ('a' <= c <= 'z') || c == '%' || c == '-' || c == '_'
        || c == '.' || c == '~' || c == ','
}

/// Percent-encoded text holds only letters, digits, `%` and the kept punctuation; in
/// particular never `&`, `=` or a space, so encoded form values cannot be confused with the
/// separators of a form.
pub proof fn law_percent_encoded_chars(set: EncodeSet, bytes: Seq<u8>)
    ensures
        forall|i: int| 0 <= i < percent_encoded(set, bytes).len()
            ==> is_encoded_text_char(#[trigger] percent_encoded(set, bytes)[i]),
    decreases bytes.len(),
{
    if bytes.len() > 0 {
        law_percent_encoded_chars(set, bytes.drop_last());
        let b = bytes.last();
        let e = encoded_byte(set, b);
        assert forall|i: int| 0 <= i < e.len() implies is_encoded_text_char(#[trigger] e[i]) by {
            if keeps_byte(set, b) {
                assert(e[i] == ((b as u32) as char));
            } else {
                assert(b / 16 < 16 && b % 16 < 16);
            }
        }
        let p = percent_encoded(set, bytes.drop_last());
        assert forall|i: int| 0 <= i < percent_encoded(set, bytes).len()
            implies is_encoded_text_char(#[trigger] percent_encoded(set, bytes)[i]) by {
            if i < p.len() {
                assert(percent_encoded(set, bytes)[i] == p[i]);
            } else {
                assert(percent_encoded(set, bytes)[i] == e[i - p.len()]);
            }
        }
    }
}

} // verus!
