//! Cryptographic and encoding capabilities used by the pipeline and the
//! verifier: hashing, base64 and hex, JSON string quoting and AES-SIV
//! authenticated encryption.
use vstd::prelude::*;
use vstd::utf8::encode_utf8;
use aes_siv::siv::Aes128Siv;
use aes_siv::KeyInit;
use sha2::Digest;

verus! {

/// A derived symmetric key: the two 128-bit halves of an AES-SIV key.
pub type AesKey = [u8; 32];

/// The SHA-256 digest of a byte string.
pub uninterp spec fn sha256_of(data: Seq<u8>) -> Seq<u8>;

/// The AES-SIV (RFC 5297) ciphertext of `plaintext` under `key`, with one
/// empty associated-data header: the 16-byte synthetic IV followed by the
/// encrypted bytes.
pub uninterp spec fn siv_seal_of(key: Seq<u8>, plaintext: Seq<u8>) -> Seq<u8>;

/// The standard base64 digit for a 6-bit value: `A-Z`, `a-z`, `0-9`, `+`, `/`.
pub open spec fn base64_digit(v: int) -> char {
    if v < 26 {
        (65 + v) as char
    } else if v < 52 {
        (71 + v) as char
    } else if v < 62 {
        (v - 4) as char
    } else if v == 62 {
        '+'
    } else {
        '/'
    }
}

/// The standard (padded) base64 text of a byte string: four digits for each
/// group of three bytes, the last group padded with `=`.
pub open spec fn base64_of(data: Seq<u8>) -> Seq<char>
    decreases data.len(),
{
    if data.len() == 0 {
        Seq::empty()
    } else if data.len() == 1 {
        seq![base64_digit((data[0] as int) / 4), base64_digit(((data[0] as int) % 4) * 16), '=', '=']
    } else if data.len() == 2 {
        seq![
            base64_digit((data[0] as int) / 4),
            base64_digit(((data[0] as int) % 4) * 16 + (data[1] as int) / 16),
            base64_digit(((data[1] as int) % 16) * 4),
            '=',
        ]
    } else {
        seq![
            base64_digit((data[0] as int) / 4),
            base64_digit(((data[0] as int) % 4) * 16 + (data[1] as int) / 16),
            base64_digit(((data[1] as int) % 16) * 4 + (data[2] as int) / 64),
            base64_digit((data[2] as int) % 64),
        ] + base64_of(data.subrange(3, data.len() as int))
    }
}

/// The bytes that a standard base64 text decodes to, if it is valid.
pub uninterp spec fn base64_decoded(text: Seq<u8>) -> Option<Seq<u8>>;

/// A lower-case hex digit.
pub open spec fn hex_digit_lower(d: u8) -> u8 {
    if d < 10 {
        (0x30 + d) as u8
    } else {
        (0x57 + d) as u8
    }
}

/// How a JSON string writes one byte of its text: quote and backslash get a
/// backslash, five control characters get their short escape, other control
/// characters `\u00xx`, and every other byte stands for itself.
pub open spec fn json_escape_byte(b: u8) -> Seq<u8> {
    if b == 0x22 {
        seq![0x5cu8, 0x22u8]
    } else if b == 0x5c {
        seq![0x5cu8, 0x5cu8]
    } else if b == 0x08 {
        seq![0x5cu8, 0x62u8]
    } else if b == 0x09 {
        seq![0x5cu8, 0x74u8]
    } else if b == 0x0a {
        seq![0x5cu8, 0x6eu8]
    } else if b == 0x0c {
        seq![0x5cu8, 0x66u8]
    } else if b == 0x0d {
        seq![0x5cu8, 0x72u8]
    } else if b < 0x20 {
        seq![0x5cu8, 0x75u8, 0x30u8, 0x30u8, hex_digit_lower(b / 16), hex_digit_lower(b % 16)]
    } else {
        seq![b]
    }
}

/// The escaped bytes of a text inside a JSON string.
pub open spec fn json_escaped(s: Seq<u8>) -> Seq<u8>
    decreases s.len(),
{
    if s.len() == 0 {
        Seq::empty()
    } else {
        json_escaped(s.drop_last()) + json_escape_byte(s.last())
    }
}

/// The JSON string literal for a text: its UTF-8 bytes, escaped, between
/// double quotes.
pub open spec fn json_string_of(text: Seq<char>) -> Seq<u8> {
    seq![0x22u8] + json_escaped(encode_utf8(text)) + seq![0x22u8]
}

/// Relies on sha2::Sha256::digest: the 32-byte SHA-256 digest of the input.
#[verifier::external_body]
pub(crate) fn sha256(data: &[u8]) -> (r: Vec<u8>)
    ensures
        r@ == sha256_of(data@),
        r@.len() == 32,
{
    sha2::Sha256::digest(data).to_vec()
}

/// Relies on aes_siv::siv::Aes128Siv::encrypt with a single empty header:
/// deterministic, and it fails only with more headers than the crate allows.
#[verifier::external_body]
pub(crate) fn siv_encrypt(key: &AesKey, plaintext: &[u8]) -> (r: Option<Vec<u8>>)
    ensures
        r is Some,
        r->0@ == siv_seal_of(key@, plaintext@),
        r->0@.len() == plaintext@.len() + 16,
{
    let empty: &[u8] = &[];
    let mut cipher = Aes128Siv::new(aes_siv::Key::<Aes128Siv>::from_slice(&key[..]));
    cipher.encrypt([empty], plaintext).ok()
}

/// Relies on aes_siv::siv::Aes128Siv::decrypt with a single empty header: it
/// succeeds exactly on the ciphertexts that the same key produced, and gives
/// back their plaintext.
#[verifier::external_body]
pub(crate) fn siv_decrypt(key: &AesKey, ciphertext: &[u8]) -> (r: Option<Vec<u8>>)
    ensures
        r is Some ==> siv_seal_of(key@, r->0@) == ciphertext@,
        forall|p: Seq<u8>|
            #[trigger] siv_seal_of(key@, p) == ciphertext@ ==> (r is Some && r->0@ == p),
{
    let empty: &[u8] = &[];
    let mut cipher = Aes128Siv::new(aes_siv::Key::<Aes128Siv>::from_slice(&key[..]));
    cipher.decrypt([empty], ciphertext).ok()
}

/// Relies on base64::encode (the STANDARD configuration: standard alphabet,
/// padded): the base64 text of the input.
#[verifier::external_body]
pub(crate) fn base64_encode(data: &[u8]) -> (r: String)
    ensures
        r@ == base64_of(data@),
{
    base64::encode(data)
}

/// Relies on base64::decode: the bytes of a standard base64 text, or an
/// error when the text is not valid base64; the text of `base64::encode`
/// decodes back to the encoded bytes.
#[verifier::external_body]
pub(crate) fn base64_decode(text: &[u8]) -> (r: Option<Vec<u8>>)
    ensures
        r is Some <==> base64_decoded(text@) is Some,
        r is Some ==> r->0@ == base64_decoded(text@)->0,
        forall|c: Seq<u8>| #[trigger] encode_utf8(base64_of(c)) == text@ ==> (r is Some && r->0@ == c),
{
    base64::decode(text).ok()
}

/// Relies on serde_json::to_vec on a `str` (format_escaped_str and its ESCAPE
/// table): the quoted, escaped JSON string. Writing into a `Vec` cannot fail.
#[verifier::external_body]
pub(crate) fn json_string(text: &str) -> (r: Vec<u8>)
    ensures
        r@ == json_string_of(text@),
{
    serde_json::to_vec(text).unwrap_or_default()
}

/// The value of one hex digit, upper or lower case.
pub open spec fn hex_digit_value(c: u8) -> Option<u8> {
    if 0x30 <= c && c <= 0x39 {
        Some((c - 0x30) as u8)
    } else if 0x41 <= c && c <= 0x46 {
        Some((c - 0x41 + 10) as u8)
    } else if 0x61 <= c && c <= 0x66 {
        Some((c - 0x61 + 10) as u8)
    } else {
        None
    }
}

/// Whether every byte of a text is a hex digit.
pub open spec fn all_hex_digits(text: Seq<u8>) -> bool {
    forall|i: int| 0 <= i < text.len() ==> (#[trigger] hex_digit_value(text[i])) is Some
}

/// The bytes that a hex text stands for: two digits per byte, high digit
/// first.
pub open spec fn hex_bytes(text: Seq<u8>) -> Seq<u8> {
    Seq::new(
        text.len() / 2,
        |i: int| (hex_digit_value(text[2 * i])->0 * 16 + hex_digit_value(text[2 * i + 1])->0) as u8,
    )
}

/// Relies on hex::decode: a text of even length made of hex digits decodes to
/// one byte per pair of digits; anything else is an error.
#[verifier::external_body]
pub(crate) fn hex_decode(text: &[u8]) -> (r: Option<Vec<u8>>)
    ensures
        r is Some <==> (text@.len() % 2 == 0 && all_hex_digits(text@)),
        r is Some ==> r->0@ == hex_bytes(text@),
{
    hex::decode(text).ok()
}

} // verus!
