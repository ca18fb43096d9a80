use vstd::prelude::*;

use crate::config::{HashAlgorithm, TotpConfig};

verus! {

#[verifier::external_type_specification]
#[verifier::external_body]
pub struct ExSecretParseError(totp_rs::SecretParseError);

/// Why a secret text cannot serve as a TOTP key.
#[derive(Clone, Copy, Debug, PartialEq, Eq, Structural)]
pub enum ValidationError {
    /// The text is not base32 in the RFC 4648 alphabet, unpadded.
    InvalidEncoding,
    /// The text decodes to no key byte at all: HMAC needs a key.
    InvalidLength,
}


/// The HOTP code for a counter: HMAC of the counter under the key, dynamic
/// truncation, the value modulo `10^digits` written with `digits` digits.
pub uninterp spec fn hotp_code(algorithm: HashAlgorithm, key: Seq<u8>, digits: nat, counter: nat) -> Seq<char>;

pub open spec fn is_base32_char(c: char) -> bool {
    ('A' <= c && c <= 'Z') || ('2' <= c && c <= '7')
}

/// Every character is one of the 32 upper-case RFC 4648 symbols.
pub open spec fn is_base32_text(text: Seq<char>) -> bool {
    forall|i: int| 0 <= i < text.len() ==> is_base32_char(#[trigger] text[i])
}

pub open spec fn is_decimal_digits(s: Seq<char>) -> bool {
    forall|i: int| 0 <= i < s.len() ==> '0' <= #[trigger] s[i] && s[i] <= '9'
}

/// The five-bit value of a base32 symbol: `A`-`Z` are 0 to 25, `2`-`7` are
/// 26 to 31.
pub open spec fn base32_value(c: char) -> nat {
    if 'A' <= c && c <= 'Z' {
        (c as u32 - 'A' as u32) as nat
    } else {
        (c as u32 - '2' as u32 + 26) as nat
    }
}

/// Bit `i` of the text, counting from the high bit of the first symbol.
pub open spec fn base32_bit(text: Seq<char>, i: nat) -> nat {
    let v = base32_value(text[(i / 5) as int]);
    let r = i % 5;
    let w: nat = if r == 0 { 16 } else if r == 1 { 8 } else if r == 2 { 4 } else if r == 3 { 2 } else { 1 };
    (v / w) % 2
}

/// Byte `j` of the decoded key: bits `8j` to `8j + 7`, high bit first.
pub open spec fn base32_byte(text: Seq<char>, j: nat) -> u8 {
    let b = 8 * j;
    (128 * base32_bit(text, b) + 64 * base32_bit(text, b + 1) + 32 * base32_bit(text, b + 2)
        + 16 * base32_bit(text, b + 3) + 8 * base32_bit(text, b + 4) + 4 * base32_bit(text, b + 5)
        + 2 * base32_bit(text, b + 6) + base32_bit(text, b + 7)) as u8
}

/// The bytes that an unpadded RFC 4648 base32 text decodes to: five bits per
/// symbol, packed high bit first, the bits that do not fill a last byte
/// dropped.
pub open spec fn base32_bytes(text: Seq<char>) -> Seq<u8> {
    Seq::new(text.len() * 5 / 8, |j: int| base32_byte(text, j as nat))
}

/// What decoding a base32 text gives.
pub open spec fn decoded(text: Seq<char>) -> Option<Seq<u8>> {
    if is_base32_text(text) {
        Some(base32_bytes(text))
    } else {
        None
    }
}

/// What validating a secret text gives: its key, or why it has none.
pub open spec fn validated(text: Seq<char>) -> Result<Seq<u8>, ValidationError> {
    if !is_base32_text(text) {
        Err(ValidationError::InvalidEncoding)
    } else if text.len() * 5 / 8 == 0 {
        Err(ValidationError::InvalidLength)
    } else {
        Ok(base32_bytes(text))
    }
}

/// The code of a key at a Unix time, under a configuration.
pub open spec fn totp_code(config: TotpConfig, key: Seq<u8>, now: nat) -> Seq<char> {
    hotp_code(config.algorithm, key, config.digits as nat, now / (config.period as nat))
}

/// Relies on totp_rs::Secret::to_bytes of an encoded secret, which calls
/// base32::decode with the RFC 4648 alphabet and no padding: it fails exactly
/// when a character lies outside `A`-`Z` and `2`-`7` (`=` included), and
/// otherwise packs five bits per character, high bit first, into whole bytes.
#[verifier::external_body]
fn secret_to_bytes(text: &str) -> (r: Result<Vec<u8>, totp_rs::SecretParseError>)
    ensures
        r is Ok <==> is_base32_text(text@),
        r matches Ok(b) ==> b@ == base32_bytes(text@) && b@.len() == text@.len() * 5 / 8,
{
    totp_rs::Secret::Encoded(text.to_string()).to_bytes()
}

/// Relies on totp_rs::TOTP::generate, on an instance that holds these
/// parameters and key: it signs `time / step` with HMAC under the key, and
/// prints the truncated value modulo `10^digits` zero-padded to exactly
/// `digits` decimal digits. HMAC takes a key of any length, so it does not
/// panic; `step > 0` and `digits <= 8` keep its division and power in range.
#[verifier::external_body]
fn totp_generate(config: &TotpConfig, key: &Vec<u8>, time: u64) -> (r: String)
    requires
        config.wf(),
    ensures
        r@ == hotp_code(config.algorithm, key@, config.digits as nat, (time / config.period) as nat),
        r@.len() == config.digits,
        is_decimal_digits(r@),
{
    let algorithm = match config.algorithm {
        HashAlgorithm::Sha1 => totp_rs::Algorithm::SHA1,
        HashAlgorithm::Sha256 => totp_rs::Algorithm::SHA256,
        HashAlgorithm::Sha512 => totp_rs::Algorithm::SHA512,
    };
    let totp = totp_rs::TOTP {
        algorithm,
        digits: config.digits,
        skew: config.skew,
        step: config.period,
        secret: key.clone(),
    };
    totp.generate(time)
}

/// Decodes a base32 secret text into its key bytes.
pub fn decode_secret(text: &str) -> (r: Option<Vec<u8>>)
    ensures
        match r {
            Some(b) => decoded(text@) == Some(b@),
            None => decoded(text@) is None,
        },
        r matches Some(b) ==> b@.len() == text@.len() * 5 / 8,
{
    match secret_to_bytes(text) {
        Ok(b) => Some(b),
        Err(_) => None,
    }
}

/// Decodes a secret text and checks that it makes an HMAC key: it must be
/// base32 and decode to at least one byte.
pub fn validate_and_normalize(text: &str) -> (r: Result<Vec<u8>, ValidationError>)
    ensures
        match r {
            Ok(b) => validated(text@) == Ok::<Seq<u8>, ValidationError>(b@),
            Err(e) => validated(text@) == Err::<Seq<u8>, ValidationError>(e),
        },
{
    match decode_secret(text) {
        None => Err(ValidationError::InvalidEncoding),
        Some(key) => if key.len() == 0 {
            Err(ValidationError::InvalidLength)
        } else {
            Ok(key)
        },
    }
}

/// The current code for a key at Unix time `now`: `digits` decimal digits,
/// determined by the key and the time step that `now` falls in.
pub fn current_code(config: &TotpConfig, key: &Vec<u8>, now: u64) -> (r: String)
    requires
        config.wf(),
    ensures
        r@ == totp_code(*config, key@, now as nat),
        r@.len() == config.digits,
        is_decimal_digits(r@),
{
    totp_generate(config, key, now)
}

/// Two times in the same time step give the same code.
pub proof fn lemma_same_step_same_code(config: TotpConfig, key: Seq<u8>, t1: nat, t2: nat)
    requires
        config.wf(),
        t1 / (config.period as nat) == t2 / (config.period as nat),
    ensures
        totp_code(config, key, t1) == totp_code(config, key, t2),
{
}

} // verus!
