//! Password checks and the `username:password` payload of HTTP Basic auth.
use vstd::prelude::*;
use vstd::string::*;
use vstd::utf8::*;
use base64::Engine;
use crate::error::AuthError;
use crate::text::{find_char, find_char_from, lemma_find_char_bounds};

verus! {

/// The bytes that base64 (standard alphabet, padded) decodes `s` into, or `None`
/// where `s` is not such an encoding.
pub uninterp spec fn base64_standard_decoding(s: Seq<char>) -> Option<Seq<u8>>;

/// The verdict of bcrypt on a password and a stored hash: `None` where the hash
/// cannot be read as a bcrypt hash.
pub uninterp spec fn bcrypt_verdict(password: Seq<char>, hash: Seq<char>) -> Option<bool>;

/// A username and plaintext password read from a Basic-auth payload.
#[derive(Debug)]
pub struct DecodedCredentials {
    pub username: String,
    pub password: String,
}

/// The username and password that `text` holds: split at its first `:`, with
/// neither part empty.
pub open spec fn credentials_in(text: Seq<char>) -> Option<(Seq<char>, Seq<char>)> {
    let i = find_char(text, ':', 0);
    if i >= text.len() {
        None
    } else {
        let username = text.subrange(0, i);
        let password = text.subrange(i + 1, text.len() as int);
        if username.len() == 0 || password.len() == 0 {
            None
        } else {
            Some((username, password))
        }
    }
}

/// Relies on `String::from_utf8`: the text that valid UTF-8 bytes encode, nothing otherwise.
#[verifier::external_body]
fn utf8_text(bytes: Vec<u8>) -> (r: Option<String>)
    ensures
        match r {
            Some(s) => valid_utf8(bytes@) && s@ == decode_utf8(bytes@),
            None => !valid_utf8(bytes@),
        },
{
    String::from_utf8(bytes).ok()
}

/// Relies on base64's `STANDARD.decode`.
#[verifier::external_body]
fn base64_decode(encoded: &str) -> (r: Option<Vec<u8>>)
    ensures
        match r {
            Some(v) => base64_standard_decoding(encoded@) == Some(v@),
            None => base64_standard_decoding(encoded@) is None,
        },
{
    base64::engine::general_purpose::STANDARD.decode(encoded.as_bytes()).ok()
}

/// Relies on `bcrypt::verify`, which recomputes the hash with the stored salt and cost.
#[verifier::external_body]
fn bcrypt_verify(password: &str, hash: &str) -> (r: Option<bool>)
    ensures
        r == bcrypt_verdict(password@, hash@),
{
    bcrypt::verify(password, hash).ok()
}

/// Relies on `bcrypt::hash`: the salt is random, and `bcrypt::verify` accepts the
/// password against the hash produced.
#[verifier::external_body]
fn bcrypt_hash(password: &str, cost: u32) -> (r: Option<String>)
    ensures
        r matches Some(h) ==> bcrypt_verdict(password@, h@) == Some(true),
{
    bcrypt::hash(password, cost).ok()
}

/// Hash a password with bcrypt at the given cost.
pub fn hash_password(password: &str, cost: u32) -> (r: Result<String, AuthError>)
    ensures
        match r {
            Ok(h) => bcrypt_verdict(password@, h@) == Some(true),
            Err(e) => e == AuthError::HashFailure,
        },
{
    match bcrypt_hash(password, cost) {
        Some(h) => Ok(h),
        None => Err(AuthError::HashFailure),
    }
}

/// Verify a password against a stored bcrypt hash.
pub fn verify_password(hash: &str, password: &str) -> (r: Result<bool, AuthError>)
    ensures
        r == match bcrypt_verdict(password@, hash@) {
            Some(b) => Ok::<bool, AuthError>(b),
            None => Err(AuthError::InvalidHash),
        },
{
    match bcrypt_verify(password, hash) {
        Some(b) => Ok(b),
        None => Err(AuthError::InvalidHash),
    }
}

/// Read `username:password` from decoded Basic-auth bytes. The split is at the
/// first `:`, so the password may itself hold `:`.
pub fn decode_base64_credentials(bytes: Vec<u8>) -> (r: Result<DecodedCredentials, AuthError>)
    ensures
        match r {
            Ok(c) => valid_utf8(bytes@) && credentials_in(decode_utf8(bytes@)) == Some(
                (c.username@, c.password@),
            ),
            Err(e) => e == AuthError::BadCredentials && (!valid_utf8(bytes@) || credentials_in(
                decode_utf8(bytes@),
            ) is None),
        },
{
    let ghost b = bytes@;
    let decoded = match utf8_text(bytes) {
        Some(s) => s,
        None => return Err(AuthError::BadCredentials),
    };
    let text = decoded.as_str();
    let n = text.unicode_len();
    let i = find_char_from(text, ':', 0);
    proof {
        lemma_find_char_bounds(text@, ':', 0);
    }
    if i >= n {
        return Err(AuthError::BadCredentials);
    }
    let username = text.substring_char(0, i);
    let password = text.substring_char(i + 1, n);
    if username.unicode_len() == 0 || password.unicode_len() == 0 {
        return Err(AuthError::BadCredentials);
    }
    Ok(DecodedCredentials { username: username.to_owned(), password: password.to_owned() })
}

/// Decode the base64 payload of a `Basic` authorization header into credentials.
pub fn decode_basic_payload(encoded: &str) -> (r: Option<Result<DecodedCredentials, AuthError>>)
    ensures
        match r {
            None => base64_standard_decoding(encoded@) is None,
            Some(inner) => {
                &&& base64_standard_decoding(encoded@) is Some
                &&& match inner {
                    Ok(c) => {
                        let b = base64_standard_decoding(encoded@)->Some_0;
                        valid_utf8(b) && credentials_in(decode_utf8(b)) == Some(
                            (c.username@, c.password@),
                        )
                    },
                    Err(e) => {
                        let b = base64_standard_decoding(encoded@)->Some_0;
                        e == AuthError::BadCredentials && (!valid_utf8(b) || credentials_in(
                            decode_utf8(b),
                        ) is None)
                    },
                }
            },
        },
{
    match base64_decode(encoded) {
        None => None,
        Some(bytes) => Some(decode_base64_credentials(bytes)),
    }
}

} // verus!
