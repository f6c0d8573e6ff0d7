//! The few places where this library relies on code it does not verify:
//! string primitives of the standard library, the clock, the UUID generator
//! and the Base64 codec. Each item states in its documentation what is taken
//! on trust.

use crate::error::DecodeFailure;
use base64::Engine;
use vstd::prelude::*;

verus! {

/// `std::time::Instant`, a point on the monotonic clock. Opaque to proofs.
#[verifier::external_type_specification]
#[verifier::external_body]
pub struct ExInstant(std::time::Instant);

/// The bytes that the standard Base64 alphabet with canonical padding assigns
/// to `text`, or the reason why `text` is not such an encoding.
pub uninterp spec fn standard_base64_decoding(text: Seq<char>) -> Result<Seq<u8>, DecodeFailure>;

/// What decoding yields for a text that encodes `bytes`.
pub open spec fn decoded(bytes: Seq<u8>) -> Result<Seq<u8>, DecodeFailure> {
    Ok(bytes)
}

/// What decoding yields for a text that is refused for the reason
/// `failure`.
pub open spec fn refused(failure: DecodeFailure) -> Result<Seq<u8>, DecodeFailure> {
    Err(failure)
}

/// The standard, padded Base64 text of `bytes`.
pub uninterp spec fn standard_base64_encoding(bytes: Seq<u8>) -> Seq<char>;

/// Trusted: `str == str` of the standard library compares the two texts
/// character by character.
#[verifier::external_body]
pub(crate) fn str_equal(a: &str, b: &str) -> (same: bool)
    ensures
        same == (a@ == b@),
{
    a == b
}

/// Trusted: `str::starts_with` with a string pattern tells whether `prefix`
/// is an initial segment of `text`.
#[verifier::external_body]
pub(crate) fn str_starts_with(text: &str, prefix: &str) -> (found: bool)
    ensures
        found == prefix@.is_prefix_of(text@),
{
    text.starts_with(prefix)
}

/// Trusted: `String::push` appends exactly one character.
#[verifier::external_body]
pub(crate) fn string_push(text: &mut String, c: char)
    ensures
        final(text)@ == old(text)@.push(c),
{
    text.push(c)
}

/// Trusted: `Instant::now` reads the monotonic clock. Nothing is claimed
/// about the value read.
#[verifier::external_body]
pub(crate) fn instant_now() -> std::time::Instant {
    std::time::Instant::now()
}

/// Trusted: `Instant::elapsed` measures the time since `start`. Nothing is
/// claimed about the measurement.
#[verifier::external_body]
pub(crate) fn instant_elapsed(start: &std::time::Instant) -> std::time::Duration {
    start.elapsed()
}

/// Trusted: `Duration::as_secs` gives the whole seconds of a duration.
/// Nothing is claimed about the number.
#[verifier::external_body]
pub(crate) fn duration_seconds(span: &std::time::Duration) -> u64 {
    span.as_secs()
}

/// Trusted: `uuid::Uuid::new_v4` draws a random UUID, and its `Display`
/// form is the hyphenated notation, which is always 36 characters long.
/// Nothing is claimed about which identifier is drawn.
#[verifier::external_body]
pub(crate) fn random_uuid_text() -> (id: String)
    ensures
        id@.len() == 36,
{
    uuid::Uuid::new_v4().to_string()
}

/// Trusted: `Engine::decode` of `base64::engine::general_purpose::STANDARD`
/// returns the decoded bytes of a well-formed text and a
/// `base64::DecodeError` for any other text; the outcome depends on the
/// text alone. The error is handed on variant by variant.
#[verifier::external_body]
pub(crate) fn base64_decode(text: &str) -> (outcome: Result<Vec<u8>, DecodeFailure>)
    ensures
        match outcome {
            Ok(bytes) => standard_base64_decoding(text@) == decoded(bytes@),
            Err(failure) => standard_base64_decoding(text@) == refused(failure),
        },
{
    match base64::engine::general_purpose::STANDARD.decode(text) {
        Ok(bytes) => Ok(bytes),
        Err(base64::DecodeError::InvalidByte(offset, byte)) => {
            Err(DecodeFailure::InvalidByte { offset, byte })
        },
        Err(base64::DecodeError::InvalidLength(length)) => Err(DecodeFailure::InvalidLength(length)),
        Err(base64::DecodeError::InvalidLastSymbol(offset, byte)) => {
            Err(DecodeFailure::InvalidLastSymbol { offset, byte })
        },
        Err(base64::DecodeError::InvalidPadding) => Err(DecodeFailure::InvalidPadding),
    }
}

/// Trusted: `Engine::encode` of `base64::engine::general_purpose::STANDARD`
/// returns a text that depends on the bytes alone and that the same engine
/// decodes back to them. The length bound keeps the size computation of
/// the encoder from overflowing.
#[verifier::external_body]
pub(crate) fn base64_encode(bytes: &Vec<u8>) -> (text: String)
    requires
        bytes@.len() <= usize::MAX / 2,
    ensures
        text@ == standard_base64_encoding(bytes@),
        standard_base64_decoding(text@) == decoded(bytes@),
{
    base64::engine::general_purpose::STANDARD.encode(bytes)
}

} // verus!
