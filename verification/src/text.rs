//! Trusted text operations at the boundary of the verified core.
//!
//! Datagram payloads are UTF-8 text decoded lossily, and the knock-knock
//! variants display trimmed text. Both operations are deterministic functions
//! of their input characters or bytes alone, so each gets an uninterpreted
//! name that the contracts of the rest of the library speak of exactly.

use vstd::prelude::*;

verus! {

/// The text that lossy UTF-8 decoding yields for a given byte sequence:
/// maximal valid UTF-8 runs decoded as-is, every invalid sequence replaced.
/// It depends on the bytes alone.
pub uninterp spec fn lossy_decode(bytes: Seq<u8>) -> Seq<char>;

/// Relies on `String::from_utf8_lossy`: decodes UTF-8 text, replacing invalid
/// byte sequences with the replacement character, never rejecting input; the
/// result depends on the bytes alone.
#[verifier::external_body]
pub(crate) fn decode_lossy(bytes: &[u8]) -> (r: String)
    ensures
        r@ == lossy_decode(bytes@),
{
    String::from_utf8_lossy(bytes).to_string()
}

/// The text that trimming yields for a given character sequence: the input
/// without leading and trailing whitespace. It depends on the characters
/// alone.
pub uninterp spec fn trim_of(s: Seq<char>) -> Seq<char>;

/// Relies on `str::trim`: removes leading and trailing whitespace characters;
/// the result depends on the characters alone.
#[verifier::external_body]
pub(crate) fn trim_ws(s: &str) -> (r: String)
    ensures
        r@ == trim_of(s@),
{
    s.trim().to_string()
}

} // verus!
