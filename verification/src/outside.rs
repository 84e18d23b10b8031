//! Trusted declarations for the outside crates and for the few std functions
//! that vstd leaves unspecified. Everything else in this library is verified
//! against the contracts stated here.

use vstd::prelude::*;
use crypto::digest::Digest;

verus! {

/// Relies on `String::push`: appends the given character to the end of
/// the string.
pub assume_specification[ String::push ](s: &mut String, c: char)
    ensures
        final(s)@ == old(s)@.push(c),
;

/// Relies on `str`'s `PartialEq`: character-for-character equality.
#[verifier::external_body]
pub(crate) fn str_eq(a: &str, b: &str) -> (r: bool)
    ensures
        r == (a@ == b@),
{
    a == b
}

/// The lower-case hexadecimal MD5 digest of a character sequence. The digest
/// is a function of its input alone; its value is not modelled here.
pub uninterp spec fn md5_hex_of(s: Seq<char>) -> Seq<char>;

/// Relies on rust-crypto's `Md5` with `Digest::input_str` / `Digest::result_str`:
/// the lower-case hexadecimal digest of the input — 32 hex characters for
/// the 16-byte digest — a function of the input alone.
#[verifier::external_body]
pub(crate) fn md5_hex(s: &str) -> (r: String)
    ensures
        r@ == md5_hex_of(s@),
        r@.len() == 32,
        forall|i: int|
            0 <= i < 32 ==> ('0' <= #[trigger] r@[i] <= '9' || 'a' <= r@[i] <= 'f'),
{
    let mut hasher = crypto::md5::Md5::new();
    hasher.input_str(s);
    hasher.result_str()
}

/// Relies on uuid's version-4 generator for entropy. Nothing is promised of
/// the value: every caller handles every outcome.
#[verifier::external_body]
pub(crate) fn random_id_candidate() -> u64 {
    uuid::Uuid::new_v4().as_u64_pair().0
}

} // verus!
