use vstd::prelude::*;
use crate::error::CustomError;

verus! {

/// Longest display name of an identity, in bytes.
pub const MAX_USERNAME_LEN: usize = 32;

/// Longest content reference of a listing, in bytes.
pub const MAX_IPFS_HASH_LEN: usize = 64;

/// Longest reason of a dispute, in bytes.
pub const MAX_REASON_LEN: usize = 256;

/// The length of a text in bytes, as `str::len` gives it.
pub open spec fn text_len(s: Seq<char>) -> usize {
    vstd::utf8::encode_utf8(s).len() as usize
}

/// A bounded text: at least one byte and at most `max` bytes.
pub open spec fn text_within(s: Seq<char>, max: usize) -> bool {
    0 < text_len(s) && text_len(s) <= max
}

/// Accepts a text of 1 to `max` bytes; anything else is `InvalidInput`.
pub fn validate_text(s: &str, max: usize) -> (r: Result<(), CustomError>)
    ensures
        r == (if text_within(s@, max) {
            Ok::<(), CustomError>(())
        } else {
            Err(CustomError::InvalidInput)
        }),
{
    let n = s.len();
    if n > 0 && n <= max {
        Ok(())
    } else {
        Err(CustomError::InvalidInput)
    }
}

/// Accepts a dispute reason of 1 to `MAX_REASON_LEN` bytes.
pub fn validate_reason(reason: &str) -> (r: Result<(), CustomError>)
    ensures
        r == (if text_within(reason@, MAX_REASON_LEN) {
            Ok::<(), CustomError>(())
        } else {
            Err(CustomError::InvalidInput)
        }),
{
    validate_text(reason, MAX_REASON_LEN)
}

} // verus!
