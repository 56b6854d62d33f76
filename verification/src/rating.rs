//! The review rating input: the backend only accepts 1..=5, so the frontend
//! clamps what the user typed into that range.

use vstd::prelude::*;
use crate::decimal::{parse_u8, parse_unsigned};
use crate::text::{chars_of, trim_chars, trimmed};

verus! {

/// `n` brought into the range 1..=5.
pub open spec fn clamped(n: int) -> int {
    if n < 1 {
        1
    } else if n > 5 {
        5
    } else {
        n
    }
}

/// `n` clamped into 1..=5: below 1 gives 1, above 5 gives 5.
pub fn clamp_rating(n: u8) -> (r: u8)
    ensures
        r == clamped(n as int),
        1 <= r <= 5,
{
    if n < 1 {
        1
    } else if n > 5 {
        5
    } else {
        n
    }
}

/// The rating typed in `raw`: trimmed, read as a `u8`, then clamped; `None`
/// when the trimmed text is not a `u8`.
pub fn parse_rating(raw: &str) -> (r: Option<u8>)
    ensures
        match parse_unsigned(trimmed(raw@), 255) {
            Some(v) => r == Some(clamped(v as int) as u8),
            None => r is None,
        },
        r matches Some(v) ==> 1 <= v <= 5,
{
    let chars = chars_of(raw);
    let t = trim_chars(&chars);
    match parse_u8(&t) {
        Some(n) => Some(clamp_rating(n)),
        None => None,
    }
}

/// Clamping keeps a valid rating and is idempotent.
pub proof fn clamp_rating_laws(n: int)
    ensures
        1 <= n <= 5 ==> clamped(n) == n,
        clamped(clamped(n)) == clamped(n),
        1 <= clamped(n) <= 5,
{
}

} // verus!
