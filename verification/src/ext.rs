//! Trusted wrappers around outside calls.
//!
//! Each function here makes exactly one call into an outside crate, or
//! into a part of std that vstd gives no specification; its contract
//! states what that call's source shows, and nothing more.

use vstd::prelude::*;

verus! {

/// Relies on String::push: appends exactly the one character.
#[verifier::external_body]
pub fn push_char(out: &mut String, c: char)
    ensures
        final (out)@ == old(out)@ + seq![c],
{
    out.push(c);
}

/// Relies on ulid::Ulid::generate and ulid::Ulid::to_string: a fresh ULID
/// rendered as 26 characters of Crockford base32 (digits and upper-case
/// letters, so never a `'#'`).  The value depends on the clock and on
/// randomness, so nothing is said of which ULID comes back.
#[verifier::external_body]
pub fn mint_ulid() -> (r: String)
    ensures
        r@.len() == 26,
        crate::keys::no_hash(r@),
{
    ulid::Ulid::generate().to_string()
}

/// Relies on chrono::Utc::now and chrono::DateTime::timestamp_millis:
/// the current wall-clock time in milliseconds since the epoch.  The
/// value depends on the clock, so nothing is said of it.
#[verifier::external_body]
pub fn now_ms() -> (r: i64)
{
    chrono::Utc::now().timestamp_millis()
}

} // verus!
