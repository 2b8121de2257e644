use vstd::prelude::*;
use vstd::arithmetic::power2::pow2;
use vstd::string::StringExecFns;

use crate::error::{AppError, Result};
use crate::greenlight::hex_digit;

verus! {

/// How long a session token stays valid: 24 hours, in seconds.
pub const TOKEN_LIFETIME_SECS: i64 = 86_400;

/// The account id that a text names as a UUID, if it is one.
pub uninterp spec fn uuid_parsed(text: Seq<char>) -> Option<u128>;

/// The `k`-th of the 32 hexadecimal digits of an id, most significant first.
pub open spec fn uuid_nibble(id: u128, k: int) -> int {
    (id as int / pow2((4 * (31 - k)) as nat) as int) % 16
}

/// The lowercase hexadecimal digits `from` to `to` (exclusive) of an id.
pub open spec fn uuid_digits(id: u128, from: int, to: int) -> Seq<char> {
    Seq::new((to - from) as nat, |j: int| hex_digit(uuid_nibble(id, from + j)))
}

/// The hyphenated lowercase form of an id: 8-4-4-4-12 hexadecimal digits.
pub open spec fn uuid_hyphenated(id: u128) -> Seq<char> {
    uuid_digits(id, 0, 8) + seq!['-'] + uuid_digits(id, 8, 12) + seq!['-'] + uuid_digits(id, 12, 16)
        + seq!['-'] + uuid_digits(id, 16, 20) + seq!['-'] + uuid_digits(id, 20, 32)
}

/// Relies on uuid's `Uuid::from_u128` and its `Display`: the hyphenated
/// lowercase form of the big-endian id, which `Uuid::parse_str` reads back as
/// the same id.
#[verifier::external_body]
fn uuid_text(id: u128) -> (r: String)
    ensures
        r@ == uuid_hyphenated(id),
        uuid_parsed(r@) == Some(id),
{
    uuid::Uuid::from_u128(id).to_string()
}

/// Relies on uuid's `Uuid::parse_str` and `Uuid::as_u128`.
#[verifier::external_body]
fn uuid_from_text(s: &str) -> (r: Option<u128>)
    ensures
        r == uuid_parsed(s@),
{
    uuid::Uuid::parse_str(s).ok().map(|u| u.as_u128())
}

/// The claims a session token carries: the account id, and when the token was
/// issued and expires, in seconds since the Unix epoch.
pub struct Claims {
    pub sub: String,
    pub exp: i64,
    pub iat: i64,
}

impl Claims {
    /// The claims of a token issued now for the account: valid for 24 hours.
    pub fn issue(user_id: u128, now: i64) -> (r: Claims)
        requires
            now <= i64::MAX - TOKEN_LIFETIME_SECS,
        ensures
            r.iat == now,
            r.exp == now + TOKEN_LIFETIME_SECS,
            r.sub@ == uuid_hyphenated(user_id),
            uuid_parsed(r.sub@) == Some(user_id),
    {
        Claims { sub: uuid_text(user_id), exp: now + TOKEN_LIFETIME_SECS, iat: now }
    }

    /// The account id the claims name; a subject that is not a UUID is an
    /// `Authentication` error.
    pub fn user_id(&self) -> (r: Result<u128>)
        ensures
            r is Ok <==> uuid_parsed(self.sub@) is Some,
            r matches Ok(id) ==> uuid_parsed(self.sub@) == Some(id),
            r matches Err(e) ==> e is Authentication,
    {
        match uuid_from_text(self.sub.as_str()) {
            Some(id) => Ok(id),
            None => Err(AppError::Authentication(String::from_str("Invalid user ID in token"))),
        }
    }
}

} // verus!
