//! What a request carries about the one who sent it, and when a token
//! counts as expired.

use vstd::prelude::*;

verus! {

/// Whom an access token stands for.
#[derive(Clone, Copy, Debug, PartialEq, Eq, Structural)]
pub struct AccessTokenDescription {
    pub user_id: i64,
    pub has_support_privilege: bool,
}

/// Where a request came from.
#[derive(Clone, Debug)]
pub struct RequestDescription {
    pub ip: String,
}

/// What the captcha service answered.
#[derive(Debug)]
pub struct RecaptchaResponse {
    pub success: bool,
    pub error_codes: Option<Vec<String>>,
}

/// What a verified pair of tokens says of its owner.
#[derive(Clone, Copy, Debug, PartialEq, Eq, Structural)]
pub struct TokenData {
    pub userid: i64,
    pub has_support_privilege: bool,
}

/// Whether the moment `compare` has come at `now`, or comes in less than
/// `range` seconds.
pub fn is_timestamp_close_to_expire_or_expired(now: i64, compare: i64, range: i64) -> (r: bool)
    ensures
        r == (now >= compare || compare - now < range),
{
    if now >= compare {
        return true;
    }
    match compare.checked_sub(now) {
        Some(left) => left < range,
        None => false,
    }
}

/// Whether the moment `compare` lies before `now`.
pub fn is_timestamp_expired(now: i64, compare: i64) -> (r: bool)
    ensures
        r == (now > compare),
{
    now > compare
}

} // verus!
