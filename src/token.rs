use vstd::prelude::*;

use crate::error::AppError;
use crate::model::TokenClaims;

verus! {

/// How long a token stays valid after it is issued: 60 minutes.
pub const TOKEN_LIFETIME_SECS: usize = 3600;

/// The claims issued for `subject` at time `now`: issued now, expiring one
/// lifetime later; none where that instant does not fit in a `usize`.
pub open spec fn issued(subject: String, now: int) -> Option<TokenClaims> {
    if 0 <= now && now + TOKEN_LIFETIME_SECS <= usize::MAX {
        Some(TokenClaims { sub: subject, iat: now as usize, exp: (now + TOKEN_LIFETIME_SECS) as usize })
    } else {
        None
    }
}

/// The result of checking decoded claims at time `now`: a token that could
/// not be decoded, or whose expiry is not after `now`, is invalid.
pub open spec fn verified(decoded: Option<TokenClaims>, now: int) -> Result<TokenClaims, AppError> {
    match decoded {
        None => Err(AppError::InvalidToken),
        Some(c) => if now < c.exp {
            Ok(c)
        } else {
            Err(AppError::InvalidToken)
        },
    }
}

/// Relies on `chrono::Utc::now` and `DateTime::timestamp`: the current time in
/// seconds since the Unix epoch, nothing promised of its value.
#[verifier::external_body]
pub(crate) fn current_time() -> (r: usize) {
    chrono::Utc::now().timestamp() as usize
}

/// The claims for a token issued to `subject` at time `now`.
pub fn issue_claims_at(subject: String, now: usize) -> (r: Option<TokenClaims>)
    ensures
        r == issued(subject, now as int),
{
    match now.checked_add(TOKEN_LIFETIME_SECS) {
        Some(exp) => Some(TokenClaims { sub: subject, iat: now, exp }),
        None => None,
    }
}

/// The claims for a token issued to `subject` now.
pub fn issue_claims(subject: String) -> (r: Option<TokenClaims>)
    ensures
        r matches Some(c) ==> (c.sub == subject && c.exp == c.iat + TOKEN_LIFETIME_SECS),
{
    let now = current_time();
    issue_claims_at(subject, now)
}

/// Checks claims decoded from a token (signature already checked) at time `now`.
pub fn verify_claims_at(decoded: Option<TokenClaims>, now: usize) -> (r: Result<TokenClaims, AppError>)
    ensures
        r == verified(decoded, now as int),
{
    match decoded {
        None => Err(AppError::InvalidToken),
        Some(c) => if now < c.exp {
            Ok(c)
        } else {
            Err(AppError::InvalidToken)
        },
    }
}

/// Checks claims decoded from a token (signature already checked) now.
pub fn verify_claims(decoded: Option<TokenClaims>) -> (r: Result<TokenClaims, AppError>)
    ensures
        decoded is None ==> r == Err::<TokenClaims, AppError>(AppError::InvalidToken),
        decoded matches Some(c) ==> (r == Ok::<TokenClaims, AppError>(c) || r
            == Err::<TokenClaims, AppError>(AppError::InvalidToken)),
{
    let now = current_time();
    verify_claims_at(decoded, now)
}

/// A token issued at `now` is still accepted one second before it expires
/// and refused one second after.
pub proof fn lemma_expiry_boundary(subject: String, now: int)
    requires
        0 <= now,
        now + TOKEN_LIFETIME_SECS <= usize::MAX,
    ensures
        issued(subject, now) matches Some(c) && verified(Some(c), c.exp - 1) == Ok::<
            TokenClaims,
            AppError,
        >(c) && verified(Some(c), c.exp + 1) == Err::<TokenClaims, AppError>(
            AppError::InvalidToken,
        ),
{
}

} // verus!
