use vstd::prelude::*;

use crate::error::AppError;
use crate::model::{TokenClaims, User};
use crate::session::{flag_of, SessionFlags};
use crate::text::{has_prefix, strip_prefix};
use crate::token::{current_time, issued, verified, verify_claims_at, TOKEN_LIFETIME_SECS};

verus! {

/// What a request presented as its token, once the signature was checked:
/// nothing, a token that does not decode under the server secret, or the
/// claims of one that does.
#[derive(Debug, Clone, PartialEq, Eq)]
pub enum TokenState {
    Absent,
    Undecodable,
    Decoded(TokenClaims),
}

/// The token a request carries: the `token` cookie when there is one, else
/// what follows `Bearer ` in the `Authorization` header.
pub open spec fn token_of(cookie: Option<String>, authorization: Option<String>) -> Option<Seq<char>> {
    match cookie {
        Some(c) => Some(c@),
        None => match authorization {
            Some(h) => if has_prefix(h@, "Bearer "@) {
                Some(h@.subrange("Bearer "@.len() as int, h@.len() as int))
            } else {
                None
            },
            None => None,
        },
    }
}

/// Takes the token out of a request's cookie or `Authorization` header.
pub fn extract_token(cookie: Option<String>, authorization: Option<String>) -> (r: Option<String>)
    ensures
        r matches Some(t) ==> token_of(cookie, authorization) == Some(t@),
        r is None ==> token_of(cookie, authorization) is None,
        cookie is Some ==> r == cookie,
{
    match cookie {
        Some(c) => Some(c),
        None => match authorization {
            Some(h) => strip_prefix(h.as_str(), "Bearer "),
            None => None,
        },
    }
}

/// The first half of authorization: the subject of the presented token at time
/// `now`, or why the request is refused.
pub open spec fn token_subject(token: TokenState, now: int) -> Result<String, AppError> {
    match token {
        TokenState::Absent => Err(AppError::NoToken),
        TokenState::Undecodable => Err(AppError::InvalidToken),
        TokenState::Decoded(c) => match verified(Some(c), now) {
            Ok(v) => Ok(v.sub),
            Err(e) => Err(e),
        },
    }
}

/// The second half of authorization: the user the store found for the subject.
/// A failing store and a missing user both mean the user is gone.
pub open spec fn subject_user(lookup: Result<Option<User>, String>) -> Result<User, AppError> {
    match lookup {
        Ok(Some(u)) => Ok(u),
        _ => Err(AppError::UserGone),
    }
}

/// The authorization decision for a request: refused with a reason, or the user
/// the request acts for. `lookup` is what the store answered for the
/// token's subject; it only counts once the token is valid.
pub open spec fn authorize(token: TokenState, now: int, lookup: Result<Option<User>, String>) -> Result<User, AppError> {
    match token_subject(token, now) {
        Err(e) => Err(e),
        Ok(_) => subject_user(lookup),
    }
}

/// The session after authorization decided `outcome`: the flag records whether
/// the request was let through; the time zone stays.
pub open spec fn session_after(s: SessionFlags, outcome: Result<User, AppError>) -> SessionFlags {
    SessionFlags { from_protected: Some(outcome is Ok), ..s }
}

/// Checks the presented token at time `now`. A refusal is final and clears
/// the session flag; on success the subject is returned for the user lookup
/// and the session is left for `gate_lookup` to update.
pub fn gate_token_at(token: TokenState, now: usize, session: &mut SessionFlags) -> (r: Result<String, AppError>)
    ensures
        r == token_subject(token, now as int),
        r is Err ==> *final(session) == session_after(*old(session), Err(r->Err_0)),
        r is Ok ==> *final(session) == *old(session),
{
    let checked = match token {
        TokenState::Absent => Err(AppError::NoToken),
        TokenState::Undecodable => Err(AppError::InvalidToken),
        TokenState::Decoded(c) => match verify_claims_at(Some(c), now) {
            Ok(v) => Ok(v.sub),
            Err(e) => Err(e),
        },
    };
    if checked.is_err() {
        session.set_flag(false);
    }
    checked
}

/// Checks the presented token now.
pub fn gate_token(token: TokenState, session: &mut SessionFlags) -> (r: Result<String, AppError>)
    ensures
        token is Absent ==> r == Err::<String, AppError>(AppError::NoToken),
        token is Undecodable ==> r == Err::<String, AppError>(AppError::InvalidToken),
        token matches TokenState::Decoded(c) ==> (r == Ok::<String, AppError>(c.sub) || r
            == Err::<String, AppError>(AppError::InvalidToken)),
        r is Err ==> *final(session) == session_after(*old(session), Err(r->Err_0)),
        r is Ok ==> *final(session) == *old(session),
{
    let now = current_time();
    gate_token_at(token, now, session)
}

/// Finishes authorization with the store's answer for the token's subject, and
/// records the outcome in the session flag.
pub fn gate_lookup(lookup: Result<Option<User>, String>, session: &mut SessionFlags) -> (r: Result<User, AppError>)
    ensures
        r == subject_user(lookup),
        *final(session) == session_after(*old(session), r),
{
    let outcome = match lookup {
        Ok(Some(u)) => Ok(u),
        _ => Err(AppError::UserGone),
    };
    session.set_flag(outcome.is_ok());
    outcome
}

/// A request whose token has expired is refused and clears the flag; the
/// same request retried with a token freshly issued to the same subject,
/// whose user exists, is let through and sets the flag.
pub proof fn lemma_expired_then_fresh(
    s: SessionFlags,
    expired: TokenClaims,
    now: int,
    lookup: Result<Option<User>, String>,
    u: User,
)
    requires
        expired.exp <= now,
        0 <= now,
        now + TOKEN_LIFETIME_SECS <= usize::MAX,
    ensures
        authorize(TokenState::Decoded(expired), now, lookup) == Err::<User, AppError>(
            AppError::InvalidToken,
        ),
        !flag_of(session_after(s, authorize(TokenState::Decoded(expired), now, lookup))),
        issued(expired.sub, now) matches Some(fresh) && authorize(
            TokenState::Decoded(fresh),
            now,
            Ok(Some(u)),
        ) == Ok::<User, AppError>(u) && flag_of(
            session_after(
                session_after(s, authorize(TokenState::Decoded(expired), now, lookup)),
                authorize(TokenState::Decoded(fresh), now, Ok(Some(u))),
            ),
        ),
{
}

/// Running authorization twice on the same request gives the same outcome and
/// leaves the session as one run does.
pub proof fn lemma_gate_idempotent(
    s: SessionFlags,
    token: TokenState,
    now: int,
    lookup: Result<Option<User>, String>,
)
    ensures
        session_after(session_after(s, authorize(token, now, lookup)), authorize(token, now, lookup))
            == session_after(s, authorize(token, now, lookup)),
{
}

} // verus!
