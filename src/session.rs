//! Session tokens: the claims a token carries, the bearer header, and the
//! decision whether a decoded token admits a request.

use vstd::prelude::*;
use crate::grants::GrantStore;
use crate::model::{PermissionActionEnum, User};

verus! {

/// How long a session token stays valid after it is issued, in seconds
/// (twenty-four hours).
pub const SESSION_LIFETIME_SECS: usize = 86400;

/// What a session token carries: the user id, the email, the role id and the
/// expiry as a unix timestamp in seconds.
#[derive(Clone, Debug)]
pub struct Claims {
    pub sub: i32,
    pub email: String,
    pub role_id: i32,
    pub exp: usize,
}

/// The identity a request was admitted with.
#[derive(Clone, Debug)]
pub struct AuthUser {
    pub claims: Claims,
}

/// The identity echoed back to a caller.
#[derive(Clone, Debug)]
pub struct WhoAmIResponse {
    pub email: String,
    pub role_id: i32,
}

/// Why decoding a token failed, before its expiry is looked at.
#[derive(Clone, Copy, Debug, PartialEq, Eq, Structural)]
pub enum DecodeFailure {
    /// The signature does not verify against the configured secret, or the
    /// token is not in the signed format at all.
    InvalidSignature,
    /// The signature verifies but the payload is not a set of claims.
    InvalidClaims,
}

/// Where a token stands in its life.
#[derive(Clone, Copy, Debug, PartialEq, Eq, Structural)]
pub enum TokenState {
    Valid,
    Expired,
    InvalidSignature,
    InvalidClaims,
}

/// How a request is turned away, as the client sees it.
#[derive(Clone, Copy, Debug, PartialEq, Eq, Structural)]
pub enum RequestError {
    /// No usable credential: missing, malformed, forged or expired token.
    Unauthorized,
    /// The caller's role lacks the grant.
    Forbidden,
    /// The request names something invalid.
    BadRequest,
    /// The addressed row does not exist.
    NotFound,
    /// The request clashes with a row that exists.
    Conflict,
    /// A fault on the server's side.
    Internal,
}

impl RequestError {
    /// The HTTP status the error is answered with.
    pub fn status(&self) -> (r: u16)
        ensures
            r == match *self {
                RequestError::Unauthorized => 401u16,
                RequestError::Forbidden => 403u16,
                RequestError::BadRequest => 400u16,
                RequestError::NotFound => 404u16,
                RequestError::Conflict => 409u16,
                RequestError::Internal => 500u16,
            },
    {
        match self {
            RequestError::Unauthorized => 401,
            RequestError::Forbidden => 403,
            RequestError::BadRequest => 400,
            RequestError::NotFound => 404,
            RequestError::Conflict => 409,
            RequestError::Internal => 500,
        }
    }
}

/// The claims issued to `user` at time `now`.
pub open spec fn claims_for(c: Claims, user: User, now: int) -> bool {
    &&& c.sub == user.id
    &&& c.email@ == user.email@
    &&& c.role_id == user.role_id
    &&& c.exp == now + SESSION_LIFETIME_SECS
}

/// The claims for a token issued to `user` at unix time `now`.
pub fn issue_claims(user: &User, now: usize) -> (c: Claims)
    requires
        now <= usize::MAX - SESSION_LIFETIME_SECS,
    ensures
        claims_for(c, *user, now as int),
{
    Claims { sub: user.id, email: user.email.clone(), role_id: user.role_id, exp: now + SESSION_LIFETIME_SECS }
}

/// The state of a token that decoded to `decoded`, at unix time `now`: valid
/// only while `now` is before the expiry.
pub fn token_state(decoded: &Result<Claims, DecodeFailure>, now: usize) -> (r: TokenState)
    ensures
        r == match *decoded {
            Ok(c) => if now < c.exp {
                TokenState::Valid
            } else {
                TokenState::Expired
            },
            Err(DecodeFailure::InvalidSignature) => TokenState::InvalidSignature,
            Err(DecodeFailure::InvalidClaims) => TokenState::InvalidClaims,
        },
{
    match decoded {
        Ok(c) => if now < c.exp {
            TokenState::Valid
        } else {
            TokenState::Expired
        },
        Err(DecodeFailure::InvalidSignature) => TokenState::InvalidSignature,
        Err(DecodeFailure::InvalidClaims) => TokenState::InvalidClaims,
    }
}

/// Admits a request whose token decoded to `decoded`, at unix time `now`:
/// every state but `Valid` is the same `Unauthorized` to the client.
pub fn admit_token(decoded: Result<Claims, DecodeFailure>, now: usize) -> (r: Result<
    AuthUser,
    RequestError,
>)
    ensures
        match decoded {
            Ok(c) => if now < c.exp {
                r == Ok::<AuthUser, RequestError>(AuthUser { claims: c })
            } else {
                r == Err::<AuthUser, RequestError>(RequestError::Unauthorized)
            },
            Err(_) => r == Err::<AuthUser, RequestError>(RequestError::Unauthorized),
        },
{
    let state = token_state(&decoded, now);
    match decoded {
        Ok(c) => if state == TokenState::Valid {
            Ok(AuthUser { claims: c })
        } else {
            Err(RequestError::Unauthorized)
        },
        Err(_) => Err(RequestError::Unauthorized),
    }
}

/// Relies on `str::strip_prefix`: the rest of `s` after `prefix`, if `s`
/// starts with it.
#[verifier::external_body]
fn strip_prefix_of<'a>(s: &'a str, prefix: &str) -> (r: Option<&'a str>)
    ensures
        match r {
            Some(rest) => prefix@.is_prefix_of(s@) && rest@ == s@.subrange(
                prefix@.len() as int,
                s@.len() as int,
            ),
            None => !prefix@.is_prefix_of(s@),
        },
{
    s.strip_prefix(prefix)
}

/// The token in an `Authorization` header value of the form `Bearer <token>`.
pub fn bearer_token(header: &str) -> (r: Option<&str>)
    ensures
        match r {
            Some(token) => "Bearer "@.is_prefix_of(header@) && token@ == header@.subrange(
                "Bearer "@.len() as int,
                header@.len() as int,
            ),
            None => !"Bearer "@.is_prefix_of(header@),
        },
{
    strip_prefix_of(header, "Bearer ")
}

/// Lets an admitted caller through to a handler for `action` on `resource`
/// only if the caller's role holds that grant.
pub fn check_permission(
    store: &GrantStore,
    user: &AuthUser,
    resource: &str,
    action: PermissionActionEnum,
) -> (r: Result<(), RequestError>)
    ensures
        r == if store.grants(user.claims.role_id, resource@, action) {
            Ok::<(), RequestError>(())
        } else {
            Err::<(), RequestError>(RequestError::Forbidden)
        },
{
    if store.authorize(user.claims.role_id, resource, action) {
        Ok(())
    } else {
        Err(RequestError::Forbidden)
    }
}

/// The identity carried by an admitted request.
pub fn whoami(user: AuthUser) -> (r: WhoAmIResponse)
    ensures
        r.email@ == user.claims.email@,
        r.role_id == user.claims.role_id,
{
    WhoAmIResponse { email: user.claims.email, role_id: user.claims.role_id }
}

} // verus!
