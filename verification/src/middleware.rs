//! The authentication middleware's decisions, and the session cookies the
//! handlers set.
//!
//! The middleware extracts a bearer credential — the authorization header
//! first, the access-token cookie as fallback — verifies it, and publishes
//! the resulting identity into the operation's context; on any failure the
//! context is untouched and the handler is never reached. Building the HTTP
//! response itself is the surrounding program's business; the cookie plans
//! below say exactly what it must set.

use vstd::prelude::*;

use vstd::string::StringExecFns;

use crate::auth_service::Service;
use crate::context::Ctx;
use crate::error::Error;
use crate::auth_model::AuthResponse;
use crate::identity::Identity;

verus! {

/// Seconds in the seven days a session cookie lives.
pub const SESSION_COOKIE_MAX_AGE: i64 = 604800;

/// One cookie to set: name, value, whether scripts may read it, its lifetime
/// in seconds, and its path. Every cookie of this core is same-site none.
#[derive(Debug)]
pub struct CookieSpec {
    pub name: String,
    pub value: String,
    pub http_only: bool,
    pub max_age_seconds: i64,
    pub path: String,
}

/// The bearer credential of a request: the authorization header's token if
/// one came, else the access-token cookie, else a refusal.
pub fn bearer_or_cookie_token(bearer: Option<String>, cookie: Option<String>) -> (r: Result<
    String,
    Error,
>)
    ensures
        bearer matches Some(t) ==> r == Ok::<String, Error>(t),
        bearer is None ==> (cookie matches Some(t) ==> r == Ok::<String, Error>(t)),
        bearer is None && cookie is None ==> (r matches Err(e) && (e matches Error::BadRequest(m)
            && m@ == "Access token is not provided"@)),
{
    match bearer {
        Some(t) => Ok(t),
        None => match cookie {
            Some(t) => Ok(t),
            None => {
                let m: String = "Access token is not provided".to_string();
                Err(Error::BadRequest(m))
            },
        },
    }
}

/// Authenticates one request: picks the bearer credential, verifies it as an
/// access token, and on success publishes the claim's identity into the
/// context. On any failure the context is untouched, so the handler behind
/// the middleware never sees a partially authenticated scope.
pub fn auth(
    service: &Service,
    ctx: &mut Ctx,
    bearer: Option<String>,
    cookie: Option<String>,
) -> (r: Result<Identity, Error>)
    ensures
        final(ctx)@.tx == old(ctx)@.tx,
        r matches Ok(i) ==> final(ctx)@.identity == Some(i@),
        r is Err ==> final(ctx)@ == old(ctx)@,
        bearer is None && cookie is None ==> (r matches Err(e) && (e matches Error::BadRequest(m)
            && m@ == "Access token is not provided"@)),
{
    let token = bearer_or_cookie_token(bearer, cookie)?;
    let claim = service.verify_access_token(token.as_str())?;
    let identity = Identity { user_id: claim.sub, email: claim.email };
    let published = identity.duplicate();
    ctx.publish_identity(published);
    Ok(identity)
}

/// The three cookies a successful sign-in, sign-up or refresh sets: the two
/// tokens, script-proof, and a visible signed-in marker, all for seven days
/// at the root path.
pub fn session_cookies(res: &AuthResponse) -> (r: Vec<CookieSpec>)
    ensures
        r@.len() == 3,
        r@[0].name@ == "refresh_token"@ && r@[0].value@ == res@.refresh_token && r@[0].http_only
            == true,
        r@[1].name@ == "access_token"@ && r@[1].value@ == res@.access_token && r@[1].http_only
            == true,
        r@[2].name@ == "is_signed_in"@ && r@[2].value@ == "true"@ && r@[2].http_only == false,
        forall|j: int|
            0 <= j < 3 ==> r@[j].max_age_seconds == SESSION_COOKIE_MAX_AGE && r@[j].path@ == "/"@,
{
    let mut cookies: Vec<CookieSpec> = Vec::new();
    cookies.push(
        CookieSpec {
            name: String::from_str("refresh_token"),
            value: res.refresh_token.clone(),
            http_only: true,
            max_age_seconds: SESSION_COOKIE_MAX_AGE,
            path: String::from_str("/"),
        },
    );
    cookies.push(
        CookieSpec {
            name: String::from_str("access_token"),
            value: res.access_token.clone(),
            http_only: true,
            max_age_seconds: SESSION_COOKIE_MAX_AGE,
            path: String::from_str("/"),
        },
    );
    cookies.push(
        CookieSpec {
            name: String::from_str("is_signed_in"),
            value: String::from_str("true"),
            http_only: false,
            max_age_seconds: SESSION_COOKIE_MAX_AGE,
            path: String::from_str("/"),
        },
    );
    cookies
}

/// The three cookies sign-out (and a failed refresh) clears: empty values
/// with no lifetime, so the browser drops the session.
pub fn clearing_cookies() -> (r: Vec<CookieSpec>)
    ensures
        r@.len() == 3,
        r@[0].name@ == "refresh_token"@,
        r@[1].name@ == "access_token"@,
        r@[2].name@ == "is_signed_in"@,
        forall|j: int|
            0 <= j < 3 ==> r@[j].value@ == Seq::<char>::empty() && r@[j].http_only == true && r@[
                j
            ].max_age_seconds == 0 && r@[j].path@ == "/"@,
{
    let mut cookies: Vec<CookieSpec> = Vec::new();
    cookies.push(
        CookieSpec {
            name: String::from_str("refresh_token"),
            value: String::new(),
            http_only: true,
            max_age_seconds: 0,
            path: String::from_str("/"),
        },
    );
    cookies.push(
        CookieSpec {
            name: String::from_str("access_token"),
            value: String::new(),
            http_only: true,
            max_age_seconds: 0,
            path: String::from_str("/"),
        },
    );
    cookies.push(
        CookieSpec {
            name: String::from_str("is_signed_in"),
            value: String::new(),
            http_only: true,
            max_age_seconds: 0,
            path: String::from_str("/"),
        },
    );
    cookies
}

} // verus!
