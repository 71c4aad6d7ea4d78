//! Sessions: who a request with an `Authorization` header is, and the
//! rotation of the refresh token, which is honoured only while it is the one
//! stored for the account.

use vstd::prelude::*;
use crate::auth::{RefreshResponse, User, email_or_empty};
use crate::cookie::cookie_refresh_token;
use crate::jwt::{JwtUtil, access_valid, bearer_value, opt_text, refresh_valid};

verus! {

/// The `Authorization` header of a request, as read.
pub enum AuthHeader {
    /// There is none.
    Missing,
    /// It is not visible ASCII text.
    Unreadable,
    /// Its text.
    Text(String),
}

/// Why a request is not let through.
#[derive(Debug)]
pub enum AccessDenied {
    MissingHeader,
    MalformedHeader,
    MissingBearer,
    JwtConfig,
    InvalidToken,
    NoUser,
}

/// The HTTP status answering a refused request.
pub open spec fn denied_status(d: AccessDenied) -> u16 {
    match d {
        AccessDenied::JwtConfig => 500,
        _ => 401,
    }
}

/// The text answering a refused request.
pub open spec fn denied_text(d: AccessDenied) -> Seq<char> {
    match d {
        AccessDenied::MissingHeader => "Authorization 헤더 없음"@,
        AccessDenied::MalformedHeader => "Authorization 헤더 형식 오류"@,
        AccessDenied::MissingBearer => "Bearer 토큰 없음"@,
        AccessDenied::JwtConfig => "JWT 설정 오류"@,
        AccessDenied::InvalidToken => "유효하지 않은 토큰"@,
        AccessDenied::NoUser => "유저 없음"@,
    }
}

impl AccessDenied {
    /// The HTTP status answering this refusal.
    pub fn status_code(&self) -> (s: u16)
        ensures
            s == denied_status(*self),
    {
        match self {
            AccessDenied::JwtConfig => 500,
            _ => 401,
        }
    }

    /// The text answering this refusal.
    pub fn message(&self) -> (m: &'static str)
        ensures
            m@ == denied_text(*self),
    {
        match self {
            AccessDenied::MissingHeader => "Authorization 헤더 없음",
            AccessDenied::MalformedHeader => "Authorization 헤더 형식 오류",
            AccessDenied::MissingBearer => "Bearer 토큰 없음",
            AccessDenied::JwtConfig => "JWT 설정 오류",
            AccessDenied::InvalidToken => "유효하지 않은 토큰",
            AccessDenied::NoUser => "유저 없음",
        }
    }
}

/// Who a request is at time `now`: the bearer token of its header must be a
/// valid access token of the configured secret, whose subject is a user id;
/// the type is that of the token, or empty.
pub open spec fn request_identity(jwt: Option<JwtUtil>, header: AuthHeader, now: u64) -> Result<(i64, Seq<char>), AccessDenied> {
    match header {
        AuthHeader::Missing => Err(AccessDenied::MissingHeader),
        AuthHeader::Unreadable => Err(AccessDenied::MalformedHeader),
        AuthHeader::Text(h) => match bearer_value(h@) {
            None => Err(AccessDenied::MissingBearer),
            Some(token) => match jwt {
                None => Err(AccessDenied::JwtConfig),
                Some(j) => if !access_valid(j.fields(token), now) {
                    Err(AccessDenied::InvalidToken)
                } else {
                    match j.user_id_at(token, now) {
                        None => Err(AccessDenied::NoUser),
                        Some(id) => Ok((id, j.fields(token)->0.user_type->0)),
                    }
                },
            },
        },
    }
}

/// Lets a request through at time `now`, with its user id and type, or
/// tells why not. `jwt` is `None` when the token settings could not be read.
pub fn authorize_at(jwt: Option<&JwtUtil>, header: &AuthHeader, now: u64) -> (r: Result<(i64, String), AccessDenied>)
    ensures
        match request_identity(match jwt { Some(j) => Some(*j), None => None }, *header, now) {
            Ok(p) => r matches Ok(q) && q.0 == p.0 && q.1@ == p.1,
            Err(e) => r == Err::<(i64, String), AccessDenied>(e),
        },
{
    let text = match header {
        AuthHeader::Missing => return Err(AccessDenied::MissingHeader),
        AuthHeader::Unreadable => return Err(AccessDenied::MalformedHeader),
        AuthHeader::Text(h) => h,
    };
    let token = match crate::jwt::bearer_token(text.as_str()) {
        Some(t) => t,
        None => return Err(AccessDenied::MissingBearer),
    };
    let j = match jwt {
        Some(j) => j,
        None => return Err(AccessDenied::JwtConfig),
    };
    if !j.validate_token_at(token.as_str(), now) {
        return Err(AccessDenied::InvalidToken);
    }
    let user_id = match j.get_user_id_at(token.as_str(), now) {
        Some(id) => id,
        None => return Err(AccessDenied::NoUser),
    };
    let user_type = match j.get_user_type_at(token.as_str(), now) {
        Some(t) => t,
        None => String::new(),
    };
    Ok((user_id, user_type))
}

/// Lets a request through by the clock, as `authorize_at` does; the
/// validity, the id and the type are each read against the clock.
pub fn authorize(jwt: Option<&JwtUtil>, header: &AuthHeader) -> (r: Result<(i64, String), AccessDenied>)
    ensures
        header is Missing ==> r == Err::<(i64, String), AccessDenied>(AccessDenied::MissingHeader),
        header is Unreadable ==> r == Err::<(i64, String), AccessDenied>(AccessDenied::MalformedHeader),
        header matches AuthHeader::Text(h) ==> match bearer_value(h@) {
            None => r == Err::<(i64, String), AccessDenied>(AccessDenied::MissingBearer),
            Some(token) => match jwt {
                None => r == Err::<(i64, String), AccessDenied>(AccessDenied::JwtConfig),
                Some(j) => match r {
                    Ok(q) => (exists|now: u64| access_valid(#[trigger] j.fields(token), now))
                        && (exists|now: u64| #[trigger] j.user_id_at(token, now) == Some(q.0))
                        && (q.1@.len() > 0 ==> opt_text(Some(q.1)) == j.fields(token)->0.user_type),
                    Err(e) => e is InvalidToken || e is NoUser,
                },
            },
        },
{
    let text = match header {
        AuthHeader::Missing => return Err(AccessDenied::MissingHeader),
        AuthHeader::Unreadable => return Err(AccessDenied::MalformedHeader),
        AuthHeader::Text(h) => h,
    };
    let token = match crate::jwt::bearer_token(text.as_str()) {
        Some(t) => t,
        None => return Err(AccessDenied::MissingBearer),
    };
    let j = match jwt {
        Some(j) => j,
        None => return Err(AccessDenied::JwtConfig),
    };
    if !j.validate_token(token.as_str()) {
        return Err(AccessDenied::InvalidToken);
    }
    let user_id = match j.get_user_id(token.as_str()) {
        Some(id) => id,
        None => return Err(AccessDenied::NoUser),
    };
    let user_type = match j.get_user_type(token.as_str()) {
        Some(t) => t,
        None => String::new(),
    };
    Ok((user_id, user_type))
}

/// Why a refresh is refused.
#[derive(Debug)]
pub enum RefreshError {
    JwtConfig,
    InvalidRefreshToken,
    InvalidToken,
    UserNotFound,
    TokenMismatch,
}

/// The HTTP status answering a refused refresh.
pub open spec fn refresh_status(e: RefreshError) -> u16 {
    match e {
        RefreshError::JwtConfig => 500,
        RefreshError::UserNotFound => 404,
        _ => 401,
    }
}

/// The text answering a refused refresh.
pub open spec fn refresh_text(e: RefreshError) -> Seq<char> {
    match e {
        RefreshError::JwtConfig => "JWT 설정 오류"@,
        RefreshError::InvalidRefreshToken => "유효하지 않은 리프레시 토큰"@,
        RefreshError::InvalidToken => "유효하지 않은 토큰"@,
        RefreshError::UserNotFound => "유저 없음"@,
        RefreshError::TokenMismatch => "토큰 불일치"@,
    }
}

impl RefreshError {
    /// The HTTP status answering this refusal.
    pub fn status_code(&self) -> (s: u16)
        ensures
            s == refresh_status(*self),
    {
        match self {
            RefreshError::JwtConfig => 500,
            RefreshError::UserNotFound => 404,
            _ => 401,
        }
    }

    /// The text answering this refusal.
    pub fn message(&self) -> (m: &'static str)
        ensures
            m@ == refresh_text(*self),
    {
        match self {
            RefreshError::JwtConfig => "JWT 설정 오류",
            RefreshError::InvalidRefreshToken => "유효하지 않은 리프레시 토큰",
            RefreshError::InvalidToken => "유효하지 않은 토큰",
            RefreshError::UserNotFound => "유저 없음",
            RefreshError::TokenMismatch => "토큰 불일치",
        }
    }
}

/// Whose refresh a `Cookie` header asks for at time `now`: its refresh
/// cookie must hold a valid refresh token, whose subject is a user id.
pub open spec fn refresh_subject(jwt: JwtUtil, cookies: Option<Seq<char>>, now: u64) -> Result<(Seq<char>, i64), RefreshError> {
    let token = match cookies {
        Some(c) => cookie_refresh_token(c),
        None => None,
    };
    match token {
        None => Err(RefreshError::InvalidRefreshToken),
        Some(t) => if !refresh_valid(jwt.fields(t), now) {
            Err(RefreshError::InvalidRefreshToken)
        } else {
            match jwt.refresh_user_id_at(t, now) {
                None => Err(RefreshError::InvalidToken),
                Some(id) => Ok((t, id)),
            }
        },
    }
}

/// The text of a header, when there is one.
pub open spec fn cookie_text(cookies: Option<&str>) -> Option<Seq<char>> {
    match cookies {
        Some(c) => Some(c@),
        None => None,
    }
}

/// The refresh token and its user, from the request's `Cookie` header, at
/// time `now`.
pub fn refresh_subject_at(jwt: &JwtUtil, cookies: Option<&str>, now: u64) -> (r: Result<(String, i64), RefreshError>)
    ensures
        match refresh_subject(*jwt, cookie_text(cookies), now) {
            Ok(p) => r matches Ok(q) && q.0@ == p.0 && q.1 == p.1,
            Err(e) => r == Err::<(String, i64), RefreshError>(e),
        },
{
    let token = match cookies {
        Some(c) => crate::cookie::refresh_token_from_cookies(c),
        None => None,
    };
    let t = match token {
        Some(t) => t,
        None => return Err(RefreshError::InvalidRefreshToken),
    };
    if !jwt.validate_refresh_token_at(t.as_str(), now) {
        return Err(RefreshError::InvalidRefreshToken);
    }
    match jwt.get_refresh_user_id_at(t.as_str(), now) {
        Some(id) => Ok((t, id)),
        None => Err(RefreshError::InvalidToken),
    }
}

/// The refresh token and its user, checked against the clock.
pub fn refresh_subject_now(jwt: &JwtUtil, cookies: Option<&str>) -> (r: Result<(String, i64), RefreshError>)
    ensures
        exists|now: u64| match #[trigger] refresh_subject(*jwt, cookie_text(cookies), now) {
            Ok(p) => r matches Ok(q) && q.0@ == p.0 && q.1 == p.1,
            Err(e) => r == Err::<(String, i64), RefreshError>(e),
        },
{
    let now = crate::jwt::current_timestamp();
    refresh_subject_at(jwt, cookies, now)
}

/// The tokens of a refresh, issued at `now` for `user_id` holding `token`:
/// the account must exist and still hold this very token. The caller
/// stores the new refresh token and sets it as the cookie.
pub fn rotate_tokens_at(jwt: &JwtUtil, user_id: i64, token: &str, user: &Option<User>, now: i64) -> (r: Result<(RefreshResponse, String), RefreshError>)
    requires
        0 <= now < 10_000_000_000_000,
    ensures
        match rotation_check(*user, token@) {
            Some(e) => r == Err::<(RefreshResponse, String), RefreshError>(e),
            None => r matches Ok(p) && p.0.access_token@ == jwt.access_token_at(
                user_id,
                email_or_empty(user->0.user_email),
                user->0.user_type@,
                now,
            ) && jwt.fields(p.0.access_token@) == jwt.access_read_back(
                user_id,
                email_or_empty(user->0.user_email),
                user->0.user_type@,
                now,
            ) && p.1@ == jwt.refresh_token_at(user_id, now) && jwt.fields(p.1@) == jwt.refresh_read_back(user_id, now),
        },
{
    let u = match user {
        Some(u) => u,
        None => return Err(RefreshError::UserNotFound),
    };
    let same = match &u.refresh_token {
        Some(stored) => crate::text::str_eq(stored.as_str(), token),
        None => false,
    };
    if !same {
        return Err(RefreshError::TokenMismatch);
    }
    proof {
        reveal_strlit("");
    }
    let email: &str = match &u.user_email {
        Some(e) => e.as_str(),
        None => "",
    };
    assert(email@ == email_or_empty(u.user_email));
    let access_token = jwt.generate_token_at(user_id, email, u.user_type.as_str(), now);
    let refresh_token = jwt.generate_refresh_token_at(user_id, now);
    Ok((RefreshResponse { access_token }, refresh_token))
}

/// The tokens of a refresh, issued by the clock.
pub fn rotate_tokens(jwt: &JwtUtil, user_id: i64, token: &str, user: &Option<User>) -> (r: Result<(RefreshResponse, String), RefreshError>)
    ensures
        match rotation_check(*user, token@) {
            Some(e) => r == Err::<(RefreshResponse, String), RefreshError>(e),
            None => r matches Ok(p) && exists|now: i64| 0 <= now < 10_000_000_000_000
                && p.0.access_token@ == #[trigger] jwt.access_token_at(
                user_id,
                email_or_empty(user->0.user_email),
                user->0.user_type@,
                now,
            ) && jwt.fields(p.0.access_token@) == jwt.access_read_back(
                user_id,
                email_or_empty(user->0.user_email),
                user->0.user_type@,
                now,
            ) && p.1@ == jwt.refresh_token_at(user_id, now) && jwt.fields(p.1@) == jwt.refresh_read_back(user_id, now),
        },
{
    let now = crate::jwt::utc_now_timestamp();
    rotate_tokens_at(jwt, user_id, token, user, now)
}

/// The check of a refresh against the account: the account must exist and
/// still hold the presented token.
pub open spec fn rotation_check(user: Option<User>, token: Seq<char>) -> Option<RefreshError> {
    match user {
        None => Some(RefreshError::UserNotFound),
        Some(u) => if opt_text(u.refresh_token) != Some(token) {
            Some(RefreshError::TokenMismatch)
        } else {
            None
        },
    }
}

/// A refresh token is honoured only while it is the one stored for its
/// account: any other token, however valid, is refused as a mismatch, and
/// an account that is gone is refused as not found.
pub proof fn law_refresh_needs_stored_token(user: Option<User>, token: Seq<char>)
    ensures
        rotation_check(user, token) is None <==> (user matches Some(u) && opt_text(u.refresh_token) == Some(token)),
        user is None ==> rotation_check(user, token) == Some(RefreshError::UserNotFound),
{
}

/// A request without a readable bearer token is refused before any token
/// check, whatever the settings and the clock.
pub proof fn law_no_bearer_no_access(jwt: Option<JwtUtil>, header: AuthHeader, now: u64)
    requires
        match header {
            AuthHeader::Text(h) => bearer_value(h@) is None,
            _ => true,
        },
    ensures
        request_identity(jwt, header, now) is Err,
        request_identity(jwt, header, now) matches Err(e) ==> denied_status(e) == 401,
{
}

} // verus!
