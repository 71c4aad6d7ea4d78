//! Access and refresh tokens: HS256 JSON Web Tokens issued and checked with
//! the `jsonwebtoken` crate, and the `Bearer` header that carries them.

use vstd::prelude::*;
use crate::number::{int_decimal, parsed_i64, trunc_div};
use crate::text::{seq_starts_with, trimmed};

verus! {

/// Claims of an access token.
pub struct Claims {
    pub sub: String,
    pub user_email: String,
    pub user_type: String,
    pub token_type: String,
    pub iat: i64,
    pub exp: i64,
}

/// Claims of a refresh token.
pub struct RefreshClaims {
    pub sub: String,
    pub token_type: String,
    pub iat: i64,
    pub exp: i64,
}

/// The claim fields of a token whose signature and structure checked out:
/// each string claim when it is a JSON string, each numeric claim when it is
/// an integer that fits an `i64`.
pub struct ClaimFields {
    pub sub: Option<String>,
    pub user_email: Option<String>,
    pub user_type: Option<String>,
    pub token_type: Option<String>,
    pub iat: Option<i64>,
    pub exp: Option<i64>,
}

/// Spec-level picture of [`ClaimFields`].
pub struct ClaimFieldsView {
    pub sub: Option<Seq<char>>,
    pub user_email: Option<Seq<char>>,
    pub user_type: Option<Seq<char>>,
    pub token_type: Option<Seq<char>>,
    pub iat: Option<i64>,
    pub exp: Option<i64>,
}

pub open spec fn opt_text(o: Option<String>) -> Option<Seq<char>> {
    match o {
        Some(s) => Some(s@),
        None => None,
    }
}

impl ClaimFields {
    pub open spec fn view(&self) -> ClaimFieldsView {
        ClaimFieldsView {
            sub: opt_text(self.sub),
            user_email: opt_text(self.user_email),
            user_type: opt_text(self.user_type),
            token_type: opt_text(self.token_type),
            iat: self.iat,
            exp: self.exp,
        }
    }
}

pub open spec fn opt_fields(o: Option<ClaimFields>) -> Option<ClaimFieldsView> {
    match o {
        Some(f) => Some(f.view()),
        None => None,
    }
}

/// What `jsonwebtoken::decode` with HS256, the key `secret` and expiry
/// checking switched off yields for `token`, as claim fields.
pub uninterp spec fn jwt_claim_fields(secret: Seq<char>, token: Seq<char>) -> Option<ClaimFieldsView>;

/// What `jsonwebtoken::encode` with the default header (HS256) and the key
/// `secret` yields for access claims written in the order sub, user_email,
/// user_type, token_type, iat, exp.
pub uninterp spec fn jwt_access_encoding(
    secret: Seq<char>,
    sub: Seq<char>,
    user_email: Seq<char>,
    user_type: Seq<char>,
    token_type: Seq<char>,
    iat: i64,
    exp: i64,
) -> Seq<char>;

/// What `jsonwebtoken::encode` with the default header (HS256) and the key
/// `secret` yields for refresh claims written in the order sub, token_type,
/// iat, exp.
pub uninterp spec fn jwt_refresh_encoding(
    secret: Seq<char>,
    sub: Seq<char>,
    token_type: Seq<char>,
    iat: i64,
    exp: i64,
) -> Seq<char>;

/// `jsonwebtoken::decode` (HS256, key from `secret`, `Validation::new` with
/// expiry checking switched off) read into claim fields. The result is named
/// by `jwt_claim_fields`: with expiry checking off the call depends on the
/// secret and the token alone. Expiry is checked by the caller, against
/// `jsonwebtoken::get_current_timestamp` and the default 60 s leeway.
#[verifier::external_body]
fn decode_claim_fields(secret: &str, token: &str) -> (res: Option<ClaimFields>)
    ensures
        opt_fields(res) == jwt_claim_fields(secret@, token@),
{
    let mut validation = jsonwebtoken::Validation::new(jsonwebtoken::Algorithm::HS256);
    validation.validate_exp = false;
    let key = jsonwebtoken::DecodingKey::from_secret(secret.as_bytes());
    let data = jsonwebtoken::decode::<serde_json::Map<String, serde_json::Value>>(token, &key,
        &validation).ok()?;
    let text = |k: &str| data.claims.get(k).and_then(|v| v.as_str()).map(String::from);
    let number = |k: &str| data.claims.get(k).and_then(|v| v.as_i64());
    Some(ClaimFields { sub: text("sub"), user_email: text("user_email"),
        user_type: text("user_type"), token_type: text("token_type"),
        iat: number("iat"), exp: number("exp") })
}

/// `jsonwebtoken::get_current_timestamp`: seconds since the Unix epoch, read
/// from the system clock. Nothing is promised of the value: it is the time.
#[verifier::external_body]
pub(crate) fn current_timestamp() -> (now: u64) {
    jsonwebtoken::get_current_timestamp()
}

/// `jsonwebtoken::encode` of access claims with the default header and the
/// key `secret`. The claims are handed over as a JSON object whose members
/// keep the order of the struct's fields. HS256 signing of such an object
/// cannot fail, so the result is the token. Decoding it with the same key
/// gives the claims back (the signature verifies and JSON strings and
/// integers read back as written), except that `decode` requires an `exp`
/// it can read as a `u64`: a negative one makes it fail.
#[verifier::external_body]
fn encode_access_claims(secret: &str, claims: &Claims) -> (token: String)
    ensures
        token@ == jwt_access_encoding(secret@, claims.sub@, claims.user_email@,
            claims.user_type@, claims.token_type@, claims.iat, claims.exp),
        jwt_claim_fields(secret@, token@) == (if claims.exp >= 0 {
            Some(ClaimFieldsView {
                sub: Some(claims.sub@),
                user_email: Some(claims.user_email@),
                user_type: Some(claims.user_type@),
                token_type: Some(claims.token_type@),
                iat: Some(claims.iat),
                exp: Some(claims.exp),
            })
        } else {
            None
        }),
{
    let mut m = serde_json::Map::new();
    m.insert("sub".to_string(), claims.sub.clone().into());
    m.insert("user_email".to_string(), claims.user_email.clone().into());
    m.insert("user_type".to_string(), claims.user_type.clone().into());
    m.insert("token_type".to_string(), claims.token_type.clone().into());
    m.insert("iat".to_string(), claims.iat.into());
    m.insert("exp".to_string(), claims.exp.into());
    let key = jsonwebtoken::EncodingKey::from_secret(secret.as_bytes());
    jsonwebtoken::encode(&jsonwebtoken::Header::default(), &m, &key).unwrap()
}

/// `jsonwebtoken::encode` of refresh claims with the default header and the
/// key `secret`, the claims handed over as a JSON object in field order.
/// Decoding it with the same key gives the claims back, with no email or
/// type, unless `exp` is negative, which `decode` refuses.
#[verifier::external_body]
fn encode_refresh_claims(secret: &str, claims: &RefreshClaims) -> (token: String)
    ensures
        token@ == jwt_refresh_encoding(secret@, claims.sub@, claims.token_type@, claims.iat,
            claims.exp),
        jwt_claim_fields(secret@, token@) == (if claims.exp >= 0 {
            Some(ClaimFieldsView {
                sub: Some(claims.sub@),
                user_email: None,
                user_type: None,
                token_type: Some(claims.token_type@),
                iat: Some(claims.iat),
                exp: Some(claims.exp),
            })
        } else {
            None
        }),
{
    let mut m = serde_json::Map::new();
    m.insert("sub".to_string(), claims.sub.clone().into());
    m.insert("token_type".to_string(), claims.token_type.clone().into());
    m.insert("iat".to_string(), claims.iat.into());
    m.insert("exp".to_string(), claims.exp.into());
    let key = jsonwebtoken::EncodingKey::from_secret(secret.as_bytes());
    jsonwebtoken::encode(&jsonwebtoken::Header::default(), &m, &key).unwrap()
}

/// `chrono::Utc::now().timestamp()`: the current time in whole seconds since
/// the Unix epoch. `Utc::now` reads the system clock as a duration since the
/// epoch and panics beyond chrono's last representable instant (year 262142),
/// so whatever it returns lies in `0 .. 10^13`.
#[verifier::external_body]
pub(crate) fn utc_now_timestamp() -> (now: i64)
    ensures
        0 <= now < 10_000_000_000_000,
{
    chrono::Utc::now().timestamp()
}

/// Leeway in seconds that `jsonwebtoken`'s default validation grants an
/// expired token.
pub const EXPIRY_LEEWAY: u64 = 60;

/// A token expiring at `exp` is rejected at `now` when `exp < now - leeway`.
pub open spec fn expired(exp: i64, now: u64) -> bool {
    (exp as int) < (now as int) - (EXPIRY_LEEWAY as int)
}

/// Claims of an access token, when every claim is present with its type and
/// the token says it is an access token. Expiry aside.
pub open spec fn access_shape(f: Option<ClaimFieldsView>) -> bool {
    match f {
        Some(c) => {
            &&& c.sub is Some
            &&& c.user_email is Some
            &&& c.user_type is Some
            &&& c.token_type == Some("access"@)
            &&& c.iat is Some
            &&& c.exp is Some
        },
        None => false,
    }
}

/// Claims of a refresh token, when present with their types and the token
/// says it is a refresh token. Expiry aside.
pub open spec fn refresh_shape(f: Option<ClaimFieldsView>) -> bool {
    match f {
        Some(c) => {
            &&& c.sub is Some
            &&& c.token_type == Some("refresh"@)
            &&& c.iat is Some
            &&& c.exp is Some
        },
        None => false,
    }
}

/// The access token is accepted at time `now`.
pub open spec fn access_valid(f: Option<ClaimFieldsView>, now: u64) -> bool {
    access_shape(f) && !expired(f->0.exp->0, now)
}

/// The refresh token is accepted at time `now`.
pub open spec fn refresh_valid(f: Option<ClaimFieldsView>, now: u64) -> bool {
    refresh_shape(f) && !expired(f->0.exp->0, now)
}

/// Errors of reading the token settings.
#[derive(Debug)]
pub enum JwtConfigError {
    /// `JWT_SECRET` is unset.
    MissingSecret,
    /// `JWT_EXPIRATION` is unset.
    MissingExpiration,
    /// `JWT_EXPIRATION` is not an integer.
    InvalidExpiration,
    /// `JWT_REFRESH_EXPIRATION` is unset.
    MissingRefreshExpiration,
    /// `JWT_REFRESH_EXPIRATION` is not an integer.
    InvalidRefreshExpiration,
}

/// Issues and checks tokens with one secret; lifetimes are in milliseconds.
pub struct JwtUtil {
    secret: String,
    expiration: i64,
    refresh_expiration: i64,
}

fn same_chars(a: &Option<String>, lit: &str) -> (res: bool)
    ensures
        res == (opt_text(*a) == Some(lit@)),
{
    match a {
        Some(s) => crate::text::str_eq(s.as_str(), lit),
        None => false,
    }
}

impl JwtUtil {
    pub closed spec fn secret(&self) -> Seq<char> {
        self.secret@
    }

    pub closed spec fn expiration(&self) -> i64 {
        self.expiration
    }

    pub closed spec fn refresh_expiration(&self) -> i64 {
        self.refresh_expiration
    }

    /// Builds the token settings from the values of `JWT_SECRET`,
    /// `JWT_EXPIRATION` and `JWT_REFRESH_EXPIRATION` (`None` when unset);
    /// both lifetimes must read as `i64`.
    pub fn new(
        secret: Option<String>,
        expiration: Option<String>,
        refresh_expiration: Option<String>,
    ) -> (res: Result<JwtUtil, JwtConfigError>)
        ensures
            match res {
                Ok(u) => {
                    &&& secret matches Some(s) && u.secret() == s@
                    &&& expiration matches Some(e) && parsed_i64(e@) == Some(u.expiration())
                    &&& refresh_expiration matches Some(r) && parsed_i64(r@) == Some(
                        u.refresh_expiration(),
                    )
                },
                Err(JwtConfigError::MissingSecret) => secret is None,
                Err(JwtConfigError::MissingExpiration) => secret is Some && expiration is None,
                Err(JwtConfigError::InvalidExpiration) => {
                    &&& secret is Some
                    &&& expiration matches Some(e) && parsed_i64(e@) is None
                },
                Err(JwtConfigError::MissingRefreshExpiration) => {
                    &&& secret is Some
                    &&& expiration matches Some(e) && parsed_i64(e@) is Some
                    &&& refresh_expiration is None
                },
                Err(JwtConfigError::InvalidRefreshExpiration) => {
                    &&& secret is Some
                    &&& expiration matches Some(e) && parsed_i64(e@) is Some
                    &&& refresh_expiration matches Some(r) && parsed_i64(r@) is None
                },
            },
    {
        let secret = match secret {
            Some(s) => s,
            None => return Err(JwtConfigError::MissingSecret),
        };
        let expiration = match expiration {
            Some(e) => match crate::number::parse_i64(e.as_str()) {
                Some(v) => v,
                None => return Err(JwtConfigError::InvalidExpiration),
            },
            None => return Err(JwtConfigError::MissingExpiration),
        };
        let refresh_expiration = match refresh_expiration {
            Some(r) => match crate::number::parse_i64(r.as_str()) {
                Some(v) => v,
                None => return Err(JwtConfigError::InvalidRefreshExpiration),
            },
            None => return Err(JwtConfigError::MissingRefreshExpiration),
        };
        Ok(JwtUtil { secret, expiration, refresh_expiration })
    }

    /// The access token issued at `now` for the user: subject `user_id`,
    /// type `access`, expiring `expiration / 1000` seconds later.
    pub open spec fn access_token_at(
        &self,
        user_id: i64,
        user_email: Seq<char>,
        user_type: Seq<char>,
        now: i64,
    ) -> Seq<char> {
        jwt_access_encoding(
            self.secret(),
            int_decimal(user_id as int),
            user_email,
            user_type,
            "access"@,
            now,
            (now + trunc_div(self.expiration() as int, 1000)) as i64,
        )
    }

    /// The refresh token issued at `now`: subject `user_id`, type `refresh`,
    /// expiring `refresh_expiration / 1000` seconds later.
    pub open spec fn refresh_token_at(&self, user_id: i64, now: i64) -> Seq<char> {
        jwt_refresh_encoding(
            self.secret(),
            int_decimal(user_id as int),
            "refresh"@,
            now,
            (now + trunc_div(self.refresh_expiration() as int, 1000)) as i64,
        )
    }

    /// When an access token issued at `now` expires, in seconds.
    pub open spec fn access_expiry(&self, now: i64) -> int {
        now + trunc_div(self.expiration() as int, 1000)
    }

    /// When a refresh token issued at `now` expires, in seconds.
    pub open spec fn refresh_expiry(&self, now: i64) -> int {
        now + trunc_div(self.refresh_expiration() as int, 1000)
    }

    /// The claims an access token issued at `now` carries.
    pub open spec fn issued_access_fields(&self, user_id: i64, user_email: Seq<char>, user_type: Seq<char>, now: i64) -> ClaimFieldsView {
        ClaimFieldsView {
            sub: Some(int_decimal(user_id as int)),
            user_email: Some(user_email),
            user_type: Some(user_type),
            token_type: Some("access"@),
            iat: Some(now),
            exp: Some(self.access_expiry(now) as i64),
        }
    }

    /// What an access token issued at `now` reads back as: its claims,
    /// unless its expiry is negative.
    pub open spec fn access_read_back(&self, user_id: i64, user_email: Seq<char>, user_type: Seq<char>, now: i64) -> Option<ClaimFieldsView> {
        if self.access_expiry(now) >= 0 {
            Some(self.issued_access_fields(user_id, user_email, user_type, now))
        } else {
            None
        }
    }

    /// What a refresh token issued at `now` reads back as: its claims,
    /// unless its expiry is negative.
    pub open spec fn refresh_read_back(&self, user_id: i64, now: i64) -> Option<ClaimFieldsView> {
        if self.refresh_expiry(now) >= 0 {
            Some(self.issued_refresh_fields(user_id, now))
        } else {
            None
        }
    }

    /// The claims a refresh token issued at `now` carries.
    pub open spec fn issued_refresh_fields(&self, user_id: i64, now: i64) -> ClaimFieldsView {
        ClaimFieldsView {
            sub: Some(int_decimal(user_id as int)),
            user_email: None,
            user_type: None,
            token_type: Some("refresh"@),
            iat: Some(now),
            exp: Some(self.refresh_expiry(now) as i64),
        }
    }

    /// Issues an access token stamped with the given issue time. Read back
    /// with this secret it carries the issued claims, unless its expiry is
    /// negative, which `jsonwebtoken` refuses to read.
    pub fn generate_token_at(&self, user_id: i64, user_email: &str, user_type: &str, now: i64) -> (token: String)
        requires
            0 <= now < 10_000_000_000_000,
        ensures
            token@ == self.access_token_at(user_id, user_email@, user_type@, now),
            self.fields(token@) == (if self.access_expiry(now) >= 0 {
                Some(self.issued_access_fields(user_id, user_email@, user_type@, now))
            } else {
                None
            }),
    {
        let claims = Claims {
            sub: crate::number::i64_to_string(user_id),
            user_email: crate::text::string_from(user_email),
            user_type: crate::text::string_from(user_type),
            token_type: crate::text::string_from("access"),
            iat: now,
            exp: now + crate::number::div_trunc(self.expiration, 1000),
        };
        encode_access_claims(self.secret.as_str(), &claims)
    }

    /// Issues an access token stamped with the current time.
    pub fn generate_token(&self, user_id: i64, user_email: &str, user_type: &str) -> (token: String)
        ensures
            exists|now: i64| 0 <= now < 10_000_000_000_000 && token@ == self.access_token_at(
                user_id,
                user_email@,
                user_type@,
                now,
            ) && self.fields(token@) == (if self.access_expiry(now) >= 0 {
                Some(self.issued_access_fields(user_id, user_email@, user_type@, now))
            } else {
                None
            }),
    {
        let now = utc_now_timestamp();
        self.generate_token_at(user_id, user_email, user_type, now)
    }

    /// Issues a refresh token stamped with the given issue time. Read back
    /// with this secret it carries the issued claims, unless its expiry is
    /// negative.
    pub fn generate_refresh_token_at(&self, user_id: i64, now: i64) -> (token: String)
        requires
            0 <= now < 10_000_000_000_000,
        ensures
            token@ == self.refresh_token_at(user_id, now),
            self.fields(token@) == (if self.refresh_expiry(now) >= 0 {
                Some(self.issued_refresh_fields(user_id, now))
            } else {
                None
            }),
    {
        let claims = RefreshClaims {
            sub: crate::number::i64_to_string(user_id),
            token_type: crate::text::string_from("refresh"),
            iat: now,
            exp: now + crate::number::div_trunc(self.refresh_expiration, 1000),
        };
        encode_refresh_claims(self.secret.as_str(), &claims)
    }

    /// Issues a refresh token stamped with the current time.
    pub fn generate_refresh_token(&self, user_id: i64) -> (token: String)
        ensures
            exists|now: i64| 0 <= now < 10_000_000_000_000 && token@ == self.refresh_token_at(
                user_id,
                now,
            ) && self.fields(token@) == (if self.refresh_expiry(now) >= 0 {
                Some(self.issued_refresh_fields(user_id, now))
            } else {
                None
            }),
    {
        let now = utc_now_timestamp();
        self.generate_refresh_token_at(user_id, now)
    }

    /// The claim fields of `token` under this secret.
    pub open spec fn fields(&self, token: Seq<char>) -> Option<ClaimFieldsView> {
        jwt_claim_fields(self.secret(), token)
    }

    /// The claims of `token` when it is an access token valid at `now`.
    pub fn decode_access_at(&self, token: &str, now: u64) -> (res: Option<Claims>)
        ensures
            res is Some <==> access_valid(self.fields(token@), now),
            res matches Some(c) ==> {
                let f = self.fields(token@)->0;
                &&& f.sub == Some(c.sub@)
                &&& f.user_email == Some(c.user_email@)
                &&& f.user_type == Some(c.user_type@)
                &&& f.token_type == Some(c.token_type@)
                &&& f.iat == Some(c.iat)
                &&& f.exp == Some(c.exp)
            },
    {
        let fields = match decode_claim_fields(self.secret.as_str(), token) {
            Some(f) => f,
            None => return None,
        };
        if !same_chars(&fields.token_type, "access") {
            return None;
        }
        match (fields.sub, fields.user_email, fields.user_type, fields.token_type, fields.iat, fields.exp) {
            (Some(sub), Some(user_email), Some(user_type), Some(token_type), Some(iat), Some(exp)) => {
                if (exp as i128) < (now as i128) - (EXPIRY_LEEWAY as i128) {
                    None
                } else {
                    Some(Claims { sub, user_email, user_type, token_type, iat, exp })
                }
            },
            _ => None,
        }
    }

    /// The claims of `token` when it is a refresh token valid at `now`.
    pub fn decode_refresh_at(&self, token: &str, now: u64) -> (res: Option<RefreshClaims>)
        ensures
            res is Some <==> refresh_valid(self.fields(token@), now),
            res matches Some(c) ==> {
                let f = self.fields(token@)->0;
                &&& f.sub == Some(c.sub@)
                &&& f.token_type == Some(c.token_type@)
                &&& f.iat == Some(c.iat)
                &&& f.exp == Some(c.exp)
            },
    {
        let fields = match decode_claim_fields(self.secret.as_str(), token) {
            Some(f) => f,
            None => return None,
        };
        if !same_chars(&fields.token_type, "refresh") {
            return None;
        }
        match (fields.sub, fields.token_type, fields.iat, fields.exp) {
            (Some(sub), Some(token_type), Some(iat), Some(exp)) => {
                if (exp as i128) < (now as i128) - (EXPIRY_LEEWAY as i128) {
                    None
                } else {
                    Some(RefreshClaims { sub, token_type, iat, exp })
                }
            },
            _ => None,
        }
    }

    /// The user id in an access token valid at `now`: its subject read as `i64`.
    pub open spec fn user_id_at(&self, token: Seq<char>, now: u64) -> Option<i64> {
        if access_valid(self.fields(token), now) {
            parsed_i64(self.fields(token)->0.sub->0)
        } else {
            None
        }
    }

    /// The user id in a refresh token valid at `now`: its subject read as `i64`.
    pub open spec fn refresh_user_id_at(&self, token: Seq<char>, now: u64) -> Option<i64> {
        if refresh_valid(self.fields(token), now) {
            parsed_i64(self.fields(token)->0.sub->0)
        } else {
            None
        }
    }

    pub fn get_user_id_at(&self, token: &str, now: u64) -> (res: Option<i64>)
        ensures
            res == self.user_id_at(token@, now),
    {
        match self.decode_access_at(token, now) {
            Some(c) => crate::number::parse_i64(c.sub.as_str()),
            None => None,
        }
    }

    pub fn get_user_type_at(&self, token: &str, now: u64) -> (res: Option<String>)
        ensures
            res is Some <==> access_valid(self.fields(token@), now),
            res matches Some(t) ==> self.fields(token@)->0.user_type == Some(t@),
    {
        match self.decode_access_at(token, now) {
            Some(c) => Some(c.user_type),
            None => None,
        }
    }

    pub fn get_refresh_user_id_at(&self, token: &str, now: u64) -> (res: Option<i64>)
        ensures
            res == self.refresh_user_id_at(token@, now),
    {
        match self.decode_refresh_at(token, now) {
            Some(c) => crate::number::parse_i64(c.sub.as_str()),
            None => None,
        }
    }

    pub fn validate_token_at(&self, token: &str, now: u64) -> (res: bool)
        ensures
            res == access_valid(self.fields(token@), now),
    {
        self.decode_access_at(token, now).is_some()
    }

    pub fn validate_refresh_token_at(&self, token: &str, now: u64) -> (res: bool)
        ensures
            res == refresh_valid(self.fields(token@), now),
    {
        self.decode_refresh_at(token, now).is_some()
    }

    /// The user id carried by an access token, checked against the clock.
    pub fn get_user_id(&self, token: &str) -> (res: Option<i64>)
        ensures
            exists|now: u64| res == self.user_id_at(token@, now),
            !access_shape(self.fields(token@)) ==> res is None,
            res matches Some(id) ==> parsed_i64(self.fields(token@)->0.sub->0) == Some(id),
    {
        let now = current_timestamp();
        self.get_user_id_at(token, now)
    }

    /// The user type carried by an access token, checked against the clock.
    pub fn get_user_type(&self, token: &str) -> (res: Option<String>)
        ensures
            exists|now: u64| (res is Some <==> access_valid(self.fields(token@), now)),
            !access_shape(self.fields(token@)) ==> res is None,
            res matches Some(t) ==> self.fields(token@)->0.user_type == Some(t@),
    {
        let now = current_timestamp();
        self.get_user_type_at(token, now)
    }

    /// The user id carried by a refresh token, checked against the clock.
    pub fn get_refresh_user_id(&self, token: &str) -> (res: Option<i64>)
        ensures
            exists|now: u64| res == self.refresh_user_id_at(token@, now),
            !refresh_shape(self.fields(token@)) ==> res is None,
            res matches Some(id) ==> parsed_i64(self.fields(token@)->0.sub->0) == Some(id),
    {
        let now = current_timestamp();
        self.get_refresh_user_id_at(token, now)
    }

    /// Whether `token` is an access token signed with this secret and not
    /// expired by the clock.
    pub fn validate_token(&self, token: &str) -> (res: bool)
        ensures
            exists|now: u64| res == access_valid(self.fields(token@), now),
            res ==> access_shape(self.fields(token@)),
    {
        let now = current_timestamp();
        self.validate_token_at(token, now)
    }

    /// Whether `token` is a refresh token signed with this secret and not
    /// expired by the clock.
    pub fn validate_refresh_token(&self, token: &str) -> (res: bool)
        ensures
            exists|now: u64| res == refresh_valid(self.fields(token@), now),
            res ==> refresh_shape(self.fields(token@)),
    {
        let now = current_timestamp();
        self.validate_refresh_token_at(token, now)
    }
}

/// An access token issued to a user reads back, until it expires (with the
/// 60 s leeway), as a valid access token of that user and type; it is never
/// taken for a refresh token.
pub proof fn law_access_token_round_trip(
    jwt: JwtUtil,
    token: Seq<char>,
    user_id: i64,
    user_email: Seq<char>,
    user_type: Seq<char>,
    now: i64,
    at: u64,
)
    requires
        jwt.fields(token) == Some(jwt.issued_access_fields(user_id, user_email, user_type, now)),
        0 <= jwt.access_expiry(now) <= i64::MAX,
        at <= jwt.access_expiry(now) + EXPIRY_LEEWAY,
    ensures
        access_valid(jwt.fields(token), at),
        jwt.user_id_at(token, at) == Some(user_id),
        jwt.fields(token)->0.user_type == Some(user_type),
        !refresh_valid(jwt.fields(token), at),
        jwt.refresh_user_id_at(token, at) is None,
{
    crate::number::lemma_decimal_round_trip(user_id);
    reveal_strlit("access");
    reveal_strlit("refresh");
    assert("access"@[0] != "refresh"@[0]);
}

/// A refresh token issued to a user reads back, until it expires (with the
/// leeway), as a valid refresh token of that user; it is never taken for an
/// access token.
pub proof fn law_refresh_token_round_trip(jwt: JwtUtil, token: Seq<char>, user_id: i64, now: i64, at: u64)
    requires
        jwt.fields(token) == Some(jwt.issued_refresh_fields(user_id, now)),
        0 <= jwt.refresh_expiry(now) <= i64::MAX,
        at <= jwt.refresh_expiry(now) + EXPIRY_LEEWAY,
    ensures
        refresh_valid(jwt.fields(token), at),
        jwt.refresh_user_id_at(token, at) == Some(user_id),
        !access_valid(jwt.fields(token), at),
        jwt.user_id_at(token, at) is None,
{
    crate::number::lemma_decimal_round_trip(user_id);
    reveal_strlit("access");
    reveal_strlit("refresh");
    assert("access"@[0] != "refresh"@[0]);
}

/// Once past its expiry and the leeway, an issued token is refused as
/// either kind.
pub proof fn law_expired_tokens_refused(jwt: JwtUtil, token: Seq<char>, exp: i64, at: u64)
    requires
        jwt.fields(token) matches Some(f) && f.exp == Some(exp),
        (exp as int) < (at as int) - (EXPIRY_LEEWAY as int),
    ensures
        !access_valid(jwt.fields(token), at),
        !refresh_valid(jwt.fields(token), at),
        jwt.user_id_at(token, at) is None,
        jwt.refresh_user_id_at(token, at) is None,
{
}

/// The token in an `Authorization` header value: the text after `Bearer `,
/// trimmed, when that is not empty.
pub open spec fn bearer_value(header: Seq<char>) -> Option<Seq<char>> {
    if seq_starts_with(header, "Bearer "@) {
        let t = trimmed(header.skip("Bearer "@.len() as int));
        if t.len() > 0 { Some(t) } else { None }
    } else {
        None
    }
}

/// The bearer token of an `Authorization` header value.
pub fn bearer_token(header: &str) -> (res: Option<String>)
    ensures
        match res {
            Some(t) => bearer_value(header@) == Some(t@),
            None => bearer_value(header@) is None,
        },
{
    let v = crate::text::chars_of(header);
    let prefix = crate::text::chars_of("Bearer ");
    if prefix.len() > v.len() {
        return None;
    }
    let head = crate::text::chars_slice(v.as_slice(), 0, prefix.len());
    if !crate::text::chars_eq(head.as_slice(), prefix.as_slice()) {
        return None;
    }
    assert(seq_starts_with(v@, "Bearer "@));
    let rest = crate::text::chars_slice(v.as_slice(), prefix.len(), v.len());
    assert(rest@ =~= v@.skip("Bearer "@.len() as int));
    let t = crate::text::trim_chars(rest.as_slice());
    if t.len() == 0 {
        return None;
    }
    Some(crate::text::string_of(t.as_slice()))
}

/// A refresh token lives as long as the refresh setting says: issued at
/// `now` (seconds) with a refresh lifetime of `refresh_expiration`
/// milliseconds, its `exp` is `now + refresh_expiration / 1000`, and it
/// reads back as its user's refresh token at every time up to then (with
/// the 60 s leeway).
pub proof fn law_refresh_lifetime_is_the_refresh_setting(jwt: JwtUtil, token: Seq<char>, user_id: i64, now: i64, at: u64)
    requires
        jwt.fields(token) == jwt.refresh_read_back(user_id, now),
        now >= 0,
        jwt.refresh_expiration() >= 0,
        now + jwt.refresh_expiration() / 1000 <= i64::MAX,
        at <= now + jwt.refresh_expiration() / 1000 + 60,
    ensures
        jwt.fields(token) matches Some(f) && f.exp == Some((now + jwt.refresh_expiration() / 1000) as i64),
        jwt.refresh_user_id_at(token, at) == Some(user_id),
{
    law_refresh_token_round_trip(jwt, token, user_id, now, at);
}

/// An access token lives as long as the access setting says: issued at
/// `now` with an access lifetime of `expiration` milliseconds, its `exp` is
/// `now + expiration / 1000`, and it reads back as its user's access token
/// at every time up to then (with the 60 s leeway).
pub proof fn law_access_lifetime_is_the_access_setting(
    jwt: JwtUtil,
    token: Seq<char>,
    user_id: i64,
    user_email: Seq<char>,
    user_type: Seq<char>,
    now: i64,
    at: u64,
)
    requires
        jwt.fields(token) == jwt.access_read_back(user_id, user_email, user_type, now),
        now >= 0,
        jwt.expiration() >= 0,
        now + jwt.expiration() / 1000 <= i64::MAX,
        at <= now + jwt.expiration() / 1000 + 60,
    ensures
        jwt.fields(token) matches Some(f) && f.exp == Some((now + jwt.expiration() / 1000) as i64),
        jwt.user_id_at(token, at) == Some(user_id),
{
    law_access_token_round_trip(jwt, token, user_id, user_email, user_type, now, at);
}

} // verus!
