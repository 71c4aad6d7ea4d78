//! Social login: the providers' endpoints, the reading of each provider's
//! profile answer, the account made on a first login, and the answer after a
//! successful one.

use vstd::prelude::*;
use crate::auth::{LoginResponseDto, User, UserInfo, fresh_info};
use crate::cookie::refresh_expiration_ms;
use crate::jwt::{JwtUtil, opt_text};
use crate::number::trunc_div;
use crate::text::{push_str, seq_starts_with, str_eq, str_starts_with};

verus! {

/// A JSON value as a provider answered it: its text as `serde_json` renders
/// it, and what the login logic reads of it.
pub struct JsonValue {
    pub text: String,
    pub kind: JsonKind,
}

/// The kind of a JSON value, with the contents the login logic reads.
pub enum JsonKind {
    Null,
    Bool(bool),
    Number,
    Str(String),
    Array,
    /// The members of an object, each key once (`keys_unique`).
    Object(Vec<(String, JsonValue)>),
}

/// No key occurs twice among the members of an object, as in the map a
/// JSON object is read into.
pub open spec fn keys_unique(members: Seq<(String, JsonValue)>) -> bool {
    forall|i: int, j: int| 0 <= i < j < members.len() ==> #[trigger] members[i].0@ != #[trigger] members[j].0@
}

/// The value under `key` among the members of an object.
pub open spec fn json_lookup(members: Seq<(String, JsonValue)>, key: Seq<char>) -> Option<JsonValue>
    decreases members.len(),
{
    if members.len() == 0 {
        None
    } else if members[0].0@ == key {
        Some(members[0].1)
    } else {
        json_lookup(members.drop_first(), key)
    }
}

/// Among members with unique keys, the value under a key is that of the one
/// member holding it, wherever it stands.
pub proof fn law_lookup_finds_the_member(members: Seq<(String, JsonValue)>, i: int)
    requires
        keys_unique(members),
        0 <= i < members.len(),
    ensures
        json_lookup(members, members[i].0@) == Some(members[i].1),
    decreases members.len(),
{
    if i > 0 {
        let rest = members.drop_first();
        assert(members[0].0@ != members[i].0@);
        assert(keys_unique(rest)) by {
            assert forall|a: int, b: int| 0 <= a < b < rest.len() implies #[trigger] rest[a].0@ != #[trigger] rest[b].0@ by {
                assert(rest[a] == members[a + 1]);
                assert(rest[b] == members[b + 1]);
            }
        }
        assert(rest[i - 1] == members[i]);
        law_lookup_finds_the_member(rest, i - 1);
    }
}

/// The value under `key` when `v` is an object.
pub open spec fn json_field(v: Option<JsonValue>, key: Seq<char>) -> Option<JsonValue> {
    match v {
        Some(j) => match j.kind {
            JsonKind::Object(members) => json_lookup(members@, key),
            _ => None,
        },
        None => None,
    }
}

/// The string `v` holds, when it is a JSON string.
pub open spec fn json_str(v: Option<JsonValue>) -> Option<Seq<char>> {
    match v {
        Some(j) => match j.kind {
            JsonKind::Str(s) => Some(s@),
            _ => None,
        },
        None => None,
    }
}

/// An identifier as read from `v`: the contents of a JSON string, the JSON
/// text of any other value (a number's digits), or nothing when there is no
/// value.
pub open spec fn json_id_or_empty(v: Option<JsonValue>) -> Seq<char> {
    match v {
        Some(j) => match j.kind {
            JsonKind::Str(s) => s@,
            _ => j.text@,
        },
        None => Seq::empty(),
    }
}

fn lookup<'a>(members: &'a Vec<(String, JsonValue)>, key: &str) -> (r: Option<&'a JsonValue>)
    ensures
        match (r, json_lookup(members@, key@)) {
            (Some(a), Some(b)) => *a == b,
            (None, None) => true,
            _ => false,
        },
{
    let mut i: usize = 0;
    assert(members@.skip(0) =~= members@);
    while i < members.len()
        invariant
            i <= members.len(),
            json_lookup(members@, key@) == json_lookup(members@.skip(i as int), key@),
        decreases members.len() - i,
    {
        assert(members@.skip(i as int)[0] == members@[i as int]);
        if str_eq(members[i].0.as_str(), key) {
            return Some(&members[i].1);
        }
        assert(members@.skip(i as int).drop_first() =~= members@.skip(i + 1));
        i = i + 1;
    }
    None
}

fn field<'a>(v: Option<&'a JsonValue>, key: &str) -> (r: Option<&'a JsonValue>)
    ensures
        match (r, json_field(match v { Some(a) => Some(*a), None => None }, key@)) {
            (Some(a), Some(b)) => *a == b,
            (None, None) => true,
            _ => false,
        },
{
    match v {
        Some(j) => match &j.kind {
            JsonKind::Object(members) => lookup(members, key),
            _ => None,
        },
        None => None,
    }
}

fn string_in(v: Option<&JsonValue>) -> (r: Option<String>)
    ensures
        opt_text(r) == json_str(match v { Some(a) => Some(*a), None => None }),
{
    match v {
        Some(j) => match &j.kind {
            JsonKind::Str(s) => Some(s.clone()),
            _ => None,
        },
        None => None,
    }
}

fn id_or_empty(v: Option<&JsonValue>) -> (r: String)
    ensures
        r@ == json_id_or_empty(match v { Some(a) => Some(*a), None => None }),
{
    match v {
        Some(j) => match &j.kind {
            JsonKind::Str(s) => s.clone(),
            _ => j.text.clone(),
        },
        None => String::new(),
    }
}

/// `t` holds the key `id` of `user` and the two tokens issued to it at
/// `now`: the access token with the account's email (or nothing) and type,
/// and the refresh token, each reading back with the issued claims unless
/// its expiry is negative.
pub open spec fn oauth_tokens_issued(jwt: JwtUtil, user: User, id: i64, now: i64, t: (i64, String, String)) -> bool {
    let email = crate::auth::email_or_empty(user.user_email);
    &&& t.0 == id
    &&& t.1@ == jwt.access_token_at(id, email, user.user_type@, now)
    &&& jwt.fields(t.1@) == (if jwt.access_expiry(now) >= 0 {
        Some(jwt.issued_access_fields(id, email, user.user_type@, now))
    } else {
        None
    })
    &&& t.2@ == jwt.refresh_token_at(id, now)
    &&& jwt.fields(t.2@) == (if jwt.refresh_expiry(now) >= 0 {
        Some(jwt.issued_refresh_fields(id, now))
    } else {
        None
    })
}

/// A profile answer read into one form, whatever the provider.
pub struct OAuthUserInfo {
    pub provider: String,
    pub provider_id: String,
    pub email: Option<String>,
    pub nickname: Option<String>,
}

/// The profile answer of an unknown provider.
#[derive(Debug)]
pub struct UnsupportedProviderError;

/// The login request of a client that holds a provider's access token.
pub struct SocialLoginRequest {
    pub access_token: String,
}

/// Failures of a social login.
#[derive(Debug)]
pub enum OAuthError {
    UnsupportedProvider,
    ApiCallFailed,
    DbError,
    InvalidRedirectUri,
}

/// What a successful social login answers.
pub struct OAuthSuccessResponse {
    pub access_token: String,
    pub refresh_token: String,
    pub redirect_uri: String,
    pub max_age: i64,
    pub user_id: i64,
    pub user_name: String,
    pub user_nickname: String,
    pub user_email: String,
    pub user_type: String,
}

/// What each provider's profile answer yields: (provider, provider id,
/// email, nickname). Kakao keeps its id at the top, the email under
/// `kakao_account` and the nickname under `properties`; Naver keeps
/// everything under `response`, the nickname as `name`; Google answers
/// flat, its id as `sub`. The id is the contents of the value found when it
/// is a string, its JSON text otherwise (a numeric id's digits), or empty
/// when there is none; email and nickname are kept only when they are
/// strings.
pub open spec fn profile_of(registration_id: Seq<char>, attrs: Seq<(String, JsonValue)>) -> Option<
    (Seq<char>, Seq<char>, Option<Seq<char>>, Option<Seq<char>>),
> {
    if registration_id == "kakao"@ {
        Some((
            "KAKAO"@,
            json_id_or_empty(json_lookup(attrs, "id"@)),
            json_str(json_field(json_lookup(attrs, "kakao_account"@), "email"@)),
            json_str(json_field(json_lookup(attrs, "properties"@), "nickname"@)),
        ))
    } else if registration_id == "naver"@ {
        let resp = json_lookup(attrs, "response"@);
        Some((
            "NAVER"@,
            json_id_or_empty(json_field(resp, "id"@)),
            json_str(json_field(resp, "email"@)),
            json_str(json_field(resp, "name"@)),
        ))
    } else if registration_id == "google"@ {
        Some((
            "GOOGLE"@,
            json_id_or_empty(json_lookup(attrs, "sub"@)),
            json_str(json_lookup(attrs, "email"@)),
            json_str(json_lookup(attrs, "name"@)),
        ))
    } else {
        None
    }
}

impl OAuthUserInfo {
    /// This profile as (provider, provider id, email, nickname).
    pub open spec fn view(&self) -> (Seq<char>, Seq<char>, Option<Seq<char>>, Option<Seq<char>>) {
        (self.provider@, self.provider_id@, opt_text(self.email), opt_text(self.nickname))
    }

    /// Reads a provider's profile answer (its top-level members) into one
    /// form; an unknown provider is refused.
    pub fn of(registration_id: &str, attrs: &Vec<(String, JsonValue)>) -> (r: Result<OAuthUserInfo, UnsupportedProviderError>)
        ensures
            match profile_of(registration_id@, attrs@) {
                Some(p) => r matches Ok(info) && info@ == p,
                None => r is Err,
            },
    {
        if str_eq(registration_id, "kakao") {
            let provider_id = id_or_empty(lookup(attrs, "id"));
            let account = field(lookup(attrs, "kakao_account"), "email");
            let props = field(lookup(attrs, "properties"), "nickname");
            Ok(OAuthUserInfo {
                provider: crate::text::string_from("KAKAO"),
                provider_id,
                email: string_in(account),
                nickname: string_in(props),
            })
        } else if str_eq(registration_id, "naver") {
            let resp = lookup(attrs, "response");
            let provider_id = id_or_empty(field(resp, "id"));
            let email = string_in(field(resp, "email"));
            let nickname = string_in(field(resp, "name"));
            Ok(OAuthUserInfo {
                provider: crate::text::string_from("NAVER"),
                provider_id,
                email,
                nickname,
            })
        } else if str_eq(registration_id, "google") {
            let provider_id = id_or_empty(lookup(attrs, "sub"));
            let email = string_in(lookup(attrs, "email"));
            let nickname = string_in(lookup(attrs, "name"));
            Ok(OAuthUserInfo {
                provider: crate::text::string_from("GOOGLE"),
                provider_id,
                email,
                nickname,
            })
        } else {
            Err(UnsupportedProviderError)
        }
    }
}

/// The account behind a social login, with the provider's answer.
pub struct OAuthPrincipal {
    pub user: User,
    pub attributes: Vec<(String, JsonValue)>,
}

impl OAuthPrincipal {
    pub fn new(user: User, attributes: Vec<(String, JsonValue)>) -> (p: OAuthPrincipal)
        ensures
            p.user == user,
            p.attributes == attributes,
    {
        OAuthPrincipal { user, attributes }
    }

    /// The authority of the account: `ROLE_` and its type.
    pub fn get_role(&self) -> (r: String)
        ensures
            r@ == "ROLE_"@ + self.user.user_type@,
    {
        let mut r = crate::text::string_from("ROLE_");
        push_str(&mut r, self.user.user_type.as_str());
        r
    }

    /// The provider's id of the account, as its name.
    pub fn get_name(&self) -> (r: Option<&str>)
        ensures
            match (r, self.user.provider_id) {
                (Some(a), Some(b)) => a@ == b@,
                (None, None) => true,
                _ => false,
            },
    {
        match &self.user.provider_id {
            Some(s) => Some(s.as_str()),
            None => None,
        }
    }
}

/// Where each provider answers a profile.
pub open spec fn user_info_url(registration_id: Seq<char>) -> Option<Seq<char>> {
    if registration_id == "kakao"@ {
        Some("https://kapi.kakao.com/v2/user/me"@)
    } else if registration_id == "naver"@ {
        Some("https://openapi.naver.com/v1/nid/me"@)
    } else if registration_id == "google"@ {
        Some("https://www.googleapis.com/oauth2/v3/userinfo"@)
    } else {
        None
    }
}

/// Where each provider exchanges a code, and the names of the settings
/// holding the client id, the client secret and the redirect URI.
pub open spec fn token_exchange(registration_id: Seq<char>) -> Option<(Seq<char>, Seq<char>, Seq<char>, Seq<char>)> {
    if registration_id == "kakao"@ {
        Some(("https://kauth.kakao.com/oauth/token"@, "KAKAO_CLIENT_ID"@, "KAKAO_CLIENT_SECRET"@, "KAKAO_REDIRECT_URI"@))
    } else if registration_id == "naver"@ {
        Some(("https://nid.naver.com/oauth2.0/token"@, "NAVER_CLIENT_ID"@, "NAVER_CLIENT_SECRET"@, "NAVER_REDIRECT_URI"@))
    } else if registration_id == "google"@ {
        Some(("https://oauth2.googleapis.com/token"@, "GOOGLE_CLIENT_ID"@, "GOOGLE_CLIENT_SECRET"@, "GOOGLE_REDIRECT_URI"@))
    } else {
        None
    }
}

/// A redirect target that may be used: HTTPS, or HTTP on localhost.
pub open spec fn redirect_allowed(uri: Seq<char>) -> bool {
    seq_starts_with(uri, "https://"@) || seq_starts_with(uri, "http://localhost"@)
}

/// The account made on a first social login: named by the nickname (or
/// "OAuth User"), nicknamed by it (or nothing), with the provider's email,
/// the given type (or `USER`), the fixed password `OAUTH_USER`, and joined at `now`.
pub open spec fn oauth_account(info: OAuthUserInfo, user_type: Option<String>, now: i64, u: User) -> bool {
    &&& u.user_id is None
    &&& u.user_name@ == (match info.nickname {
        Some(n) => n@,
        None => "OAuth User"@,
    })
    &&& u.user_nickname@ == (match info.nickname {
        Some(n) => n@,
        None => Seq::<char>::empty(),
    })
    &&& u.provider == Some(info.provider)
    &&& u.provider_id == Some(info.provider_id)
    &&& u.user_email == info.email
    &&& u.user_type@ == (match user_type {
        Some(t) => t@,
        None => "USER"@,
    })
    &&& u.user_password@ == "OAUTH_USER"@
    &&& u.user_number is None
    &&& u.user_avatar is None
    &&& u.user_is_active@ == "Y"@
    &&& u.user_joindate == Some(now)
    &&& u.user_updatedate == Some(now)
    &&& u.user_withdraw_date is None
    &&& u.refresh_token is None
}

/// Social-login decisions; the caller calls the providers and the database.
pub struct OAuthService;

impl OAuthService {
    /// Where a provider answers a profile; an unknown provider is refused.
    pub fn user_info_endpoint(registration_id: &str) -> (r: Result<&'static str, OAuthError>)
        ensures
            match user_info_url(registration_id@) {
                Some(u) => r matches Ok(s) && s@ == u,
                None => r matches Err(OAuthError::UnsupportedProvider),
            },
    {
        if str_eq(registration_id, "kakao") {
            Ok("https://kapi.kakao.com/v2/user/me")
        } else if str_eq(registration_id, "naver") {
            Ok("https://openapi.naver.com/v1/nid/me")
        } else if str_eq(registration_id, "google") {
            Ok("https://www.googleapis.com/oauth2/v3/userinfo")
        } else {
            Err(OAuthError::UnsupportedProvider)
        }
    }

    /// Where a provider exchanges a code, with the names of its settings;
    /// an unknown provider is refused.
    pub fn token_endpoint(registration_id: &str) -> (r: Result<(&'static str, &'static str, &'static str, &'static str), OAuthError>)
        ensures
            match token_exchange(registration_id@) {
                Some(t) => r matches Ok(s) && s.0@ == t.0 && s.1@ == t.1 && s.2@ == t.2 && s.3@ == t.3,
                None => r matches Err(OAuthError::UnsupportedProvider),
            },
    {
        if str_eq(registration_id, "kakao") {
            Ok(("https://kauth.kakao.com/oauth/token", "KAKAO_CLIENT_ID", "KAKAO_CLIENT_SECRET", "KAKAO_REDIRECT_URI"))
        } else if str_eq(registration_id, "naver") {
            Ok(("https://nid.naver.com/oauth2.0/token", "NAVER_CLIENT_ID", "NAVER_CLIENT_SECRET", "NAVER_REDIRECT_URI"))
        } else if str_eq(registration_id, "google") {
            Ok(("https://oauth2.googleapis.com/token", "GOOGLE_CLIENT_ID", "GOOGLE_CLIENT_SECRET", "GOOGLE_REDIRECT_URI"))
        } else {
            Err(OAuthError::UnsupportedProvider)
        }
    }

    /// The access token in a provider's answer to a code exchange: the
    /// string under `access_token`; anything else is a failed call.
    pub fn access_token_of(response: &JsonValue) -> (r: Result<String, OAuthError>)
        ensures
            match json_str(json_field(Some(*response), "access_token"@)) {
                Some(t) => r matches Ok(s) && s@ == t,
                None => r matches Err(OAuthError::ApiCallFailed),
            },
    {
        match string_in(field(Some(response), "access_token")) {
            Some(s) => Ok(s),
            None => Err(OAuthError::ApiCallFailed),
        }
    }

    /// The account to store on a first social login at `now`.
    pub fn new_oauth_user(info: &OAuthUserInfo, user_type: Option<String>, now: i64) -> (u: User)
        ensures
            oauth_account(*info, user_type, now, u),
    {
        let user_name = match &info.nickname {
            Some(n) => n.clone(),
            None => crate::text::string_from("OAuth User"),
        };
        let user_nickname = match &info.nickname {
            Some(n) => n.clone(),
            None => String::new(),
        };
        let user_type = match user_type {
            Some(t) => t,
            None => crate::text::string_from("USER"),
        };
        let email = match &info.email {
            Some(e) => Some(e.clone()),
            None => None,
        };
        User {
            user_id: None,
            user_name,
            user_nickname,
            user_email: email,
            user_password: crate::text::string_from("OAUTH_USER"),
            user_number: None,
            user_avatar: None,
            user_is_active: crate::text::string_from("Y"),
            user_joindate: Some(now),
            user_updatedate: Some(now),
            user_type,
            user_withdraw_date: None,
            provider: Some(info.provider.clone()),
            provider_id: Some(info.provider_id.clone()),
            refresh_token: None,
        }
    }

    /// The key of the stored account; a stored account without one is a
    /// database failure.
    pub fn saved_user_id(saved: &Option<User>) -> (r: Result<i64, OAuthError>)
        ensures
            match *saved {
                Some(u) => match u.user_id {
                    Some(id) => r == Ok::<i64, OAuthError>(id),
                    None => r matches Err(OAuthError::DbError),
                },
                None => r matches Err(OAuthError::DbError),
            },
    {
        match saved {
            Some(u) => match u.user_id {
                Some(id) => Ok(id),
                None => Err(OAuthError::DbError),
            },
            None => Err(OAuthError::DbError),
        }
    }

    /// The info stored with a first social login: a store owner's for type
    /// `STORE`, an ordinary user's for any other.
    pub fn oauth_user_info(user_id: i64, user_type: &str) -> (info: UserInfo)
        ensures
            fresh_info(user_id, user_type@ == "STORE"@, info),
    {
        if str_eq(user_type, "STORE") {
            UserInfo::for_store_user(user_id)
        } else {
            UserInfo::for_oauth_user(user_id)
        }
    }

    /// The tokens of a successful social login issued at `now`: a database
    /// failure when the account has no key. The access token carries the
    /// account's email (or nothing) and type.
    pub fn oauth_tokens_at(jwt_util: &JwtUtil, user: &User, now: i64) -> (r: Result<(i64, String, String), OAuthError>)
        requires
            0 <= now < 10_000_000_000_000,
        ensures
            match user.user_id {
                None => r matches Err(OAuthError::DbError),
                Some(id) => r matches Ok(t) && oauth_tokens_issued(*jwt_util, *user, id, now, t),
            },
    {
        let user_id = match user.user_id {
            Some(id) => id,
            None => return Err(OAuthError::DbError),
        };
        proof {
            reveal_strlit("");
        }
        let email: &str = match &user.user_email {
            Some(e) => e.as_str(),
            None => "",
        };
        assert(email@ == crate::auth::email_or_empty(user.user_email));
        let access_token = jwt_util.generate_token_at(user_id, email, user.user_type.as_str(), now);
        let refresh_token = jwt_util.generate_refresh_token_at(user_id, now);
        Ok((user_id, access_token, refresh_token))
    }

    /// `oauth_tokens_at` at the current time.
    pub fn oauth_tokens(jwt_util: &JwtUtil, user: &User) -> (r: Result<(i64, String, String), OAuthError>)
        ensures
            match user.user_id {
                None => r matches Err(OAuthError::DbError),
                Some(id) => r matches Ok(t) && exists|now: i64|
                    0 <= now < 10_000_000_000_000 && #[trigger] oauth_tokens_issued(*jwt_util, *user, id, now, t),
            },
    {
        let now = crate::jwt::utc_now_timestamp();
        Self::oauth_tokens_at(jwt_util, user, now)
    }

    /// The answer to a successful social login, once the refresh token is
    /// stored: the redirect target must be set and allowed; the cookie
    /// lives as long as the refresh setting says, in seconds.
    pub fn oauth_success(
        user: User,
        tokens: (i64, String, String),
        redirect_uri: Option<String>,
        refresh_expiration: Option<&str>,
    ) -> (r: Result<OAuthSuccessResponse, OAuthError>)
        ensures
            match redirect_uri {
                None => r matches Err(OAuthError::InvalidRedirectUri),
                Some(uri) => if !redirect_allowed(uri@) {
                    r matches Err(OAuthError::InvalidRedirectUri)
                } else {
                    r matches Ok(s) && {
                        &&& s.access_token == tokens.1
                        &&& s.refresh_token == tokens.2
                        &&& s.redirect_uri == uri
                        &&& s.max_age as int == trunc_div(
                            refresh_expiration_ms(match refresh_expiration { Some(v) => Some(v@), None => None }) as int,
                            1000,
                        )
                        &&& s.user_id == tokens.0
                        &&& s.user_name == user.user_name
                        &&& s.user_nickname == user.user_nickname
                        &&& s.user_email@ == crate::auth::email_or_empty(user.user_email)
                        &&& s.user_type == user.user_type
                    }
                },
            },
    {
        let uri = match redirect_uri {
            Some(u) => u,
            None => return Err(OAuthError::InvalidRedirectUri),
        };
        if !str_starts_with(uri.as_str(), "https://") && !str_starts_with(uri.as_str(), "http://localhost") {
            return Err(OAuthError::InvalidRedirectUri);
        }
        let max_age = crate::cookie::refresh_max_age(refresh_expiration);
        proof {
            reveal_strlit("");
        }
        let user_email = match user.user_email {
            Some(e) => e,
            None => String::new(),
        };
        let (user_id, access_token, refresh_token) = tokens;
        Ok(OAuthSuccessResponse {
            access_token,
            refresh_token,
            redirect_uri: uri,
            max_age,
            user_id,
            user_name: user.user_name,
            user_nickname: user.user_nickname,
            user_email,
            user_type: user.user_type,
        })
    }
}

/// Why a provider's redirect back is refused before any call.
#[derive(Debug)]
pub enum CallbackError {
    MissingCode,
    MissingProvider,
}

impl CallbackError {
    /// The text answering the refusal (with status 400).
    pub fn message(&self) -> (m: &'static str)
        ensures
            m@ == (match *self {
                CallbackError::MissingCode => "code 없음"@,
                CallbackError::MissingProvider => "provider 없음"@,
            }),
    {
        match self {
            CallbackError::MissingCode => "code 없음",
            CallbackError::MissingProvider => "provider 없음",
        }
    }
}

impl OAuthService {
    /// The code and the provider of a redirect back, both required, the
    /// code checked first.
    pub fn callback_params(code: Option<String>, provider: Option<String>) -> (r: Result<(String, String), CallbackError>)
        ensures
            match (code, provider) {
                (None, _) => r matches Err(CallbackError::MissingCode),
                (Some(_), None) => r matches Err(CallbackError::MissingProvider),
                (Some(c), Some(p)) => r == Ok::<(String, String), CallbackError>((c, p)),
            },
    {
        let c = match code {
            Some(c) => c,
            None => return Err(CallbackError::MissingCode),
        };
        match provider {
            Some(p) => Ok((c, p)),
            None => Err(CallbackError::MissingProvider),
        }
    }

    /// Where the browser goes after a redirect login: the allowed target,
    /// with the access token in the fragment.
    pub fn redirect_location(result: &OAuthSuccessResponse) -> (s: String)
        ensures
            s@ == result.redirect_uri@ + "#token="@ + result.access_token@,
    {
        let mut s = crate::text::string_from(result.redirect_uri.as_str());
        push_str(&mut s, "#token=");
        push_str(&mut s, result.access_token.as_str());
        s
    }

    /// The login answer of a social login made from the client, and the
    /// refresh cookie's lifetime: a new user is one still `PENDING` a role;
    /// level and points are not looked up and read 0.
    pub fn login_response_of(result: OAuthSuccessResponse) -> (r: (LoginResponseDto, i64))
        ensures
            r.0.token == result.access_token,
            r.0.refresh_token == result.refresh_token,
            r.0.is_new_user == (result.user_type@ == "PENDING"@),
            r.0.user_id == result.user_id,
            r.0.user_name == result.user_name,
            r.0.user_nickname == result.user_nickname,
            r.0.user_email == result.user_email,
            r.0.user_type == result.user_type,
            r.0.user_info_level == 0,
            r.0.user_info_point == 0,
            r.1 == result.max_age,
    {
        let is_new_user = str_eq(result.user_type.as_str(), "PENDING");
        (LoginResponseDto {
            token: result.access_token,
            refresh_token: result.refresh_token,
            is_new_user,
            user_type: result.user_type,
            user_id: result.user_id,
            user_name: result.user_name,
            user_nickname: result.user_nickname,
            user_email: result.user_email,
            user_info_level: 0,
            user_info_point: 0,
        }, result.max_age)
    }
}

/// Every supported provider is supported throughout: it has a profile
/// endpoint, a code exchange, and its profile answers can be read, whatever
/// they hold; any other provider is refused by all three.
pub proof fn law_providers_agree(registration_id: Seq<char>, attrs: Seq<(String, JsonValue)>)
    ensures
        user_info_url(registration_id) is Some <==> token_exchange(registration_id) is Some,
        user_info_url(registration_id) is Some <==> profile_of(registration_id, attrs) is Some,
{
}

/// The tokens of a social login read back as the account's: until they
/// expire (with the leeway) the access token gives the account's key and
/// type, and the refresh token gives the account's key.
pub proof fn law_social_login_tokens_read_back(jwt: JwtUtil, user: User, id: i64, now: i64, t: (i64, String, String), at: u64)
    requires
        oauth_tokens_issued(jwt, user, id, now, t),
        0 <= jwt.access_expiry(now) <= i64::MAX,
        0 <= jwt.refresh_expiry(now) <= i64::MAX,
        at <= jwt.access_expiry(now) + crate::jwt::EXPIRY_LEEWAY,
        at <= jwt.refresh_expiry(now) + crate::jwt::EXPIRY_LEEWAY,
    ensures
        jwt.user_id_at(t.1@, at) == Some(id),
        jwt.fields(t.1@)->0.user_type == Some(user.user_type@),
        jwt.refresh_user_id_at(t.2@, at) == Some(id),
{
    let email = crate::auth::email_or_empty(user.user_email);
    crate::jwt::law_access_token_round_trip(jwt, t.1@, id, email, user.user_type@, now, at);
    crate::jwt::law_refresh_token_round_trip(jwt, t.2@, id, now, at);
}

/// A profile read from a provider names that provider, in capitals.
pub proof fn law_profile_names_provider(registration_id: Seq<char>, attrs: Seq<(String, JsonValue)>)
    ensures
        profile_of(registration_id, attrs) matches Some(p) ==> (
            (registration_id == "kakao"@ && p.0 == "KAKAO"@)
            || (registration_id == "naver"@ && p.0 == "NAVER"@)
            || (registration_id == "google"@ && p.0 == "GOOGLE"@)),
{
}

/// Naver's profile is read from its `response` object alone: with string
/// `id`, `email` and `name` there, the profile is (`NAVER`, the id, the
/// email, the name as nickname), whatever the top level holds besides.
pub proof fn law_naver_reads_its_response(
    attrs: Seq<(String, JsonValue)>,
    resp: JsonValue,
    members: Vec<(String, JsonValue)>,
    id: JsonValue,
    email: JsonValue,
    name: JsonValue,
    i: String,
    e: String,
    n: String,
)
    requires
        json_lookup(attrs, "response"@) == Some(resp),
        resp.kind == JsonKind::Object(members),
        json_lookup(members@, "id"@) == Some(id),
        id.kind == JsonKind::Str(i),
        json_lookup(members@, "email"@) == Some(email),
        email.kind == JsonKind::Str(e),
        json_lookup(members@, "name"@) == Some(name),
        name.kind == JsonKind::Str(n),
    ensures
        profile_of("naver"@, attrs) == Some(("NAVER"@, i@, Some(e@), Some(n@))),
{
    reveal_strlit("naver");
    reveal_strlit("kakao");
    assert("naver"@ != "kakao"@) by {
        assert("naver"@[0] != "kakao"@[0]);
    }
}

/// Google's profile is read flat: with string `sub`, `email` and `name` at
/// the top, the profile is (`GOOGLE`, the sub, the email, the name as
/// nickname).
pub proof fn law_google_reads_flat(
    attrs: Seq<(String, JsonValue)>,
    id: JsonValue,
    email: JsonValue,
    name: JsonValue,
    i: String,
    e: String,
    n: String,
)
    requires
        json_lookup(attrs, "sub"@) == Some(id),
        id.kind == JsonKind::Str(i),
        json_lookup(attrs, "email"@) == Some(email),
        email.kind == JsonKind::Str(e),
        json_lookup(attrs, "name"@) == Some(name),
        name.kind == JsonKind::Str(n),
    ensures
        profile_of("google"@, attrs) == Some(("GOOGLE"@, i@, Some(e@), Some(n@))),
{
    reveal_strlit("naver");
    reveal_strlit("kakao");
    reveal_strlit("google");
    assert("google"@ != "kakao"@) by {
        assert("google"@[0] != "kakao"@[0]);
    }
    assert("google"@ != "naver"@) by {
        assert("google"@[0] != "naver"@[0]);
    }
}

/// Kakao's profile takes the id from the top, the email from
/// `kakao_account` and the nickname from `properties`: with a string at
/// each place, the profile is (`KAKAO`, the id, the email, the nickname).
pub proof fn law_kakao_reads_account_and_properties(
    attrs: Seq<(String, JsonValue)>,
    id: JsonValue,
    account: JsonValue,
    account_members: Vec<(String, JsonValue)>,
    props: JsonValue,
    props_members: Vec<(String, JsonValue)>,
    email: JsonValue,
    nick: JsonValue,
    i: String,
    e: String,
    n: String,
)
    requires
        json_lookup(attrs, "id"@) == Some(id),
        id.kind == JsonKind::Str(i),
        json_lookup(attrs, "kakao_account"@) == Some(account),
        account.kind == JsonKind::Object(account_members),
        json_lookup(account_members@, "email"@) == Some(email),
        email.kind == JsonKind::Str(e),
        json_lookup(attrs, "properties"@) == Some(props),
        props.kind == JsonKind::Object(props_members),
        json_lookup(props_members@, "nickname"@) == Some(nick),
        nick.kind == JsonKind::Str(n),
    ensures
        profile_of("kakao"@, attrs) == Some(("KAKAO"@, i@, Some(e@), Some(n@))),
{
}

} // verus!
