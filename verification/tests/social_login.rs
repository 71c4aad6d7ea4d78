use mission_service::auth::User;
use mission_service::jwt::JwtUtil;
use mission_service::oauth::{
    CallbackError, JsonKind, JsonValue, OAuthError, OAuthPrincipal, OAuthService, OAuthUserInfo,
};

fn s(text: &str) -> JsonValue {
    JsonValue { text: format!("\"{}\"", text), kind: JsonKind::Str(text.to_string()) }
}

fn n(text: &str) -> JsonValue {
    JsonValue { text: text.to_string(), kind: JsonKind::Number }
}

fn obj(members: Vec<(&str, JsonValue)>) -> JsonValue {
    JsonValue {
        text: "{...}".to_string(),
        kind: JsonKind::Object(members.into_iter().map(|(k, v)| (k.to_string(), v)).collect()),
    }
}

fn members(v: Vec<(&str, JsonValue)>) -> Vec<(String, JsonValue)> {
    v.into_iter().map(|(k, v)| (k.to_string(), v)).collect()
}

#[test]
fn kakao_profile() {
    let attrs = members(vec![
        ("id", n("123456789")),
        ("kakao_account", obj(vec![("email", s("k@kakao.com"))])),
        ("properties", obj(vec![("nickname", s("카카오"))])),
    ]);
    let info = OAuthUserInfo::of("kakao", &attrs).ok().expect("kakao is supported");
    assert_eq!(info.provider, "KAKAO");
    assert_eq!(info.provider_id, "123456789");
    assert_eq!(info.email, Some("k@kakao.com".to_string()));
    assert_eq!(info.nickname, Some("카카오".to_string()));
}

#[test]
fn naver_profile_takes_the_id_string_contents() {
    let attrs = members(vec![(
        "response",
        obj(vec![("id", s("abc")), ("email", s("n@naver.com")), ("name", s("네이버"))]),
    )]);
    let info = OAuthUserInfo::of("naver", &attrs).ok().expect("naver is supported");
    assert_eq!(info.provider, "NAVER");
    assert_eq!(info.provider_id, "abc");
    assert_eq!(info.nickname, Some("네이버".to_string()));
}

#[test]
fn google_profile_and_missing_fields() {
    let attrs = members(vec![("sub", s("g-1")), ("email", n("5"))]);
    let info = OAuthUserInfo::of("google", &attrs).ok().expect("google is supported");
    assert_eq!(info.provider, "GOOGLE");
    assert_eq!(info.provider_id, "g-1");
    assert_eq!(info.email, None);
    assert_eq!(info.nickname, None);
    let empty = OAuthUserInfo::of("kakao", &Vec::new()).ok().expect("kakao is supported");
    assert_eq!(empty.provider_id, "");
    assert!(OAuthUserInfo::of("apple", &Vec::new()).is_err());
}

#[test]
fn provider_endpoints() {
    assert_eq!(OAuthService::user_info_endpoint("kakao").ok(), Some("https://kapi.kakao.com/v2/user/me"));
    assert_eq!(OAuthService::user_info_endpoint("google").ok(), Some("https://www.googleapis.com/oauth2/v3/userinfo"));
    assert!(matches!(OAuthService::user_info_endpoint("x"), Err(OAuthError::UnsupportedProvider)));
    let (url, id, secret, redirect) = OAuthService::token_endpoint("naver").ok().expect("naver is supported");
    assert_eq!(url, "https://nid.naver.com/oauth2.0/token");
    assert_eq!((id, secret, redirect), ("NAVER_CLIENT_ID", "NAVER_CLIENT_SECRET", "NAVER_REDIRECT_URI"));
    assert!(matches!(OAuthService::token_endpoint("KAKAO"), Err(OAuthError::UnsupportedProvider)));
}

#[test]
fn access_token_of_exchange_answers() {
    let ok = obj(vec![("access_token", s("tok")), ("expires_in", n("3600"))]);
    assert_eq!(OAuthService::access_token_of(&ok).ok(), Some("tok".to_string()));
    let numeric = obj(vec![("access_token", n("1"))]);
    assert!(matches!(OAuthService::access_token_of(&numeric), Err(OAuthError::ApiCallFailed)));
    assert!(matches!(OAuthService::access_token_of(&s("x")), Err(OAuthError::ApiCallFailed)));
}

#[test]
fn first_social_login_makes_an_account() {
    let info = OAuthUserInfo {
        provider: "KAKAO".to_string(),
        provider_id: "1".to_string(),
        email: None,
        nickname: None,
    };
    let u = OAuthService::new_oauth_user(&info, None, 99);
    assert_eq!(u.user_name, "OAuth User");
    assert_eq!(u.user_nickname, "");
    assert_eq!(u.user_type, "USER");
    assert_eq!(u.user_password, "OAUTH_USER");
    assert_eq!(u.provider, Some("KAKAO".to_string()));
    assert_eq!(u.user_joindate, Some(99));
    let named = OAuthUserInfo { nickname: Some("nick".to_string()), ..info };
    let v = OAuthService::new_oauth_user(&named, Some("STORE".to_string()), 1);
    assert_eq!((v.user_name.as_str(), v.user_nickname.as_str(), v.user_type.as_str()), ("nick", "nick", "STORE"));
    let store_info = OAuthService::oauth_user_info(4, "STORE");
    assert_eq!(store_info.user_info_mission_make, 3);
    let user_info = OAuthService::oauth_user_info(4, "USER");
    assert_eq!(user_info.user_info_mission_do, 10);
    assert!(matches!(OAuthService::saved_user_id(&None), Err(OAuthError::DbError)));
}

fn account() -> User {
    let mut u = User::new("n".to_string(), "nick".to_string(), "OAUTH_USER".to_string(), "PENDING".to_string(), 0);
    u.user_id = Some(12);
    u.user_email = Some("e@x".to_string());
    u
}

#[test]
fn successful_social_login() {
    let jwt = JwtUtil::new(Some("s".to_string()), Some("60000".to_string()), Some("120000".to_string())).ok().expect("valid");
    let tokens = OAuthService::oauth_tokens(&jwt, &account()).ok().expect("has an id");
    assert_eq!(tokens.0, 12);
    assert_eq!(jwt.get_user_id(&tokens.1), Some(12));
    assert_eq!(jwt.get_refresh_user_id(&tokens.2), Some(12));
    let mut keyless = account();
    keyless.user_id = None;
    assert!(matches!(OAuthService::oauth_tokens(&jwt, &keyless), Err(OAuthError::DbError)));
    let at = OAuthService::oauth_tokens_at(&jwt, &account(), 1_000).ok().expect("has an id");
    assert_eq!(at.1, jwt.generate_token_at(12, "e@x", "PENDING", 1_000));
    assert_eq!(at.2, jwt.generate_refresh_token_at(12, 1_000));

    let r = OAuthService::oauth_success(account(), tokens, Some("https://app/cb".to_string()), Some("120000"))
        .ok()
        .expect("allowed");
    assert_eq!(r.max_age, 120);
    assert_eq!(r.user_email, "e@x");
    assert_eq!(OAuthService::redirect_location(&r), format!("https://app/cb#token={}", r.access_token));
    let (login, max_age) = OAuthService::login_response_of(r);
    assert!(login.is_new_user);
    assert_eq!((login.user_info_level, login.user_info_point, max_age), (0, 0, 120));
}

#[test]
fn redirect_targets_are_checked() {
    let t = (1, "a".to_string(), "r".to_string());
    assert!(matches!(OAuthService::oauth_success(account(), t, None, None), Err(OAuthError::InvalidRedirectUri)));
    let t = (1, "a".to_string(), "r".to_string());
    assert!(matches!(
        OAuthService::oauth_success(account(), t, Some("http://evil.com".to_string()), None),
        Err(OAuthError::InvalidRedirectUri)
    ));
    let t = (1, "a".to_string(), "r".to_string());
    let local = OAuthService::oauth_success(account(), t, Some("http://localhost:3000/cb".to_string()), None).ok().expect("local");
    assert_eq!(local.max_age, 604800);
}

#[test]
fn callback_parameters() {
    assert!(matches!(OAuthService::callback_params(None, Some("kakao".to_string())), Err(CallbackError::MissingCode)));
    assert!(matches!(OAuthService::callback_params(Some("c".to_string()), None), Err(CallbackError::MissingProvider)));
    assert_eq!(CallbackError::MissingCode.message(), "code 없음");
    let (c, p) = OAuthService::callback_params(Some("c".to_string()), Some("naver".to_string())).ok().expect("both");
    assert_eq!((c.as_str(), p.as_str()), ("c", "naver"));
}

#[test]
fn principal_role_and_name() {
    let mut u = account();
    u.provider_id = Some("pid".to_string());
    let p = OAuthPrincipal::new(u, Vec::new());
    assert_eq!(p.get_role(), "ROLE_PENDING");
    assert_eq!(p.get_name(), Some("pid"));
}
