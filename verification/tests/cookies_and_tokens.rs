use mission_service::cookie::{
    build_refresh_cookie, clear_refresh_cookie, cookie_same_site, cookie_secure, refresh_cookie_suffix,
    refresh_max_age, refresh_token_from_cookies, CookieSettings,
};
use mission_service::jwt::{bearer_token, JwtConfigError, JwtUtil};

fn defaults() -> CookieSettings {
    CookieSettings { secure: None, same_site: None }
}

fn jwt() -> JwtUtil {
    match JwtUtil::new(
        Some("test-secret-key-for-the-mission-service".to_string()),
        Some("3600000".to_string()),
        Some("604800000".to_string()),
    ) {
        Ok(j) => j,
        Err(_) => panic!("settings are valid"),
    }
}

#[test]
fn cookie_attributes_follow_settings() {
    assert!(cookie_secure(None));
    assert!(cookie_secure(Some("true")));
    assert!(!cookie_secure(Some("false")));
    assert!(cookie_secure(Some("no")));
    assert_eq!(cookie_same_site(None), "Strict");
    assert_eq!(cookie_same_site(Some("LAX")), "Lax");
    assert_eq!(cookie_same_site(Some("none")), "None");
    assert_eq!(cookie_same_site(Some("weird")), "Strict");
}

#[test]
fn refresh_cookie_text() {
    assert_eq!(
        refresh_cookie_suffix(604800, &defaults()),
        "; HttpOnly; Path=/; Max-Age=604800; SameSite=Strict; Secure"
    );
    assert_eq!(
        build_refresh_cookie("abc", 60, &defaults()),
        "refreshToken=abc; HttpOnly; Path=/; Max-Age=60; SameSite=Strict; Secure"
    );
    let lax = CookieSettings { secure: Some("false".to_string()), same_site: Some("lax".to_string()) };
    assert_eq!(build_refresh_cookie("t", 1, &lax), "refreshToken=t; HttpOnly; Path=/; Max-Age=1; SameSite=Lax");
}

#[test]
fn cleared_cookie_expires_now() {
    assert_eq!(
        clear_refresh_cookie(&defaults()),
        "refreshToken=; HttpOnly; Path=/; Max-Age=0; SameSite=Strict; Secure"
    );
}

#[test]
fn refresh_lifetime_in_seconds() {
    assert_eq!(refresh_max_age(None), 604800);
    assert_eq!(refresh_max_age(Some("120000")), 120);
    assert_eq!(refresh_max_age(Some("oops")), 604800);
    assert_eq!(refresh_max_age(Some("-1500")), -1);
}

#[test]
fn refresh_cookie_is_found_among_cookies() {
    assert_eq!(refresh_token_from_cookies("a=1; refreshToken=xyz; b=2"), Some("xyz".to_string()));
    assert_eq!(refresh_token_from_cookies("refreshToken=first;refreshToken=second"), Some("first".to_string()));
    assert_eq!(refresh_token_from_cookies("  refreshToken=  "), Some("".to_string()));
    assert_eq!(refresh_token_from_cookies("a=1; b=2"), None);
    assert_eq!(refresh_token_from_cookies(""), None);
}

#[test]
fn bearer_header_parsing() {
    assert_eq!(bearer_token("Bearer abc.def"), Some("abc.def".to_string()));
    assert_eq!(bearer_token("Bearer   abc  "), Some("abc".to_string()));
    assert_eq!(bearer_token("Bearer    "), None);
    assert_eq!(bearer_token("Basic abc"), None);
    assert_eq!(bearer_token("bearer abc"), None);
}

#[test]
fn token_settings_errors() {
    assert!(matches!(JwtUtil::new(None, Some("1".to_string()), Some("1".to_string())), Err(JwtConfigError::MissingSecret)));
    assert!(matches!(JwtUtil::new(Some("s".to_string()), None, Some("1".to_string())), Err(JwtConfigError::MissingExpiration)));
    assert!(matches!(
        JwtUtil::new(Some("s".to_string()), Some("x".to_string()), Some("1".to_string())),
        Err(JwtConfigError::InvalidExpiration)
    ));
    assert!(matches!(
        JwtUtil::new(Some("s".to_string()), Some("1".to_string()), None),
        Err(JwtConfigError::MissingRefreshExpiration)
    ));
    assert!(matches!(
        JwtUtil::new(Some("s".to_string()), Some("1".to_string()), Some("1.5".to_string())),
        Err(JwtConfigError::InvalidRefreshExpiration)
    ));
}

#[test]
fn access_token_round_trip() {
    let j = jwt();
    let token = j.generate_token(42, "a@b.c", "USER");
    assert!(token.split('.').count() == 3);
    assert!(j.validate_token(&token));
    assert_eq!(j.get_user_id(&token), Some(42));
    assert_eq!(j.get_user_type(&token), Some("USER".to_string()));
    assert!(!j.validate_refresh_token(&token));
    assert_eq!(j.get_refresh_user_id(&token), None);
}

#[test]
fn refresh_token_round_trip() {
    let j = jwt();
    let token = j.generate_refresh_token(7);
    assert!(j.validate_refresh_token(&token));
    assert_eq!(j.get_refresh_user_id(&token), Some(7));
    assert!(!j.validate_token(&token));
    assert_eq!(j.get_user_id(&token), None);
}

#[test]
fn tokens_of_another_secret_are_rejected() {
    let j = jwt();
    let other = match JwtUtil::new(Some("another".to_string()), Some("3600000".to_string()), Some("1000".to_string())) {
        Ok(o) => o,
        Err(_) => panic!("settings are valid"),
    };
    let token = other.generate_token(1, "", "STORE");
    assert!(!j.validate_token(&token));
    assert!(!j.validate_token("not a token"));
}

#[test]
fn expired_tokens_are_rejected_after_the_leeway() {
    let j = jwt();
    let token = j.generate_token_at(5, "", "USER", 1_000_000);
    assert!(j.validate_token_at(&token, 1_000_000));
    assert!(j.validate_token_at(&token, 1_000_000 + 3600 + 60));
    assert!(!j.validate_token_at(&token, 1_000_000 + 3600 + 61));
    assert_eq!(j.get_user_id_at(&token, 1_000_000), Some(5));
}
