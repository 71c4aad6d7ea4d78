use mission_service::auth::User;
use mission_service::jwt::JwtUtil;
use mission_service::session::{
    authorize, authorize_at, refresh_subject_at, refresh_subject_now, rotate_tokens, rotate_tokens_at, AccessDenied,
    AuthHeader, RefreshError,
};

fn jwt() -> JwtUtil {
    JwtUtil::new(Some("k".to_string()), Some("3600000".to_string()), Some("604800000".to_string())).ok().expect("valid")
}

fn holder(token: Option<&str>) -> User {
    let mut u = User::new("n".to_string(), "nick".to_string(), "pw".to_string(), "USER".to_string(), 0);
    u.user_id = Some(3);
    u.refresh_token = token.map(|t| t.to_string());
    u
}

#[test]
fn requests_with_a_valid_bearer_token_pass() {
    let j = jwt();
    let token = j.generate_token_at(3, "a@b", "STORE", 1_000);
    let header = AuthHeader::Text(format!("Bearer {}", token));
    let (id, kind) = authorize_at(Some(&j), &header, 1_000).ok().expect("valid");
    assert_eq!((id, kind.as_str()), (3, "STORE"));
    let live = j.generate_token(4, "", "USER");
    let (id, kind) = authorize(Some(&j), &AuthHeader::Text(format!("Bearer {}", live))).ok().expect("valid");
    assert_eq!((id, kind.as_str()), (4, "USER"));
}

#[test]
fn requests_are_refused_in_order() {
    let j = jwt();
    assert!(matches!(authorize_at(Some(&j), &AuthHeader::Missing, 0), Err(AccessDenied::MissingHeader)));
    assert!(matches!(authorize_at(Some(&j), &AuthHeader::Unreadable, 0), Err(AccessDenied::MalformedHeader)));
    assert!(matches!(authorize_at(Some(&j), &AuthHeader::Text("Token x".to_string()), 0), Err(AccessDenied::MissingBearer)));
    assert!(matches!(authorize_at(None, &AuthHeader::Text("Bearer x".to_string()), 0), Err(AccessDenied::JwtConfig)));
    assert!(matches!(authorize_at(Some(&j), &AuthHeader::Text("Bearer x".to_string()), 0), Err(AccessDenied::InvalidToken)));
    let refresh = j.generate_refresh_token_at(3, 1_000);
    assert!(matches!(
        authorize_at(Some(&j), &AuthHeader::Text(format!("Bearer {}", refresh)), 1_000),
        Err(AccessDenied::InvalidToken)
    ));
    assert_eq!(AccessDenied::JwtConfig.status_code(), 500);
    assert_eq!(AccessDenied::MissingBearer.status_code(), 401);
    assert_eq!(AccessDenied::MissingHeader.message(), "Authorization 헤더 없음");
}

#[test]
fn refresh_subject_from_cookies() {
    let j = jwt();
    let t = j.generate_refresh_token_at(3, 5_000);
    let cookies = format!("theme=dark; refreshToken={}", t);
    let (token, id) = refresh_subject_at(&j, Some(&cookies), 5_000).ok().expect("valid");
    assert_eq!((token.as_str(), id), (t.as_str(), 3));
    assert!(matches!(refresh_subject_at(&j, None, 5_000), Err(RefreshError::InvalidRefreshToken)));
    assert!(matches!(refresh_subject_at(&j, Some("theme=dark"), 5_000), Err(RefreshError::InvalidRefreshToken)));
    let access = j.generate_token_at(3, "", "USER", 5_000);
    let with_access = format!("refreshToken={}", access);
    assert!(matches!(refresh_subject_at(&j, Some(&with_access), 5_000), Err(RefreshError::InvalidRefreshToken)));
    let live = j.generate_refresh_token(9);
    let (_, id) = refresh_subject_now(&j, Some(&format!("refreshToken={}", live))).ok().expect("valid");
    assert_eq!(id, 9);
}

#[test]
fn rotation_needs_the_stored_token() {
    let j = jwt();
    assert!(matches!(rotate_tokens_at(&j, 3, "t", &None, 10), Err(RefreshError::UserNotFound)));
    assert!(matches!(rotate_tokens_at(&j, 3, "t", &Some(holder(Some("other"))), 10), Err(RefreshError::TokenMismatch)));
    assert!(matches!(rotate_tokens_at(&j, 3, "t", &Some(holder(None)), 10), Err(RefreshError::TokenMismatch)));
    let (answer, new_refresh) = rotate_tokens_at(&j, 3, "t", &Some(holder(Some("t"))), 10).ok().expect("stored");
    assert_eq!(j.get_user_id_at(&answer.access_token, 10), Some(3));
    assert_eq!(j.get_user_type_at(&answer.access_token, 10), Some("USER".to_string()));
    assert_eq!(j.get_refresh_user_id_at(&new_refresh, 10), Some(3));
    let (live, _) = rotate_tokens(&j, 3, "t", &Some(holder(Some("t")))).ok().expect("stored");
    assert!(j.validate_token(&live.access_token));
    assert_eq!(RefreshError::TokenMismatch.message(), "토큰 불일치");
    assert_eq!(RefreshError::UserNotFound.status_code(), 404);
}
