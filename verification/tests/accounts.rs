use mission_service::auth::{
    AuthError, AuthService, LoginRequestDto, SignUpPlan, StoreSignUpRequestDto, TotalSignUpRequestDto,
    User, UserInfo, UserProfileUpdateDto, UserSignUpRequestDto,
};
use mission_service::jwt::JwtUtil;

fn service() -> AuthService {
    match JwtUtil::new(Some("secret".to_string()), Some("3600000".to_string()), Some("604800000".to_string())) {
        Ok(j) => AuthService::new(j),
        Err(_) => panic!("settings are valid"),
    }
}

fn user_dto(password: &str) -> UserSignUpRequestDto {
    UserSignUpRequestDto {
        user_email: "kim@example.com".to_string(),
        user_name: "Kim".to_string(),
        user_password: password.to_string(),
        user_nickname: "kimmy".to_string(),
        user_number: "010-0000-0000".to_string(),
    }
}

#[test]
fn fresh_user_infos_by_role() {
    let u = UserInfo::for_normal_user(3);
    assert_eq!((u.user_id, u.user_info_level, u.user_info_mission_do, u.user_info_mission_make), (3, 1, 10, 0));
    assert_eq!((u.temp_mission_people, u.temp_exp_multiplier, u.user_info_point), (15, 1, 0));
    assert!(u.last_attend_date.is_none());
    let s = UserInfo::for_store_user(4);
    assert_eq!((s.user_info_mission_do, s.user_info_mission_make), (0, 3));
    let o = UserInfo::for_oauth_user(5);
    assert_eq!((o.user_info_mission_do, o.user_info_mission_make), (10, 0));
}

#[test]
fn new_user_is_active_and_stamped() {
    let u = User::new("n".to_string(), "nick".to_string(), "pw".to_string(), "USER".to_string(), 77);
    assert_eq!(u.user_is_active, "Y");
    assert_eq!(u.user_joindate, Some(77));
    assert_eq!(u.user_updatedate, Some(77));
    assert!(u.user_id.is_none() && u.refresh_token.is_none() && u.provider.is_none());
}

#[test]
fn auth_errors_answer_with_status_and_text() {
    assert_eq!(AuthError::EmailDuplicated.status_code(), 409);
    assert_eq!(AuthError::PasswordNotMatch.status_code(), 401);
    assert_eq!(AuthError::AccountWithdraw.status_code(), 403);
    assert_eq!(AuthError::UserInfoNotFound.status_code(), 404);
    assert_eq!(AuthError::InvalidUserType.status_code(), 400);
    assert_eq!(AuthError::EmailNotFound.message(), "이메일 없음");
    assert_eq!(AuthError::SignupFailed.message(), "회원가입 정보가 올바르지 않습니다");
}

#[test]
fn sign_up_refuses_taken_emails() {
    let s = service();
    assert!(matches!(s.sign_up_user(user_dto("pw"), true, true, 1), Err(AuthError::SocialEmailUpDuplicated)));
    assert!(matches!(s.sign_up_user(user_dto("pw"), false, true, 1), Err(AuthError::EmailDuplicated)));
}

#[test]
fn sign_up_then_login() {
    let s = service();
    let mut u = match s.sign_up_user(user_dto("Secret!1"), false, false, 10) {
        Ok(u) => u,
        Err(_) => panic!("sign-up goes through"),
    };
    assert!(u.user_password.starts_with("$2b$12$"));
    assert_eq!(u.user_password.len(), 60);
    assert_ne!(u.user_password, "Secret!1");
    assert_eq!(u.user_type, "PENDING");
    assert_eq!(u.user_email, Some("kim@example.com".to_string()));
    u.user_id = Some(9);
    let hash = u.user_password.clone();
    let info = UserInfo::for_normal_user(9);
    let dto = LoginRequestDto { user_email: "kim@example.com".to_string(), user_password: "Secret!1".to_string() };
    let r = match s.login(&dto, Some(u), Some(info)) {
        Ok(r) => r,
        Err(_) => panic!("login goes through"),
    };
    assert_eq!(r.user_id, 9);
    assert!(r.is_new_user);
    assert_eq!(r.user_info_level, 1);
    assert_eq!(s.jwt_util.get_user_id(&r.token), Some(9));
    assert_eq!(s.jwt_util.get_refresh_user_id(&r.refresh_token), Some(9));

    let wrong = LoginRequestDto { user_email: "kim@example.com".to_string(), user_password: "nope".to_string() };
    let mut again = User::new("Kim".to_string(), "kimmy".to_string(), hash, "USER".to_string(), 10);
    again.user_id = Some(9);
    assert!(matches!(s.login(&wrong, Some(again), Some(UserInfo::for_normal_user(9))), Err(AuthError::PasswordNotMatch)));
}

#[test]
fn login_failures_in_order() {
    let s = service();
    let dto = LoginRequestDto { user_email: "x".to_string(), user_password: "pw".to_string() };
    assert!(matches!(s.login(&dto, None, None), Err(AuthError::EmailNotFound)));
    let mut u = match s.sign_up_user(user_dto("pw"), false, false, 1) {
        Ok(u) => u,
        Err(_) => panic!("sign-up goes through"),
    };
    u.user_is_active = "N".to_string();
    u.user_id = Some(1);
    assert!(matches!(s.login(&dto, Some(u), None), Err(AuthError::AccountWithdraw)));
    let mut v = match s.sign_up_user(user_dto("pw"), false, false, 1) {
        Ok(u) => u,
        Err(_) => panic!("sign-up goes through"),
    };
    v.user_id = Some(2);
    assert!(matches!(s.login(&dto, Some(v), None), Err(AuthError::UserInfoNotFound)));
}

#[test]
fn combined_sign_up_routes_by_type() {
    let store_form: TotalSignUpRequestDto<i64> = TotalSignUpRequestDto {
        user_email: "s@x".to_string(),
        user_name: "Owner".to_string(),
        user_password: "pw".to_string(),
        user_nickname: None,
        user_number: "1".to_string(),
        user_type: Some("STORE".to_string()),
        store_name: Some("Cafe".to_string()),
        store_category: Some("CAFE".to_string()),
        store_latitude: Some(37),
        store_longitude: Some(127),
    };
    match AuthService::sign_up(store_form) {
        Ok(SignUpPlan::Store(d)) => {
            assert_eq!(d.user_nickname, "Owner");
            assert_eq!(d.store_name, "Cafe");
            assert_eq!(d.store_latitude, 37);
        }
        _ => panic!("a store sign-up"),
    }
    let incomplete: TotalSignUpRequestDto<i64> = TotalSignUpRequestDto {
        user_email: "s@x".to_string(),
        user_name: "Owner".to_string(),
        user_password: "pw".to_string(),
        user_nickname: Some("o".to_string()),
        user_number: "1".to_string(),
        user_type: Some("STORE".to_string()),
        store_name: None,
        store_category: Some("CAFE".to_string()),
        store_latitude: Some(37),
        store_longitude: Some(127),
    };
    assert!(matches!(AuthService::sign_up(incomplete), Err(AuthError::SignupFailed)));
    let user_form: TotalSignUpRequestDto<i64> = TotalSignUpRequestDto {
        user_email: "u@x".to_string(),
        user_name: "U".to_string(),
        user_password: "pw".to_string(),
        user_nickname: Some("uu".to_string()),
        user_number: "2".to_string(),
        user_type: None,
        store_name: None,
        store_category: None,
        store_latitude: None,
        store_longitude: None,
    };
    match AuthService::sign_up(user_form) {
        Ok(SignUpPlan::User(d)) => assert_eq!(d.user_nickname, "uu"),
        _ => panic!("an ordinary sign-up"),
    }
}

#[test]
fn store_sign_up_and_store_record() {
    let s = service();
    let dto: StoreSignUpRequestDto<i64> = StoreSignUpRequestDto {
        user_email: "o@x".to_string(),
        user_name: "O".to_string(),
        user_password: "pw".to_string(),
        user_nickname: "oo".to_string(),
        user_number: "3".to_string(),
        store_name: "Bakery".to_string(),
        store_category: "FOOD".to_string(),
        store_latitude: 1,
        store_longitude: 2,
    };
    assert!(matches!(s.sign_up_store(&dto, true, 1), Err(AuthError::EmailDuplicated)));
    assert!(s.sign_up_store(&dto, false, 1).is_ok());
    assert!(matches!(AuthService::registered_user_id(None), Err(AuthError::SignupFailed)));
    let store = AuthService::store_of(dto, 12);
    assert_eq!((store.user_id, store.store_name.as_str()), (12, "Bakery"));
}

#[test]
fn role_changes() {
    assert!(matches!(AuthService::update_user_type("ADMIN", true), Err(AuthError::InvalidUserType)));
    assert!(matches!(AuthService::update_user_type("USER", false), Err(AuthError::UserNotFound)));
    assert!(AuthService::update_user_type("PENDING", true).is_ok());
    assert!(AuthService::require_user(true).is_ok());
    assert!(matches!(AuthService::require_user(false), Err(AuthError::UserNotFound)));
}

#[test]
fn profile_update_steps() {
    assert!(matches!(AuthService::check_profile_update(None, "USER"), Err(AuthError::UserNotFound)));
    let u = User::new("a".to_string(), "b".to_string(), "c".to_string(), "USER".to_string(), 0);
    assert!(matches!(AuthService::check_profile_update(Some(u), "PENDING"), Err(AuthError::InvalidUserType)));

    let mut existing = UserInfo::for_normal_user(8);
    existing.user_info_point = 500;
    let adjusted = AuthService::adjusted_user_info(8, "STORE", Some(existing));
    assert_eq!((adjusted.user_info_mission_do, adjusted.user_info_mission_make, adjusted.user_info_point), (0, 3, 500));
    let fresh = AuthService::adjusted_user_info(8, "USER", None);
    assert_eq!((fresh.user_info_mission_do, fresh.user_info_mission_make), (10, 0));

    let dto: UserProfileUpdateDto<i64> = UserProfileUpdateDto {
        user_nickname: "n".to_string(),
        user_type: "STORE".to_string(),
        store_name: Some("S".to_string()),
        store_category: None,
        store_latitude: Some(1),
        store_longitude: Some(2),
    };
    assert!(matches!(AuthService::store_for_profile(8, dto, false), Err(AuthError::SignupFailed)));
    let kept: UserProfileUpdateDto<i64> = UserProfileUpdateDto {
        user_nickname: "n".to_string(),
        user_type: "STORE".to_string(),
        store_name: None,
        store_category: None,
        store_latitude: None,
        store_longitude: None,
    };
    assert!(matches!(AuthService::store_for_profile(8, kept, true), Ok(None)));

    let s = service();
    let owner = User::new("a".to_string(), "b".to_string(), "c".to_string(), "STORE".to_string(), 0);
    let r = s.profile_updated(8, &owner, "STORE");
    assert_eq!(r.user_id, 8);
    assert_eq!(s.jwt_util.get_user_type(&r.access_token), Some("STORE".to_string()));
}
