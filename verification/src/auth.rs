//! Accounts: the user and user-info records, sign-up, login, roles and the
//! profile update, as decisions taken on records that the caller has read.

use vstd::prelude::*;
use crate::jwt::{JwtUtil, opt_text};
use crate::text::str_eq;

verus! {

/// A row of `USER_`. Instants are microseconds of the local clock.
pub struct User {
    pub user_id: Option<i64>,
    pub user_name: String,
    pub user_nickname: String,
    pub user_email: Option<String>,
    pub user_password: String,
    pub user_number: Option<String>,
    pub user_avatar: Option<String>,
    pub user_is_active: String,
    pub user_joindate: Option<i64>,
    pub user_updatedate: Option<i64>,
    pub user_type: String,
    pub user_withdraw_date: Option<i64>,
    pub provider: Option<String>,
    pub provider_id: Option<String>,
    pub refresh_token: Option<String>,
}

/// A row of `USER_INFO`. The last attendance is a day number.
pub struct UserInfo {
    pub user_id: i64,
    pub user_info_level: i32,
    pub user_info_exp: i32,
    pub user_info_point: i32,
    pub user_info_mission_do: i32,
    pub user_info_mission_make: i32,
    pub user_info_attend: i32,
    pub user_info_attend_straight: i32,
    pub user_info_attend_max: i32,
    pub last_attend_date: Option<i32>,
    pub temp_mission_people: i32,
    pub temp_exp_multiplier: i32,
}

/// Mission allowances of a fresh user info: (missions to do, missions to make).
pub open spec fn starting_allowance(store: bool) -> (i32, i32) {
    if store { (0, 3) } else { (10, 0) }
}

/// A fresh user info for `user_id` with the allowances of its role.
pub open spec fn fresh_info(user_id: i64, store: bool, info: UserInfo) -> bool {
    &&& info.user_id == user_id
    &&& info.user_info_level == 1
    &&& info.user_info_exp == 0
    &&& info.user_info_point == 0
    &&& info.user_info_mission_do == starting_allowance(store).0
    &&& info.user_info_mission_make == starting_allowance(store).1
    &&& info.user_info_attend == 0
    &&& info.user_info_attend_straight == 0
    &&& info.user_info_attend_max == 0
    &&& info.last_attend_date is None
    &&& info.temp_mission_people == 15
    &&& info.temp_exp_multiplier == 1
}

impl User {
    /// A new active account with no email, number, provider or tokens,
    /// joined and updated at `now`.
    pub fn new(
        user_name: String,
        user_nickname: String,
        user_password: String,
        user_type: String,
        now: i64,
    ) -> (u: User)
        ensures
            u.user_id is None,
            u.user_name == user_name,
            u.user_nickname == user_nickname,
            u.user_email is None,
            u.user_password == user_password,
            u.user_number is None,
            u.user_avatar is None,
            u.user_is_active@ == "Y"@,
            u.user_joindate == Some(now),
            u.user_updatedate == Some(now),
            u.user_type == user_type,
            u.user_withdraw_date is None,
            u.provider is None,
            u.provider_id is None,
            u.refresh_token is None,
    {
        User {
            user_id: None,
            user_name,
            user_nickname,
            user_email: None,
            user_password,
            user_number: None,
            user_avatar: None,
            user_is_active: crate::text::string_from("Y"),
            user_joindate: Some(now),
            user_updatedate: Some(now),
            user_type,
            user_withdraw_date: None,
            provider: None,
            provider_id: None,
            refresh_token: None,
        }
    }
}

impl UserInfo {
    /// Starting state of an ordinary user: ten missions to do, none to make.
    pub fn for_normal_user(user_id: i64) -> (info: UserInfo)
        ensures
            fresh_info(user_id, false, info),
    {
        UserInfo {
            user_id,
            user_info_level: 1,
            user_info_exp: 0,
            user_info_point: 0,
            user_info_mission_do: 10,
            user_info_mission_make: 0,
            user_info_attend: 0,
            user_info_attend_straight: 0,
            user_info_attend_max: 0,
            last_attend_date: None,
            temp_mission_people: 15,
            temp_exp_multiplier: 1,
        }
    }

    /// Starting state of a store owner: no missions to do, three to make.
    pub fn for_store_user(user_id: i64) -> (info: UserInfo)
        ensures
            fresh_info(user_id, true, info),
    {
        UserInfo {
            user_id,
            user_info_level: 1,
            user_info_exp: 0,
            user_info_point: 0,
            user_info_mission_do: 0,
            user_info_mission_make: 3,
            user_info_attend: 0,
            user_info_attend_straight: 0,
            user_info_attend_max: 0,
            last_attend_date: None,
            temp_mission_people: 15,
            temp_exp_multiplier: 1,
        }
    }

    /// Starting state of an account made through a social login: that of an
    /// ordinary user.
    pub fn for_oauth_user(user_id: i64) -> (info: UserInfo)
        ensures
            fresh_info(user_id, false, info),
    {
        Self::for_normal_user(user_id)
    }
}

/// Failures of the account operations.
#[derive(Debug)]
pub enum AuthError {
    /// The email already belongs to an account.
    EmailDuplicated,
    /// The email already belongs to a social-login account.
    SocialEmailUpDuplicated,
    /// No account has the email.
    EmailNotFound,
    /// The password does not match.
    PasswordNotMatch,
    /// The account was withdrawn.
    AccountWithdraw,
    /// No account has the id.
    UserNotFound,
    /// The account has no user info.
    UserInfoNotFound,
    /// Sign-up data is missing or could not be stored.
    SignupFailed,
    /// The user type is not one that is allowed here.
    InvalidUserType,
}

impl AuthError {
    /// The HTTP status that answers this error.
    pub open spec fn status(&self) -> u16 {
        match self {
            AuthError::EmailDuplicated => 409,
            AuthError::SocialEmailUpDuplicated => 409,
            AuthError::EmailNotFound => 404,
            AuthError::PasswordNotMatch => 401,
            AuthError::AccountWithdraw => 403,
            AuthError::UserNotFound => 404,
            AuthError::UserInfoNotFound => 404,
            AuthError::SignupFailed => 400,
            AuthError::InvalidUserType => 400,
        }
    }

    /// The HTTP status that answers this error.
    pub fn status_code(&self) -> (code: u16)
        ensures
            code == self.status(),
    {
        match self {
            AuthError::EmailDuplicated => 409,
            AuthError::SocialEmailUpDuplicated => 409,
            AuthError::EmailNotFound => 404,
            AuthError::PasswordNotMatch => 401,
            AuthError::AccountWithdraw => 403,
            AuthError::UserNotFound => 404,
            AuthError::UserInfoNotFound => 404,
            AuthError::SignupFailed => 400,
            AuthError::InvalidUserType => 400,
        }
    }

    /// The message sent with the status.
    pub fn message(&self) -> (m: &'static str)
        ensures
            m@ == match self {
                AuthError::EmailDuplicated => "이메일 중복"@,
                AuthError::SocialEmailUpDuplicated => "소셜 이메일 중복"@,
                AuthError::EmailNotFound => "이메일 없음"@,
                AuthError::PasswordNotMatch => "비밀번호 불일치"@,
                AuthError::AccountWithdraw => "탈퇴한 계정"@,
                AuthError::UserNotFound => "유저 없음"@,
                AuthError::UserInfoNotFound => "유저 정보 없음"@,
                AuthError::SignupFailed => "회원가입 정보가 올바르지 않습니다"@,
                AuthError::InvalidUserType => "유효하지 않은 사용자 타입입니다"@,
            },
    {
        match self {
            AuthError::EmailDuplicated => "이메일 중복",
            AuthError::SocialEmailUpDuplicated => "소셜 이메일 중복",
            AuthError::EmailNotFound => "이메일 없음",
            AuthError::PasswordNotMatch => "비밀번호 불일치",
            AuthError::AccountWithdraw => "탈퇴한 계정",
            AuthError::UserNotFound => "유저 없음",
            AuthError::UserInfoNotFound => "유저 정보 없음",
            AuthError::SignupFailed => "회원가입 정보가 올바르지 않습니다",
            AuthError::InvalidUserType => "유효하지 않은 사용자 타입입니다",
        }
    }
}

/// Login request.
pub struct LoginRequestDto {
    pub user_email: String,
    pub user_password: String,
}

/// What a successful login answers; the refresh token goes to a cookie.
pub struct LoginResponseDto {
    pub token: String,
    pub refresh_token: String,
    pub is_new_user: bool,
    pub user_type: String,
    pub user_id: i64,
    pub user_name: String,
    pub user_nickname: String,
    pub user_email: String,
    pub user_info_level: i32,
    pub user_info_point: i32,
}

/// Sign-up of an ordinary user.
pub struct UserSignUpRequestDto {
    pub user_email: String,
    pub user_name: String,
    pub user_password: String,
    pub user_nickname: String,
    pub user_number: String,
}

/// Sign-up of a store owner; `C` is the coordinate type, carried through.
pub struct StoreSignUpRequestDto<C> {
    pub user_email: String,
    pub user_name: String,
    pub user_password: String,
    pub user_nickname: String,
    pub user_number: String,
    pub store_name: String,
    pub store_category: String,
    pub store_latitude: C,
    pub store_longitude: C,
}

/// The combined sign-up form.
pub struct TotalSignUpRequestDto<C> {
    pub user_email: String,
    pub user_name: String,
    pub user_password: String,
    pub user_nickname: Option<String>,
    pub user_number: String,
    pub user_type: Option<String>,
    pub store_name: Option<String>,
    pub store_category: Option<String>,
    pub store_latitude: Option<C>,
    pub store_longitude: Option<C>,
}

/// Profile update request.
pub struct UserProfileUpdateDto<C> {
    pub user_nickname: String,
    pub user_type: String,
    pub store_name: Option<String>,
    pub store_category: Option<String>,
    pub store_latitude: Option<C>,
    pub store_longitude: Option<C>,
}

/// What a profile update answers: a fresh access token.
pub struct UserProfileUpdateResponseDto {
    pub user_id: i64,
    pub access_token: String,
}

/// Request to set the caller's role.
pub struct SetUserRoleRequest {
    pub user_type: String,
}

/// What a token refresh answers.
pub struct RefreshResponse {
    pub access_token: String,
}

/// A store to create for its owner.
pub struct NewStore<C> {
    pub store_name: String,
    pub store_category: String,
    pub store_latitude: C,
    pub store_longitude: C,
    pub user_id: i64,
}

/// Where the combined sign-up form leads.
pub enum SignUpPlan<C> {
    /// Store-owner sign-up with these details.
    Store(StoreSignUpRequestDto<C>),
    /// Ordinary sign-up with these details.
    User(UserSignUpRequestDto),
}

/// Whether `bcrypt::verify` accepts `password` for `hash`; `None` when the
/// call reports an error (a hash that is not well formed).
pub uninterp spec fn bcrypt_verify_result(password: Seq<char>, hash: Seq<char>) -> Option<bool>;

/// `bcrypt::verify(password, hash)`, its error turned into `None`. The
/// result depends on the two strings alone: the salt and cost are read from
/// the hash.
#[verifier::external_body]
fn bcrypt_verify(password: &str, hash: &str) -> (res: Option<bool>)
    ensures
        res == bcrypt_verify_result(password@, hash@),
{
    bcrypt::verify(password, hash).ok()
}

/// `bcrypt::hash(password, DEFAULT_COST)`, its error turned into `None`.
/// The salt is drawn from the operating system, so the hash is not named;
/// what every hash shares is stated: 60 characters starting `$2b$12$`, and
/// `bcrypt::verify` accepts the hashed password for it (verify re-hashes the
/// password with the salt and cost read back from the hash, truncating it
/// as `hash` does).
#[verifier::external_body]
fn bcrypt_hash(password: &str) -> (res: Option<String>)
    ensures
        res matches Some(h) ==> h@.len() == 60 && crate::text::seq_starts_with(h@, "$2b$12$"@),
        res matches Some(h) ==> bcrypt_verify_result(password@, h@) == Some(true),
{
    bcrypt::hash(password, bcrypt::DEFAULT_COST).ok()
}

/// Whether `s` is one of the roles a user can be given.
pub open spec fn assignable_role(s: Seq<char>) -> bool {
    s == "USER"@ || s == "STORE"@ || s == "PENDING"@
}

/// Whether a login with `password` passes: the password verifies against the
/// stored hash (an unreadable hash counts as a mismatch).
pub open spec fn password_ok(password: Seq<char>, user: User) -> bool {
    bcrypt_verify_result(password, user.user_password@) == Some(true)
}

/// The outcome of a login given the account found by email and its info.
pub open spec fn login_outcome(password: Seq<char>, user: Option<User>, info: Option<UserInfo>) -> Result<(User, UserInfo), AuthError> {
    match user {
        None => Err(AuthError::EmailNotFound),
        Some(u) => if !password_ok(password, u) {
            Err(AuthError::PasswordNotMatch)
        } else if u.user_is_active@ == "N"@ {
            Err(AuthError::AccountWithdraw)
        } else if u.user_id is None {
            Err(AuthError::UserNotFound)
        } else {
            match info {
                None => Err(AuthError::UserInfoNotFound),
                Some(i) => Ok((u, i)),
            }
        },
    }
}

pub open spec fn email_or_empty(e: Option<String>) -> Seq<char> {
    match e {
        Some(s) => s@,
        None => Seq::empty(),
    }
}

/// Account decisions; the caller reads and writes the records.
pub struct AuthService {
    pub jwt_util: JwtUtil,
}

impl AuthService {
    pub fn new(jwt_util: JwtUtil) -> (s: AuthService)
        ensures
            s.jwt_util == jwt_util,
    {
        AuthService { jwt_util }
    }

    /// The account to insert for an ordinary sign-up, or why there is none.
    /// An email held by a social-login account is refused first, then an
    /// email held by any account; the password is stored as a bcrypt hash and
    /// the role starts as `PENDING`.
    pub fn sign_up_user(
        &self,
        dto: UserSignUpRequestDto,
        social_email_taken: bool,
        email_taken: bool,
        now: i64,
    ) -> (res: Result<User, AuthError>)
        ensures
            social_email_taken ==> res == Err::<User, AuthError>(AuthError::SocialEmailUpDuplicated),
            !social_email_taken && email_taken ==> res == Err::<User, AuthError>(AuthError::EmailDuplicated),
            !social_email_taken && !email_taken ==> res is Ok || res == Err::<User, AuthError>(AuthError::SignupFailed),
            res matches Ok(u) ==> new_account(u, dto.user_name, dto.user_nickname, dto.user_password@,
                dto.user_email, dto.user_number, now),
    {
        if social_email_taken {
            return Err(AuthError::SocialEmailUpDuplicated);
        }
        if email_taken {
            return Err(AuthError::EmailDuplicated);
        }
        pending_account(dto.user_name, dto.user_nickname, dto.user_password, dto.user_email, dto.user_number, now)
    }

    /// The account to insert for a store-owner sign-up, or why there is none.
    pub fn sign_up_store<C>(
        &self,
        dto: &StoreSignUpRequestDto<C>,
        email_taken: bool,
        now: i64,
    ) -> (res: Result<User, AuthError>)
        ensures
            email_taken ==> res == Err::<User, AuthError>(AuthError::EmailDuplicated),
            !email_taken ==> res is Ok || res == Err::<User, AuthError>(AuthError::SignupFailed),
            res matches Ok(u) ==> new_account(u, dto.user_name, dto.user_nickname, dto.user_password@,
                dto.user_email, dto.user_number, now),
    {
        if email_taken {
            return Err(AuthError::EmailDuplicated);
        }
        pending_account(
            dto.user_name.clone(),
            dto.user_nickname.clone(),
            dto.user_password.clone(),
            dto.user_email.clone(),
            dto.user_number.clone(),
            now,
        )
    }

    /// The id of the account that was inserted: a failed insert is a failed
    /// sign-up, an inserted row without id an unknown user.
    pub fn registered_user_id(saved: Option<User>) -> (res: Result<i64, AuthError>)
        ensures
            match saved {
                None => res == Err::<i64, AuthError>(AuthError::SignupFailed),
                Some(u) => match u.user_id {
                    Some(id) => res == Ok::<i64, AuthError>(id),
                    None => res == Err::<i64, AuthError>(AuthError::UserNotFound),
                },
            },
    {
        match saved {
            None => Err(AuthError::SignupFailed),
            Some(u) => match u.user_id {
                Some(id) => Ok(id),
                None => Err(AuthError::UserNotFound),
            },
        }
    }

    /// The store to create with a store owner's sign-up.
    pub fn store_of<C>(dto: StoreSignUpRequestDto<C>, user_id: i64) -> (s: NewStore<C>)
        ensures
            s.store_name == dto.store_name,
            s.store_category == dto.store_category,
            s.store_latitude == dto.store_latitude,
            s.store_longitude == dto.store_longitude,
            s.user_id == user_id,
    {
        NewStore {
            store_name: dto.store_name,
            store_category: dto.store_category,
            store_latitude: dto.store_latitude,
            store_longitude: dto.store_longitude,
            user_id,
        }
    }

    /// Routes the combined form: `STORE` leads to a store-owner sign-up,
    /// which needs every store field; anything else to an ordinary sign-up.
    /// A missing nickname is the name.
    pub fn sign_up<C>(dto: TotalSignUpRequestDto<C>) -> (res: Result<SignUpPlan<C>, AuthError>)
        ensures
            ({
                let nickname = match dto.user_nickname {
                    Some(n) => n,
                    None => dto.user_name,
                };
                if opt_text(dto.user_type) == Some("STORE"@) {
                    if dto.store_name is Some && dto.store_category is Some && dto.store_latitude is Some
                        && dto.store_longitude is Some {
                        res == Ok::<SignUpPlan<C>, AuthError>(SignUpPlan::Store(StoreSignUpRequestDto {
                            user_email: dto.user_email,
                            user_name: dto.user_name,
                            user_password: dto.user_password,
                            user_nickname: nickname,
                            user_number: dto.user_number,
                            store_name: dto.store_name->0,
                            store_category: dto.store_category->0,
                            store_latitude: dto.store_latitude->0,
                            store_longitude: dto.store_longitude->0,
                        }))
                    } else {
                        res == Err::<SignUpPlan<C>, AuthError>(AuthError::SignupFailed)
                    }
                } else {
                    res == Ok::<SignUpPlan<C>, AuthError>(SignUpPlan::User(UserSignUpRequestDto {
                        user_email: dto.user_email,
                        user_name: dto.user_name,
                        user_password: dto.user_password,
                        user_nickname: nickname,
                        user_number: dto.user_number,
                    }))
                }
            }),
    {
        let nickname = match dto.user_nickname {
            Some(n) => n,
            None => dto.user_name.clone(),
        };
        let is_store = match &dto.user_type {
            Some(t) => str_eq(t.as_str(), "STORE"),
            None => false,
        };
        if is_store {
            match (dto.store_name, dto.store_category, dto.store_latitude, dto.store_longitude) {
                (Some(store_name), Some(store_category), Some(store_latitude), Some(store_longitude)) => {
                    Ok(SignUpPlan::Store(StoreSignUpRequestDto {
                        user_email: dto.user_email,
                        user_name: dto.user_name,
                        user_password: dto.user_password,
                        user_nickname: nickname,
                        user_number: dto.user_number,
                        store_name,
                        store_category,
                        store_latitude,
                        store_longitude,
                    }))
                },
                _ => Err(AuthError::SignupFailed),
            }
        } else {
            Ok(SignUpPlan::User(UserSignUpRequestDto {
                user_email: dto.user_email,
                user_name: dto.user_name,
                user_password: dto.user_password,
                user_nickname: nickname,
                user_number: dto.user_number,
            }))
        }
    }

    /// The login answer, given the account found by the request's email and
    /// that account's info: the password must verify, the account must be
    /// active and have an id, and its info must exist. Tokens are issued at
    /// `now`; the caller stores the refresh token.
    pub fn login_at(
        &self,
        dto: &LoginRequestDto,
        user: Option<User>,
        user_info: Option<UserInfo>,
        now: i64,
    ) -> (res: Result<LoginResponseDto, AuthError>)
        requires
            0 <= now < 10_000_000_000_000,
        ensures
            match login_outcome(dto.user_password@, user, user_info) {
                Err(e) => res == Err::<LoginResponseDto, AuthError>(e),
                Ok((u, i)) => res matches Ok(r) && login_answer(self.jwt_util, r, u, i, now),
            },
    {
        let u = match user {
            None => return Err(AuthError::EmailNotFound),
            Some(u) => u,
        };
        let verified = bcrypt_verify(dto.user_password.as_str(), u.user_password.as_str());
        let matched = match verified {
            Some(b) => b,
            None => false,
        };
        if !matched {
            return Err(AuthError::PasswordNotMatch);
        }
        if str_eq(u.user_is_active.as_str(), "N") {
            return Err(AuthError::AccountWithdraw);
        }
        let user_id = match u.user_id {
            Some(id) => id,
            None => return Err(AuthError::UserNotFound),
        };
        proof {
            reveal_strlit("");
        }
        let email: &str = match &u.user_email {
            Some(e) => e.as_str(),
            None => "",
        };
        assert(email@ == email_or_empty(u.user_email));
        let access_token = self.jwt_util.generate_token_at(user_id, email, u.user_type.as_str(), now);
        assert(access_token@ == self.jwt_util.access_token_at(user_id, email@, u.user_type@, now));
        let refresh_token = self.jwt_util.generate_refresh_token_at(user_id, now);
        let info = match user_info {
            None => return Err(AuthError::UserInfoNotFound),
            Some(i) => i,
        };
        let is_new_user = str_eq(u.user_type.as_str(), "PENDING");
        let user_email = match u.user_email {
            Some(e) => e,
            None => String::new(),
        };
        Ok(LoginResponseDto {
            token: access_token,
            refresh_token,
            is_new_user,
            user_type: u.user_type,
            user_id,
            user_name: u.user_name,
            user_nickname: u.user_nickname,
            user_email,
            user_info_level: info.user_info_level,
            user_info_point: info.user_info_point,
        })
    }

    /// `login_at` with tokens issued at the current time.
    pub fn login(
        &self,
        dto: &LoginRequestDto,
        user: Option<User>,
        user_info: Option<UserInfo>,
    ) -> (res: Result<LoginResponseDto, AuthError>)
        ensures
            match login_outcome(dto.user_password@, user, user_info) {
                Err(e) => res == Err::<LoginResponseDto, AuthError>(e),
                Ok((u, i)) => res matches Ok(r) && exists|now: i64|
                    0 <= now < 10_000_000_000_000 && #[trigger] login_answer(self.jwt_util, r, u, i, now),
            },
    {
        let now = crate::jwt::utc_now_timestamp();
        self.login_at(dto, user, user_info, now)
    }

    /// Logout and withdrawal need the account to exist.
    pub fn require_user(found: bool) -> (res: Result<(), AuthError>)
        ensures
            found ==> res is Ok,
            !found ==> res == Err::<(), AuthError>(AuthError::UserNotFound),
    {
        if found { Ok(()) } else { Err(AuthError::UserNotFound) }
    }

    /// Whether a role change may go ahead: the role must be `USER`, `STORE`
    /// or `PENDING` (checked first), and the account must exist.
    pub fn update_user_type(user_type: &str, user_exists: bool) -> (res: Result<(), AuthError>)
        ensures
            !assignable_role(user_type@) ==> res == Err::<(), AuthError>(AuthError::InvalidUserType),
            assignable_role(user_type@) && !user_exists ==> res == Err::<(), AuthError>(AuthError::UserNotFound),
            assignable_role(user_type@) && user_exists ==> res is Ok,
    {
        if !str_eq(user_type, "USER") && !str_eq(user_type, "STORE") && !str_eq(user_type, "PENDING") {
            return Err(AuthError::InvalidUserType);
        }
        Self::require_user(user_exists)
    }

    /// First step of a profile update: the account must exist, then the new
    /// role must be `USER` or `STORE`.
    pub fn check_profile_update(user: Option<User>, user_type: &str) -> (res: Result<User, AuthError>)
        ensures
            match user {
                None => res == Err::<User, AuthError>(AuthError::UserNotFound),
                Some(u) => if user_type@ == "USER"@ || user_type@ == "STORE"@ {
                    res == Ok::<User, AuthError>(u)
                } else {
                    res == Err::<User, AuthError>(AuthError::InvalidUserType)
                },
            },
    {
        let u = match user {
            None => return Err(AuthError::UserNotFound),
            Some(u) => u,
        };
        if !str_eq(user_type, "USER") && !str_eq(user_type, "STORE") {
            return Err(AuthError::InvalidUserType);
        }
        Ok(u)
    }

    /// The user info to store after a profile update: an existing one keeps
    /// everything but its mission allowances, which become those of the new
    /// role; a missing one is created fresh for that role.
    pub fn adjusted_user_info(user_id: i64, user_type: &str, existing: Option<UserInfo>) -> (info: UserInfo)
        ensures
            ({
                let store = user_type@ == "STORE"@;
                match existing {
                    Some(e) => info == (UserInfo {
                        user_info_mission_do: starting_allowance(store).0,
                        user_info_mission_make: starting_allowance(store).1,
                        ..e
                    }),
                    None => fresh_info(user_id, store, info),
                }
            }),
    {
        let store = str_eq(user_type, "STORE");
        match existing {
            Some(mut e) => {
                if store {
                    e.user_info_mission_do = 0;
                    e.user_info_mission_make = 3;
                } else {
                    e.user_info_mission_do = 10;
                    e.user_info_mission_make = 0;
                }
                e
            },
            None => if store {
                UserInfo::for_store_user(user_id)
            } else {
                UserInfo::for_normal_user(user_id)
            },
        }
    }

    /// The store a profile update must create: one for a `STORE` role whose
    /// owner has none yet, which needs every store field.
    pub fn store_for_profile<C>(
        user_id: i64,
        dto: UserProfileUpdateDto<C>,
        store_exists: bool,
    ) -> (res: Result<Option<NewStore<C>>, AuthError>)
        ensures
            !(dto.user_type@ == "STORE"@ && !store_exists) ==> res == Ok::<Option<NewStore<C>>, AuthError>(None),
            dto.user_type@ == "STORE"@ && !store_exists ==> if dto.store_name is Some && dto.store_category is Some
                && dto.store_latitude is Some && dto.store_longitude is Some {
                res == Ok::<Option<NewStore<C>>, AuthError>(Some(NewStore {
                    store_name: dto.store_name->0,
                    store_category: dto.store_category->0,
                    store_latitude: dto.store_latitude->0,
                    store_longitude: dto.store_longitude->0,
                    user_id,
                }))
            } else {
                res == Err::<Option<NewStore<C>>, AuthError>(AuthError::SignupFailed)
            },
    {
        if !str_eq(dto.user_type.as_str(), "STORE") || store_exists {
            return Ok(None);
        }
        match (dto.store_name, dto.store_category, dto.store_latitude, dto.store_longitude) {
            (Some(store_name), Some(store_category), Some(store_latitude), Some(store_longitude)) => {
                Ok(Some(NewStore { store_name, store_category, store_latitude, store_longitude, user_id }))
            },
            _ => Err(AuthError::SignupFailed),
        }
    }

    /// Last step of a profile update: a new access token carrying the new role.
    pub fn profile_updated_at(&self, user_id: i64, user: &User, user_type: &str, now: i64) -> (r: UserProfileUpdateResponseDto)
        requires
            0 <= now < 10_000_000_000_000,
        ensures
            r.user_id == user_id,
            r.access_token@ == self.jwt_util.access_token_at(user_id, email_or_empty(user.user_email),
                user_type@, now),
            self.jwt_util.fields(r.access_token@) == self.jwt_util.access_read_back(user_id,
                email_or_empty(user.user_email), user_type@, now),
    {
        proof {
            reveal_strlit("");
        }
        let email: &str = match &user.user_email {
            Some(e) => e.as_str(),
            None => "",
        };
        assert(email@ == email_or_empty(user.user_email));
        let access_token = self.jwt_util.generate_token_at(user_id, email, user_type, now);
        assert(access_token@ == self.jwt_util.access_token_at(user_id, email@, user_type@, now));
        UserProfileUpdateResponseDto { user_id, access_token }
    }

    /// `profile_updated_at` at the current time.
    pub fn profile_updated(&self, user_id: i64, user: &User, user_type: &str) -> (r: UserProfileUpdateResponseDto)
        ensures
            r.user_id == user_id,
            exists|now: i64| 0 <= now < 10_000_000_000_000 && r.access_token@
                == #[trigger] self.jwt_util.access_token_at(user_id, email_or_empty(user.user_email), user_type@, now)
                && self.jwt_util.fields(r.access_token@) == self.jwt_util.access_read_back(user_id,
                email_or_empty(user.user_email), user_type@, now),
    {
        let now = crate::jwt::utc_now_timestamp();
        self.profile_updated_at(user_id, user, user_type, now)
    }
}

/// `u` is the account a sign-up inserts: the given details, a bcrypt hash
/// of `password` (one that `bcrypt::verify` accepts `password` for), role
/// `PENDING`, active, stamped `now`.
pub open spec fn new_account(
    u: User,
    name: String,
    nickname: String,
    password: Seq<char>,
    email: String,
    number: String,
    now: i64,
) -> bool {
    &&& u.user_id is None
    &&& u.user_name == name
    &&& u.user_nickname == nickname
    &&& u.user_email == Some(email)
    &&& u.user_password@.len() == 60
    &&& crate::text::seq_starts_with(u.user_password@, "$2b$12$"@)
    &&& bcrypt_verify_result(password, u.user_password@) == Some(true)
    &&& u.user_number == Some(number)
    &&& u.user_avatar is None
    &&& u.user_is_active@ == "Y"@
    &&& u.user_joindate == Some(now)
    &&& u.user_updatedate == Some(now)
    &&& u.user_type@ == "PENDING"@
    &&& u.user_withdraw_date is None
    &&& u.provider is None
    &&& u.provider_id is None
    &&& u.refresh_token is None
}

fn pending_account(
    name: String,
    nickname: String,
    password: String,
    email: String,
    number: String,
    now: i64,
) -> (res: Result<User, AuthError>)
    ensures
        res is Ok || res == Err::<User, AuthError>(AuthError::SignupFailed),
        res matches Ok(u) ==> new_account(u, name, nickname, password@, email, number, now),
{
    let hashed = match bcrypt_hash(password.as_str()) {
        Some(h) => h,
        None => return Err(AuthError::SignupFailed),
    };
    let mut user = User::new(name, nickname, hashed, crate::text::string_from("PENDING"), now);
    user.user_email = Some(email);
    user.user_number = Some(number);
    Ok(user)
}

/// An account made by a sign-up, once stored under an id, lets its owner log
/// in with the password given at sign-up.
pub proof fn law_sign_up_then_login(
    u: User,
    name: String,
    nickname: String,
    password: Seq<char>,
    email: String,
    number: String,
    now: i64,
    id: i64,
    info: UserInfo,
)
    requires
        new_account(u, name, nickname, password, email, number, now),
    ensures
        login_outcome(password, Some(User { user_id: Some(id), ..u }), Some(info))
            == Ok::<(User, UserInfo), AuthError>((User { user_id: Some(id), ..u }, info)),
{
    reveal_strlit("Y");
    reveal_strlit("N");
    assert(u.user_is_active@ != "N"@) by {
        assert(u.user_is_active@[0] == 'Y');
    }
}

/// `r` answers a login of account `u` with info `i`, tokens issued at `now`.
pub open spec fn login_answer(jwt: JwtUtil, r: LoginResponseDto, u: User, i: UserInfo, now: i64) -> bool {
    let id = u.user_id->0;
    &&& r.token@ == jwt.access_token_at(id, email_or_empty(u.user_email), u.user_type@, now)
    &&& jwt.fields(r.token@) == jwt.access_read_back(id, email_or_empty(u.user_email), u.user_type@, now)
    &&& r.refresh_token@ == jwt.refresh_token_at(id, now)
    &&& jwt.fields(r.refresh_token@) == jwt.refresh_read_back(id, now)
    &&& r.is_new_user == (u.user_type@ == "PENDING"@)
    &&& r.user_type == u.user_type
    &&& r.user_id == id
    &&& r.user_name == u.user_name
    &&& r.user_nickname == u.user_nickname
    &&& r.user_email@ == email_or_empty(u.user_email)
    &&& r.user_info_level == i.user_info_level
    &&& r.user_info_point == i.user_info_point
}

} // verus!
