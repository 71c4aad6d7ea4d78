//! What every service shares: the application's errors with their HTTP
//! statuses and texts, the plain answer bodies, and the names and URLs of
//! uploaded objects in object storage.

use vstd::prelude::*;
use crate::config::{AppConfig, OciConfig};
use crate::mission::is_lower_hex;
use crate::text::{push_str, seq_contains, str_contains};

verus! {

/// The body of an error answer.
pub struct ErrorResponse {
    pub error: String,
}

/// The body of a plain answer.
pub struct MessageResponse {
    pub message: String,
}

/// A request for the storage path of an upload.
pub struct ImagePathRequest {
    pub original_name: String,
    pub folder: String,
}

/// Errors every service may answer with.
#[derive(Debug)]
pub enum AppError {
    InvalidInput,
    EmailDuplicated,
    EmailNotFound,
    AccountWithdraw,
    InvalidToken,
    UserNotFound,
    UserInfoNotFound,
    SocialEmailDuplicated,
    SignupFailed,
    StoreNotFound,
    MissionNotFound,
    ParticipateNotFound,
    MissionCreateLimit,
    MissionAlreadyParticipated,
    MissionAlreadyBookmarked,
    MissionBookmarkNotFound,
    NotificationNotFound,
    InquiryNotFound,
    PaymentAlreadyProcessed,
    Internal,
}

/// The HTTP status answering an error.
pub open spec fn app_error_status(e: AppError) -> u16 {
    match e {
        AppError::InvalidInput => 400,
        AppError::EmailDuplicated => 400,
        AppError::EmailNotFound => 404,
        AppError::AccountWithdraw => 400,
        AppError::InvalidToken => 401,
        AppError::UserNotFound => 404,
        AppError::UserInfoNotFound => 404,
        AppError::SocialEmailDuplicated => 400,
        AppError::SignupFailed => 400,
        AppError::StoreNotFound => 404,
        AppError::MissionNotFound => 404,
        AppError::ParticipateNotFound => 404,
        AppError::MissionCreateLimit => 400,
        AppError::MissionAlreadyParticipated => 400,
        AppError::MissionAlreadyBookmarked => 400,
        AppError::MissionBookmarkNotFound => 404,
        AppError::NotificationNotFound => 404,
        AppError::InquiryNotFound => 404,
        AppError::PaymentAlreadyProcessed => 409,
        AppError::Internal => 500,
    }
}

/// The text shown for an error.
pub open spec fn app_error_text(e: AppError) -> Seq<char> {
    match e {
        AppError::InvalidInput => "입력값이 올바르지 않습니다"@,
        AppError::EmailDuplicated => "이미 사용중인 이메일입니다"@,
        AppError::EmailNotFound => "이메일 또는 비밀번호가 일치하지 않습니다"@,
        AppError::AccountWithdraw => "이미 탈퇴한 계정입니다"@,
        AppError::InvalidToken => "유효하지 않은 토큰입니다"@,
        AppError::UserNotFound => "사용자를 찾을 수 없습니다"@,
        AppError::UserInfoNotFound => "유저 정보를 찾을 수 없습니다"@,
        AppError::SocialEmailDuplicated => "이미 가입된 이메일입니다"@,
        AppError::SignupFailed => "회원가입에 실패했습니다"@,
        AppError::StoreNotFound => "가게를 찾을 수 없습니다"@,
        AppError::MissionNotFound => "미션을 찾을 수 없습니다"@,
        AppError::ParticipateNotFound => "참여 정보를 찾을 수 없습니다"@,
        AppError::MissionCreateLimit => "미션 생성 가능 횟수가 부족합니다"@,
        AppError::MissionAlreadyParticipated => "이미 참여한 미션입니다"@,
        AppError::MissionAlreadyBookmarked => "이미 찜한 미션입니다."@,
        AppError::MissionBookmarkNotFound => "찜한 미션을 찾을 수 없습니다."@,
        AppError::NotificationNotFound => "알림을 찾을 수 없습니다"@,
        AppError::InquiryNotFound => "문의를 찾을 수 없습니다"@,
        AppError::PaymentAlreadyProcessed => "이미 처리된 결제입니다."@,
        AppError::Internal => "서버 오류가 발생했습니다"@,
    }
}

impl AppError {
    /// The HTTP status answering this error.
    pub fn status_code(&self) -> (s: u16)
        ensures
            s == app_error_status(*self),
    {
        match self {
            AppError::InvalidInput => 400,
            AppError::EmailDuplicated => 400,
            AppError::EmailNotFound => 404,
            AppError::AccountWithdraw => 400,
            AppError::InvalidToken => 401,
            AppError::UserNotFound => 404,
            AppError::UserInfoNotFound => 404,
            AppError::SocialEmailDuplicated => 400,
            AppError::SignupFailed => 400,
            AppError::StoreNotFound => 404,
            AppError::MissionNotFound => 404,
            AppError::ParticipateNotFound => 404,
            AppError::MissionCreateLimit => 400,
            AppError::MissionAlreadyParticipated => 400,
            AppError::MissionAlreadyBookmarked => 400,
            AppError::MissionBookmarkNotFound => 404,
            AppError::NotificationNotFound => 404,
            AppError::InquiryNotFound => 404,
            AppError::PaymentAlreadyProcessed => 409,
            AppError::Internal => 500,
        }
    }

    /// The text shown for this error.
    pub fn message(&self) -> (s: String)
        ensures
            s@ == app_error_text(*self),
    {
        let t: &str = match self {
            AppError::InvalidInput => "입력값이 올바르지 않습니다",
            AppError::EmailDuplicated => "이미 사용중인 이메일입니다",
            AppError::EmailNotFound => "이메일 또는 비밀번호가 일치하지 않습니다",
            AppError::AccountWithdraw => "이미 탈퇴한 계정입니다",
            AppError::InvalidToken => "유효하지 않은 토큰입니다",
            AppError::UserNotFound => "사용자를 찾을 수 없습니다",
            AppError::UserInfoNotFound => "유저 정보를 찾을 수 없습니다",
            AppError::SocialEmailDuplicated => "이미 가입된 이메일입니다",
            AppError::SignupFailed => "회원가입에 실패했습니다",
            AppError::StoreNotFound => "가게를 찾을 수 없습니다",
            AppError::MissionNotFound => "미션을 찾을 수 없습니다",
            AppError::ParticipateNotFound => "참여 정보를 찾을 수 없습니다",
            AppError::MissionCreateLimit => "미션 생성 가능 횟수가 부족합니다",
            AppError::MissionAlreadyParticipated => "이미 참여한 미션입니다",
            AppError::MissionAlreadyBookmarked => "이미 찜한 미션입니다.",
            AppError::MissionBookmarkNotFound => "찜한 미션을 찾을 수 없습니다.",
            AppError::NotificationNotFound => "알림을 찾을 수 없습니다",
            AppError::InquiryNotFound => "문의를 찾을 수 없습니다",
            AppError::PaymentAlreadyProcessed => "이미 처리된 결제입니다.",
            AppError::Internal => "서버 오류가 발생했습니다",
        };
        crate::text::string_from(t)
    }

    /// The body answering this error.
    pub fn error_body(&self) -> (r: ErrorResponse)
        ensures
            r.error@ == app_error_text(*self),
    {
        ErrorResponse { error: self.message() }
    }
}

/// A UUID in its usual text form: 36 characters, lower-case hexadecimal
/// digits with hyphens at 8, 13, 18 and 23.
pub open spec fn is_uuid_text(u: Seq<char>) -> bool {
    &&& u.len() == 36
    &&& forall|i: int| 0 <= i < 36 ==> if i == 8 || i == 13 || i == 18 || i == 23 {
        #[trigger] u[i] == '-'
    } else {
        is_lower_hex(u[i])
    }
}

/// `uuid::Uuid::new_v4().to_string()`: a random UUID in its hyphenated
/// lower-case form (uuid's `Display`, through `format_hyphenated`). Which
/// digits come is left open: they are random.
#[verifier::external_body]
fn random_uuid_text() -> (s: String)
    ensures
        is_uuid_text(s@),
{
    uuid::Uuid::new_v4().to_string()
}

/// The position of the last `.` in `s`.
pub open spec fn last_dot(s: Seq<char>) -> Option<int>
    decreases s.len(),
{
    if s.len() == 0 {
        None
    } else if s.last() == '.' {
        Some(s.len() - 1)
    } else {
        last_dot(s.drop_last())
    }
}

/// The extension of a file name: what follows its last `.`, when there is a
/// dot and something follows it.
pub open spec fn file_extension(name: Seq<char>) -> Option<Seq<char>> {
    match last_dot(name) {
        Some(k) => if k + 1 < name.len() { Some(name.subrange(k + 1, name.len() as int)) } else { None },
        None => None,
    }
}

proof fn lemma_last_dot_bounds(s: Seq<char>)
    ensures
        last_dot(s) matches Some(k) ==> 0 <= k < s.len() && s[k] == '.',
    decreases s.len(),
{
    if s.len() > 0 && s.last() != '.' {
        lemma_last_dot_bounds(s.drop_last());
    }
}

fn find_last_dot(v: &[char]) -> (r: Option<usize>)
    ensures
        match r {
            Some(k) => last_dot(v@) == Some(k as int),
            None => last_dot(v@) is None,
        },
{
    let mut j: usize = v.len();
    assert(v@.take(j as int) =~= v@);
    while j > 0
        invariant
            j <= v.len(),
            last_dot(v@) == last_dot(v@.take(j as int)),
        decreases j,
    {
        assert(v@.take(j as int).last() == v@[j - 1]);
        if v[j - 1] == '.' {
            return Some(j - 1);
        }
        assert(v@.take(j as int).drop_last() =~= v@.take(j - 1));
        j = j - 1;
    }
    None
}

/// The public URL of `object` in the configured bucket.
pub open spec fn object_url(oci: OciConfig, object: Seq<char>) -> Seq<char> {
    "https://objectstorage."@ + oci.region@ + ".oraclecloud.com/n/"@ + oci.namespace@ + "/b/"@ + oci.bucket@
        + "/o/"@ + object
}

/// Names and URLs of uploads in object storage.
pub struct OciStorageService {
    pub config: AppConfig,
}

impl OciStorageService {
    /// The service over a configuration.
    pub fn new(config: AppConfig) -> (s: OciStorageService)
        ensures
            s.config == config,
    {
        OciStorageService { config }
    }

    /// The storage path of an upload named `original_name`: the folder, a
    /// fresh UUID and the name's extension, as `folder/uuid.ext`. A name
    /// without an extension is refused.
    pub fn build_object_name(&self, original_name: &str, folder: &str) -> (r: Result<String, AppError>)
        ensures
            match file_extension(original_name@) {
                Some(ext) => r matches Ok(path) && exists|u: Seq<char>| #[trigger] is_uuid_text(u) && path@
                    == folder@ + "/"@ + u + "."@ + ext,
                None => r matches Err(AppError::InvalidInput),
            },
    {
        let v = crate::text::chars_of(original_name);
        let k = match find_last_dot(v.as_slice()) {
            Some(k) => k,
            None => return Err(AppError::InvalidInput),
        };
        proof {
            lemma_last_dot_bounds(v@);
        }
        if k + 1 >= v.len() {
            return Err(AppError::InvalidInput);
        }
        let ext = crate::text::chars_slice(v.as_slice(), k + 1, v.len());
        let id = random_uuid_text();
        let mut path = crate::text::string_from(folder);
        push_str(&mut path, "/");
        push_str(&mut path, id.as_str());
        push_str(&mut path, ".");
        crate::text::push_chars(&mut path, ext.as_slice());
        proof {
            assert(is_uuid_text(id@));
        }
        Ok(path)
    }

    /// The public URL of `object_name`; refused when no object storage is
    /// configured.
    pub fn build_object_url(&self, object_name: &str) -> (r: Result<String, AppError>)
        ensures
            match self.config.oci {
                Some(oci) => r matches Ok(url) && url@ == object_url(oci, object_name@),
                None => r matches Err(AppError::InvalidInput),
            },
    {
        let oci = match &self.config.oci {
            Some(o) => o,
            None => return Err(AppError::InvalidInput),
        };
        let mut url = crate::text::string_from("https://objectstorage.");
        push_str(&mut url, oci.region.as_str());
        push_str(&mut url, ".oraclecloud.com/n/");
        push_str(&mut url, oci.namespace.as_str());
        push_str(&mut url, "/b/");
        push_str(&mut url, oci.bucket.as_str());
        push_str(&mut url, "/o/");
        push_str(&mut url, object_name);
        Ok(url)
    }

    /// The URL to read a stored image by: a path that already holds a full
    /// URL (it contains `/o/`) is kept, a bare object name becomes its
    /// public URL, and an empty path is refused.
    pub fn generate_presigned_url(&self, image_path: &str) -> (r: Result<String, AppError>)
        ensures
            image_path@.len() == 0 ==> r matches Err(AppError::InvalidInput),
            image_path@.len() > 0 && seq_contains(image_path@, "/o/"@) ==> (r matches Ok(url) && url@ == image_path@),
            image_path@.len() > 0 && !seq_contains(image_path@, "/o/"@) ==> match self.config.oci {
                Some(oci) => r matches Ok(url) && url@ == object_url(oci, image_path@),
                None => r matches Err(AppError::InvalidInput),
            },
    {
        if crate::text::chars_of(image_path).len() == 0 {
            return Err(AppError::InvalidInput);
        }
        if str_contains(image_path, "/o/") {
            return Ok(crate::text::string_from(image_path));
        }
        self.build_object_url(image_path)
    }
}

/// A URL the service builds is kept as it is when the URL of a stored image
/// is asked for it: it is not empty and holds `/o/`.
pub proof fn law_presigned_url_is_stable(oci: OciConfig, object: Seq<char>)
    ensures
        object_url(oci, object).len() > 0,
        seq_contains(object_url(oci, object), "/o/"@),
{
    reveal_strlit("/o/");
    let u = object_url(oci, object);
    let pre = "https://objectstorage."@ + oci.region@ + ".oraclecloud.com/n/"@ + oci.namespace@ + "/b/"@
        + oci.bucket@;
    assert(u == pre + "/o/"@ + object);
    assert(u.subrange(pre.len() as int, pre.len() + 3int) =~= "/o/"@);
    assert(crate::text::occurs_at(u, "/o/"@, pre.len() as int));
}

} // verus!
