use mission_service::common::{AppError, OciStorageService};
use mission_service::config::{AppConfig, ConfigService, EnvValues, OciConfig, PortOneConfig};

fn oci() -> OciConfig {
    OciConfig {
        user: Some("u".to_string()),
        fingerprint: Some("fp".to_string()),
        tenancy: None,
        region: "ap-seoul-1".to_string(),
        key_file: Some("/k".to_string()),
        namespace: "ns".to_string(),
        bucket: "images".to_string(),
    }
}

fn storage() -> OciStorageService {
    OciStorageService::new(AppConfig { cors_allowed_origin: None, oci: Some(oci()), portone: None })
}

fn empty_env() -> EnvValues {
    EnvValues {
        oci_config_region: None,
        oci_object_storage_namespace: None,
        oci_object_storage_bucket: None,
        oci_config_user: None,
        oci_config_fingerprint: None,
        oci_config_tenancy: None,
        oci_config_key_file: None,
        portone_api_secret: None,
        portone_base_url: None,
        portone_store_id: None,
        portone_channel_key: None,
        cors_allowed_origin: None,
    }
}

#[test]
fn app_errors() {
    assert_eq!(AppError::InvalidInput.status_code(), 400);
    assert_eq!(AppError::InvalidToken.status_code(), 401);
    assert_eq!(AppError::MissionNotFound.status_code(), 404);
    assert_eq!(AppError::PaymentAlreadyProcessed.status_code(), 409);
    assert_eq!(AppError::Internal.status_code(), 500);
    assert_eq!(AppError::InvalidInput.message(), "입력값이 올바르지 않습니다");
    assert_eq!(AppError::MissionAlreadyBookmarked.message(), "이미 찜한 미션입니다.");
    assert_eq!(AppError::Internal.error_body().error, "서버 오류가 발생했습니다");
}

#[test]
fn object_names_keep_the_extension() {
    let s = storage();
    let name = s.build_object_name("photo.final.png", "missions").expect("has an extension");
    assert!(name.starts_with("missions/"));
    assert!(name.ends_with(".png"));
    let id = &name["missions/".len()..name.len() - ".png".len()];
    assert_eq!(id.len(), 36);
    let dashes: Vec<usize> = id.char_indices().filter(|(_, c)| *c == '-').map(|(i, _)| i).collect();
    assert_eq!(dashes, vec![8, 13, 18, 23]);
    assert!(id.chars().all(|c| c == '-' || c.is_ascii_digit() || ('a'..='f').contains(&c)));
    let again = s.build_object_name("photo.final.png", "missions").expect("has an extension");
    assert_ne!(name, again);
}

#[test]
fn names_without_extension_are_refused() {
    let s = storage();
    assert!(matches!(s.build_object_name("photo", "f"), Err(AppError::InvalidInput)));
    assert!(matches!(s.build_object_name("photo.", "f"), Err(AppError::InvalidInput)));
    assert!(matches!(s.build_object_name("", "f"), Err(AppError::InvalidInput)));
    assert!(s.build_object_name(".env", "f").is_ok());
}

#[test]
fn object_urls() {
    let s = storage();
    assert_eq!(
        s.build_object_url("missions/a.png").expect("configured"),
        "https://objectstorage.ap-seoul-1.oraclecloud.com/n/ns/b/images/o/missions/a.png"
    );
    let bare = OciStorageService::new(AppConfig { cors_allowed_origin: None, oci: None, portone: None });
    assert!(matches!(bare.build_object_url("x"), Err(AppError::InvalidInput)));
}

#[test]
fn presigned_urls() {
    let s = storage();
    assert!(matches!(s.generate_presigned_url(""), Err(AppError::InvalidInput)));
    let full = "https://objectstorage.x.oraclecloud.com/n/a/b/c/o/k.png";
    assert_eq!(s.generate_presigned_url(full).expect("kept"), full);
    let built = s.generate_presigned_url("k.png").expect("built");
    assert_eq!(built, "https://objectstorage.ap-seoul-1.oraclecloud.com/n/ns/b/images/o/k.png");
    assert_eq!(s.generate_presigned_url(&built).expect("kept"), built);
}

#[test]
fn configuration_from_the_environment() {
    let c = ConfigService::from_env_values(empty_env());
    assert!(c.config.oci.is_none() && c.config.portone.is_none() && c.config.cors_allowed_origin.is_none());

    let mut partial = empty_env();
    partial.oci_config_region = Some("r".to_string());
    partial.oci_object_storage_bucket = Some("b".to_string());
    assert!(ConfigService::from_env_values(partial).config.oci.is_none());

    let mut full = empty_env();
    full.oci_config_region = Some("r".to_string());
    full.oci_object_storage_namespace = Some("n".to_string());
    full.oci_object_storage_bucket = Some("b".to_string());
    full.oci_config_user = Some("user".to_string());
    full.portone_store_id = Some("store".to_string());
    full.portone_api_secret = Some("SECRET-REDACTED".to_string());
    full.cors_allowed_origin = Some("https://app".to_string());
    let c = ConfigService::from_env_values(full);
    let o = c.config.oci.as_ref().expect("complete");
    assert_eq!((o.region.as_str(), o.namespace.as_str(), o.bucket.as_str()), ("r", "n", "b"));
    assert_eq!(o.user, Some("user".to_string()));
    let p = c.config.portone.as_ref().expect("store id set");
    assert_eq!(p.store_id, Some("store".to_string()));
    assert!(p.base_url.is_none());

    let shown = c.get_runtime_config();
    assert_eq!(shown.cors_allowed_origin, Some("https://app".to_string()));
    assert_eq!(shown.oci_region, Some("r".to_string()));
    assert_eq!(shown.oci_bucket, Some("b".to_string()));
    assert_eq!(shown.portone_base_url, None);
    assert_eq!(shown.portone_store_id, Some("store".to_string()));
}

#[test]
fn runtime_config_without_sections() {
    let c = ConfigService {
        config: AppConfig {
            cors_allowed_origin: None,
            oci: None,
            portone: Some(PortOneConfig { api_secret: None, base_url: Some("https://pay".to_string()), store_id: None, channel_key: None }),
        },
    };
    let shown = c.get_runtime_config();
    assert_eq!(shown.oci_region, None);
    assert_eq!(shown.portone_base_url, Some("https://pay".to_string()));
}
