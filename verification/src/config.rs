//! Runtime configuration: which settings make an object-storage or a payment
//! configuration, and the part of them that may be shown to anyone.

use vstd::prelude::*;

verus! {

/// Object-storage settings.
pub struct OciConfig {
    pub user: Option<String>,
    pub fingerprint: Option<String>,
    pub tenancy: Option<String>,
    pub region: String,
    pub key_file: Option<String>,
    pub namespace: String,
    pub bucket: String,
}

/// Payment-provider settings.
pub struct PortOneConfig {
    pub api_secret: Option<String>,
    pub base_url: Option<String>,
    pub store_id: Option<String>,
    pub channel_key: Option<String>,
}

/// All settings of the application.
pub struct AppConfig {
    pub cors_allowed_origin: Option<String>,
    pub oci: Option<OciConfig>,
    pub portone: Option<PortOneConfig>,
}

/// The settings that may be shown to anyone: no key, secret or user.
pub struct RuntimeConfigResponse {
    pub cors_allowed_origin: Option<String>,
    pub oci_region: Option<String>,
    pub oci_bucket: Option<String>,
    pub portone_base_url: Option<String>,
    pub portone_store_id: Option<String>,
}

/// The environment variables the configuration is read from, each as read
/// (`None` when unset or not valid text).
pub struct EnvValues {
    pub oci_config_region: Option<String>,
    pub oci_object_storage_namespace: Option<String>,
    pub oci_object_storage_bucket: Option<String>,
    pub oci_config_user: Option<String>,
    pub oci_config_fingerprint: Option<String>,
    pub oci_config_tenancy: Option<String>,
    pub oci_config_key_file: Option<String>,
    pub portone_api_secret: Option<String>,
    pub portone_base_url: Option<String>,
    pub portone_store_id: Option<String>,
    pub portone_channel_key: Option<String>,
    pub cors_allowed_origin: Option<String>,
}

/// The configuration of the running server.
pub struct ConfigService {
    pub config: AppConfig,
}

fn copy_text(s: &Option<String>) -> (r: Option<String>)
    ensures
        r == *s,
{
    match s {
        Some(t) => Some(t.clone()),
        None => None,
    }
}

impl ConfigService {
    /// The configuration the environment describes: object storage only
    /// when its region, namespace and bucket are all set; the payment
    /// provider only when its base URL or its store id is set.
    pub fn from_env_values(values: EnvValues) -> (s: ConfigService)
        ensures
            s.config.cors_allowed_origin == values.cors_allowed_origin,
            (values.oci_config_region is Some && values.oci_object_storage_namespace is Some
                && values.oci_object_storage_bucket is Some) <==> s.config.oci is Some,
            s.config.oci matches Some(o) ==> {
                &&& Some(o.region) == values.oci_config_region
                &&& Some(o.namespace) == values.oci_object_storage_namespace
                &&& Some(o.bucket) == values.oci_object_storage_bucket
                &&& o.user == values.oci_config_user
                &&& o.fingerprint == values.oci_config_fingerprint
                &&& o.tenancy == values.oci_config_tenancy
                &&& o.key_file == values.oci_config_key_file
            },
            (values.portone_base_url is Some || values.portone_store_id is Some) <==> s.config.portone is Some,
            s.config.portone matches Some(p) ==> {
                &&& p.api_secret == values.portone_api_secret
                &&& p.base_url == values.portone_base_url
                &&& p.store_id == values.portone_store_id
                &&& p.channel_key == values.portone_channel_key
            },
    {
        let EnvValues {
            oci_config_region,
            oci_object_storage_namespace,
            oci_object_storage_bucket,
            oci_config_user,
            oci_config_fingerprint,
            oci_config_tenancy,
            oci_config_key_file,
            portone_api_secret,
            portone_base_url,
            portone_store_id,
            portone_channel_key,
            cors_allowed_origin,
        } = values;
        let oci = match (oci_config_region, oci_object_storage_namespace, oci_object_storage_bucket) {
            (Some(region), Some(namespace), Some(bucket)) => Some(OciConfig {
                user: oci_config_user,
                fingerprint: oci_config_fingerprint,
                tenancy: oci_config_tenancy,
                region,
                key_file: oci_config_key_file,
                namespace,
                bucket,
            }),
            _ => None,
        };
        let portone = if portone_base_url.is_some() || portone_store_id.is_some() {
            Some(PortOneConfig {
                api_secret: portone_api_secret,
                base_url: portone_base_url,
                store_id: portone_store_id,
                channel_key: portone_channel_key,
            })
        } else {
            None
        };
        ConfigService { config: AppConfig { cors_allowed_origin, oci, portone } }
    }

    /// The settings that may be shown: the allowed origin, the storage
    /// region and bucket, and the payment base URL and store id.
    pub fn get_runtime_config(&self) -> (r: RuntimeConfigResponse)
        ensures
            shows(self.config, r),
    {
        let (oci_region, oci_bucket) = match &self.config.oci {
            Some(o) => (Some(o.region.clone()), Some(o.bucket.clone())),
            None => (None, None),
        };
        let (portone_base_url, portone_store_id) = match &self.config.portone {
            Some(p) => (copy_text(&p.base_url), copy_text(&p.store_id)),
            None => (None, None),
        };
        RuntimeConfigResponse {
            cors_allowed_origin: copy_text(&self.config.cors_allowed_origin),
            oci_region,
            oci_bucket,
            portone_base_url,
            portone_store_id,
        }
    }
}

/// What is shown never holds a secret: it is made of the origin, the
/// storage region and bucket and the payment URL and store id alone, so two
/// configurations that differ only in keys, users, fingerprints, tenancies,
/// key files, namespaces, secrets and channel keys show the same.
pub proof fn law_runtime_config_hides_secrets(a: AppConfig, b: AppConfig, ra: RuntimeConfigResponse, rb: RuntimeConfigResponse)
    requires
        a.cors_allowed_origin == b.cors_allowed_origin,
        a.oci is Some <==> b.oci is Some,
        a.oci matches Some(x) ==> x.region == b.oci->0.region && x.bucket == b.oci->0.bucket,
        a.portone is Some <==> b.portone is Some,
        a.portone matches Some(x) ==> x.base_url == b.portone->0.base_url && x.store_id == b.portone->0.store_id,
        shows(a, ra),
        shows(b, rb),
    ensures
        ra == rb,
{
}

/// `r` is what `get_runtime_config` answers for configuration `c`.
pub open spec fn shows(c: AppConfig, r: RuntimeConfigResponse) -> bool {
    &&& r.cors_allowed_origin == c.cors_allowed_origin
    &&& r.oci_region == (match c.oci {
        Some(o) => Some(o.region),
        None => None::<String>,
    })
    &&& r.oci_bucket == (match c.oci {
        Some(o) => Some(o.bucket),
        None => None::<String>,
    })
    &&& r.portone_base_url == (match c.portone {
        Some(p) => p.base_url,
        None => None,
    })
    &&& r.portone_store_id == (match c.portone {
        Some(p) => p.store_id,
        None => None,
    })
}

} // verus!
