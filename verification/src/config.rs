//! The settings under which the API and the object storage are reached.
use aws_config::SdkConfig;
use aws_credential_types::provider::SharedCredentialsProvider;
use aws_sdk_s3::{Credentials, Region};
use outscale_api::apis::configuration::Configuration;
use vstd::prelude::*;

use crate::table::{lookup, Rows, Table};
use crate::VERSION;

verus! {

/// The configuration `aws_config::SdkConfig`, as an opaque value.
#[verifier::external_type_specification]
#[verifier::external_body]
pub struct ExSdkConfig(aws_config::SdkConfig);

/// The configuration `outscale_api::apis::configuration::Configuration`, as an
/// opaque value.
#[verifier::external_type_specification]
#[verifier::external_body]
pub struct ExConfiguration(outscale_api::apis::configuration::Configuration);

/// The client configuration with an endpoint, a region and two keys.
pub uninterp spec fn sdk_config_of(
    endpoint_url: Seq<char>,
    region: Seq<char>,
    access_key: Seq<char>,
    secret_key: Seq<char>,
) -> SdkConfig;

/// `SdkConfig::builder`, with the endpoint URL, the region and, through
/// `Credentials::from_keys`, the two keys, and no session token. Trusted: what is
/// built depends on these four texts alone.
#[verifier::external_body]
fn sdk_config(
    endpoint_url: String,
    region: String,
    access_key: String,
    secret_key: String,
) -> (config: SdkConfig)
    ensures
        config == sdk_config_of(endpoint_url@, region@, access_key@, secret_key@),
{
    let credentials = Credentials::from_keys(access_key, secret_key, None);
    SdkConfig::builder()
        .endpoint_url(endpoint_url)
        .region(Region::new(region))
        .credentials_provider(SharedCredentialsProvider::new(credentials))
        .build()
}

/// How the API is reached.
pub struct ApiSettings {
    pub base_path: String,
    pub region: String,
    pub access_key: String,
    pub secret_key: String,
    pub service: String,
    pub user_agent: String,
}

/// The base path of the API in `region`.
pub open spec fn api_base_path(region: Seq<char>) -> Seq<char> {
    "https://api."@ + region + ".outscale.com/api/v1"@
}

/// The endpoint of the object storage in `region`.
pub open spec fn oos_endpoint(region: Seq<char>) -> Seq<char> {
    "https://oos."@ + region + ".outscale.com"@
}

/// The name under which this program calls.
pub open spec fn spec_user_agent() -> Seq<char> {
    "osc-cost/"@ + VERSION@
}

/// The name under which this program calls.
pub fn user_agent() -> (name: String)
    ensures
        name@ == spec_user_agent(),
{
    "osc-cost/".to_owned().concat(VERSION)
}

impl ApiSettings {
    /// The settings that the keys and the region call for.
    pub open spec fn made_of(
        self,
        access_key: Seq<char>,
        secret_key: Seq<char>,
        region: Seq<char>,
    ) -> bool {
        &&& self.base_path@ == api_base_path(region)
        &&& self.region@ == region
        &&& self.access_key@ == access_key
        &&& self.secret_key@ == secret_key
        &&& self.service@ == "oapi"@
        &&& self.user_agent@ == spec_user_agent()
    }
}

/// The access to the object storage that the keys and the region call for.
pub open spec fn aws_config_of(
    access_key: Seq<char>,
    secret_key: Seq<char>,
    region: Seq<char>,
) -> SdkConfig {
    sdk_config_of(oos_endpoint(region), region, access_key, secret_key)
}

/// The endpoint of the object storage in `region`.
pub fn oos_endpoint_url(region: &str) -> (url: String)
    ensures
        url@ == oos_endpoint(region@),
{
    "https://oos.".to_owned().concat(region).concat(".outscale.com")
}

/// Sets up the access to the object storage.
pub fn build_aws_config(ak: String, sk: String, region: String) -> (config: SdkConfig)
    ensures
        config == aws_config_of(ak@, sk@, region@),
{
    let endpoint_url = oos_endpoint_url(region.as_str());
    sdk_config(endpoint_url, region, ak, sk)
}

/// A profile of the configuration file.
pub struct Profile {
    pub access_key: Option<String>,
    pub secret_key: Option<String>,
    pub region: Option<String>,
}

/// Why a profile gives no access to the object storage.
#[derive(Clone, Copy, Debug, PartialEq, Eq, Structural)]
pub enum ProfileError {
    ProfileNotFound,
    NoRegion,
    NoAccessKey,
    NoSecretKey,
}

impl ProfileError {
    /// The text of the error.
    pub open spec fn spec_message(self) -> Seq<char> {
        match self {
            ProfileError::ProfileNotFound => "profile not found"@,
            ProfileError::NoRegion => "No region for the profile"@,
            ProfileError::NoAccessKey => "No AK for the profile"@,
            ProfileError::NoSecretKey => "No SK for the profile"@,
        }
    }

    /// The text of the error.
    pub fn message(&self) -> (message: String)
        ensures
            message@ == self.spec_message(),
    {
        match self {
            ProfileError::ProfileNotFound => "profile not found".to_owned(),
            ProfileError::NoRegion => "No region for the profile".to_owned(),
            ProfileError::NoAccessKey => "No AK for the profile".to_owned(),
            ProfileError::NoSecretKey => "No SK for the profile".to_owned(),
        }
    }
}

/// The access to the object storage that the profile `name` gives, or what the
/// profile lacks first: itself, the region, the access key or the secret key.
pub open spec fn profile_config(profiles: Rows<Profile>, name: Seq<char>) -> Result<
    SdkConfig,
    ProfileError,
> {
    match lookup(profiles, name) {
        None => Err(ProfileError::ProfileNotFound),
        Some(profile) => match (profile.region, profile.access_key, profile.secret_key) {
            (None, _, _) => Err(ProfileError::NoRegion),
            (_, None, _) => Err(ProfileError::NoAccessKey),
            (_, _, None) => Err(ProfileError::NoSecretKey),
            (Some(region), Some(access_key), Some(secret_key)) => Ok(
                aws_config_of(access_key@, secret_key@, region@),
            ),
        },
    }
}

/// Sets up the access to the object storage from a profile of the configuration
/// file.
pub fn build_aws_config_from_file(profiles: &Table<Profile>, profile_name: &str) -> (config: Result<
    SdkConfig,
    ProfileError,
>)
    ensures
        config == profile_config(profiles@, profile_name@),
{
    let profile = match profiles.get(profile_name) {
        Some(profile) => profile,
        None => return Err(ProfileError::ProfileNotFound),
    };
    let region = match &profile.region {
        Some(region) => region.clone(),
        None => return Err(ProfileError::NoRegion),
    };
    let access_key = match &profile.access_key {
        Some(access_key) => access_key.clone(),
        None => return Err(ProfileError::NoAccessKey),
    };
    let secret_key = match &profile.secret_key {
        Some(secret_key) => secret_key.clone(),
        None => return Err(ProfileError::NoSecretKey),
    };
    Ok(build_aws_config(access_key, secret_key, region))
}

/// Why the configuration file gives no access.
#[derive(Debug, PartialEq)]
pub enum ConfigError<E> {
    /// The file gives no access to the API.
    Api(E),
    /// The profile gives no access to the object storage.
    Profile(ProfileError),
}

/// The access that the configuration file gives, when it makes `api` of the access
/// to the API: what fails first decides, and the API comes before the object
/// storage.
pub open spec fn file_config<E>(
    api: Result<Configuration, E>,
    profiles: Rows<Profile>,
    name: Seq<char>,
) -> Result<(Configuration, SdkConfig), ConfigError<E>> {
    match api {
        Err(error) => Err(ConfigError::Api(error)),
        Ok(api) => match profile_config(profiles, name) {
            Err(flaw) => Err(ConfigError::Profile(flaw)),
            Ok(aws) => Ok((api, aws)),
        },
    }
}

/// Finds the access in a profile of the configuration file, which makes `api` of
/// the access to the API.
pub fn get_config_from_file<E>(
    api: Result<Configuration, E>,
    profiles: &Table<Profile>,
    profile_name: &str,
) -> (config: Result<(Configuration, SdkConfig), ConfigError<E>>)
    ensures
        config == file_config(api, profiles@, profile_name@),
{
    match api {
        Err(error) => Err(ConfigError::Api(error)),
        Ok(api) => match build_aws_config_from_file(profiles, profile_name) {
            Err(flaw) => Err(ConfigError::Profile(flaw)),
            Ok(aws) => Ok((api, aws)),
        },
    }
}

/// Where the access comes from.
pub enum ConfigSource {
    /// The environment gives both keys and the region.
    Environment(ApiSettings, SdkConfig),
    /// The environment gives nothing: the configuration file decides.
    File,
    /// The environment gives some of the three, which is worth a warning: the
    /// configuration file decides.
    FileAfterWarning,
}

impl ConfigSource {
    /// The access comes from the configuration file.
    pub open spec fn file_decides(self) -> bool {
        self is File || self is FileAfterWarning
    }

    /// The access that comes of this source, where `made` is what is made of settings
    /// of the API, and `file` is what the configuration file gives.
    pub open spec fn access<E>(
        self,
        made: spec_fn(ApiSettings) -> Configuration,
        file: Result<(Configuration, SdkConfig), ConfigError<E>>,
    ) -> Result<(Configuration, SdkConfig), ConfigError<E>> {
        match self {
            ConfigSource::Environment(api, aws) => Ok((made(api), aws)),
            _ => file,
        }
    }

    /// The source is the one that the environment calls for: itself, with both keys
    /// and the region, or else the configuration file, with a warning unless
    /// nothing is set.
    pub open spec fn called_for_by(
        self,
        ak_env: Option<String>,
        sk_env: Option<String>,
        region_env: Option<String>,
    ) -> bool {
        match (ak_env, sk_env, region_env) {
            (Some(access_key), Some(secret_key), Some(region)) => {
                &&& self matches ConfigSource::Environment(api, aws)
                &&& api.made_of(access_key@, secret_key@, region@)
                &&& aws == aws_config_of(access_key@, secret_key@, region@)
            },
            (None, None, None) => self is File,
            _ => self is FileAfterWarning,
        }
    }
}

/// The base path of the API in `region`.
pub fn api_base_url(region: &str) -> (url: String)
    ensures
        url@ == api_base_path(region@),
{
    "https://api.".to_owned().concat(region).concat(".outscale.com/api/v1")
}

/// Decides where the access comes from, given what the environment holds under
/// `OSC_ACCESS_KEY`, `OSC_SECRET_KEY` and `OSC_REGION`.
pub fn get_config(
    ak_env: Option<String>,
    sk_env: Option<String>,
    region_env: Option<String>,
) -> (source: ConfigSource)
    ensures
        source.called_for_by(ak_env, sk_env, region_env),
        match (ak_env, sk_env, region_env) {
            (Some(access_key), Some(secret_key), Some(region)) => {
                &&& source matches ConfigSource::Environment(api, aws)
                &&& api.base_path@ == "https://api."@ + region@ + ".outscale.com/api/v1"@
                &&& api.region@ == region@
                &&& api.access_key@ == access_key@
                &&& api.secret_key@ == secret_key@
                &&& api.service@ == "oapi"@
                &&& api.user_agent@ == "osc-cost/"@ + VERSION@
                &&& aws == sdk_config_of(
                    "https://oos."@ + region@ + ".outscale.com"@,
                    region@,
                    access_key@,
                    secret_key@,
                )
            },
            (None, None, None) => source is File,
            _ => source is FileAfterWarning,
        },
{
    match (ak_env, sk_env, region_env) {
        (Some(access_key), Some(secret_key), Some(region)) => {
            let api = ApiSettings {
                base_path: api_base_url(region.as_str()),
                region: region.clone(),
                access_key: access_key.clone(),
                secret_key: secret_key.clone(),
                service: "oapi".to_owned(),
                user_agent: user_agent(),
            };
            let aws = build_aws_config(access_key, secret_key, region);
            ConfigSource::Environment(api, aws)
        },
        (None, None, None) => ConfigSource::File,
        (_, _, _) => ConfigSource::FileAfterWarning,
    }
}

} // verus!
