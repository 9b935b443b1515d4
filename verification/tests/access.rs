use std::future::Future;
use std::sync::Arc;
use std::task::{Context, Poll, Wake};

use aws_config::SdkConfig;
use aws_credential_types::provider::ProvideCredentials;
use osc_cost::config::{
    api_base_url, build_aws_config, build_aws_config_from_file, get_config, get_config_from_file,
    oos_endpoint_url, user_agent, ConfigError, ConfigSource, Profile, ProfileError,
};
use osc_cost::table::Table;
use osc_cost::VERSION;
use outscale_api::apis::configuration::Configuration;

struct Quiet;

impl Wake for Quiet {
    fn wake(self: Arc<Self>) {}
}

/// The two keys of a client configuration.
fn keys(config: &SdkConfig) -> (String, String) {
    let provider = config.credentials_provider().unwrap();
    let mut provided = Box::pin(provider.provide_credentials());
    let waker = Arc::new(Quiet).into();
    match provided.as_mut().poll(&mut Context::from_waker(&waker)) {
        Poll::Ready(Ok(credentials)) => {
            assert_eq!(credentials.session_token(), None);
            let secret_key = credentials.secret_access_key().to_string();
            (credentials.access_key_id().to_string(), secret_key)
        }
        _ => panic!("fixed keys are there at once"),
    }
}

fn gives_access(config: &SdkConfig, ak: &str, sk: &str, region: &str) {
    let endpoint_url = format!("https://oos.{}.outscale.com", region);
    assert_eq!(config.endpoint_url(), Some(endpoint_url.as_str()));
    assert_eq!(config.region().map(|region| region.to_string()), text(region));
    assert_eq!(keys(config), (ak.to_string(), sk.to_string()));
}

fn text(value: &str) -> Option<String> {
    Some(value.to_string())
}

fn profiles(profile: Profile) -> Table<Profile> {
    let mut profiles = Table::new();
    profiles.insert("default".to_string(), profile);
    profiles
}

fn flaw(profile: Profile, name: &str) -> Option<ProfileError> {
    build_aws_config_from_file(&profiles(profile), name).err()
}

#[test]
fn the_environment_gives_access_with_all_three() {
    match get_config(text("AK"), text("SK"), text("eu-west-2")) {
        ConfigSource::Environment(api, aws) => {
            assert_eq!(api.base_path, "https://api.eu-west-2.outscale.com/api/v1");
            assert_eq!(api.region, "eu-west-2");
            assert_eq!(api.access_key, "AK");
            assert_eq!(api.secret_key, "SK");
            assert_eq!(api.service, "oapi");
            assert_eq!(api.user_agent, "osc-cost/0.1.0");
            gives_access(&aws, "AK", "SK", "eu-west-2");
        }
        _ => panic!("the environment gives access"),
    }
}

#[test]
fn an_empty_environment_leaves_it_to_the_file() {
    assert!(matches!(get_config(None, None, None), ConfigSource::File));
}

#[test]
fn an_incomplete_environment_is_worth_a_warning() {
    for (ak, sk, region) in [
        (text("AK"), None, None),
        (None, text("SK"), None),
        (None, None, text("r")),
        (text("AK"), text("SK"), None),
        (text("AK"), None, text("r")),
        (None, text("SK"), text("r")),
    ] {
        assert!(matches!(get_config(ak, sk, region), ConfigSource::FileAfterWarning));
    }
}

#[test]
fn the_client_configuration_is_made_of_the_keys_and_the_region() {
    let config = build_aws_config("AK".to_string(), "SK".to_string(), "us-east-2".to_string());
    gives_access(&config, "AK", "SK", "us-east-2");
}

#[test]
fn a_region_has_its_endpoints() {
    assert_eq!(oos_endpoint_url("eu-west-2"), "https://oos.eu-west-2.outscale.com");
    assert_eq!(api_base_url("eu-west-2"), "https://api.eu-west-2.outscale.com/api/v1");
}

#[test]
fn a_profile_gives_the_access_that_the_environment_gives() {
    let profile = Profile { access_key: text("AK"), secret_key: text("SK"), region: text("r") };
    let from_file = build_aws_config_from_file(&profiles(profile), "default").ok().unwrap();
    gives_access(&from_file, "AK", "SK", "r");
    match get_config(text("AK"), text("SK"), text("r")) {
        ConfigSource::Environment(_, from_environment) => {
            gives_access(&from_environment, "AK", "SK", "r");
        }
        _ => panic!("the environment gives access"),
    }
}

#[test]
fn the_file_gives_both_accesses_or_the_first_error() {
    let profile = || Profile { access_key: text("AK"), secret_key: text("SK"), region: text("r") };
    let mut api = Configuration::new();
    api.base_path = "https://here".to_string();
    match get_config_from_file::<String>(Ok(api), &profiles(profile()), "default") {
        Ok((api, aws)) => {
            assert_eq!(api.base_path, "https://here");
            gives_access(&aws, "AK", "SK", "r");
        }
        Err(_) => panic!("the file gives access"),
    }
    let unread = get_config_from_file(Err("unread"), &profiles(profile()), "other");
    assert_eq!(unread.err(), Some(ConfigError::Api("unread")));
    let api = Ok::<Configuration, String>(Configuration::new());
    let unknown = get_config_from_file(api, &profiles(profile()), "other");
    assert_eq!(unknown.err(), Some(ConfigError::Profile(ProfileError::ProfileNotFound)));
}

#[test]
fn a_profile_tells_what_it_lacks_first() {
    let complete = || Profile { access_key: text("AK"), secret_key: text("SK"), region: text("r") };
    assert_eq!(flaw(complete(), "default"), None);
    assert_eq!(flaw(complete(), "other"), Some(ProfileError::ProfileNotFound));
    assert_eq!(flaw(Profile { region: None, ..complete() }, "default"), Some(ProfileError::NoRegion));
    assert_eq!(
        flaw(Profile { access_key: None, ..complete() }, "default"),
        Some(ProfileError::NoAccessKey)
    );
    assert_eq!(
        flaw(Profile { secret_key: None, ..complete() }, "default"),
        Some(ProfileError::NoSecretKey)
    );
    let empty = Profile { access_key: None, secret_key: None, region: None };
    assert_eq!(flaw(empty, "default"), Some(ProfileError::NoRegion));
    let keyless = Profile { access_key: None, secret_key: None, region: text("r") };
    assert_eq!(flaw(keyless, "default"), Some(ProfileError::NoAccessKey));
}

#[test]
fn a_flaw_has_a_text() {
    assert_eq!(ProfileError::ProfileNotFound.message(), "profile not found");
    assert_eq!(ProfileError::NoRegion.message(), "No region for the profile");
    assert_eq!(ProfileError::NoAccessKey.message(), "No AK for the profile");
    assert_eq!(ProfileError::NoSecretKey.message(), "No SK for the profile");
}

#[test]
fn the_program_names_its_version() {
    assert_eq!(user_agent(), format!("osc-cost/{}", VERSION));
}
