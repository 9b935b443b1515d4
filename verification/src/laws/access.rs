//! Access: what the environment and the configuration file have in common.
use aws_config::SdkConfig;
use outscale_api::apis::configuration::Configuration;
use vstd::prelude::*;

use super::tables::law_key_finds_its_row;
use super::terms::{holds, lacks, told_apart};
use crate::config::{
    api_base_path, aws_config_of, file_config, oos_endpoint, profile_config, sdk_config_of,
    spec_user_agent, ApiSettings, ConfigError, ConfigSource, Profile, ProfileError,
};
use crate::table::{lookup, Rows};

verus! {

/// The same keys and region give the same access to the object storage, whether
/// the environment holds them or a profile of the configuration file does.
pub proof fn law_environment_and_profile_agree(
    access_key: String,
    secret_key: String,
    region: String,
    source: ConfigSource,
    profiles: Rows<Profile>,
    name: Seq<char>,
    profile: Profile,
)
    requires
        source.called_for_by(Some(access_key), Some(secret_key), Some(region)),
        lookup(profiles, name) == Some(profile),
        profile.access_key is Some && profile.access_key->0@ == access_key@,
        profile.secret_key is Some && profile.secret_key->0@ == secret_key@,
        profile.region is Some && profile.region->0@ == region@,
    ensures
        source matches ConfigSource::Environment(_, aws) && profile_config(
            profiles,
            name,
        ) matches Ok(found) && found == aws,
{
}

/// The configuration file decides if and only if the environment lacks one of the
/// three. So a part of them is ignored entirely: with the same file and profile,
/// the same access, or the same error, comes of it as if none of them were set.
pub proof fn law_incomplete_environment_is_ignored<E>(
    ak_env: Option<String>,
    sk_env: Option<String>,
    region_env: Option<String>,
    source: ConfigSource,
    without_any: ConfigSource,
    made: spec_fn(ApiSettings) -> Configuration,
    api: Result<Configuration, E>,
    profiles: Rows<Profile>,
    name: Seq<char>,
)
    requires
        source.called_for_by(ak_env, sk_env, region_env),
        without_any.called_for_by(None, None, None),
    ensures
        source.file_decides() == (ak_env is None || sk_env is None || region_env is None),
        source.file_decides() ==> source.access(made, file_config(api, profiles, name))
            == without_any.access(made, file_config(api, profiles, name)),
        source.file_decides() ==> source.access(made, file_config(api, profiles, name))
            == file_config(api, profiles, name),
{
}

/// Each region has addresses of its own, which hold its name: the API and the object
/// storage of two regions are never the same.
pub proof fn law_regions_have_addresses_of_their_own(region: Seq<char>, other: Seq<char>)
    ensures
        api_base_path(region) == "https://api."@ + region + ".outscale.com/api/v1"@,
        oos_endpoint(region) == "https://oos."@ + region + ".outscale.com"@,
        region != other ==> api_base_path(region) != api_base_path(other),
        region != other ==> oos_endpoint(region) != oos_endpoint(other),
{
    if api_base_path(region) == api_base_path(other) {
        lemma_framed("https://api."@, region, other, ".outscale.com/api/v1"@);
    }
    if oos_endpoint(region) == oos_endpoint(other) {
        lemma_framed("https://oos."@, region, other, ".outscale.com"@);
    }
}

/// A text that stands between two others is known by the whole.
proof fn lemma_framed(before: Seq<char>, one: Seq<char>, other: Seq<char>, after: Seq<char>)
    requires
        before + one + after == before + other + after,
    ensures
        one == other,
{
    let whole = before + one + after;
    let same = before + other + after;
    assert(whole.len() == before.len() + one.len() + after.len());
    assert(same.len() == before.len() + other.len() + after.len());
    assert forall|i: int| 0 <= i < one.len() implies one[i] == other[i] by {
        assert(whole[before.len() + i] == one[i]);
        assert(same[before.len() + i] == other[i]);
    }
    assert(one =~= other);
}

/// With both keys and the region in the environment, the calls go to the API and to the
/// object storage of that region, with these keys, under the name and version of this
/// program.
pub proof fn law_environment_leads_to_its_region(
    access_key: String,
    secret_key: String,
    region: String,
    source: ConfigSource,
)
    requires
        source.called_for_by(Some(access_key), Some(secret_key), Some(region)),
    ensures
        source matches ConfigSource::Environment(api, aws) && {
            &&& api.base_path@ == "https://api."@ + region@ + ".outscale.com/api/v1"@
            &&& api.region@ == region@
            &&& api.access_key@ == access_key@
            &&& api.secret_key@ == secret_key@
            &&& api.service@ == "oapi"@
            &&& api.user_agent@ == "osc-cost/"@ + "0.1.0"@
            &&& aws == sdk_config_of(
                "https://oos."@ + region@ + ".outscale.com"@,
                region@,
                access_key@,
                secret_key@,
            )
        },
        spec_user_agent() == "osc-cost/"@ + "0.1.0"@,
        aws_config_of(access_key@, secret_key@, region@) == sdk_config_of(
            "https://oos."@ + region@ + ".outscale.com"@,
            region@,
            access_key@,
            secret_key@,
        ),
{
}

/// The environment is warned about if and only if it holds some of the three but not
/// all; it is followed if and only if it holds all.
pub proof fn law_environment_is_followed_whole_or_not_at_all(
    ak_env: Option<String>,
    sk_env: Option<String>,
    region_env: Option<String>,
    source: ConfigSource,
)
    requires
        source.called_for_by(ak_env, sk_env, region_env),
    ensures
        source is Environment <==> ak_env is Some && sk_env is Some && region_env is Some,
        source is File <==> ak_env is None && sk_env is None && region_env is None,
{
}

/// A profile leads to the object storage of its own region, with its own keys. One that
/// lacks something says what: the region first, then the access key, then the secret
/// key.
pub proof fn law_profile_leads_to_its_region(
    profiles: Rows<Profile>,
    name: Seq<char>,
    profile: Profile,
)
    requires
        told_apart(profiles),
    ensures
        lacks(profiles, name) ==> profile_config(profiles, name) == Err::<SdkConfig, ProfileError>(
            ProfileError::ProfileNotFound,
        ),
        holds(profiles, name, profile) && profile.region is None ==> profile_config(profiles, name)
            == Err::<SdkConfig, ProfileError>(ProfileError::NoRegion),
        holds(profiles, name, profile) && profile.region is Some && profile.access_key is None
            ==> profile_config(profiles, name) == Err::<SdkConfig, ProfileError>(
            ProfileError::NoAccessKey,
        ),
        holds(profiles, name, profile) && profile.region is Some && profile.access_key is Some
            && profile.secret_key is None ==> profile_config(profiles, name) == Err::<
            SdkConfig,
            ProfileError,
        >(ProfileError::NoSecretKey),
        holds(profiles, name, profile) && profile.region is Some && profile.access_key is Some
            && profile.secret_key is Some ==> profile_config(profiles, name) == Ok::<
            SdkConfig,
            ProfileError,
        >(
            sdk_config_of(
                "https://oos."@ + profile.region->0@ + ".outscale.com"@,
                profile.region->0@,
                profile.access_key->0@,
                profile.secret_key->0@,
            ),
        ),
{
    law_key_finds_its_row(profiles, name, profile);
}

/// The configuration file gives both accesses, as they are, or the error that comes
/// first: that of the API before that of the profile.
pub proof fn law_file_gives_both_accesses_or_the_first_error<E>(
    api: Result<Configuration, E>,
    profiles: Rows<Profile>,
    name: Seq<char>,
)
    ensures
        match file_config(api, profiles, name) {
            Ok((config, aws)) => {
                &&& api matches Ok(given) && given == config
                &&& profile_config(profiles, name) matches Ok(found) && found == aws
            },
            Err(ConfigError::Api(error)) => api matches Err(given) && given == error,
            Err(ConfigError::Profile(flaw)) => {
                &&& api is Ok
                &&& profile_config(profiles, name) matches Err(found) && found == flaw
            },
        },
{
}

/// An error of a profile says what the profile lacks.
pub proof fn law_profile_errors_say_what_is_lacking()
    ensures
        ProfileError::NoRegion.spec_message() == "No region for the profile"@,
        ProfileError::NoAccessKey.spec_message() == "No AK for the profile"@,
        ProfileError::NoSecretKey.spec_message() == "No SK for the profile"@,
        ProfileError::ProfileNotFound.spec_message() == "profile not found"@,
{
}

} // verus!
