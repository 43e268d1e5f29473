//! The client configuration of the cloud SDK, as far as this library makes it.

use crate::text::optional_str_view;
use aws_credential_types::Credentials;
use aws_types::sdk_config::SdkConfig;
use vstd::prelude::*;

verus! {

/// The SDK's credential set, carried through unopened.
#[verifier::external_type_specification]
#[verifier::external_body]
pub struct ExCredentials(Credentials);

/// The SDK's client configuration, carried through unopened.
#[verifier::external_type_specification]
#[verifier::external_body]
pub struct ExSdkConfig(SdkConfig);

/// The credential set that `Credentials::new` makes of an access key id, a
/// secret access key and an optional session token, with no expiry and the
/// provider name `StaticConfig`.
pub uninterp spec fn static_credentials(
    access_key_id: Seq<char>,
    secret_access_key: Seq<char>,
    session_token: Option<Seq<char>>,
) -> Credentials;

/// The region that `SdkConfig::region` reports, as its text.
pub uninterp spec fn settings_region(settings: SdkConfig) -> Option<Seq<char>>;

/// The static credential set behind the provider that
/// `SdkConfig::credentials_provider` reports, if the configuration has one.
pub uninterp spec fn settings_credentials(settings: SdkConfig) -> Option<Credentials>;

/// Calls `Credentials::new` with copies of the three values, no expiry and the
/// provider name `StaticConfig`. The contract claims that the result is the
/// credential set that `static_credentials` names for these values.
#[verifier::external_body]
pub(crate) fn make_credentials(
    access_key_id: &str,
    secret_access_key: &str,
    session_token: Option<&str>,
) -> (out: Credentials)
    ensures
        out == static_credentials(
            access_key_id@,
            secret_access_key@,
            optional_str_view(session_token),
        ),
{
    Credentials::new(
        access_key_id.to_string(),
        secret_access_key.to_string(),
        session_token.map(String::from),
        None,
        "StaticConfig",
    )
}

/// Builds an `SdkConfig` with `SdkConfig::builder`: the credentials wrapped by
/// `SharedCredentialsProvider::new` as its provider, the region made by
/// `Region::new` of a copy of the text, and a fixed behavior version. The builder reads nothing but
/// what it is handed, so the contract claims that the configuration reports
/// this region and holds exactly these credentials.
#[verifier::external_body]
#[allow(deprecated)]
pub(crate) fn make_settings(region: &str, credentials: Credentials) -> (out: SdkConfig)
    ensures
        settings_region(out) == Some(region@),
        settings_credentials(out) == Some(credentials),
{
    SdkConfig::builder()
        .credentials_provider(aws_types::sdk_config::SharedCredentialsProvider::new(credentials))
        .region(aws_types::region::Region::new(region.to_string()))
        .behavior_version(aws_sdk_secretsmanager::config::BehaviorVersion::v2025_08_07())
        .build()
}

} // verus!
