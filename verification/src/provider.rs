//! The provider and its factory: what is decided before the service is asked,
//! and what is made of its answer.

use crate::config::{parsed, AwsConfig, AwsConfigView};
use crate::error::{ProviderError, ProviderErrorView};
use crate::scrub::wipe_string;
use crate::sdk::{settings_credentials, settings_region};
use crate::service::{
    answer_secret_string, answer_version_id, fetch_failure_text, fetch_failure_text_of,
    fetch_service_error, identity_failure_text, identity_failure_text_of, is_not_found,
    reports_not_found, secret_string_of, service_error_of, version_id_of,
};
use crate::text::optional_view;
use aws_sdk_secretsmanager::operation::get_secret_value::{
    GetSecretValueError, GetSecretValueOutput,
};
use aws_sdk_sts::operation::get_caller_identity::{GetCallerIdentityError, GetCallerIdentityOutput};
use aws_smithy_runtime_api::client::result::SdkError;
use aws_smithy_runtime_api::http::Response;
use aws_smithy_types::body::SdkBody;
use aws_types::sdk_config::SdkConfig;
use vstd::prelude::*;

verus! {

/// A secret as the service holds it.
#[derive(Debug, PartialEq, Eq)]
pub struct ProviderSecret {
    pub value: String,
    pub version: Option<String>,
}

/// What a `ProviderSecret` holds, as mathematical strings.
pub struct ProviderSecretView {
    pub value: Seq<char>,
    pub version: Option<Seq<char>>,
}

impl View for ProviderSecret {
    type V = ProviderSecretView;

    open spec fn view(&self) -> ProviderSecretView {
        ProviderSecretView { value: self.value@, version: optional_view(self.version) }
    }
}

/// What the service answered to one read of a secret.
#[derive(Debug, PartialEq, Eq)]
pub enum FetchReply {
    /// The secret was read; its value may be binary, and then no string.
    Value { secret_string: Option<String>, version_id: Option<String> },
    /// The service refused; it may have said that the secret does not exist.
    ServiceFailure { resource_not_found: bool, cause: String },
    /// The request failed before the service answered it, or the answer could
    /// not be read.
    OtherFailure { cause: String },
}

/// What a `FetchReply` holds, as mathematical strings.
pub enum FetchReplyView {
    Value { secret_string: Option<Seq<char>>, version_id: Option<Seq<char>> },
    ServiceFailure { resource_not_found: bool, cause: Seq<char> },
    OtherFailure { cause: Seq<char> },
}

impl View for FetchReply {
    type V = FetchReplyView;

    open spec fn view(&self) -> FetchReplyView {
        match *self {
            FetchReply::Value { secret_string, version_id } => FetchReplyView::Value {
                secret_string: optional_view(secret_string),
                version_id: optional_view(version_id),
            },
            FetchReply::ServiceFailure { resource_not_found, cause } => {
                FetchReplyView::ServiceFailure { resource_not_found, cause: cause@ }
            },
            FetchReply::OtherFailure { cause } => FetchReplyView::OtherFailure { cause: cause@ },
        }
    }
}

/// The reply that the SDK's answer to a read stands for.
pub open spec fn reply_of(
    answer: Result<GetSecretValueOutput, SdkError<GetSecretValueError, Response<SdkBody>>>,
) -> FetchReplyView {
    match answer {
        Ok(found) => FetchReplyView::Value {
            secret_string: answer_secret_string(found),
            version_id: answer_version_id(found),
        },
        Err(e) => match fetch_service_error(e) {
            Some(refusal) => FetchReplyView::ServiceFailure {
                resource_not_found: is_not_found(refusal),
                cause: fetch_failure_text(e),
            },
            None => FetchReplyView::OtherFailure { cause: fetch_failure_text(e) },
        },
    }
}

/// The complaint about a secret whose value is no string.
pub open spec fn not_a_string_value() -> Seq<char> {
    "value is not a string"@
}

/// What the host is told for a secret name and the service's reply.
pub open spec fn secret_outcome(name: Seq<char>, reply: FetchReplyView) -> Result<
    ProviderSecretView,
    ProviderErrorView,
> {
    match reply {
        FetchReplyView::Value { secret_string: Some(value), version_id } => Ok(
            ProviderSecretView { value, version: version_id },
        ),
        FetchReplyView::Value { secret_string: None, version_id } => Err(
            ProviderErrorView::InvalidConfiguration(not_a_string_value()),
        ),
        FetchReplyView::ServiceFailure { resource_not_found, cause } => if resource_not_found {
            Err(ProviderErrorView::SecretNotFound(name))
        } else {
            Err(ProviderErrorView::ClientError(cause))
        },
        FetchReplyView::OtherFailure { cause } => Err(ProviderErrorView::ClientError(cause)),
    }
}

/// What the host is told for the identity service's reply: any failure is
/// `InvalidConfiguration` with its cause.
pub open spec fn validation_result(reply: Result<(), Seq<char>>) -> Result<(), ProviderErrorView> {
    match reply {
        Ok(_) => Ok(()),
        Err(cause) => Err(ProviderErrorView::InvalidConfiguration(cause)),
    }
}

/// A secret that is absent is reported under the name that was asked for,
/// whatever else the service said.
pub proof fn lemma_absent_secret_echoes_name(name: Seq<char>, cause: Seq<char>)
    ensures
        secret_outcome(name, FetchReplyView::ServiceFailure { resource_not_found: true, cause })
            == Err::<ProviderSecretView, ProviderErrorView>(
            ProviderErrorView::SecretNotFound(name),
        ),
{
}

/// A refusal that is not about an absent secret is a client error, never
/// `SecretNotFound`.
pub proof fn lemma_refusal_is_client_error(name: Seq<char>, cause: Seq<char>)
    ensures
        secret_outcome(name, FetchReplyView::ServiceFailure { resource_not_found: false, cause })
            == Err::<ProviderSecretView, ProviderErrorView>(ProviderErrorView::ClientError(cause)),
{
}

/// A failed identity call never validates: it is `InvalidConfiguration`.
pub proof fn lemma_failed_identity_call_is_invalid(cause: Seq<char>)
    ensures
        validation_result(Err(cause)) == Err::<(), ProviderErrorView>(
            ProviderErrorView::InvalidConfiguration(cause),
        ),
{
}

impl FetchReply {
    /// Reads the SDK's answer to a read into plain values: the secret string
    /// and version of a success; of a failure its text, whether the service
    /// refused, and whether it refused because the secret does not exist.
    pub fn from_answer(
        answer: &Result<GetSecretValueOutput, SdkError<GetSecretValueError, Response<SdkBody>>>,
    ) -> (out: FetchReply)
        ensures
            out@ == reply_of(*answer),
    {
        match answer {
            Ok(found) => FetchReply::Value {
                secret_string: secret_string_of(found),
                version_id: version_id_of(found),
            },
            Err(e) => {
                let cause = fetch_failure_text_of(e);
                match service_error_of(e) {
                    Some(refusal) => FetchReply::ServiceFailure {
                        resource_not_found: reports_not_found(refusal),
                        cause,
                    },
                    None => FetchReply::OtherFailure { cause },
                }
            },
        }
    }
}

/// A provider: the client configuration that its client is made of.
pub struct AwsSecretsManagerProvider {
    pub settings: SdkConfig,
}

/// Validates configurations and makes providers.
pub struct AwsSecretsManagerFactory;

/// A client configuration is the one that a configuration text asks for: it
/// has the text's region and no credentials but the text's.
pub open spec fn settings_match(settings: SdkConfig, text: Seq<char>) -> bool {
    parsed(text) matches Ok(c) && settings_region(settings) == Some(c.region)
        && settings_credentials(settings) == Some(c.auth.credentials())
}

impl AwsSecretsManagerProvider {
    /// Makes the result of fetching `name` out of the service's reply. A
    /// missing secret is `SecretNotFound` with the name that was asked for, a
    /// value that is no string is `InvalidConfiguration`, every other failure
    /// is `ClientError` with its cause; a string value is handed on with its
    /// version, where the service gave one.
    pub fn secret_from_reply(name: &str, reply: FetchReply) -> (out: Result<
        ProviderSecret,
        ProviderError,
    >)
        ensures
            match out {
                Ok(s) => secret_outcome(name@, reply@) == Ok::<
                    ProviderSecretView,
                    ProviderErrorView,
                >(s@),
                Err(e) => secret_outcome(name@, reply@) == Err::<
                    ProviderSecretView,
                    ProviderErrorView,
                >(e@),
            },
    {
        match reply {
            FetchReply::Value { secret_string, version_id } => match secret_string {
                Some(value) => Ok(ProviderSecret { value, version: version_id }),
                None => Err(ProviderError::InvalidConfiguration("value is not a string".to_owned())),
            },
            FetchReply::ServiceFailure { resource_not_found, cause } => {
                if resource_not_found {
                    Err(ProviderError::SecretNotFound(name.to_owned()))
                } else {
                    Err(ProviderError::ClientError(cause))
                }
            },
            FetchReply::OtherFailure { cause } => Err(ProviderError::ClientError(cause)),
        }
    }

    /// Makes the result of fetching `name` out of what the SDK handed back
    /// from the one read of the service.
    pub fn get_secret(
        &self,
        name: &str,
        answer: &Result<GetSecretValueOutput, SdkError<GetSecretValueError, Response<SdkBody>>>,
    ) -> (out: Result<ProviderSecret, ProviderError>)
        ensures
            match out {
                Ok(s) => secret_outcome(name@, reply_of(*answer)) == Ok::<
                    ProviderSecretView,
                    ProviderErrorView,
                >(s@),
                Err(e) => secret_outcome(name@, reply_of(*answer)) == Err::<
                    ProviderSecretView,
                    ProviderErrorView,
                >(e@),
            },
    {
        AwsSecretsManagerProvider::secret_from_reply(name, FetchReply::from_answer(answer))
    }
}

impl AwsSecretsManagerFactory {
    /// The first half of a validation: parses the configuration and makes the
    /// client configuration with which the identity service is to be asked.
    /// It succeeds exactly when the text parses.
    pub fn validate(&self, config: &str) -> (out: Result<SdkConfig, ProviderError>)
        ensures
            match out {
                Ok(settings) => settings_match(settings, config@),
                Err(e) => e matches ProviderError::InvalidConfiguration(m) && parsed(config@)
                    == Err::<AwsConfigView, Seq<char>>(m@),
            },
    {
        match AwsConfig::parse(config) {
            Ok(c) => Ok(c.into()),
            Err(e) => Err(e),
        }
    }

    /// What a validation comes to, given the identity service's reply as
    /// success or the text of the failure.
    pub fn validation_outcome(reply: Result<(), String>) -> (out: Result<(), ProviderError>)
        ensures
            match out {
                Ok(_) => reply is Ok,
                Err(e) => reply matches Err(cause) && e@
                    == ProviderErrorView::InvalidConfiguration(cause@),
            },
    {
        match reply {
            Ok(_) => Ok(()),
            Err(cause) => Err(ProviderError::InvalidConfiguration(cause)),
        }
    }

    /// The second half of a validation: what the SDK handed back from the
    /// one call of the identity service. Any failure, whatever its kind, is
    /// `InvalidConfiguration` with the failure's text.
    pub fn validate_reply(
        &self,
        answer: &Result<GetCallerIdentityOutput, SdkError<GetCallerIdentityError, Response<SdkBody>>>,
    ) -> (out: Result<(), ProviderError>)
        ensures
            match *answer {
                Ok(_) => out is Ok,
                Err(failure) => out matches Err(e) && e@ == ProviderErrorView::InvalidConfiguration(
                    identity_failure_text(failure),
                ),
            },
    {
        match answer {
            Ok(_) => AwsSecretsManagerFactory::validation_outcome(Ok(())),
            Err(e) => AwsSecretsManagerFactory::validation_outcome(Err(identity_failure_text_of(e))),
        }
    }

    /// Makes a provider from a configuration text, without asking the
    /// service anything. It succeeds exactly when the text parses. The text
    /// is overwritten either way.
    pub fn create(&self, config_str: &mut String) -> (out: Result<
        AwsSecretsManagerProvider,
        ProviderError,
    >)
        ensures
            final(config_str)@ == Seq::<char>::empty(),
            match out {
                Ok(p) => settings_match(p.settings, old(config_str)@),
                Err(e) => e matches ProviderError::InvalidConfiguration(m) && parsed(
                    old(config_str)@,
                ) == Err::<AwsConfigView, Seq<char>>(m@),
            },
    {
        let outcome = AwsConfig::parse(config_str.as_str());
        wipe_string(config_str);
        match outcome {
            Ok(c) => Ok(AwsSecretsManagerProvider { settings: c.into() }),
            Err(e) => Err(e),
        }
    }
}

} // verus!
