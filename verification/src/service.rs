//! What the SDK hands back from a call of the service, read into plain values.

use crate::text::optional_view;
use aws_sdk_secretsmanager::operation::get_secret_value::{
    GetSecretValueError, GetSecretValueOutput,
};
use aws_sdk_sts::operation::get_caller_identity::{GetCallerIdentityError, GetCallerIdentityOutput};
use aws_smithy_runtime_api::client::result::SdkError;
use aws_smithy_runtime_api::http::Response;
use aws_smithy_types::body::SdkBody;
use vstd::prelude::*;

verus! {

/// The SDK's failure of a call, carried through unopened.
#[verifier::external_type_specification]
#[verifier::external_body]
#[verifier::reject_recursive_types(E)]
#[verifier::reject_recursive_types(R)]
pub struct ExSdkError<E, R>(SdkError<E, R>);

/// The SDK's HTTP response, carried through unopened.
#[verifier::external_type_specification]
#[verifier::external_body]
#[verifier::reject_recursive_types(B)]
pub struct ExResponse<B>(Response<B>);

/// The SDK's message body, carried through unopened.
#[verifier::external_type_specification]
#[verifier::external_body]
pub struct ExSdkBody(SdkBody);

/// The service's refusal to read a secret, carried through unopened.
#[verifier::external_type_specification]
#[verifier::external_body]
pub struct ExGetSecretValueError(GetSecretValueError);

/// The service's answer to reading a secret, carried through unopened.
#[verifier::external_type_specification]
#[verifier::external_body]
pub struct ExGetSecretValueOutput(GetSecretValueOutput);

/// The identity service's refusal, carried through unopened.
#[verifier::external_type_specification]
#[verifier::external_body]
pub struct ExGetCallerIdentityError(GetCallerIdentityError);

/// The identity service's answer, carried through unopened.
#[verifier::external_type_specification]
#[verifier::external_body]
pub struct ExGetCallerIdentityOutput(GetCallerIdentityOutput);

/// What `SdkError::as_service_error` finds in a failed read: the service's
/// own refusal, where the failure is one.
pub uninterp spec fn fetch_service_error(
    e: SdkError<GetSecretValueError, Response<SdkBody>>,
) -> Option<GetSecretValueError>;

/// What `GetSecretValueError::is_resource_not_found_exception` says of a
/// refusal.
pub uninterp spec fn is_not_found(refusal: GetSecretValueError) -> bool;

/// The text that a failed read prints as.
pub uninterp spec fn fetch_failure_text(
    e: SdkError<GetSecretValueError, Response<SdkBody>>,
) -> Seq<char>;

/// What `GetSecretValueOutput::secret_string` holds.
pub uninterp spec fn answer_secret_string(answer: GetSecretValueOutput) -> Option<Seq<char>>;

/// What `GetSecretValueOutput::version_id` holds.
pub uninterp spec fn answer_version_id(answer: GetSecretValueOutput) -> Option<Seq<char>>;

/// The text that a failed identity call prints as.
pub uninterp spec fn identity_failure_text(
    e: SdkError<GetCallerIdentityError, Response<SdkBody>>,
) -> Seq<char>;

/// Calls `SdkError::as_service_error`, which hands out the service's refusal
/// where the failure is a service error and nothing otherwise.
#[verifier::external_body]
pub(crate) fn service_error_of(e: &SdkError<GetSecretValueError, Response<SdkBody>>) -> (out:
    Option<&GetSecretValueError>)
    ensures
        match out {
            Some(refusal) => fetch_service_error(*e) == Some(*refusal),
            None => fetch_service_error(*e) is None,
        },
{
    e.as_service_error()
}

/// Calls `GetSecretValueError::is_resource_not_found_exception`.
#[verifier::external_body]
pub(crate) fn reports_not_found(refusal: &GetSecretValueError) -> (out: bool)
    ensures
        out == is_not_found(*refusal),
{
    refusal.is_resource_not_found_exception()
}

/// Prints a failed read with `to_string`.
#[verifier::external_body]
pub(crate) fn fetch_failure_text_of(e: &SdkError<GetSecretValueError, Response<SdkBody>>) -> (out:
    String)
    ensures
        out@ == fetch_failure_text(*e),
{
    e.to_string()
}

/// Calls `GetSecretValueOutput::secret_string` and copies what it hands out.
#[verifier::external_body]
pub(crate) fn secret_string_of(answer: &GetSecretValueOutput) -> (out: Option<String>)
    ensures
        optional_view(out) == answer_secret_string(*answer),
{
    answer.secret_string().map(String::from)
}

/// Calls `GetSecretValueOutput::version_id` and copies what it hands out.
#[verifier::external_body]
pub(crate) fn version_id_of(answer: &GetSecretValueOutput) -> (out: Option<String>)
    ensures
        optional_view(out) == answer_version_id(*answer),
{
    answer.version_id().map(String::from)
}

/// Prints a failed identity call with `to_string`.
#[verifier::external_body]
pub(crate) fn identity_failure_text_of(
    e: &SdkError<GetCallerIdentityError, Response<SdkBody>>,
) -> (out: String)
    ensures
        out@ == identity_failure_text(*e),
{
    e.to_string()
}

} // verus!
