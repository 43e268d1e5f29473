use aws_sdk_secretsmanager::operation::get_secret_value::{
    GetSecretValueError, GetSecretValueOutput,
};
use aws_sdk_secretsmanager::types::error::ResourceNotFoundException;
use aws_sdk_sts::operation::get_caller_identity::{GetCallerIdentityError, GetCallerIdentityOutput};
use aws_smithy_runtime_api::client::result::SdkError;
use aws_smithy_runtime_api::http::{Response, StatusCode};
use aws_smithy_types::body::SdkBody;
use aws_smithy_types::error::ErrorMetadata;
use vault_provider_aws::error::ProviderError;
use vault_provider_aws::provider::{
    AwsSecretsManagerFactory, AwsSecretsManagerProvider, FetchReply, ProviderSecret,
};

const VALID: &str = r#"{"region":"us-west-2","auth":{"type":"AccessKey","access_key_id":"AKIDEXAMPLE","secret_access_key":"s3cr3t"}}"#;

type FetchAnswer = Result<GetSecretValueOutput, SdkError<GetSecretValueError, Response<SdkBody>>>;

fn provider() -> AwsSecretsManagerProvider {
    let mut text = VALID.to_string();
    AwsSecretsManagerFactory.create(&mut text).unwrap()
}

fn response(status: u16) -> Response<SdkBody> {
    Response::new(StatusCode::try_from(status).unwrap(), SdkBody::empty())
}

fn absent() -> FetchAnswer {
    let refusal = ResourceNotFoundException::builder()
        .message("Secrets Manager can't find the specified secret.")
        .build();
    Err(SdkError::service_error(
        GetSecretValueError::ResourceNotFoundException(refusal),
        response(400),
    ))
}

fn denied() -> FetchAnswer {
    let meta = ErrorMetadata::builder()
        .code("AccessDeniedException")
        .message("not authorized to perform secretsmanager:GetSecretValue")
        .build();
    Err(SdkError::service_error(GetSecretValueError::generic(meta), response(400)))
}

#[test]
fn get_secret_round_trip() {
    let answer: FetchAnswer = Ok(GetSecretValueOutput::builder()
        .secret_string("shhh")
        .version_id("3")
        .build());
    assert_eq!(
        provider().get_secret("db/password", &answer),
        Ok(ProviderSecret { value: "shhh".to_string(), version: Some("3".to_string()) })
    );
}

#[test]
fn get_secret_without_version() {
    let answer: FetchAnswer = Ok(GetSecretValueOutput::builder().secret_string("v").build());
    assert_eq!(
        provider().get_secret("n", &answer),
        Ok(ProviderSecret { value: "v".to_string(), version: None })
    );
}

#[test]
fn get_secret_absent_name_is_secret_not_found() {
    assert_eq!(
        provider().get_secret("db/password", &absent()),
        Err(ProviderError::SecretNotFound("db/password".to_string()))
    );
}

#[test]
fn get_secret_without_permission_is_client_error() {
    assert_eq!(
        provider().get_secret("db/password", &denied()),
        Err(ProviderError::ClientError("service error".to_string()))
    );
}

#[test]
fn get_secret_transport_failure_is_client_error() {
    let answer: FetchAnswer = Err(SdkError::timeout_error("no answer in time"));
    assert_eq!(
        provider().get_secret("n", &answer),
        Err(ProviderError::ClientError("request has timed out".to_string()))
    );
}

#[test]
fn get_secret_binary_value_is_invalid_configuration() {
    let answer: FetchAnswer = Ok(GetSecretValueOutput::builder()
        .secret_binary(aws_sdk_secretsmanager::primitives::Blob::new(vec![0u8, 159, 146, 150]))
        .version_id("1")
        .build());
    assert_eq!(
        provider().get_secret("n", &answer),
        Err(ProviderError::InvalidConfiguration("value is not a string".to_string()))
    );
}

#[test]
fn from_answer_reads_the_sdk_values() {
    let found: FetchAnswer = Ok(GetSecretValueOutput::builder()
        .name("db/password")
        .secret_string("shhh")
        .version_id("3")
        .build());
    assert_eq!(
        FetchReply::from_answer(&found),
        FetchReply::Value {
            secret_string: Some("shhh".to_string()),
            version_id: Some("3".to_string()),
        }
    );
    assert_eq!(
        FetchReply::from_answer(&absent()),
        FetchReply::ServiceFailure { resource_not_found: true, cause: "service error".to_string() }
    );
    assert_eq!(
        FetchReply::from_answer(&denied()),
        FetchReply::ServiceFailure {
            resource_not_found: false,
            cause: "service error".to_string(),
        }
    );
    let unread: FetchAnswer = Err(SdkError::response_error("cut short", response(200)));
    assert_eq!(
        FetchReply::from_answer(&unread),
        FetchReply::OtherFailure { cause: "response error".to_string() }
    );
    let unsent: FetchAnswer = Err(SdkError::construction_failure("no endpoint"));
    assert_eq!(
        FetchReply::from_answer(&unsent),
        FetchReply::OtherFailure { cause: "failed to construct request".to_string() }
    );
}

#[test]
fn secret_from_reply_covers_every_reply() {
    let found = FetchReply::Value {
        secret_string: Some("shhh".to_string()),
        version_id: Some("3".to_string()),
    };
    assert_eq!(
        AwsSecretsManagerProvider::secret_from_reply("a", found),
        Ok(ProviderSecret { value: "shhh".to_string(), version: Some("3".to_string()) })
    );
    let binary = FetchReply::Value { secret_string: None, version_id: None };
    assert_eq!(
        AwsSecretsManagerProvider::secret_from_reply("a", binary),
        Err(ProviderError::InvalidConfiguration("value is not a string".to_string()))
    );
    let absent = FetchReply::ServiceFailure { resource_not_found: true, cause: "c".to_string() };
    assert_eq!(
        AwsSecretsManagerProvider::secret_from_reply("a/b", absent),
        Err(ProviderError::SecretNotFound("a/b".to_string()))
    );
    let denied = FetchReply::ServiceFailure { resource_not_found: false, cause: "c".to_string() };
    assert_eq!(
        AwsSecretsManagerProvider::secret_from_reply("a", denied),
        Err(ProviderError::ClientError("c".to_string()))
    );
    let lost = FetchReply::OtherFailure { cause: "io".to_string() };
    assert_eq!(
        AwsSecretsManagerProvider::secret_from_reply("a", lost),
        Err(ProviderError::ClientError("io".to_string()))
    );
    let empty_name = FetchReply::ServiceFailure { resource_not_found: true, cause: String::new() };
    assert_eq!(
        AwsSecretsManagerProvider::secret_from_reply("", empty_name),
        Err(ProviderError::SecretNotFound(String::new()))
    );
}

#[test]
fn validate_builds_settings_for_a_valid_text() {
    let settings = AwsSecretsManagerFactory.validate(VALID).unwrap();
    assert_eq!(settings.region().map(|r| r.as_ref()), Some("us-west-2"));
    assert!(settings.credentials_provider().is_some());
}

#[test]
fn validate_rejects_a_text_that_does_not_parse() {
    let out = AwsSecretsManagerFactory.validate(r#"{"region":"us-west-2"}"#);
    assert_eq!(
        out.err(),
        Some(ProviderError::InvalidConfiguration("missing field `auth`".to_string()))
    );
}

#[test]
fn validate_reply_maps_authorization_failure() {
    let meta = ErrorMetadata::builder()
        .code("InvalidClientTokenId")
        .message("The security token included in the request is invalid.")
        .build();
    let answer: Result<GetCallerIdentityOutput, SdkError<GetCallerIdentityError, Response<SdkBody>>> =
        Err(SdkError::service_error(GetCallerIdentityError::generic(meta), response(403)));
    assert_eq!(
        AwsSecretsManagerFactory.validate_reply(&answer),
        Err(ProviderError::InvalidConfiguration("service error".to_string()))
    );
}

#[test]
fn validate_reply_maps_network_failure() {
    let answer: Result<GetCallerIdentityOutput, SdkError<GetCallerIdentityError, Response<SdkBody>>> =
        Err(SdkError::timeout_error("no answer in time"));
    assert_eq!(
        AwsSecretsManagerFactory.validate_reply(&answer),
        Err(ProviderError::InvalidConfiguration("request has timed out".to_string()))
    );
}

#[test]
fn validate_reply_passes_success() {
    let answer: Result<GetCallerIdentityOutput, SdkError<GetCallerIdentityError, Response<SdkBody>>> =
        Ok(GetCallerIdentityOutput::builder().account("123456789012").build());
    assert_eq!(AwsSecretsManagerFactory.validate_reply(&answer), Ok(()));
}

#[test]
fn validation_outcome_keeps_the_cause() {
    assert_eq!(AwsSecretsManagerFactory::validation_outcome(Ok(())), Ok(()));
    assert_eq!(
        AwsSecretsManagerFactory::validation_outcome(Err("denied".to_string())),
        Err(ProviderError::InvalidConfiguration("denied".to_string()))
    );
}

#[test]
fn create_wipes_the_text_and_keeps_the_region() {
    let mut text = VALID.to_string();
    let provider = AwsSecretsManagerFactory.create(&mut text).unwrap();
    assert_eq!(text, "");
    assert_eq!(provider.settings.region().map(|r| r.as_ref()), Some("us-west-2"));
}

#[test]
fn create_fails_only_on_parse_errors() {
    let mut text = r#"{"region":"r","auth":{"type":"RoleArn"}}"#.to_string();
    let out = AwsSecretsManagerFactory.create(&mut text);
    assert_eq!(text, "");
    assert_eq!(
        out.err(),
        Some(ProviderError::InvalidConfiguration(
            "unknown variant `RoleArn`, expected `AccessKey`".to_string()
        ))
    );
}
