use rusoto::credential::{AwsCredentials, CredentialsError, Timestamp};
use rusoto::instance_metadata::{
    credentials_from_document, role_details_address, role_list_address,
    InstanceMetadataProvider, MetadataAction, MetadataFetch, MetadataResponse,
};

const DOCUMENT: &str = r#"{
  "Code" : "Success",
  "LastUpdated" : "2017-05-17T08:51:38Z",
  "Type" : "AWS-HMAC",
  "AccessKeyId" : "ASIAEXAMPLE",
  "SecretAccessKey" : "secret\"key",
  "Token" : "token-value",
  "Expiration" : "2017-05-17T15:09:54Z"
}"#;

fn finished_error(message: &str) -> MetadataAction {
    MetadataAction::Finish(Err(CredentialsError::new(message)))
}

fn credentials_of(action: MetadataAction) -> AwsCredentials {
    match action {
        MetadataAction::Finish(Ok(c)) => c,
        other => panic!("expected credentials, got {:?}", other),
    }
}

#[test]
fn document_gives_credentials() {
    let c = credentials_of(credentials_from_document(DOCUMENT));
    assert_eq!(c.aws_access_key_id(), "ASIAEXAMPLE");
    assert_eq!(c.aws_secret_access_key(), "secretkey");
    assert_eq!(c.token(), &Some("token-value".to_string()));
    assert_eq!(c.expires_at(), Timestamp { seconds: 1495033794, nanos: 0 });
}

#[test]
fn expiration_with_offset_and_fraction() {
    let doc = r#"{"AccessKeyId":"k","SecretAccessKey":"s","Token":"t","Expiration":"2017-05-17T17:09:54.5+02:00"}"#;
    let c = credentials_of(credentials_from_document(doc));
    assert_eq!(c.expires_at(), Timestamp { seconds: 1495033794, nanos: 500_000_000 });
}

#[test]
fn quotes_are_removed_from_values() {
    let doc = r#"{"AccessKeyId":"\"k\"","SecretAccessKey":"s","Token":"\"t","Expiration":"\"2017-05-17T15:09:54Z\""}"#;
    let c = credentials_of(credentials_from_document(doc));
    assert_eq!(c.aws_access_key_id(), "k");
    assert_eq!(c.token(), &Some("t".to_string()));
    assert_eq!(c.expires_at().seconds, 1495033794);
}

#[test]
fn body_that_is_not_json() {
    assert_eq!(
        credentials_from_document("not json"),
        finished_error("Couldn't parse metadata response body.")
    );
    assert_eq!(
        credentials_from_document(""),
        finished_error("Couldn't parse metadata response body.")
    );
}

#[test]
fn document_that_is_not_an_object() {
    assert_eq!(
        credentials_from_document("[1, 2]"),
        finished_error("Couldn't find AccessKeyId in response.")
    );
    assert_eq!(
        credentials_from_document("\"AccessKeyId\""),
        finished_error("Couldn't find AccessKeyId in response.")
    );
}

#[test]
fn missing_members_in_order() {
    assert_eq!(
        credentials_from_document("{}"),
        finished_error("Couldn't find AccessKeyId in response.")
    );
    assert_eq!(
        credentials_from_document(r#"{"AccessKeyId":"k"}"#),
        finished_error("Couldn't find SecretAccessKey in response.")
    );
    assert_eq!(
        credentials_from_document(r#"{"AccessKeyId":"k","SecretAccessKey":"s","Token":"t"}"#),
        finished_error("Couldn't find Expiration in response.")
    );
    assert_eq!(
        credentials_from_document(
            r#"{"AccessKeyId":"k","SecretAccessKey":"s","Expiration":"2017-05-17T15:09:54Z"}"#
        ),
        finished_error("Couldn't find Token in response.")
    );
}

#[test]
fn unparsable_expiration_comes_before_missing_token() {
    assert_eq!(
        credentials_from_document(r#"{"AccessKeyId":"k","SecretAccessKey":"s","Expiration":"tomorrow"}"#),
        finished_error("parser error, see to_string() for details")
    );
}

#[test]
fn member_that_is_not_a_string_aborts() {
    assert_eq!(
        credentials_from_document(r#"{"AccessKeyId":5}"#),
        MetadataAction::Abort("AccessKeyId value was not a string".to_string())
    );
    assert_eq!(
        credentials_from_document(r#"{"AccessKeyId":"k","SecretAccessKey":null}"#),
        MetadataAction::Abort("SecretAccessKey value was not a string".to_string())
    );
    assert_eq!(
        credentials_from_document(r#"{"AccessKeyId":"k","SecretAccessKey":"s","Expiration":1}"#),
        MetadataAction::Abort("Expiration value was not a string".to_string())
    );
    assert_eq!(
        credentials_from_document(
            r#"{"AccessKeyId":"k","SecretAccessKey":"s","Expiration":"2017-05-17T15:09:54Z","Token":[]}"#
        ),
        MetadataAction::Abort("Token value was not a string".to_string())
    );
}

#[test]
fn addresses_of_the_metadata_service() {
    assert_eq!(
        role_list_address(),
        "http://169.254.169.254/latest/meta-data/iam/security-credentials"
    );
    assert_eq!(
        role_details_address("my-role"),
        "http://169.254.169.254/latest/meta-data/iam/security-credentials/my-role"
    );
}

#[test]
fn fetch_with_two_good_responses() {
    let provider = InstanceMetadataProvider;
    let (state, action) = provider.start();
    assert_eq!(state, MetadataFetch::AwaitingRoleName);
    assert_eq!(action, MetadataAction::Get(role_list_address()));
    let (state, action) = provider.step(state, MetadataResponse::Body("role".to_string()));
    assert_eq!(state, MetadataFetch::AwaitingRoleDetails);
    assert_eq!(action, MetadataAction::Get(role_details_address("role")));
    let (state, action) = provider.step(state, MetadataResponse::Body(DOCUMENT.to_string()));
    assert_eq!(state, MetadataFetch::Finished);
    assert_eq!(action, credentials_from_document(DOCUMENT));
}

#[test]
fn fetch_failures_at_the_first_request() {
    let provider = InstanceMetadataProvider;
    assert_eq!(
        provider.step(MetadataFetch::AwaitingRoleName, MetadataResponse::ConnectionFailed),
        (MetadataFetch::Finished, finished_error("Couldn't connect to metadata service"))
    );
    assert_eq!(
        provider.step(MetadataFetch::AwaitingRoleName, MetadataResponse::UnreadableBody),
        (
            MetadataFetch::Finished,
            finished_error("Didn't get a parsable response body from metadata service")
        )
    );
}

#[test]
fn fetch_failures_at_the_second_request() {
    let provider = InstanceMetadataProvider;
    assert_eq!(
        provider.step(MetadataFetch::AwaitingRoleDetails, MetadataResponse::ConnectionFailed),
        (
            MetadataFetch::Finished,
            finished_error("Didn't get a parseable response body from instance role details")
        )
    );
    assert_eq!(
        provider.step(MetadataFetch::AwaitingRoleDetails, MetadataResponse::UnreadableBody),
        (
            MetadataFetch::Finished,
            finished_error("Had issues with reading iam role response: {}")
        )
    );
}

#[test]
fn credentials_new_and_getters() {
    let c = AwsCredentials::new(
        "k".to_string(),
        "s".to_string(),
        None,
        Timestamp { seconds: -1, nanos: 7 },
    );
    assert_eq!(c.aws_access_key_id(), "k");
    assert_eq!(c.aws_secret_access_key(), "s");
    assert_eq!(c.token(), &None);
    assert_eq!(c.expires_at(), Timestamp { seconds: -1, nanos: 7 });
    assert_eq!(CredentialsError::new("m").message, "m");
}
