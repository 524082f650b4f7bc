//! Credentials from a resource's IAM role, read from the instance metadata
//! service.
//!
//! The provider asks the metadata service for the name of the instance's
//! role, then for that role's credentials document, and reads the
//! credentials out of the document. The requests themselves are made by the
//! caller: `InstanceMetadataProvider::start` names the first request, and
//! `InstanceMetadataProvider::step` takes what a request gave and names the
//! next request or the outcome.
use vstd::prelude::*;

use crate::credential::{
    parse_expiration, spec_parse_error_description, spec_parse_utc_datetime, AwsCredentials,
    CredentialsError, CredentialsModel, Timestamp,
};
use crate::json::{parse_json, spec_find, spec_parse_json, MembersModel};
use crate::text::{
    lemma_remove_char_absent, lemma_remove_char_removes_all, remove_char, spec_remove_char,
};

verus! {

/// Provides AWS credentials from a resource's IAM role.
#[derive(Debug)]
pub struct InstanceMetadataProvider;

/// The address at which the metadata service lists the instance's role.
pub open spec fn spec_role_list_address() -> Seq<char> {
    "http://169.254.169.254/latest/meta-data/iam/security-credentials"@
}

/// The address of the credentials document of the role `role_name`.
pub open spec fn spec_role_details_address(role_name: Seq<char>) -> Seq<char> {
    spec_role_list_address() + "/"@ + role_name
}

/// Where a credentials fetch stands.
#[derive(Clone, Copy, Debug, PartialEq, Eq, Structural)]
pub enum MetadataFetch {
    /// The request for the role's name is out.
    AwaitingRoleName,
    /// The request for the role's credentials document is out.
    AwaitingRoleDetails,
    /// The fetch has an outcome; nothing more is asked.
    Finished,
}

/// What one request to the metadata service gave.
#[derive(Clone, Debug, PartialEq)]
pub enum MetadataResponse {
    /// No response was received.
    ConnectionFailed,
    /// A response came whose body could not be read as text.
    UnreadableBody,
    /// A response came with this body.
    Body(String),
}

/// The abstract value of a `MetadataResponse`.
pub enum ResponseModel {
    ConnectionFailed,
    UnreadableBody,
    Body(Seq<char>),
}

impl View for MetadataResponse {
    type V = ResponseModel;

    open spec fn view(&self) -> ResponseModel {
        match self {
            MetadataResponse::ConnectionFailed => ResponseModel::ConnectionFailed,
            MetadataResponse::UnreadableBody => ResponseModel::UnreadableBody,
            MetadataResponse::Body(b) => ResponseModel::Body(b@),
        }
    }
}

/// What the caller does next.
#[derive(Debug, PartialEq)]
pub enum MetadataAction {
    /// Send a GET request to this address (with `Connection: close`).
    Get(String),
    /// The fetch is over with this result.
    Finish(Result<AwsCredentials, CredentialsError>),
    /// The credentials document holds a member of the wrong kind: give up
    /// with this message, as a failed expectation does.
    Abort(String),
}

/// The abstract value of a `MetadataAction`.
pub enum ActionModel {
    Get(Seq<char>),
    Finish(Result<CredentialsModel, Seq<char>>),
    Abort(Seq<char>),
}

impl View for MetadataAction {
    type V = ActionModel;

    open spec fn view(&self) -> ActionModel {
        match self {
            MetadataAction::Get(a) => ActionModel::Get(a@),
            MetadataAction::Finish(Ok(c)) => ActionModel::Finish(Ok(c@)),
            MetadataAction::Finish(Err(e)) => ActionModel::Finish(Err(e@)),
            MetadataAction::Abort(m) => ActionModel::Abort(m@),
        }
    }
}

/// An outcome that is an error with the given message.
pub open spec fn spec_fail(message: Seq<char>) -> ActionModel {
    ActionModel::Finish(Err(message))
}

/// Reads the credentials out of the members of a credentials document:
/// `AccessKeyId`, `SecretAccessKey`, `Expiration` (which must parse as a UTC
/// date and time) and `Token`, in that order. A missing member is an error; a
/// member that is not a string aborts. Double quotes are removed from each
/// value.
pub open spec fn spec_credentials_from_members(doc: Option<MembersModel>) -> ActionModel {
    match spec_find(doc, "AccessKeyId"@) {
        None => spec_fail("Couldn't find AccessKeyId in response."@),
        Some(None) => ActionModel::Abort("AccessKeyId value was not a string"@),
        Some(Some(key)) => match spec_find(doc, "SecretAccessKey"@) {
            None => spec_fail("Couldn't find SecretAccessKey in response."@),
            Some(None) => ActionModel::Abort("SecretAccessKey value was not a string"@),
            Some(Some(secret)) => match spec_find(doc, "Expiration"@) {
                None => spec_fail("Couldn't find Expiration in response."@),
                Some(None) => ActionModel::Abort("Expiration value was not a string"@),
                Some(Some(expiration)) => match spec_parse_utc_datetime(
                    spec_remove_char(expiration, '"'),
                ) {
                    None => spec_fail(spec_parse_error_description()),
                    Some((seconds, nanos)) => match spec_find(doc, "Token"@) {
                        None => spec_fail("Couldn't find Token in response."@),
                        Some(None) => ActionModel::Abort("Token value was not a string"@),
                        Some(Some(token)) => ActionModel::Finish(
                            Ok(
                                CredentialsModel {
                                    key: spec_remove_char(key, '"'),
                                    secret: spec_remove_char(secret, '"'),
                                    token: Some(spec_remove_char(token, '"')),
                                    expires_at: Timestamp { seconds, nanos },
                                },
                            ),
                        ),
                    },
                },
            },
        },
    }
}

/// The outcome of a credentials document: an error when it is not JSON,
/// otherwise what its members give.
pub open spec fn spec_credentials_from_document(body: Seq<char>) -> ActionModel {
    match spec_parse_json(body) {
        None => spec_fail("Couldn't parse metadata response body."@),
        Some(doc) => spec_credentials_from_members(doc),
    }
}

/// The next state and action of a fetch in `state` that receives `response`.
pub open spec fn spec_step(state: MetadataFetch, response: ResponseModel) -> (
    MetadataFetch,
    ActionModel,
)
    recommends
        state != MetadataFetch::Finished,
{
    match state {
        MetadataFetch::AwaitingRoleName => match response {
            ResponseModel::ConnectionFailed => (
                MetadataFetch::Finished,
                spec_fail("Couldn't connect to metadata service"@),
            ),
            ResponseModel::UnreadableBody => (
                MetadataFetch::Finished,
                spec_fail("Didn't get a parsable response body from metadata service"@),
            ),
            ResponseModel::Body(role_name) => (
                MetadataFetch::AwaitingRoleDetails,
                ActionModel::Get(spec_role_details_address(role_name)),
            ),
        },
        MetadataFetch::AwaitingRoleDetails => match response {
            ResponseModel::ConnectionFailed => (
                MetadataFetch::Finished,
                spec_fail("Didn't get a parseable response body from instance role details"@),
            ),
            ResponseModel::UnreadableBody => (
                MetadataFetch::Finished,
                spec_fail("Had issues with reading iam role response: {}"@),
            ),
            ResponseModel::Body(document) => (
                MetadataFetch::Finished,
                spec_credentials_from_document(document),
            ),
        },
        MetadataFetch::Finished => (
            MetadataFetch::Finished,
            ActionModel::Abort(Seq::empty()),
        ),
    }
}

/// The address at which the metadata service lists the instance's role.
pub fn role_list_address() -> (r: String)
    ensures
        r@ == spec_role_list_address(),
        r@ == "http://169.254.169.254/latest/meta-data/iam/security-credentials"@,
{
    "http://169.254.169.254/latest/meta-data/iam/security-credentials".to_owned()
}

/// The address of the credentials document of the role `role_name`: the
/// role list address, a slash, and the name.
pub fn role_details_address(role_name: &str) -> (r: String)
    ensures
        r@ == spec_role_details_address(role_name@),
        r@ == "http://169.254.169.254/latest/meta-data/iam/security-credentials"@ + "/"@
            + role_name@,
{
    let mut address = role_list_address();
    address.append("/");
    address.append(role_name);
    address
}

/// The text of a string member, with its double quotes removed; or the
/// outcome when the member is missing or not a string.
fn text_member(
    doc: &crate::json::ParsedJson,
    name: &str,
    missing: &str,
    not_text: &str,
) -> (r: Result<String, MetadataAction>)
    ensures
        match spec_find(doc@, name@) {
            None => r matches Err(a) && a@ == spec_fail(missing@),
            Some(None) => r matches Err(a) && a@ == ActionModel::Abort(not_text@),
            Some(Some(t)) => r matches Ok(s) && s@ == spec_remove_char(t, '"'),
        },
{
    match doc.find(name) {
        None => Err(MetadataAction::Finish(Err(CredentialsError::new(missing)))),
        Some(None) => Err(MetadataAction::Abort(not_text.to_owned())),
        Some(Some(t)) => Ok(remove_char(t.as_str(), '"')),
    }
}

/// Reads the credentials out of a role's credentials document.
pub fn credentials_from_document(body: &str) -> (r: MetadataAction)
    ensures
        r@ == spec_credentials_from_document(body@),
{
    let doc = match parse_json(body) {
        None => {
            return MetadataAction::Finish(
                Err(CredentialsError::new("Couldn't parse metadata response body.")),
            );
        },
        Some(d) => d,
    };
    let key = match text_member(
        &doc,
        "AccessKeyId",
        "Couldn't find AccessKeyId in response.",
        "AccessKeyId value was not a string",
    ) {
        Ok(k) => k,
        Err(a) => {
            return a;
        },
    };
    let secret = match text_member(
        &doc,
        "SecretAccessKey",
        "Couldn't find SecretAccessKey in response.",
        "SecretAccessKey value was not a string",
    ) {
        Ok(s) => s,
        Err(a) => {
            return a;
        },
    };
    let expiration = match text_member(
        &doc,
        "Expiration",
        "Couldn't find Expiration in response.",
        "Expiration value was not a string",
    ) {
        Ok(e) => e,
        Err(a) => {
            return a;
        },
    };
    let expiration_time = match parse_expiration(expiration.as_str()) {
        Ok(t) => t,
        Err(e) => {
            return MetadataAction::Finish(Err(e));
        },
    };
    let token = match text_member(
        &doc,
        "Token",
        "Couldn't find Token in response.",
        "Token value was not a string",
    ) {
        Ok(t) => t,
        Err(a) => {
            return a;
        },
    };
    MetadataAction::Finish(Ok(AwsCredentials::new(key, secret, Some(token), expiration_time)))
}

impl InstanceMetadataProvider {
    /// Begins a fetch: the request for the role's name.
    pub fn start(&self) -> (r: (MetadataFetch, MetadataAction))
        ensures
            r.0 == MetadataFetch::AwaitingRoleName,
            r.1@ == ActionModel::Get(spec_role_list_address()),
            r.1@ == ActionModel::Get(
                "http://169.254.169.254/latest/meta-data/iam/security-credentials"@,
            ),
    {
        (MetadataFetch::AwaitingRoleName, MetadataAction::Get(role_list_address()))
    }

    /// Takes what the outstanding request gave and names the next state and
    /// action.
    pub fn step(&self, state: MetadataFetch, response: MetadataResponse) -> (r: (
        MetadataFetch,
        MetadataAction,
    ))
        requires
            state != MetadataFetch::Finished,
        ensures
            (r.0, r.1@) == spec_step(state, response@),
    {
        match state {
            MetadataFetch::AwaitingRoleName => match response {
                MetadataResponse::ConnectionFailed => (
                    MetadataFetch::Finished,
                    MetadataAction::Finish(
                        Err(CredentialsError::new("Couldn't connect to metadata service")),
                    ),
                ),
                MetadataResponse::UnreadableBody => (
                    MetadataFetch::Finished,
                    MetadataAction::Finish(
                        Err(
                            CredentialsError::new(
                                "Didn't get a parsable response body from metadata service",
                            ),
                        ),
                    ),
                ),
                MetadataResponse::Body(role_name) => (
                    MetadataFetch::AwaitingRoleDetails,
                    MetadataAction::Get(role_details_address(role_name.as_str())),
                ),
            },
            _ => match response {
                MetadataResponse::ConnectionFailed => (
                    MetadataFetch::Finished,
                    MetadataAction::Finish(
                        Err(
                            CredentialsError::new(
                                "Didn't get a parseable response body from instance role details",
                            ),
                        ),
                    ),
                ),
                MetadataResponse::UnreadableBody => (
                    MetadataFetch::Finished,
                    MetadataAction::Finish(
                        Err(CredentialsError::new("Had issues with reading iam role response: {}")),
                    ),
                ),
                MetadataResponse::Body(document) => (
                    MetadataFetch::Finished,
                    credentials_from_document(document.as_str()),
                ),
            },
        }
    }
}


/// A fetch sends at most two requests: the first response either ends the
/// fetch or leads to the request for the role's credentials document, at the
/// role list address followed by a slash and the role's name; the second
/// response always ends it. A step ends the fetch exactly when its action is
/// not a request.
pub proof fn lemma_fetch_asks_at_most_twice(first: ResponseModel, second: ResponseModel)
    ensures
        ({
            let (s1, a1) = spec_step(MetadataFetch::AwaitingRoleName, first);
            &&& s1 == MetadataFetch::Finished || s1 == MetadataFetch::AwaitingRoleDetails
            &&& (s1 == MetadataFetch::Finished) == !(a1 is Get)
            &&& first matches ResponseModel::Body(role_name) ==> a1 == ActionModel::Get(
                spec_role_list_address() + "/"@ + role_name,
            )
            &&& s1 == MetadataFetch::AwaitingRoleDetails ==> {
                let (s2, a2) = spec_step(s1, second);
                &&& s2 == MetadataFetch::Finished
                &&& !(a2 is Get)
            }
        }),
{
}

/// Credentials read from a document never hold a double quote in their key,
/// secret or token.
pub proof fn lemma_credentials_hold_no_quotes(body: Seq<char>)
    ensures
        spec_credentials_from_document(body) matches ActionModel::Finish(Ok(c)) ==> {
            &&& !c.key.contains('"')
            &&& !c.secret.contains('"')
            &&& c.token matches Some(t) && !t.contains('"')
        },
{
    if let ActionModel::Finish(Ok(c)) = spec_credentials_from_document(body) {
        let doc = spec_parse_json(body)->Some_0;
        let key = spec_find(doc, "AccessKeyId"@)->Some_0->Some_0;
        let secret = spec_find(doc, "SecretAccessKey"@)->Some_0->Some_0;
        let token = spec_find(doc, "Token"@)->Some_0->Some_0;
        lemma_remove_char_removes_all(key, '"');
        lemma_remove_char_removes_all(secret, '"');
        lemma_remove_char_removes_all(token, '"');
    }
}

/// A credentials document gives credentials exactly when it is JSON with the
/// string members `AccessKeyId`, `SecretAccessKey`, `Expiration` and `Token`,
/// and the expiration (without double quotes) is a UTC date and time; the fetch
/// aborts only on a member among these that is not a string.
pub proof fn lemma_credentials_exactly_when_complete(body: Seq<char>)
    ensures
        (spec_credentials_from_document(body) matches ActionModel::Finish(Ok(_))) <==> (
        spec_parse_json(body) matches Some(doc) && spec_find(doc, "AccessKeyId"@) matches Some(
            Some(_),
        ) && spec_find(doc, "SecretAccessKey"@) matches Some(Some(_)) && spec_find(
            doc,
            "Expiration"@,
        ) matches Some(Some(e)) && spec_parse_utc_datetime(spec_remove_char(e, '"')) is Some
            && spec_find(doc, "Token"@) matches Some(Some(_))),
        spec_credentials_from_document(body) is Abort ==> (spec_parse_json(body) matches Some(doc)
            && (spec_find(doc, "AccessKeyId"@) == Some(None::<Seq<char>>) || spec_find(
            doc,
            "SecretAccessKey"@,
        ) == Some(None::<Seq<char>>) || spec_find(doc, "Expiration"@) == Some(None::<Seq<char>>)
            || spec_find(doc, "Token"@) == Some(None::<Seq<char>>))),
{
}

/// Credentials read from a document are the document's texts: the access
/// key id, secret access key and session token are the texts of
/// `AccessKeyId`, `SecretAccessKey` and `Token` with exactly their double
/// quotes removed (a text without double quotes comes back unchanged), and the
/// expiry is the instant that the `Expiration` text, without its double
/// quotes, names.
pub proof fn lemma_credentials_are_document_texts(body: Seq<char>)
    ensures
        spec_credentials_from_document(body) matches ActionModel::Finish(Ok(c)) ==> {
            &&& spec_parse_json(body) matches Some(doc)
            &&& spec_find(doc, "AccessKeyId"@) matches Some(Some(key))
            &&& spec_find(doc, "SecretAccessKey"@) matches Some(Some(secret))
            &&& spec_find(doc, "Token"@) matches Some(Some(token))
            &&& spec_find(doc, "Expiration"@) matches Some(Some(expiration))
            &&& c.key == spec_remove_char(key, '"')
            &&& c.secret == spec_remove_char(secret, '"')
            &&& c.token == Some(spec_remove_char(token, '"'))
            &&& (!key.contains('"') ==> c.key == key)
            &&& (!secret.contains('"') ==> c.secret == secret)
            &&& (!token.contains('"') ==> c.token == Some(token))
            &&& spec_parse_utc_datetime(spec_remove_char(expiration, '"')) == Some(
                (c.expires_at.seconds, c.expires_at.nanos),
            )
        },
{
    if let ActionModel::Finish(Ok(c)) = spec_credentials_from_document(body) {
        let doc = spec_parse_json(body)->Some_0;
        let key = spec_find(doc, "AccessKeyId"@)->Some_0->Some_0;
        let secret = spec_find(doc, "SecretAccessKey"@)->Some_0->Some_0;
        let token = spec_find(doc, "Token"@)->Some_0->Some_0;
        if !key.contains('"') {
            lemma_remove_char_absent(key, '"');
        }
        if !secret.contains('"') {
            lemma_remove_char_absent(secret, '"');
        }
        if !token.contains('"') {
            lemma_remove_char_absent(token, '"');
        }
    }
}

/// The members are checked in order, and the first problem is the one
/// reported, whatever the later members hold: a missing or non-string
/// `AccessKeyId` before anything about `SecretAccessKey`, that before
/// `Expiration`, an unparsable expiration before anything about `Token`.
/// A missing member's error names it, and so does the abort for a member
/// that is not a string.
pub proof fn lemma_first_problem_is_reported(body: Seq<char>)
    ensures
        spec_parse_json(body) is None ==> spec_credentials_from_document(body) == spec_fail(
            "Couldn't parse metadata response body."@,
        ),
        spec_parse_json(body) matches Some(doc) ==> {
            let out = spec_credentials_from_document(body);
            &&& spec_find(doc, "AccessKeyId"@) is None ==> out == spec_fail(
                "Couldn't find "@ + "AccessKeyId"@ + " in response."@,
            )
            &&& spec_find(doc, "AccessKeyId"@) == Some(None::<Seq<char>>) ==> out
                == ActionModel::Abort("AccessKeyId"@ + " value was not a string"@)
            &&& spec_find(doc, "AccessKeyId"@) matches Some(Some(_)) ==> {
                &&& spec_find(doc, "SecretAccessKey"@) is None ==> out == spec_fail(
                    "Couldn't find "@ + "SecretAccessKey"@ + " in response."@,
                )
                &&& spec_find(doc, "SecretAccessKey"@) == Some(None::<Seq<char>>) ==> out
                    == ActionModel::Abort("SecretAccessKey"@ + " value was not a string"@)
                &&& spec_find(doc, "SecretAccessKey"@) matches Some(Some(_)) ==> {
                    &&& spec_find(doc, "Expiration"@) is None ==> out == spec_fail(
                        "Couldn't find "@ + "Expiration"@ + " in response."@,
                    )
                    &&& spec_find(doc, "Expiration"@) == Some(None::<Seq<char>>) ==> out
                        == ActionModel::Abort("Expiration"@ + " value was not a string"@)
                    &&& spec_find(doc, "Expiration"@) matches Some(Some(e)) ==> {
                        &&& spec_parse_utc_datetime(spec_remove_char(e, '"')) is None ==> out
                            == spec_fail(spec_parse_error_description())
                        &&& spec_parse_utc_datetime(spec_remove_char(e, '"')) is Some ==> {
                            &&& spec_find(doc, "Token"@) is None ==> out == spec_fail(
                                "Couldn't find "@ + "Token"@ + " in response."@,
                            )
                            &&& spec_find(doc, "Token"@) == Some(None::<Seq<char>>) ==> out
                                == ActionModel::Abort("Token"@ + " value was not a string"@)
                        }
                    }
                }
            }
        },
{
    reveal_strlit("Couldn't find ");
    reveal_strlit(" in response.");
    reveal_strlit(" value was not a string");
    reveal_strlit("AccessKeyId");
    reveal_strlit("SecretAccessKey");
    reveal_strlit("Expiration");
    reveal_strlit("Token");
    reveal_strlit("Couldn't find AccessKeyId in response.");
    reveal_strlit("Couldn't find SecretAccessKey in response.");
    reveal_strlit("Couldn't find Expiration in response.");
    reveal_strlit("Couldn't find Token in response.");
    reveal_strlit("AccessKeyId value was not a string");
    reveal_strlit("SecretAccessKey value was not a string");
    reveal_strlit("Expiration value was not a string");
    reveal_strlit("Token value was not a string");
    assert("Couldn't find "@ + "AccessKeyId"@ + " in response."@ =~= "Couldn't find AccessKeyId in response."@);
    assert("Couldn't find "@ + "SecretAccessKey"@ + " in response."@ =~= "Couldn't find SecretAccessKey in response."@);
    assert("Couldn't find "@ + "Expiration"@ + " in response."@ =~= "Couldn't find Expiration in response."@);
    assert("Couldn't find "@ + "Token"@ + " in response."@ =~= "Couldn't find Token in response."@);
    assert("AccessKeyId"@ + " value was not a string"@ =~= "AccessKeyId value was not a string"@);
    assert("SecretAccessKey"@ + " value was not a string"@ =~= "SecretAccessKey value was not a string"@);
    assert("Expiration"@ + " value was not a string"@ =~= "Expiration value was not a string"@);
    assert("Token"@ + " value was not a string"@ =~= "Token value was not a string"@);
}

} // verus!
