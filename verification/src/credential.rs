//! AWS credentials, the error a credential provider reports, and the UTC
//! instant at which credentials expire.
use vstd::prelude::*;

verus! {

/// A UTC instant: whole seconds since 1970-01-01T00:00:00Z and the
/// nanoseconds past that second.
#[derive(Clone, Copy, Debug, PartialEq, Eq, Structural)]
pub struct Timestamp {
    pub seconds: i64,
    pub nanos: u32,
}

/// What the parse of a date and time in RFC 3339 form gives for a text:
/// the instant as (seconds, nanoseconds) since the Unix epoch, or nothing
/// when the text is not such a date.
pub uninterp spec fn spec_parse_utc_datetime(text: Seq<char>) -> Option<(i64, u32)>;

#[verifier::external_type_specification]
#[verifier::external_body]
pub struct ExChronoParseError(chrono::ParseError);

/// Parses `text` as `chrono::DateTime<chrono::Utc>` (its `FromStr`, a relaxed
/// RFC 3339 form) and converts the result to a `Timestamp` through
/// `DateTime::timestamp` and `DateTime::timestamp_subsec_nanos`.
/// Trusted: the result is the named parse of `text`; what text parses, and to
/// which instant, is left to the name.
#[verifier::external_body]
fn parse_utc_datetime(text: &str) -> (r: Result<Timestamp, chrono::ParseError>)
    ensures
        match r {
            Ok(t) => spec_parse_utc_datetime(text@) == Some((t.seconds, t.nanos)),
            Err(_) => spec_parse_utc_datetime(text@) is None,
        },
{
    match text.parse::<chrono::DateTime<chrono::Utc>>() {
        Ok(dt) => Ok(Timestamp { seconds: dt.timestamp(), nanos: dt.timestamp_subsec_nanos() }),
        Err(e) => Err(e),
    }
}

/// The text of `chrono::ParseError`'s `std::error::Error::description`.
pub open spec fn spec_parse_error_description() -> Seq<char> {
    "parser error, see to_string() for details"@
}

/// `std::error::Error::description` of a `chrono::ParseError`.
/// Trusted: chrono's implementation returns the same fixed text for every
/// parse error.
#[verifier::external_body]
#[allow(deprecated)]
fn parse_error_description(err: &chrono::ParseError) -> (r: String)
    ensures
        r@ == spec_parse_error_description(),
{
    std::error::Error::description(err).to_string()
}

/// Parses an expiration time given as an RFC 3339 date and time in UTC;
/// a text that does not parse gives the error that the parse error converts to.
pub fn parse_expiration(text: &str) -> (r: Result<Timestamp, CredentialsError>)
    ensures
        match r {
            Ok(t) => spec_parse_utc_datetime(text@) == Some((t.seconds, t.nanos)),
            Err(e) => spec_parse_utc_datetime(text@) is None && e@ == spec_parse_error_description(),
        },
{
    match parse_utc_datetime(text) {
        Ok(t) => Ok(t),
        Err(e) => Err(CredentialsError::from_parse_error(&e)),
    }
}

/// The abstract value of a set of credentials.
pub struct CredentialsModel {
    pub key: Seq<char>,
    pub secret: Seq<char>,
    pub token: Option<Seq<char>>,
    pub expires_at: Timestamp,
}

/// AWS access credentials: access key id, secret access key, optional
/// session token, and the instant at which they expire.
#[derive(Clone, Debug, PartialEq)]
pub struct AwsCredentials {
    key: String,
    secret: String,
    token: Option<String>,
    expires_at: Timestamp,
}

impl View for AwsCredentials {
    type V = CredentialsModel;

    closed spec fn view(&self) -> CredentialsModel {
        CredentialsModel {
            key: self.key@,
            secret: self.secret@,
            token: match self.token {
                Some(t) => Some(t@),
                None => None,
            },
            expires_at: self.expires_at,
        }
    }
}

impl AwsCredentials {
    /// Credentials made of the given parts.
    pub fn new(key: String, secret: String, token: Option<String>, expires_at: Timestamp) -> (r:
        AwsCredentials)
        ensures
            r@.key == key@,
            r@.secret == secret@,
            r@.token == (match token {
                Some(t) => Some(t@),
                None => None::<Seq<char>>,
            }),
            r@.expires_at == expires_at,
    {
        AwsCredentials { key, secret, token, expires_at }
    }

    /// The access key id.
    pub fn aws_access_key_id(&self) -> (r: &str)
        ensures
            r@ == self@.key,
    {
        self.key.as_str()
    }

    /// The secret access key.
    pub fn aws_secret_access_key(&self) -> (r: &str)
        ensures
            r@ == self@.secret,
    {
        self.secret.as_str()
    }

    /// The session token, if any.
    pub fn token(&self) -> (r: &Option<String>)
        ensures
            (match r {
                Some(t) => self@.token == Some(t@),
                None => self@.token is None,
            }),
    {
        &self.token
    }

    /// The instant at which the credentials expire.
    pub fn expires_at(&self) -> (r: Timestamp)
        ensures
            r == self@.expires_at,
    {
        self.expires_at
    }
}

/// The error a credential provider reports, with a human-readable message.
#[derive(Clone, Debug, PartialEq)]
pub struct CredentialsError {
    pub message: String,
}

impl View for CredentialsError {
    type V = Seq<char>;

    open spec fn view(&self) -> Seq<char> {
        self.message@
    }
}

impl CredentialsError {
    /// An error with the given message.
    pub fn new(message: &str) -> (r: CredentialsError)
        ensures
            r@ == message@,
    {
        CredentialsError { message: message.to_owned() }
    }

    /// The error that a failed date parse converts to: its description as the message.
    pub fn from_parse_error(err: &chrono::ParseError) -> (r: CredentialsError)
        ensures
            r@ == spec_parse_error_description(),
    {
        CredentialsError { message: parse_error_description(err) }
    }
}

} // verus!
