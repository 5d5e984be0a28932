//! The errors Maremma reports, and how each is answered over HTTP.

use vstd::prelude::*;
use crate::text::{uuid_string, uuid_text, push_str, push_signed_decimal, int_to_decimal};

verus! {

/// Various errors that Maremma will throw. Identifiers are UUIDs held as 128-bit numbers.
#[derive(Debug, PartialEq, Clone)]
pub enum MaremmaError {
    /// You didn't include the CSRF token in your form
    CsrfTokenMissing,
    /// You're not allowed to do this!
    Unauthorized,
    /// We couldn't find the config file
    ConfigFileNotFound(String),
    /// When the configuration is invalid
    Configuration(String),
    /// When the connection to the database failed
    ConnectionFailed,
    /// When the cron pattern is invalid
    CronParseError(String),
    /// CSRF token validation failed
    CsrfValidationFailed,
    /// When the date is in the future
    DateIsInTheFuture,
    /// Failed to deserialize a value
    Deserialization(String),
    /// When the DNS lookup failed
    DnsFailed,
    /// When we haven't made up an error otherwise
    Generic(String),
    /// When the host group is not found
    HostGroupNotFoundByName(String),
    /// When the host group membership is not found
    HostGroupMembershipNotFound(u128, u128),
    /// When the host group is not found
    HostGroupNotFound(u128),
    /// When the host is not found
    HostNotFound(u128),
    /// When you've specified something wrong
    InvalidInput(String),
    /// When the IO operation failed
    IoError(String),
    /// K8s things
    KubeError(String),
    /// Something you asked for isn't implemented yet
    NotImplemented,
    /// Oneshot command failed
    OneShotFailed,
    /// When the OIDC token is invalid or some other error gets thrown
    Oidc(String),
    /// When something went wrong while invoking the HTTP client
    Reqwest(String),
    /// Something relating to the backend session store went wrong
    Session(String),
    /// When the service check is not found
    ServiceCheckNotFound(u128),
    /// When the service is not found
    ServiceConfigNotFound(String),
    /// When the service is not found
    ServiceNotFound(u128),
    /// When the service is not found
    ServiceNotFoundByName(String),
    /// When the SQL operation failed, with the database's message
    SqlError(String),
    /// When the TLS operation failed
    TlsError(String),
    /// When the timeout is reached
    Timeout,
    /// When we fail to receive a message from the channel
    IPCRecvError(String),
    /// When we fail to send a message into the channel
    IPCSendError(String),
    /// You specified a CLI command but it wasn't found
    CommandNotFound(String),
}

/// The HTTP status code an error is answered with.
pub open spec fn error_status(e: MaremmaError) -> u16 {
    match e {
        MaremmaError::CsrfTokenMissing | MaremmaError::CsrfValidationFailed => 403,
        MaremmaError::Unauthorized => 401,
        MaremmaError::HostGroupMembershipNotFound(_, _)
        | MaremmaError::HostGroupNotFound(_)
        | MaremmaError::HostGroupNotFoundByName(_)
        | MaremmaError::HostNotFound(_)
        | MaremmaError::ServiceConfigNotFound(_)
        | MaremmaError::ServiceNotFound(_)
        | MaremmaError::ServiceNotFoundByName(_)
        | MaremmaError::ServiceCheckNotFound(_) => 404,
        _ => 500,
    }
}

/// The body of an error response: plain text, or a rendered error page.
#[derive(Debug, PartialEq, Clone)]
pub enum ErrorBody {
    /// A plain text body
    Text(String),
    /// An error page with a title and a message
    Page { title: String, message: String },
}

/// The status code and body an error is answered with.
#[derive(Debug, PartialEq, Clone)]
pub struct ErrorResponse {
    /// HTTP status code
    pub status: u16,
    /// The body
    pub body: ErrorBody,
}

/// The view of an error body: either a text, or a title and a message.
pub open spec fn body_view(b: ErrorBody) -> (Seq<char>, Option<Seq<char>>) {
    match b {
        ErrorBody::Text(t) => (t@, None),
        ErrorBody::Page { title, message } => (title@, Some(message@)),
    }
}

/// What an error is answered with, as text: a plain text (None as the second part),
/// or a page's title and message.
pub open spec fn error_body(e: MaremmaError) -> (Seq<char>, Option<Seq<char>>) {
    match e {
        MaremmaError::CsrfTokenMissing => ("CSRF Token wasn't found!"@, None),
        MaremmaError::CsrfValidationFailed => ("CSRF token mismatch"@, None),
        MaremmaError::Unauthorized => ("Unauthorized"@, None),
        MaremmaError::ServiceCheckNotFound(id) => (
            "Service Check Not Found"@,
            Some("No service check found with ID "@ + uuid_text(id)),
        ),
        MaremmaError::HostNotFound(id) => (
            "Host Not Found"@,
            Some("No host found with ID "@ + uuid_text(id)),
        ),
        MaremmaError::HostGroupNotFoundByName(name) => (
            "Host Group Not Found"@,
            Some("No host group found with name "@ + name@),
        ),
        MaremmaError::HostGroupNotFound(id) => (
            "Host Group Not Found"@,
            Some("No host group found with ID "@ + uuid_text(id)),
        ),
        MaremmaError::ServiceNotFound(id) => (
            "Service Not Found"@,
            Some("No service found with ID "@ + uuid_text(id)),
        ),
        MaremmaError::ServiceNotFoundByName(name) => (
            "Service Not Found"@,
            Some("No service found with name "@ + name@),
        ),
        _ => ("Please see server logs"@, None),
    }
}

fn page(title: &str, prefix: &str, detail: String) -> (r: ErrorBody)
    ensures
        body_view(r) == (title@, Some(prefix@ + detail@)),
{
    let mut message = String::from_str(prefix);
    push_str(&mut message, detail.as_str());
    ErrorBody::Page { title: String::from_str(title), message }
}

impl MaremmaError {
    /// The HTTP status code this error is answered with.
    pub fn status_code(&self) -> (r: u16)
        ensures
            r == error_status(*self),
    {
        match self {
            MaremmaError::CsrfTokenMissing | MaremmaError::CsrfValidationFailed => 403,
            MaremmaError::Unauthorized => 401,
            MaremmaError::HostGroupMembershipNotFound(_, _)
            | MaremmaError::HostGroupNotFound(_)
            | MaremmaError::HostGroupNotFoundByName(_)
            | MaremmaError::HostNotFound(_)
            | MaremmaError::ServiceConfigNotFound(_)
            | MaremmaError::ServiceNotFound(_)
            | MaremmaError::ServiceNotFoundByName(_)
            | MaremmaError::ServiceCheckNotFound(_) => 404,
            _ => 500,
        }
    }

    /// The response this error is answered with.
    pub fn response(&self) -> (r: ErrorResponse)
        ensures
            r.status == error_status(*self),
            body_view(r.body) == error_body(*self),
    {
        let body = match self {
            MaremmaError::CsrfTokenMissing => ErrorBody::Text(
                String::from_str("CSRF Token wasn't found!"),
            ),
            MaremmaError::CsrfValidationFailed => ErrorBody::Text(
                String::from_str("CSRF token mismatch"),
            ),
            MaremmaError::Unauthorized => ErrorBody::Text(String::from_str("Unauthorized")),
            MaremmaError::ServiceCheckNotFound(id) => page(
                "Service Check Not Found",
                "No service check found with ID ",
                uuid_string(*id),
            ),
            MaremmaError::HostNotFound(id) => page(
                "Host Not Found",
                "No host found with ID ",
                uuid_string(*id),
            ),
            MaremmaError::HostGroupNotFoundByName(name) => page(
                "Host Group Not Found",
                "No host group found with name ",
                name.clone(),
            ),
            MaremmaError::HostGroupNotFound(id) => page(
                "Host Group Not Found",
                "No host group found with ID ",
                uuid_string(*id),
            ),
            MaremmaError::ServiceNotFound(id) => page(
                "Service Not Found",
                "No service found with ID ",
                uuid_string(*id),
            ),
            MaremmaError::ServiceNotFoundByName(name) => page(
                "Service Not Found",
                "No service found with name ",
                name.clone(),
            ),
            _ => ErrorBody::Text(String::from_str("Please see server logs")),
        };
        ErrorResponse { status: self.status_code(), body }
    }
}

/// The HTTP status code an error is answered with; see [`MaremmaError::status_code`].
impl From<&MaremmaError> for u16 {
    fn from(value: &MaremmaError) -> (r: u16) {
        value.status_code()
    }
}

impl vstd::std_specs::convert::FromSpecImpl<&MaremmaError> for u16 {
    open spec fn obeys_from_spec() -> bool {
        true
    }

    open spec fn from_spec(v: &MaremmaError) -> u16 {
        error_status(*v)
    }
}

/// The HTTP status code an error is answered with, taking the error; the same code as for
/// a reference to it.
impl From<MaremmaError> for u16 {
    fn from(value: MaremmaError) -> (r: u16) {
        value.status_code()
    }
}

impl vstd::std_specs::convert::FromSpecImpl<MaremmaError> for u16 {
    open spec fn obeys_from_spec() -> bool {
        true
    }

    open spec fn from_spec(v: MaremmaError) -> u16 {
        error_status(v)
    }
}

/// The page an error is shown on: a title, a message, and the user, where known.
#[derive(Debug)]
pub struct ErrorPage {
    /// The page's title
    pub title: String,
    /// The message
    pub message: String,
    /// The signed-in user, where known
    pub username: Option<String>,
}

impl ErrorPage {
    /// A page with a title and a message, for no particular user.
    pub fn new(title: &str, message: String) -> (r: Self)
        ensures
            r.title@ == title@,
            r.message == message,
            r.username is None,
    {
        ErrorPage { title: title.to_owned(), message, username: None }
    }
}

/// Turns a session identifier into a UUID: identifiers that are not positive are refused.
pub fn id_to_uuid(input: i128) -> (r: Result<u128, MaremmaError>)
    ensures
        input > 0 ==> r == Ok::<u128, MaremmaError>(input as u128),
        input <= 0 ==> (r matches Err(MaremmaError::InvalidInput(msg)) && msg@ == "Input value "@
            + int_to_decimal(input as int) + " can't be lower than or equal to 0"@),
{
    if input <= 0 {
        let mut msg = String::from_str("Input value ");
        push_signed_decimal(&mut msg, input);
        push_str(&mut msg, " can't be lower than or equal to 0");
        return Err(MaremmaError::InvalidInput(msg));
    }
    Ok(input as u128)
}

} // verus!
