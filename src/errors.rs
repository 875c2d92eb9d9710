use vstd::prelude::*;
use vstd::string::StringExecFns;

verus! {

/// The closed set of failures that a migration reports.
#[derive(Debug, PartialEq, Eq)]
pub enum GiteaError {
    /// A response body could not be decoded.
    ParseError(String),
    /// The permit pool that gates source calls could not hand out a permit.
    SemaphoreError(String),
    /// A transport failure for which no HTTP status is available.
    NetworkError(String),
    /// A non-success HTTP status not covered by a more specific kind.
    ApiError(String),
    /// HTTP 401.
    AuthError(String),
    /// HTTP 404.
    NotFound(String),
    /// A filesystem failure.
    IoError(String),
    /// A git subprocess exited with a failure status.
    GitError(String),
    /// A required argument is absent.
    MissingArguments,
    /// Interactive input failed.
    DialoguerError(String),
}

pub const HTTP_UNAUTHORIZED: u16 = 401;

pub const HTTP_NOT_FOUND: u16 = 404;

/// Whether `code` is a success status (the 2xx range).
pub open spec fn spec_is_success(code: u16) -> bool {
    200 <= code && code < 300
}

/// The domain error for a failed call: no status is a transport failure,
/// 401 an authentication failure, 404 a missing resource, any other status
/// an API failure.
pub open spec fn spec_classify(status: Option<u16>, message: String) -> GiteaError {
    match status {
        None => GiteaError::NetworkError(message),
        Some(code) => if code == HTTP_UNAUTHORIZED {
            GiteaError::AuthError(message)
        } else if code == HTTP_NOT_FOUND {
            GiteaError::NotFound(message)
        } else {
            GiteaError::ApiError(message)
        },
    }
}

/// Whether `code` is a success status (the 2xx range).
pub fn is_success(code: u16) -> (r: bool)
    ensures
        r == spec_is_success(code),
{
    200 <= code && code < 300
}

/// Maps a failed call to the domain error: 401 becomes `AuthError`, 404
/// `NotFound`, another status `ApiError`, and no status `NetworkError`.
pub fn classify_failure(status: Option<u16>, message: String) -> (r: GiteaError)
    ensures
        r == spec_classify(status, message),
{
    match status {
        None => GiteaError::NetworkError(message),
        Some(code) => if code == HTTP_UNAUTHORIZED {
            GiteaError::AuthError(message)
        } else if code == HTTP_NOT_FOUND {
            GiteaError::NotFound(message)
        } else {
            GiteaError::ApiError(message)
        },
    }
}

/// The text a user sees for `e`.
pub open spec fn spec_describe(e: GiteaError) -> Seq<char> {
    match e {
        GiteaError::ParseError(m) => "JSON parsing failed: "@ + m@,
        GiteaError::SemaphoreError(m) => "Concurrency error: "@ + m@,
        GiteaError::NetworkError(m) => "Network error: "@ + m@,
        GiteaError::ApiError(m) => "API request failed "@ + m@,
        GiteaError::AuthError(m) => "Authentication failed "@ + m@,
        GiteaError::NotFound(m) => "Repository not found "@ + m@,
        GiteaError::IoError(m) => "File not found "@ + m@,
        GiteaError::GitError(m) => "Error git "@ + m@,
        GiteaError::MissingArguments => "Error Missing Argument"@,
        GiteaError::DialoguerError(m) => "Error Dialoguer "@ + m@,
    }
}

impl GiteaError {
    /// The text a user sees for this error.
    pub fn describe(&self) -> (r: String)
        ensures
            r@ == spec_describe(*self),
    {
        match self {
            GiteaError::ParseError(m) => String::from_str("JSON parsing failed: ").concat(m.as_str()),
            GiteaError::SemaphoreError(m) => String::from_str("Concurrency error: ").concat(m.as_str()),
            GiteaError::NetworkError(m) => String::from_str("Network error: ").concat(m.as_str()),
            GiteaError::ApiError(m) => String::from_str("API request failed ").concat(m.as_str()),
            GiteaError::AuthError(m) => String::from_str("Authentication failed ").concat(m.as_str()),
            GiteaError::NotFound(m) => String::from_str("Repository not found ").concat(m.as_str()),
            GiteaError::IoError(m) => String::from_str("File not found ").concat(m.as_str()),
            GiteaError::GitError(m) => String::from_str("Error git ").concat(m.as_str()),
            GiteaError::MissingArguments => String::from_str("Error Missing Argument"),
            GiteaError::DialoguerError(m) => String::from_str("Error Dialoguer ").concat(m.as_str()),
        }
    }
}

#[verifier::external_type_specification]
#[verifier::external_body]
pub struct ExReqwestError(reqwest::Error);

/// The HTTP status, as a number, that a reqwest error carries, if any.
pub uninterp spec fn reqwest_status(e: reqwest::Error) -> Option<u16>;

/// The text reqwest displays for an error.
pub uninterp spec fn reqwest_text(e: reqwest::Error) -> Seq<char>;

/// Relies on reqwest's `Error::status` and http's `StatusCode::as_u16`: the
/// status carried by an error that came from a response, as a number, which
/// `StatusCode` keeps within 100..=999.
#[verifier::external_body]
fn status_code_of(e: &reqwest::Error) -> (r: Option<u16>)
    ensures
        r == reqwest_status(*e),
        r matches Some(c) ==> 100 <= c <= 999,
{
    e.status().map(|s| s.as_u16())
}

/// Relies on reqwest's `Display` for `Error`: the text of the failure.
#[verifier::external_body]
fn error_text(e: &reqwest::Error) -> (r: String)
    ensures
        r@ == reqwest_text(*e),
{
    e.to_string()
}

/// Maps a reqwest failure to the domain error: its HTTP status, when it
/// carries one, decides the kind as `classify_failure` does.
pub fn from_reqwest(e: &reqwest::Error) -> (r: GiteaError)
    ensures
        exists|m: String| m@ == reqwest_text(*e) && r == spec_classify(reqwest_status(*e), m),
{
    let status = status_code_of(e);
    let text = error_text(e);
    let r = classify_failure(status, text);
    assert(r == spec_classify(status, text));
    r
}

} // verus!
