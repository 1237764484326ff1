use vstd::prelude::*;

verus! {

/// The errors that the client reports.
///
/// The API errors carry the message that the server gave; the others carry
/// a description of what failed on the client's side.
#[derive(Debug)]
pub enum Error {
    /// The transport failed: no response came back.
    Http(String),
    /// A header value could not be built.
    Header(String),
    /// A configuration variable is missing or unreadable.
    Env(String),
    /// A response body does not have the expected shape.
    Json(String),
    /// Status 401.
    Unauthorized(String),
    /// Status 403.
    Forbidden(String),
    /// Status 429.
    TooManyRequests(String),
    /// Status 500, 502, 503 or 504.
    InternalServerError(String),
    /// Status 400.
    BadRequest(String),
    /// A search went through and found no file.
    SearchError(String),
    /// A search was asked for over an empty set of formats.
    EmptyCriteria,
    /// Any other status.
    UnknownAPIError(String),
}

/// The statuses that the API documents, each with its own kind of error.
pub open spec fn is_documented_status(code: u16) -> bool {
    code == 400 || code == 401 || code == 403 || code == 429 || code == 500 || code == 502
        || code == 503 || code == 504
}

/// `e` is the error that a response of status `code` whose reason is `reason`
/// stands for.
pub open spec fn classified(code: u16, reason: Seq<char>, e: Error) -> bool {
    match e {
        Error::BadRequest(m) => code == 400 && m@ == reason,
        Error::Unauthorized(m) => code == 401 && m@ == reason,
        Error::Forbidden(m) => code == 403 && m@ == reason,
        Error::TooManyRequests(m) => code == 429 && m@ == reason,
        Error::InternalServerError(m) => (code == 500 || code == 502 || code == 503 || code
            == 504) && m@ == reason,
        Error::UnknownAPIError(m) => !is_documented_status(code) && m@ == reason,
        _ => false,
    }
}

impl Error {
    /// Classifies an unsuccessful response by its status code, keeping the
    /// reason text as it came.
    pub fn from_error_code(code: u16, reason: &str) -> (r: Self)
        ensures
            classified(code, reason@, r),
    {
        let m = reason.to_owned();
        if code == 401 {
            Error::Unauthorized(m)
        } else if code == 403 {
            Error::Forbidden(m)
        } else if code == 429 {
            Error::TooManyRequests(m)
        } else if code == 500 || code == 502 || code == 503 || code == 504 {
            Error::InternalServerError(m)
        } else if code == 400 {
            Error::BadRequest(m)
        } else {
            Error::UnknownAPIError(m)
        }
    }
}

} // verus!
