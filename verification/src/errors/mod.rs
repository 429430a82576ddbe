//! The error type shared by the registry, the conversion engine and the
//! serving layer.
use vstd::prelude::*;
use vstd::string::*;

verus! {

/// What an error answer holds.
pub struct ErrorBodyView {
    pub status: u16,
    pub error: Seq<char>,
    pub message: Seq<char>,
}

/// The answer to a failed request: the HTTP status, a machine-readable tag
/// and a message for readers.
#[derive(Debug, Clone, PartialEq, Eq)]
pub struct ErrorBody {
    pub status: u16,
    pub error: String,
    pub message: String,
}

impl View for ErrorBody {
    type V = ErrorBodyView;

    open spec fn view(&self) -> ErrorBodyView {
        ErrorBodyView { status: self.status, error: self.error@, message: self.message@ }
    }
}

/// What can go wrong, by kind; each kind carries a message for the caller.
#[derive(Debug, Clone, PartialEq, Eq)]
pub enum ApiError {
    /// The registry could not be reached.
    InternalError(String),
    /// The request names things that cannot be combined, or repeats a registration.
    BadRequest(String),
    /// The request names a category or a unit that is not registered.
    NotFound(String),
    /// Reserved; nothing in the engine produces it.
    Unauthorized(String),
}

impl ApiError {
    /// The message carried by the error.
    pub open spec fn message_view(&self) -> Seq<char> {
        match self {
            ApiError::InternalError(m) => m@,
            ApiError::BadRequest(m) => m@,
            ApiError::NotFound(m) => m@,
            ApiError::Unauthorized(m) => m@,
        }
    }

    /// The HTTP status that answers a request failing with this error.
    pub open spec fn status_of(&self) -> u16 {
        match self {
            ApiError::InternalError(_) => 500,
            ApiError::BadRequest(_) => 400,
            ApiError::NotFound(_) => 404,
            ApiError::Unauthorized(_) => 401,
        }
    }

    /// The machine-readable tag of the error's kind.
    pub open spec fn code_of(&self) -> Seq<char> {
        match self {
            ApiError::InternalError(_) => "internal_server_error"@,
            ApiError::BadRequest(_) => "bad_request"@,
            ApiError::NotFound(_) => "not_found"@,
            ApiError::Unauthorized(_) => "unauthorized"@,
        }
    }

    /// The words that introduce the message when the error is shown.
    pub open spec fn heading_of(&self) -> Seq<char> {
        match self {
            ApiError::InternalError(_) => "Internal server error: "@,
            ApiError::BadRequest(_) => "Bad request: "@,
            ApiError::NotFound(_) => "Not found: "@,
            ApiError::Unauthorized(_) => "Unauthorized: "@,
        }
    }

    /// The message carried by the error.
    pub fn message(&self) -> (m: &str)
        ensures
            m@ == self.message_view(),
    {
        match self {
            ApiError::InternalError(m) => m.as_str(),
            ApiError::BadRequest(m) => m.as_str(),
            ApiError::NotFound(m) => m.as_str(),
            ApiError::Unauthorized(m) => m.as_str(),
        }
    }

    /// The HTTP status that answers a request failing with this error.
    pub fn status_code(&self) -> (status: u16)
        ensures
            status == self.status_of(),
    {
        match self {
            ApiError::InternalError(_) => 500,
            ApiError::BadRequest(_) => 400,
            ApiError::NotFound(_) => 404,
            ApiError::Unauthorized(_) => 401,
        }
    }

    /// The machine-readable tag of the error's kind.
    pub fn error_code(&self) -> (code: &'static str)
        ensures
            code@ == self.code_of(),
    {
        match self {
            ApiError::InternalError(_) => "internal_server_error",
            ApiError::BadRequest(_) => "bad_request",
            ApiError::NotFound(_) => "not_found",
            ApiError::Unauthorized(_) => "unauthorized",
        }
    }

    /// The answer that reports the error by itself: the kind's status and
    /// tag, and the message as it is.
    pub fn error_response(&self) -> (body: ErrorBody)
        ensures
            body@ == (ErrorBodyView {
                status: self.status_of(),
                error: self.code_of(),
                message: self.message_view(),
            }),
    {
        ErrorBody {
            status: self.status_code(),
            error: String::from_str(self.error_code()),
            message: String::from_str(self.message()),
        }
    }

    /// The error as a line of text: the kind's heading, then the message.
    pub fn to_string(&self) -> (line: String)
        ensures
            line@ == self.heading_of() + self.message_view(),
    {
        let heading = match self {
            ApiError::InternalError(_) => "Internal server error: ",
            ApiError::BadRequest(_) => "Bad request: ",
            ApiError::NotFound(_) => "Not found: ",
            ApiError::Unauthorized(_) => "Unauthorized: ",
        };
        let mut line = String::from_str(heading);
        line.append(self.message());
        line
    }
}

} // verus!
