//! The error taxonomy and its outward mapping.

use vstd::prelude::*;
use vstd::string::*;

verus! {

/// Failures of the credential check.
#[derive(Debug, PartialEq, Eq)]
pub enum MiddlewareError {
    /// The presented credential is missing, not text, or does not match.
    Unauthorized,
    /// The service secret was never set up.
    Configuration(String),
}

/// Every failure that a request can end in.
#[derive(Debug, PartialEq, Eq)]
pub enum AppError {
    /// A filesystem operation failed; the text says which and why.
    FileOperation(String),
    /// The request was malformed or asked for an unsafe path.
    InvalidRequest(String),
    /// The credential check refused the request.
    Middleware(MiddlewareError),
}

/// The four kinds of the taxonomy, each with one outward status.
#[derive(Clone, Copy, Debug, PartialEq, Eq, Structural)]
pub enum ErrorKind {
    Unauthorized,
    Configuration,
    InvalidRequest,
    FileOperation,
}

/// What is sent back to the peer: a status code and a text body.
#[derive(Debug, PartialEq, Eq)]
pub struct Response {
    pub status: u16,
    pub body: String,
}

pub const STATUS_OK: u16 = 200;
pub const STATUS_BAD_REQUEST: u16 = 400;
pub const STATUS_UNAUTHORIZED: u16 = 401;
pub const STATUS_INTERNAL_ERROR: u16 = 500;

/// The body sent for failures that are the service's own fault.
pub open spec fn generic_failure_text() -> Seq<char> {
    "Internal server error"@
}

impl MiddlewareError {
    pub open spec fn spec_message(&self) -> Seq<char> {
        match self {
            MiddlewareError::Unauthorized => "Missing or invalid Authorization header"@,
            MiddlewareError::Configuration(m) => "Server configuration error: "@ + m@,
        }
    }

    /// The human-readable description of the failure.
    pub fn message(&self) -> (r: String)
        ensures
            r@ == self.spec_message(),
    {
        match self {
            MiddlewareError::Unauthorized => String::from_str("Missing or invalid Authorization header"),
            MiddlewareError::Configuration(m) => {
                String::from_str("Server configuration error: ").concat(m.as_str())
            },
        }
    }
}

impl ErrorKind {
    /// The outward status code of each kind.
    pub open spec fn spec_status(self) -> u16 {
        match self {
            ErrorKind::Unauthorized => STATUS_UNAUTHORIZED,
            ErrorKind::Configuration => STATUS_INTERNAL_ERROR,
            ErrorKind::InvalidRequest => STATUS_BAD_REQUEST,
            ErrorKind::FileOperation => STATUS_INTERNAL_ERROR,
        }
    }

    pub fn status(self) -> (r: u16)
        ensures
            r == self.spec_status(),
    {
        match self {
            ErrorKind::Unauthorized => STATUS_UNAUTHORIZED,
            ErrorKind::Configuration => STATUS_INTERNAL_ERROR,
            ErrorKind::InvalidRequest => STATUS_BAD_REQUEST,
            ErrorKind::FileOperation => STATUS_INTERNAL_ERROR,
        }
    }
}

impl AppError {
    pub open spec fn spec_kind(&self) -> ErrorKind {
        match self {
            AppError::FileOperation(_) => ErrorKind::FileOperation,
            AppError::InvalidRequest(_) => ErrorKind::InvalidRequest,
            AppError::Middleware(MiddlewareError::Unauthorized) => ErrorKind::Unauthorized,
            AppError::Middleware(MiddlewareError::Configuration(_)) => ErrorKind::Configuration,
        }
    }

    /// Which kind of the taxonomy this failure belongs to.
    pub fn kind(&self) -> (r: ErrorKind)
        ensures
            r == self.spec_kind(),
    {
        match self {
            AppError::FileOperation(_) => ErrorKind::FileOperation,
            AppError::InvalidRequest(_) => ErrorKind::InvalidRequest,
            AppError::Middleware(MiddlewareError::Unauthorized) => ErrorKind::Unauthorized,
            AppError::Middleware(MiddlewareError::Configuration(_)) => ErrorKind::Configuration,
        }
    }

    /// The text that the failure carries (none for a refused credential).
    pub open spec fn spec_detail(&self) -> Seq<char> {
        match self {
            AppError::FileOperation(m) => m@,
            AppError::InvalidRequest(m) => m@,
            AppError::Middleware(MiddlewareError::Unauthorized) => Seq::empty(),
            AppError::Middleware(MiddlewareError::Configuration(m)) => m@,
        }
    }

    /// The failure as its kind and the text it carries.
    pub open spec fn spec_failure(&self) -> (ErrorKind, Seq<char>) {
        (self.spec_kind(), self.spec_detail())
    }

    pub open spec fn spec_message(&self) -> Seq<char> {
        match self {
            AppError::FileOperation(m) => "File operation failed: "@ + m@,
            AppError::InvalidRequest(m) => "Invalid request: "@ + m@,
            AppError::Middleware(e) => "Middleware error: "@ + e.spec_message(),
        }
    }

    /// The full description of the failure, for the service's own log.
    pub fn message(&self) -> (r: String)
        ensures
            r@ == self.spec_message(),
    {
        match self {
            AppError::FileOperation(m) => {
                String::from_str("File operation failed: ").concat(m.as_str())
            },
            AppError::InvalidRequest(m) => {
                String::from_str("Invalid request: ").concat(m.as_str())
            },
            AppError::Middleware(e) => {
                let inner = e.message();
                String::from_str("Middleware error: ").concat(inner.as_str())
            },
        }
    }

    /// The body sent to the peer. Caller errors and gate failures are
    /// described; the text of a filesystem failure is withheld, since it may
    /// name internal paths.
    pub open spec fn spec_outward_body(&self) -> Seq<char> {
        match self {
            AppError::FileOperation(_) => generic_failure_text(),
            AppError::InvalidRequest(m) => m@,
            AppError::Middleware(e) => e.spec_message(),
        }
    }

    /// The response that reports this failure.
    pub fn to_response(&self) -> (r: Response)
        ensures
            r.status == self.spec_kind().spec_status(),
            r.body@ == self.spec_outward_body(),
    {
        let status = self.kind().status();
        let body = match self {
            AppError::FileOperation(_) => String::from_str("Internal server error"),
            AppError::InvalidRequest(m) => m.clone(),
            AppError::Middleware(e) => e.message(),
        };
        Response { status, body }
    }
}

} // verus!
