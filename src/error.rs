use vstd::prelude::*;
use vstd::string::StringExecFns;

verus! {

/// Every failure the library reports, by kind, each with a human-readable detail.
#[derive(Debug, Clone, PartialEq, Eq)]
pub enum AppError {
    Database(String),
    Authentication(String),
    Authorization(String),
    Validation(String),
    Greenlight(String),
    Cryptography(String),
    Internal(String),
    NotFound(String),
    BadRequest(String),
    Conflict(String),
}

pub type Result<T> = std::result::Result<T, AppError>;

/// The body of an error reply: a fixed status word and a message.
pub struct ErrorResponse {
    pub status: String,
    pub message: String,
}

pub open spec fn internal_message() -> Seq<char> {
    "Internal server error"@
}

impl AppError {
    /// The detail carried by the error.
    pub open spec fn detail(&self) -> Seq<char> {
        match self {
            AppError::Database(m) => m@,
            AppError::Authentication(m) => m@,
            AppError::Authorization(m) => m@,
            AppError::Validation(m) => m@,
            AppError::Greenlight(m) => m@,
            AppError::Cryptography(m) => m@,
            AppError::Internal(m) => m@,
            AppError::NotFound(m) => m@,
            AppError::BadRequest(m) => m@,
            AppError::Conflict(m) => m@,
        }
    }

    /// The words that introduce the detail in the full message.
    pub open spec fn heading(&self) -> Seq<char> {
        match self {
            AppError::Database(_) => "Database error: "@,
            AppError::Authentication(_) => "Authentication error: "@,
            AppError::Authorization(_) => "Authorization error: "@,
            AppError::Validation(_) => "Validation error: "@,
            AppError::Greenlight(_) => "Greenlight error: "@,
            AppError::Cryptography(_) => "Cryptography error: "@,
            AppError::Internal(_) => "Internal server error: "@,
            AppError::NotFound(_) => "Not found: "@,
            AppError::BadRequest(_) => "Bad request: "@,
            AppError::Conflict(_) => "Conflict: "@,
        }
    }

    /// The HTTP status a reply for this error carries.
    pub open spec fn spec_status(&self) -> u16 {
        match self {
            AppError::Authentication(_) => 401,
            AppError::Authorization(_) => 403,
            AppError::Validation(_) => 400,
            AppError::NotFound(_) => 404,
            AppError::BadRequest(_) => 400,
            AppError::Conflict(_) => 409,
            _ => 500,
        }
    }

    /// Whether the reply may show the error's own message; the others are
    /// answered with a generic one so that nothing internal leaks.
    pub open spec fn is_public(&self) -> bool {
        self.spec_status() != 500
    }

    /// The full message: heading followed by the detail.
    pub fn message(&self) -> (r: String)
        ensures
            r@ == self.heading() + self.detail(),
    {
        let (head, detail) = match self {
            AppError::Database(m) => ("Database error: ", m),
            AppError::Authentication(m) => ("Authentication error: ", m),
            AppError::Authorization(m) => ("Authorization error: ", m),
            AppError::Validation(m) => ("Validation error: ", m),
            AppError::Greenlight(m) => ("Greenlight error: ", m),
            AppError::Cryptography(m) => ("Cryptography error: ", m),
            AppError::Internal(m) => ("Internal server error: ", m),
            AppError::NotFound(m) => ("Not found: ", m),
            AppError::BadRequest(m) => ("Bad request: ", m),
            AppError::Conflict(m) => ("Conflict: ", m),
        };
        String::from_str(head).concat(detail.as_str())
    }

    /// The HTTP status code of the reply for this error.
    pub fn status_code(&self) -> (r: u16)
        ensures
            r == self.spec_status(),
    {
        match self {
            AppError::Authentication(_) => 401,
            AppError::Authorization(_) => 403,
            AppError::Validation(_) => 400,
            AppError::NotFound(_) => 404,
            AppError::BadRequest(_) => 400,
            AppError::Conflict(_) => 409,
            _ => 500,
        }
    }

    /// The status code and body of the reply for this error. Failures of the
    /// store, the node service, the cryptography and internal faults are all
    /// answered with the same generic message.
    pub fn to_response(&self) -> (r: (u16, ErrorResponse))
        ensures
            r.0 == self.spec_status(),
            r.1.status@ == "error"@,
            self.is_public() ==> r.1.message@ == self.heading() + self.detail(),
            !self.is_public() ==> r.1.message@ == internal_message(),
    {
        let status = self.status_code();
        let message = if status != 500 {
            self.message()
        } else {
            String::from_str("Internal server error")
        };
        (status, ErrorResponse { status: String::from_str("error"), message })
    }
}

} // verus!
