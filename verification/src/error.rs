use vstd::prelude::*;

use crate::models::{ErrorBody, ErrorResponse};

verus! {

#[verifier::external_type_specification]
#[verifier::external_body]
pub struct ExIoError(std::io::Error);

/// Everything that can go wrong while serving a request or starting the service.
#[derive(Debug)]
pub enum AppError {
    Config(String),
    BadRequest(String),
    UnsupportedLanguage(String),
    Sandbox(String),
    Io(std::io::Error),
}

/// The HTTP status that answers an error: 400 for what the client sent, 500 for the rest.
pub open spec fn error_status(e: &AppError) -> u16 {
    match e {
        AppError::BadRequest(_) | AppError::UnsupportedLanguage(_) => 400,
        _ => 500,
    }
}

/// The machine-readable code that answers an error.
pub open spec fn error_code(e: &AppError) -> Seq<char> {
    match e {
        AppError::BadRequest(_) => "bad_request"@,
        AppError::UnsupportedLanguage(_) => "unsupported_language"@,
        _ => "internal_error"@,
    }
}

/// The prefix that the message of an error starts with.
pub open spec fn error_prefix(e: &AppError) -> Seq<char> {
    match e {
        AppError::Config(_) => "configuration error: "@,
        AppError::BadRequest(_) => "bad request: "@,
        AppError::UnsupportedLanguage(_) => "unsupported language: "@,
        AppError::Sandbox(_) => "sandbox error: "@,
        AppError::Io(_) => "io error: "@,
    }
}

/// The message of an error that carries its detail as text.
pub open spec fn error_text(e: &AppError) -> Seq<char> {
    match e {
        AppError::Config(s) => error_prefix(e) + s@,
        AppError::BadRequest(s) => error_prefix(e) + s@,
        AppError::UnsupportedLanguage(s) => error_prefix(e) + s@,
        AppError::Sandbox(s) => error_prefix(e) + s@,
        AppError::Io(_) => error_prefix(e),
    }
}

/// `Display` of an I/O error: the operating system's description of it.
/// Nothing is stated of the text, which comes from the platform.
#[verifier::external_body]
fn io_error_text(e: &std::io::Error) -> String {
    e.to_string()
}

/// The message of an I/O error whose description is `detail`.
pub fn io_message(detail: &str) -> (s: String)
    ensures
        s@ == "io error: "@ + detail@,
{
    let mut s = "io error: ".to_string();
    s.append(detail);
    s
}

impl AppError {
    /// The message of this error, as the service reports it.
    pub fn message(&self) -> (s: String)
        ensures
            !(self is Io) ==> s@ == error_text(self),
            self is Io ==> s@.len() >= error_prefix(self).len() && s@.take(
                error_prefix(self).len() as int,
            ) == error_prefix(self),
    {
        match self {
            AppError::Config(m) => {
                let mut s = "configuration error: ".to_string();
                s.append(m.as_str());
                s
            },
            AppError::BadRequest(m) => {
                let mut s = "bad request: ".to_string();
                s.append(m.as_str());
                s
            },
            AppError::UnsupportedLanguage(m) => {
                let mut s = "unsupported language: ".to_string();
                s.append(m.as_str());
                s
            },
            AppError::Sandbox(m) => {
                let mut s = "sandbox error: ".to_string();
                s.append(m.as_str());
                s
            },
            AppError::Io(e) => {
                let detail = io_error_text(e);
                let s = io_message(detail.as_str());
                proof {
                    assert(s@.take(error_prefix(self).len() as int) =~= error_prefix(self));
                }
                s
            },
        }
    }

    /// The HTTP status of the answer to this error.
    pub fn status(&self) -> (code: u16)
        ensures
            code == error_status(self),
    {
        match self {
            AppError::BadRequest(_) | AppError::UnsupportedLanguage(_) => 400,
            _ => 500,
        }
    }

    /// The machine-readable code of the answer to this error.
    pub fn code(&self) -> (code: &'static str)
        ensures
            code@ == error_code(self),
    {
        match self {
            AppError::BadRequest(_) => "bad_request",
            AppError::UnsupportedLanguage(_) => "unsupported_language",
            _ => "internal_error",
        }
    }

    /// The answer that the service sends for this error: its status and its body.
    pub fn into_response(&self) -> (r: (u16, ErrorResponse))
        ensures
            r.0 == error_status(self),
            r.1.error.code@ == error_code(self),
            !(self is Io) ==> r.1.error.message@ == error_text(self),
            self is Io ==> r.1.error.message@.take(error_prefix(self).len() as int) == error_prefix(
                self,
            ),
    {
        (self.status(), ErrorResponse { error: ErrorBody { code: self.code(), message: self.message() } })
    }
}

} // verus!
