use vstd::prelude::*;

verus! {

/// The body of `POST /v1/execute`.
#[derive(Debug)]
pub struct ExecuteRequest {
    pub language: String,
    pub code: String,
    pub stdin: String,
    pub timeout_ms: Option<u64>,
}

/// The answer to an execution.
#[derive(Debug)]
pub struct ExecuteResponse {
    pub language: String,
    pub stdout: String,
    pub stderr: String,
    pub exit_code: Option<i32>,
    pub timed_out: bool,
    pub duration_ms: u128,
    pub stdout_truncated: bool,
    pub stderr_truncated: bool,
}

/// The answer of `GET /health`.
#[derive(Debug, Clone, Copy, PartialEq, Eq, Structural)]
pub struct HealthResponse {
    pub ok: bool,
}

/// The answer of `GET /v1/languages`.
#[derive(Debug)]
pub struct LanguagesResponse {
    pub languages: Vec<LanguageInfo>,
}

/// A supported language: its id and the other names it is known by.
#[derive(Debug)]
pub struct LanguageInfo {
    pub id: String,
    pub aliases: Vec<String>,
}

/// The body of every error answer.
#[derive(Debug)]
pub struct ErrorResponse {
    pub error: ErrorBody,
}

/// A machine-readable error code and a message for people.
#[derive(Debug)]
pub struct ErrorBody {
    pub code: &'static str,
    pub message: String,
}

} // verus!
