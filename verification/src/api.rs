use vstd::prelude::*;

use crate::config::Config;
use crate::error::AppError;
use crate::models::{ExecuteRequest, ExecuteResponse, HealthResponse, LanguagesResponse};
use crate::runtimes::{describes, is_first_match, list, normalize, registry, resolve, RuntimeSpec};
use crate::sandbox::{SandboxOutput, SandboxRequest};
use crate::text::{decimal, decimal_string};
use crate::timeout::Timeout;
use vstd::utf8::{decode_utf8, encode_utf8, valid_utf8};

verus! {

/// The message that refuses a field of `actual` bytes against a limit of `max`.
pub open spec fn too_large_text(field: Seq<char>, actual: nat, max: nat) -> Seq<char> {
    field + " is too large: "@ + decimal(actual) + " bytes exceeds "@ + decimal(max) + " bytes"@
}

/// Refuses a field of `actual` bytes that exceeds `max` bytes.
pub fn validate_size(field: &str, actual: usize, max: usize) -> (r: Result<(), AppError>)
    ensures
        actual <= max ==> r is Ok,
        actual > max ==> (r matches Err(AppError::BadRequest(m)) && m@ == too_large_text(
            field@,
            actual as nat,
            max as nat,
        )),
{
    if actual > max {
        let mut m = field.to_owned();
        m.append(" is too large: ");
        m.append(decimal_string(actual as u128).as_str());
        m.append(" bytes exceeds ");
        m.append(decimal_string(max as u128).as_str());
        m.append(" bytes");
        return Err(AppError::BadRequest(m));
    }
    Ok(())
}

/// The message that refuses a timeout of zero.
pub open spec fn zero_timeout_text() -> Seq<char> {
    "timeout_ms must be greater than zero"@
}

/// The message that refuses a timeout above the maximum of `max` milliseconds.
pub open spec fn timeout_above_text(max: nat) -> Seq<char> {
    "timeout_ms exceeds maximum of "@ + decimal(max)
}

/// The timeout that `requested_timeout` settles on, or the message that refuses the request.
pub open spec fn timeout_outcome(timeout_ms: Option<u64>, default: nat, max: nat) -> Result<
    nat,
    Seq<char>,
> {
    match timeout_ms {
        None => Ok(default),
        Some(v) => if v == 0 {
            Err(zero_timeout_text())
        } else if v > max {
            Err(timeout_above_text(max))
        } else {
            Ok(v as nat)
        },
    }
}

/// The timeout of an execution: the default where none is asked for, else the one asked
/// for, which must be positive and no longer than `max`.
pub fn requested_timeout(timeout_ms: Option<u64>, default: Timeout, max: Timeout) -> (r: Result<
    Timeout,
    AppError,
>)
    ensures
        match timeout_outcome(timeout_ms, default.millis as nat, max.millis as nat) {
            Ok(t) => r matches Ok(d) && d.millis == t,
            Err(m) => r matches Err(AppError::BadRequest(s)) && s@ == m,
        },
        timeout_ms is None ==> r == Ok::<Timeout, AppError>(default),
        timeout_ms matches Some(v) && 0 < v <= max.millis ==> r == Ok::<Timeout, AppError>(
            Timeout { millis: timeout_ms->0 },
        ),
        timeout_ms matches Some(v) && (v == 0 || v > max.millis) ==> r matches Err(
            AppError::BadRequest(_),
        ),
{
    proof {
        lemma_timeout_outcome_laws(timeout_ms, default.millis as nat, max.millis as nat);
    }
    match timeout_ms {
        None => Ok(default),
        Some(value) => {
            if value == 0 {
                return Err(AppError::BadRequest("timeout_ms must be greater than zero".to_owned()));
            }
            let timeout = Timeout::from_millis(value);
            if timeout.as_millis() > max.as_millis() {
                let mut m = "timeout_ms exceeds maximum of ".to_owned();
                m.append(decimal_string(max.as_millis() as u128).as_str());
                return Err(AppError::BadRequest(m));
            }
            Ok(timeout)
        },
    }
}


/// The answer of the health check.
pub fn health() -> (r: HealthResponse)
    ensures
        r.ok,
{
    HealthResponse { ok: true }
}

/// The answer that lists the supported languages, in registry order.
pub fn languages() -> (r: LanguagesResponse)
    ensures
        r.languages@.len() == registry().len(),
        forall|i: int|
            0 <= i < r.languages@.len() ==> describes(#[trigger] r.languages@[i], registry()[i]),
{
    LanguagesResponse { languages: list() }
}

/// The length in bytes of the UTF-8 encoding of `s`.
pub open spec fn byte_len(s: Seq<char>) -> nat {
    encode_utf8(s).len()
}

/// Whether the code and the standard input of `request` fit the limits of `config`.
pub open spec fn sizes_fit(request: &ExecuteRequest, config: &Config) -> bool {
    byte_len(request.code@) <= config.max_code_bytes && byte_len(request.stdin@)
        <= config.max_stdin_bytes
}

/// Whether some runtime answers to the language of `request`.
pub open spec fn language_known(request: &ExecuteRequest) -> bool {
    exists|i: int| is_first_match(registry(), normalize(request.language@), i)
}

/// The timeout that `request` settles on under `config`, or the message that refuses it.
pub open spec fn request_timeout(request: &ExecuteRequest, config: &Config) -> Result<nat, Seq<char>> {
    timeout_outcome(
        request.timeout_ms,
        config.default_timeout.millis as nat,
        config.max_timeout.millis as nat,
    )
}

/// Checks an execution request against the limits of `config`, in this order: the size of
/// the code, the size of the standard input, the language, the timeout; the first check that
/// fails decides the error. Where all pass, the execution runs the code with its input in
/// the first runtime that answers to the language, for the settled timeout.
pub fn prepare_execution<'a>(request: &'a ExecuteRequest, config: &Config) -> (r: Result<
    SandboxRequest<'a>,
    AppError,
>)
    ensures
        byte_len(request.code@) > config.max_code_bytes ==> (r matches Err(AppError::BadRequest(m))
            && m@ == too_large_text("code"@, byte_len(request.code@), config.max_code_bytes as nat)),
        byte_len(request.code@) <= config.max_code_bytes && byte_len(request.stdin@)
            > config.max_stdin_bytes ==> (r matches Err(AppError::BadRequest(m)) && m@
            == too_large_text("stdin"@, byte_len(request.stdin@), config.max_stdin_bytes as nat)),
        sizes_fit(request, config) && !language_known(request) ==> (r matches Err(
            AppError::UnsupportedLanguage(s),
        ) && s@ == request.language@),
        sizes_fit(request, config) && language_known(request) && request_timeout(request, config) is Err
            ==> (r matches Err(AppError::BadRequest(m)) && m@ == request_timeout(
            request,
            config,
        )->Err_0),
        sizes_fit(request, config) && language_known(request) && request_timeout(request, config) is Ok
            ==> (r matches Ok(sr) && sr.code@ == request.code@ && sr.stdin@ == request.stdin@
            && sr.timeout.millis == request_timeout(request, config)->Ok_0 && exists|i: int|
            is_first_match(registry(), normalize(request.language@), i) && sr.runtime@
                == #[trigger] registry()[i]),
{
    let code_len = request.code.as_str().as_bytes().len();
    match validate_size("code", code_len, config.max_code_bytes) {
        Ok(()) => {},
        Err(e) => return Err(e),
    }
    let stdin_len = request.stdin.as_str().as_bytes().len();
    match validate_size("stdin", stdin_len, config.max_stdin_bytes) {
        Ok(()) => {},
        Err(e) => return Err(e),
    }
    let runtime = match resolve(request.language.as_str()) {
        Ok(rt) => rt,
        Err(e) => return Err(e),
    };
    let timeout = match requested_timeout(request.timeout_ms, config.default_timeout, config.max_timeout) {
        Ok(t) => t,
        Err(e) => return Err(e),
    };
    Ok(SandboxRequest { runtime, code: request.code.as_str(), stdin: request.stdin.as_str(), timeout })
}

/// The text of `bytes` read as UTF-8, each invalid sequence replaced by U+FFFD, as
/// `String::from_utf8_lossy` gives it.
pub uninterp spec fn utf8_lossy(bytes: Seq<u8>) -> Seq<char>;

/// `String::from_utf8_lossy`: the text of `bytes`, each invalid UTF-8 sequence replaced by
/// U+FFFD; for valid UTF-8, exactly the text that the bytes encode.
#[verifier::external_body]
fn text_from_bytes(bytes: &[u8]) -> (s: String)
    ensures
        s@ == utf8_lossy(bytes@),
        valid_utf8(bytes@) ==> s@ == decode_utf8(bytes@),
{
    String::from_utf8_lossy(bytes).into_owned()
}

/// The answer to an execution that ran in `runtime` and produced `output`.
pub fn execute_response(runtime: RuntimeSpec, output: SandboxOutput) -> (r: ExecuteResponse)
    ensures
        r.language@ == runtime.id@,
        r.stdout@ == utf8_lossy(output.stdout@),
        r.stderr@ == utf8_lossy(output.stderr@),
        valid_utf8(output.stdout@) ==> r.stdout@ == decode_utf8(output.stdout@),
        valid_utf8(output.stderr@) ==> r.stderr@ == decode_utf8(output.stderr@),
        r.exit_code == output.exit_code,
        r.timed_out == output.timed_out,
        r.duration_ms == output.duration_ms,
        r.stdout_truncated == output.stdout_truncated,
        r.stderr_truncated == output.stderr_truncated,
{
    ExecuteResponse {
        language: runtime.id.to_owned(),
        stdout: text_from_bytes(output.stdout.as_slice()),
        stderr: text_from_bytes(output.stderr.as_slice()),
        exit_code: output.exit_code,
        timed_out: output.timed_out,
        duration_ms: output.duration_ms,
        stdout_truncated: output.stdout_truncated,
        stderr_truncated: output.stderr_truncated,
    }
}


/// The timeout settled on: the default where none is asked for; exactly the one asked for
/// where it is positive and no longer than the maximum, whatever the default; a refusal where
/// it is zero or longer than the maximum.
pub proof fn lemma_timeout_outcome_laws(timeout_ms: Option<u64>, default: nat, max: nat)
    ensures
        timeout_ms is None ==> timeout_outcome(timeout_ms, default, max) == Ok::<nat, Seq<char>>(
            default,
        ),
        timeout_ms matches Some(v) && 0 < v <= max ==> timeout_outcome(timeout_ms, default, max)
            == Ok::<nat, Seq<char>>(timeout_ms->0 as nat),
        timeout_ms matches Some(v) && (v == 0 || v > max) ==> timeout_outcome(
            timeout_ms,
            default,
            max,
        ) is Err,
{
}

/// A timeout that is accepted is positive and no longer than the maximum, provided the
/// default is.
pub proof fn lemma_accepted_timeout_within_bounds(timeout_ms: Option<u64>, default: nat, max: nat)
    requires
        0 < default <= max,
    ensures
        timeout_outcome(timeout_ms, default, max) matches Ok(t) ==> 0 < t <= max,
{
}

} // verus!
