use sandbox_rs::api::{
    execute_response, health, languages, prepare_execution, requested_timeout, validate_size,
};
use sandbox_rs::config::Config;
use sandbox_rs::error::AppError;
use sandbox_rs::models::ExecuteRequest;
use sandbox_rs::runtimes::resolve;
use sandbox_rs::sandbox::docker::{conclude, LimitedOutput, WaitOutcome};
use sandbox_rs::timeout::Timeout;

#[test]
fn rejects_oversized_fields() {
    let err = validate_size("code", 11, 10).unwrap_err();
    assert!(matches!(err, AppError::BadRequest(_)));
}

#[test]
fn uses_default_timeout_when_omitted() {
    let timeout =
        requested_timeout(None, Timeout::from_millis(100), Timeout::from_millis(500)).unwrap();

    assert_eq!(timeout, Timeout::from_millis(100));
}

#[test]
fn rejects_zero_timeout() {
    let err = requested_timeout(
        Some(0),
        Timeout::from_millis(100),
        Timeout::from_millis(500),
    )
    .unwrap_err();

    assert!(matches!(err, AppError::BadRequest(_)));
}

#[test]
fn rejects_timeout_above_maximum() {
    let err = requested_timeout(
        Some(501),
        Timeout::from_millis(100),
        Timeout::from_millis(500),
    )
    .unwrap_err();

    assert!(matches!(err, AppError::BadRequest(_)));
}

#[test]
fn oversized_field_message_names_sizes() {
    match validate_size("stdin", 65537, 65536) {
        Err(AppError::BadRequest(m)) => {
            assert_eq!(m, "stdin is too large: 65537 bytes exceeds 65536 bytes")
        }
        other => panic!("unexpected {:?}", other),
    }
}

#[test]
fn field_at_the_limit_is_accepted() {
    assert!(validate_size("code", 10, 10).is_ok());
    assert!(validate_size("code", 0, 0).is_ok());
}

#[test]
fn timeout_messages() {
    match requested_timeout(Some(0), Timeout::from_millis(1), Timeout::from_millis(2)) {
        Err(AppError::BadRequest(m)) => assert_eq!(m, "timeout_ms must be greater than zero"),
        other => panic!("unexpected {:?}", other),
    }
    match requested_timeout(Some(30001), Timeout::from_millis(1), Timeout::from_millis(30000)) {
        Err(AppError::BadRequest(m)) => assert_eq!(m, "timeout_ms exceeds maximum of 30000"),
        other => panic!("unexpected {:?}", other),
    }
}

#[test]
fn accepted_timeout_is_the_requested_one() {
    let t = requested_timeout(Some(500), Timeout::from_millis(100), Timeout::from_millis(500));
    assert_eq!(t.unwrap(), Timeout::from_millis(500));
    let t = requested_timeout(Some(1), Timeout::from_millis(100), Timeout::from_millis(500));
    assert_eq!(t.unwrap().as_millis(), 1);
}

#[test]
fn default_above_maximum_is_kept() {
    let t = requested_timeout(None, Timeout::from_millis(600), Timeout::from_millis(500));
    assert_eq!(t.unwrap(), Timeout::from_millis(600));
}

#[test]
fn health_is_ok() {
    assert!(health().ok);
}

#[test]
fn languages_lists_registry() {
    let r = languages();
    let ids: Vec<&str> = r.languages.iter().map(|l| l.id.as_str()).collect();
    assert_eq!(
        ids,
        vec![
            "javascript", "typescript", "python", "bash", "c", "cpp", "csharp", "go", "java",
            "node", "perl", "php", "r", "rust", "swift",
        ]
    );
    assert_eq!(r.languages[2].aliases, vec!["py".to_string()]);
}

fn config() -> Config {
    Config::from_vars(&Vec::new(), "/tmp").unwrap()
}

fn request(language: &str, code: &str, stdin: &str, timeout_ms: Option<u64>) -> ExecuteRequest {
    ExecuteRequest {
        language: language.to_string(),
        code: code.to_string(),
        stdin: stdin.to_string(),
        timeout_ms,
    }
}

#[test]
fn prepares_a_valid_request() {
    let c = config();
    let r = request(" Python ", "print(1)", "x", Some(2000));
    let sr = prepare_execution(&r, &c).unwrap();
    assert_eq!(sr.runtime.id, "python");
    assert_eq!(sr.code, "print(1)");
    assert_eq!(sr.stdin, "x");
    assert_eq!(sr.timeout, Timeout::from_millis(2000));
    let r = request("js", "", "", None);
    let sr = prepare_execution(&r, &c).unwrap();
    assert_eq!(sr.runtime.id, "javascript");
    assert_eq!(sr.timeout, Timeout::from_millis(10000));
}

#[test]
fn checks_come_in_order() {
    let vars = vec![
        ("SANDBOX_MAX_CODE_BYTES".to_string(), "3".to_string()),
        ("SANDBOX_MAX_STDIN_BYTES".to_string(), "2".to_string()),
    ];
    let c = Config::from_vars(&vars, "/tmp").unwrap();
    // The size of the code is checked first, in bytes.
    match prepare_execution(&request("ruby", "é12", "toolong", Some(0)), &c) {
        Err(AppError::BadRequest(m)) => assert_eq!(m, "code is too large: 4 bytes exceeds 3 bytes"),
        other => panic!("unexpected {:?}", other),
    }
    match prepare_execution(&request("ruby", "abc", "toolong", Some(0)), &c) {
        Err(AppError::BadRequest(m)) => assert_eq!(m, "stdin is too large: 7 bytes exceeds 2 bytes"),
        other => panic!("unexpected {:?}", other),
    }
    match prepare_execution(&request("ruby", "abc", "ok", Some(0)), &c) {
        Err(AppError::UnsupportedLanguage(m)) => assert_eq!(m, "ruby"),
        other => panic!("unexpected {:?}", other),
    }
    match prepare_execution(&request("py", "abc", "ok", Some(0)), &c) {
        Err(AppError::BadRequest(m)) => assert_eq!(m, "timeout_ms must be greater than zero"),
        other => panic!("unexpected {:?}", other),
    }
    match prepare_execution(&request("py", "abc", "ok", Some(30001)), &c) {
        Err(AppError::BadRequest(m)) => assert_eq!(m, "timeout_ms exceeds maximum of 30000"),
        other => panic!("unexpected {:?}", other),
    }
}

#[test]
fn response_decodes_output() {
    let mut out = LimitedOutput::new();
    out.record(b"hello Nathan\n", 100);
    let mut err = LimitedOutput::new();
    err.record(&[b'a', 0xff, b'b'], 100);
    let output = conclude(WaitOutcome::Exited(Some(0)), out, err, 120);
    let rt = resolve("python").unwrap();
    let r = execute_response(rt, output);
    assert_eq!(r.language, "python");
    assert_eq!(r.stdout, "hello Nathan\n");
    assert_eq!(r.stderr, "a\u{FFFD}b");
    assert_eq!(r.exit_code, Some(0));
    assert!(!r.timed_out);
    assert_eq!(r.duration_ms, 120);
    assert!(!r.stdout_truncated);
    assert!(!r.stderr_truncated);
}

#[test]
fn timed_out_response_has_no_exit_code() {
    let mut out = LimitedOutput::new();
    out.record(b"abcdef", 4);
    let output = conclude(WaitOutcome::TimedOut, out, LimitedOutput::new(), 3000);
    let rt = resolve("ts").unwrap();
    let r = execute_response(rt, output);
    assert_eq!(r.language, "typescript");
    assert_eq!(r.stdout, "abcd");
    assert!(r.stdout_truncated);
    assert!(!r.stderr_truncated);
    assert_eq!(r.exit_code, None);
    assert!(r.timed_out);
}
