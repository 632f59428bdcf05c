use sandbox_rs::error::{io_message, AppError};

#[test]
fn errors_answer_with_status_code_and_message() {
    let cases = [
        (AppError::BadRequest("x".to_string()), 400, "bad_request", "bad request: x"),
        (AppError::UnsupportedLanguage("ruby".to_string()), 400, "unsupported_language", "unsupported language: ruby"),
        (AppError::Config("y".to_string()), 500, "internal_error", "configuration error: y"),
        (AppError::Sandbox("z".to_string()), 500, "internal_error", "sandbox error: z"),
    ];
    for (err, status, code, message) in cases {
        let (s, body) = err.into_response();
        assert_eq!(s, status);
        assert_eq!(body.error.code, code);
        assert_eq!(body.error.message, message);
        assert_eq!(err.message(), message);
    }
}

#[test]
fn io_errors_are_internal() {
    let err = AppError::Io(std::io::Error::new(std::io::ErrorKind::Other, "disk full"));
    let (s, body) = err.into_response();
    assert_eq!(s, 500);
    assert_eq!(body.error.code, "internal_error");
    assert_eq!(body.error.message, "io error: disk full");
}

#[test]
fn io_message_appends_the_detail() {
    assert_eq!(io_message("broken pipe"), "io error: broken pipe");
    assert_eq!(io_message(""), "io error: ");
}
