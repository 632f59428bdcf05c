use sandbox_rs::error::AppError;
use sandbox_rs::runtimes::{all, list, resolve};

#[test]
fn resolves_supported_language_ids_and_aliases() {
    assert_eq!(resolve("javascript").unwrap().id, "javascript");
    assert_eq!(resolve("js").unwrap().id, "javascript");
    assert_eq!(resolve("typescript").unwrap().id, "typescript");
    assert_eq!(resolve("ts").unwrap().id, "typescript");
    assert_eq!(resolve("python").unwrap().id, "python");
    assert_eq!(resolve("py").unwrap().id, "python");
}

#[test]
fn language_resolution_is_case_and_whitespace_insensitive() {
    assert_eq!(resolve("  PyThOn  ").unwrap().id, "python");
}

#[test]
fn rejects_unknown_language() {
    let err = resolve("ruby").unwrap_err();
    assert!(matches!(err, AppError::UnsupportedLanguage(_)));
}

#[test]
fn unknown_language_error_keeps_the_name_as_given() {
    match resolve("  Ruby ") {
        Err(AppError::UnsupportedLanguage(name)) => assert_eq!(name, "  Ruby "),
        other => panic!("unexpected {:?}", other),
    }
    assert!(resolve("").is_err());
    assert!(resolve("java script").is_err());
}

#[test]
fn unicode_white_space_is_trimmed() {
    assert_eq!(resolve("\u{3000}\tJS\u{00A0}\n").unwrap().id, "javascript");
    assert_eq!(resolve("\u{2003}Ts\u{205F}").unwrap().id, "typescript");
}

#[test]
fn only_ascii_letters_change_case() {
    // U+0130 is not an ASCII letter: it does not turn into "i".
    assert!(resolve("pyth\u{0130}n").is_err());
}

#[test]
fn registry_holds_the_runtimes() {
    let rts = all();
    let table: Vec<(&str, &[&str], &str, &str)> = rts
        .iter()
        .map(|r| (r.id, r.aliases, r.image, r.file_name))
        .collect();
    let expected: Vec<(&str, &[&str], &str, &str)> = vec![
        ("javascript", &["js"], "denoland/deno:alpine", "main.js"),
        ("typescript", &["ts"], "denoland/deno:alpine", "main.ts"),
        ("python", &["py"], "python:3.14-alpine", "main.py"),
        ("bash", &["sh", "shell"], "bash:5.3-alpine3.23", "main.sh"),
        ("c", &["c99", "c11", "c17"], "gcc:15", "main.c"),
        ("cpp", &["c++", "cc", "cxx"], "gcc:15", "main.cpp"),
        ("csharp", &["cs", "c#"], "mcr.microsoft.com/dotnet/sdk:10.0.102-noble", "Program.cs"),
        ("go", &["golang"], "golang:1.26-alpine", "main.go"),
        ("java", &["jdk"], "eclipse-temurin:21-jdk-alpine", "Main.java"),
        ("node", &["nodejs"], "node:25-alpine", "main.mjs"),
        ("perl", &["pl"], "perl:5.42-slim", "main.pl"),
        ("php", &[], "php:8.4-cli-alpine", "main.php"),
        ("r", &["rscript"], "r-base:4.5.3", "main.R"),
        ("rust", &["rs"], "rust:1.95.0-alpine3.22", "main.rs"),
        ("swift", &[], "swift:6.3-noble", "main.swift"),
    ];
    assert_eq!(table, expected);
    assert_eq!(rts[2].command, &["python", "-I", "-B", "/workspace/main.py"]);
    assert_eq!(rts[2].env, &[("PYTHONDONTWRITEBYTECODE", "1"), ("PYTHONUNBUFFERED", "1")]);
    assert_eq!(rts[0].env, &[("DENO_DIR", "/tmp/deno"), ("NO_COLOR", "1")]);
    assert_eq!(rts[9].command, &["node", "/workspace/main.mjs"]);
    assert_eq!(rts[12].command, &["Rscript", "/workspace/main.R"]);
}

#[test]
fn every_documented_name_resolves() {
    let cases = [
        ("node", "node"), ("nodejs", "node"), ("sh", "bash"), ("shell", "bash"), ("bash", "bash"),
        ("c", "c"), ("c99", "c"), ("c11", "c"), ("c17", "c"), ("c++", "cpp"), ("cc", "cpp"),
        ("cxx", "cpp"), ("cpp", "cpp"), ("C#", "csharp"), ("cs", "csharp"), ("csharp", "csharp"),
        ("golang", "go"), ("go", "go"), ("jdk", "java"), ("Java", "java"), ("pl", "perl"),
        ("perl", "perl"), ("PHP", "php"), ("r", "r"), ("Rscript", "r"), ("rs", "rust"),
        ("rust", "rust"), (" swift ", "swift"),
    ];
    for (name, id) in cases {
        assert_eq!(resolve(name).unwrap().id, id, "{name}");
    }
}

#[test]
fn list_describes_each_runtime() {
    let infos = list();
    assert_eq!(infos.len(), 15);
    assert_eq!(infos[0].id, "javascript");
    assert_eq!(infos[0].aliases, vec!["js".to_string()]);
    assert_eq!(infos[1].id, "typescript");
    assert_eq!(infos[1].aliases, vec!["ts".to_string()]);
    assert_eq!(infos[5].id, "cpp");
    assert_eq!(infos[5].aliases, vec!["c++".to_string(), "cc".to_string(), "cxx".to_string()]);
    assert!(infos[11].aliases.is_empty());
    let info = all()[2].info();
    assert_eq!(info.id, "python");
    assert_eq!(info.aliases, vec!["py".to_string()]);
}
