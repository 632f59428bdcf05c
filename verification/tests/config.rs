use sandbox_rs::config::{setting_names, setting_value, Config};
use sandbox_rs::error::AppError;
use sandbox_rs::timeout::Timeout;

fn vars(pairs: &[(&str, &str)]) -> Vec<(String, String)> {
    pairs.iter().map(|(k, v)| (k.to_string(), v.to_string())).collect()
}

#[test]
fn defaults_when_nothing_is_set() {
    let c = Config::from_vars(&Vec::new(), "/var/tmp").unwrap();
    assert_eq!(c.bind_addr, "127.0.0.1:8080");
    assert_eq!(c.docker_bin, "docker");
    assert_eq!(c.tmp_dir, "/var/tmp");
    assert_eq!(c.max_code_bytes, 65536);
    assert_eq!(c.max_stdin_bytes, 65536);
    assert_eq!(c.max_output_bytes, 65536);
    assert_eq!(c.default_timeout, Timeout::from_millis(10000));
    assert_eq!(c.max_timeout, Timeout::from_millis(30000));
    assert_eq!(c.memory, "1024m");
    assert_eq!(c.cpus, "1.0");
    assert_eq!(c.pids_limit, 128);
}

#[test]
fn set_values_override_defaults() {
    let c = Config::from_vars(
        &vars(&[
            ("SANDBOX_BIND_ADDR", "0.0.0.0:8080"),
            ("SANDBOX_MEMORY", "256m"),
            ("SANDBOX_CPUS", "1"),
            ("SANDBOX_PIDS_LIMIT", "+7"),
            ("SANDBOX_TMP_DIR", "/srv"),
            ("SANDBOX_DEFAULT_TIMEOUT_MS", "0042"),
        ]),
        "/tmp",
    )
    .unwrap();
    assert_eq!(c.bind_addr, "0.0.0.0:8080");
    assert_eq!(c.memory, "256m");
    assert_eq!(c.cpus, "1");
    assert_eq!(c.pids_limit, 7);
    assert_eq!(c.tmp_dir, "/srv");
    assert_eq!(c.default_timeout, Timeout::from_millis(42));
}

#[test]
fn first_value_of_a_name_counts() {
    let v = vars(&[("SANDBOX_MEMORY", "1g"), ("SANDBOX_MEMORY", "2g")]);
    assert_eq!(setting_value(&v, "SANDBOX_MEMORY", "x"), "1g");
    assert_eq!(setting_value(&v, "SANDBOX_CPUS", "0.5"), "0.5");
}

#[test]
fn invalid_numbers_are_refused_with_their_reason() {
    let cases = [
        ("SANDBOX_MAX_CODE_BYTES", "", "SANDBOX_MAX_CODE_BYTES=\"\" is invalid: cannot parse integer from empty string"),
        ("SANDBOX_MAX_STDIN_BYTES", "12a", "SANDBOX_MAX_STDIN_BYTES=\"12a\" is invalid: invalid digit found in string"),
        ("SANDBOX_MAX_OUTPUT_BYTES", "-1", "SANDBOX_MAX_OUTPUT_BYTES=\"-1\" is invalid: invalid digit found in string"),
        ("SANDBOX_PIDS_LIMIT", "4294967296", "SANDBOX_PIDS_LIMIT=\"4294967296\" is invalid: number too large to fit in target type"),
        ("SANDBOX_MAX_TIMEOUT_MS", "+", "SANDBOX_MAX_TIMEOUT_MS=\"+\" is invalid: invalid digit found in string"),
        ("SANDBOX_DEFAULT_TIMEOUT_MS", "1 0", "SANDBOX_DEFAULT_TIMEOUT_MS=\"1 0\" is invalid: invalid digit found in string"),
        ("SANDBOX_MAX_TIMEOUT_MS", "18446744073709551616", "SANDBOX_MAX_TIMEOUT_MS=\"18446744073709551616\" is invalid: number too large to fit in target type"),
        ("SANDBOX_PIDS_LIMIT", "say \"hi\"", "SANDBOX_PIDS_LIMIT=\"say \\\"hi\\\"\" is invalid: invalid digit found in string"),
    ];
    for (key, value, message) in cases {
        match Config::from_vars(&vars(&[(key, value)]), "/tmp") {
            Err(AppError::Config(m)) => assert_eq!(m, message),
            other => panic!("unexpected {:?}", other),
        }
    }
}

#[test]
fn largest_values_are_accepted() {
    let c = Config::from_vars(
        &vars(&[("SANDBOX_PIDS_LIMIT", "4294967295"), ("SANDBOX_MAX_TIMEOUT_MS", "18446744073709551615")]),
        "/tmp",
    )
    .unwrap();
    assert_eq!(c.pids_limit, u32::MAX);
    assert_eq!(c.max_timeout.as_millis(), u64::MAX);
}

#[test]
fn first_invalid_setting_decides_the_error() {
    let v = vars(&[("SANDBOX_PIDS_LIMIT", "x"), ("SANDBOX_MAX_STDIN_BYTES", "y")]);
    match Config::from_vars(&v, "/tmp") {
        Err(AppError::Config(m)) => assert!(m.starts_with("SANDBOX_MAX_STDIN_BYTES=")),
        other => panic!("unexpected {:?}", other),
    }
}

#[test]
fn names_of_the_settings() {
    let names = setting_names();
    assert_eq!(names.len(), 11);
    assert_eq!(names[0], "SANDBOX_BIND_ADDR");
    assert_eq!(names[10], "SANDBOX_PIDS_LIMIT");
}

#[test]
fn refused_address_is_reported_first() {
    let v = vars(&[("SANDBOX_BIND_ADDR", "nowhere"), ("SANDBOX_PIDS_LIMIT", "x")]);
    match Config::from_vars_with_address(&v, "/tmp", Err("invalid socket address syntax".to_string())) {
        Err(AppError::Config(m)) => {
            assert_eq!(m, "SANDBOX_BIND_ADDR=\"nowhere\" is invalid: invalid socket address syntax")
        }
        other => panic!("unexpected {:?}", other),
    }
    match Config::from_vars_with_address(&Vec::new(), "/tmp", Err("bad".to_string())) {
        Err(AppError::Config(m)) => assert_eq!(m, "SANDBOX_BIND_ADDR=\"127.0.0.1:8080\" is invalid: bad"),
        other => panic!("unexpected {:?}", other),
    }
}

#[test]
fn accepted_address_leaves_the_other_settings_to_decide() {
    let v = vars(&[("SANDBOX_PIDS_LIMIT", "x")]);
    match Config::from_vars_with_address(&v, "/tmp", Ok(())) {
        Err(AppError::Config(m)) => assert!(m.starts_with("SANDBOX_PIDS_LIMIT=")),
        other => panic!("unexpected {:?}", other),
    }
    let c = Config::from_vars_with_address(&Vec::new(), "/tmp", Ok(())).unwrap();
    assert_eq!(c.bind_addr, "127.0.0.1:8080");
}
