use sandbox_rs::config::Config;
use sandbox_rs::runtimes::resolve;
use sandbox_rs::sandbox::docker::{remove_args, run_args, unique_name, LimitedOutput, WaitOutcome};
use sandbox_rs::sandbox::SandboxRequest;
use sandbox_rs::timeout::Timeout;

#[test]
fn run_arguments_confine_the_container() {
    let config = Config::from_vars(&Vec::new(), "/tmp").unwrap();
    let request = SandboxRequest {
        runtime: resolve("python").unwrap(),
        code: "print(1)",
        stdin: "",
        timeout: Timeout::from_millis(1000),
    };
    let args = run_args(&config, "sandbox-rs-1-2", "/tmp/work", &request);
    let expected = vec![
        "run", "--rm", "--pull", "never", "--name", "sandbox-rs-1-2", "--interactive",
        "--network", "none", "--cpus", "1.0", "--memory", "1024m", "--memory-swap", "1024m",
        "--pids-limit", "128", "--read-only", "--cap-drop", "ALL", "--security-opt",
        "no-new-privileges", "--user", "65534:65534", "--workdir", "/workspace", "--tmpfs",
        "/tmp:rw,noexec,nosuid,nodev,size=64m", "--tmpfs", "/sandbox:rw,exec,nosuid,nodev",
        "--mount", "type=bind,source=/tmp/work,target=/workspace,readonly",
        "--env", "PYTHONDONTWRITEBYTECODE=1", "--env", "PYTHONUNBUFFERED=1",
        "python:3.14-alpine", "python", "-I", "-B", "/workspace/main.py",
    ];
    assert_eq!(args, expected);
}

#[test]
fn removal_arguments() {
    assert_eq!(remove_args("c1"), vec!["rm", "-f", "c1"]);
}

#[test]
fn unique_names_join_prefix_pid_and_time() {
    assert_eq!(unique_name("sandbox-rs", 4242, 1700000000123456789), "sandbox-rs-4242-1700000000123456789");
    assert_eq!(unique_name("w", 0, 0), "w-0-0");
}

#[test]
fn output_keeps_the_first_bytes_up_to_the_limit() {
    let mut out = LimitedOutput::new();
    out.record(b"abc", 5);
    assert_eq!(out.bytes, b"abc");
    assert!(!out.truncated);
    out.record(b"de", 5);
    assert_eq!(out.bytes, b"abcde");
    assert!(!out.truncated);
    out.record(b"f", 5);
    assert_eq!(out.bytes, b"abcde");
    assert!(out.truncated);
    out.record(b"gh", 5);
    assert_eq!(out.bytes, b"abcde");
    assert!(out.truncated);
}

#[test]
fn output_cut_inside_a_chunk() {
    let mut out = LimitedOutput::new();
    out.record(b"abcdefgh", 3);
    assert_eq!(out.bytes, b"abc");
    assert!(out.truncated);
    let mut none = LimitedOutput::new();
    none.record(b"x", 0);
    assert!(none.bytes.is_empty());
    assert!(none.truncated);
}

#[test]
fn only_a_timeout_stops_the_container() {
    assert!(WaitOutcome::TimedOut.must_stop());
    assert!(!WaitOutcome::Exited(Some(1)).must_stop());
    assert!(!WaitOutcome::Exited(None).must_stop());
}

#[test]
fn compiled_runtimes_get_their_environment() {
    let config = Config::from_vars(&Vec::new(), "/tmp").unwrap();
    let request = SandboxRequest {
        runtime: resolve("rs").unwrap(),
        code: "fn main() {}",
        stdin: "",
        timeout: Timeout::from_millis(1000),
    };
    let args = run_args(&config, "n", "/w", &request);
    let tail: Vec<&str> = args[32..].iter().map(|s| s.as_str()).collect();
    assert_eq!(
        tail,
        vec![
            "--env", "CARGO_HOME=/tmp/cargo", "--env", "RUSTUP_HOME=/tmp/rustup",
            "rust:1.95.0-alpine3.22", "sh", "-lc",
            "rustc --edition=2024 /workspace/main.rs -o /sandbox/main && /sandbox/main",
        ]
    );
}
