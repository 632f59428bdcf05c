use vstd::prelude::*;

use crate::runtimes::RuntimeSpec;
use crate::timeout::Timeout;

pub mod docker;

verus! {

/// One execution: the runtime, the code and its standard input, and how long it may run.
#[derive(Debug)]
pub struct SandboxRequest<'a> {
    pub runtime: RuntimeSpec,
    pub code: &'a str,
    pub stdin: &'a str,
    pub timeout: Timeout,
}

/// What an execution produced.
#[derive(Debug)]
pub struct SandboxOutput {
    pub stdout: Vec<u8>,
    pub stderr: Vec<u8>,
    pub exit_code: Option<i32>,
    pub timed_out: bool,
    pub duration_ms: u128,
    pub stdout_truncated: bool,
    pub stderr_truncated: bool,
}

} // verus!
