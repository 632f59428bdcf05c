use vstd::prelude::*;

use crate::config::{Config, ConfigView};
use crate::runtimes::RuntimeView;
use crate::sandbox::{SandboxOutput, SandboxRequest};
use crate::text::{decimal, decimal_string, push_str, push_text, texts};

verus! {

/// The part of a stream that is kept: at most a limit of bytes, and whether more came.
#[derive(Debug)]
pub struct LimitedOutput {
    pub bytes: Vec<u8>,
    pub truncated: bool,
}

/// The smaller of two numbers.
pub open spec fn min(a: int, b: int) -> int {
    if a <= b {
        a
    } else {
        b
    }
}

/// The first `n` elements of `s`, or all of `s` where it is shorter.
pub open spec fn prefix<A>(s: Seq<A>, n: nat) -> Seq<A> {
    if n < s.len() {
        s.take(n as int)
    } else {
        s
    }
}

/// How many more bytes fit below `limit` after `kept` bytes.
pub open spec fn room(kept: nat, limit: nat) -> nat {
    if kept < limit {
        (limit - kept) as nat
    } else {
        0
    }
}

/// The kept bytes and the truncation flag after one more chunk of the stream.
pub open spec fn record_chunk(state: (Seq<u8>, bool), chunk: Seq<u8>, limit: nat) -> (Seq<u8>, bool) {
    let rest = room(state.0.len(), limit);
    (
        state.0 + chunk.take(min(rest as int, chunk.len() as int)),
        state.1 || chunk.len() > rest,
    )
}

/// The kept bytes and the truncation flag after the chunks of a stream, from nothing.
pub open spec fn record_all(chunks: Seq<Seq<u8>>, limit: nat) -> (Seq<u8>, bool)
    decreases chunks.len(),
{
    if chunks.len() == 0 {
        (Seq::empty(), false)
    } else {
        record_chunk(record_all(chunks.drop_last(), limit), chunks.last(), limit)
    }
}

/// The chunks of a stream, one after the other.
pub open spec fn concat(chunks: Seq<Seq<u8>>) -> Seq<u8>
    decreases chunks.len(),
{
    if chunks.len() == 0 {
        Seq::empty()
    } else {
        concat(chunks.drop_last()) + chunks.last()
    }
}

/// Whatever the chunks in which a stream arrives, the bytes kept from it are its first
/// `limit` bytes, and it is marked truncated exactly when it was longer than `limit`.
pub proof fn lemma_output_keeps_prefix(chunks: Seq<Seq<u8>>, limit: nat)
    ensures
        record_all(chunks, limit) == (prefix(concat(chunks), limit), concat(chunks).len() > limit),
    decreases chunks.len(),
{
    if chunks.len() > 0 {
        let earlier = chunks.drop_last();
        let chunk = chunks.last();
        lemma_output_keeps_prefix(earlier, limit);
        let seen = concat(earlier);
        let all = concat(chunks);
        assert(all == seen + chunk);
        let rest = room(prefix(seen, limit).len(), limit);
        let kept = prefix(seen, limit) + chunk.take(min(rest as int, chunk.len() as int));
        assert(kept =~= prefix(all, limit));
    }
}

impl LimitedOutput {
    /// Nothing kept, nothing cut.
    pub fn new() -> (out: LimitedOutput)
        ensures
            out.bytes@ == Seq::<u8>::empty(),
            !out.truncated,
    {
        LimitedOutput { bytes: Vec::new(), truncated: false }
    }

    /// Takes one more chunk read from the stream: keeps what fits below `limit` and
    /// notes whether anything was cut.
    pub fn record(&mut self, chunk: &[u8], limit: usize)
        ensures
            (final(self).bytes@, final(self).truncated) == record_chunk(
                (old(self).bytes@, old(self).truncated),
                chunk@,
                limit as nat,
            ),
    {
        let remaining: usize = if self.bytes.len() < limit {
            limit - self.bytes.len()
        } else {
            0
        };
        let ghost before = self.bytes@;
        assert(remaining as nat == room(before.len(), limit as nat));
        if remaining > 0 {
            let keep: usize = if remaining < chunk.len() {
                remaining
            } else {
                chunk.len()
            };
            let mut k: usize = 0;
            while k < keep
                invariant
                    0 <= k <= keep <= chunk@.len(),
                    keep as int == min(remaining as int, chunk@.len() as int),
                    self.truncated == old(self).truncated,
                    self.bytes@ =~= before + chunk@.take(k as int),
                decreases keep - k,
            {
                self.bytes.push(chunk[k]);
                assert(chunk@.take(k + 1) =~= chunk@.take(k as int).push(chunk@[k as int]));
                k = k + 1;
            }
        } else {
            assert(chunk@.take(0) =~= Seq::<u8>::empty());
            assert(self.bytes@ =~= before + chunk@.take(0));
        }
        if chunk.len() > remaining {
            self.truncated = true;
        }
    }
}

/// How the wait for a container ended.
#[derive(Debug, Clone, Copy, PartialEq, Eq, Structural)]
pub enum WaitOutcome {
    /// The container exited within the timeout, with its exit code (none when a signal
    /// ended it).
    Exited(Option<i32>),
    /// The timeout passed first.
    TimedOut,
}

impl WaitOutcome {
    /// Whether the container must be killed and removed before its output is collected:
    /// exactly when the timeout passed.
    pub fn must_stop(&self) -> (b: bool)
        ensures
            b == (*self is TimedOut),
    {
        match self {
            WaitOutcome::Exited(_) => false,
            WaitOutcome::TimedOut => true,
        }
    }
}

/// What an execution produced, once the wait ended as `outcome` and both streams were read:
/// the exit code of a container that exited, or none and the mark of a timeout.
pub fn conclude(
    outcome: WaitOutcome,
    stdout: LimitedOutput,
    stderr: LimitedOutput,
    duration_ms: u128,
) -> (out: SandboxOutput)
    ensures
        out.stdout@ == stdout.bytes@,
        out.stderr@ == stderr.bytes@,
        out.duration_ms == duration_ms,
        out.stdout_truncated == stdout.truncated,
        out.stderr_truncated == stderr.truncated,
        match outcome {
            WaitOutcome::Exited(code) => out.exit_code == code && !out.timed_out,
            WaitOutcome::TimedOut => out.exit_code is None && out.timed_out,
        },
{
    let (exit_code, timed_out) = match outcome {
        WaitOutcome::Exited(code) => (code, false),
        WaitOutcome::TimedOut => (None, true),
    };
    SandboxOutput {
        stdout: stdout.bytes,
        stderr: stderr.bytes,
        exit_code,
        timed_out,
        duration_ms,
        stdout_truncated: stdout.truncated,
        stderr_truncated: stderr.truncated,
    }
}

/// A name that no other container or workspace of this process takes:
/// the prefix, the process id and the time in nanoseconds.
pub open spec fn unique_name_text(prefix: Seq<char>, pid: nat, nanos: nat) -> Seq<char> {
    prefix + "-"@ + decimal(pid) + "-"@ + decimal(nanos)
}

/// The name `prefix-pid-nanos`.
pub fn unique_name(prefix: &str, pid: u32, nanos: u128) -> (name: String)
    ensures
        name@ == unique_name_text(prefix@, pid as nat, nanos as nat),
{
    let mut name = prefix.to_owned();
    name.append("-");
    name.append(decimal_string(pid as u128).as_str());
    name.append("-");
    name.append(decimal_string(nanos).as_str());
    name
}

/// The arguments that set the runtime's environment variables, `--env KEY=VALUE` each.
pub open spec fn env_args(env: Seq<(Seq<char>, Seq<char>)>) -> Seq<Seq<char>>
    decreases env.len(),
{
    if env.len() == 0 {
        Seq::empty()
    } else {
        env_args(env.drop_last()) + seq!["--env"@, env.last().0 + "="@ + env.last().1]
    }
}

/// The arguments of `docker` that run one execution: a fresh container, removed when it
/// exits, that never pulls an image, without network, with the configured CPU, memory and
/// process limits, a read-only root file system, no capabilities, no privilege gain, as
/// the unprivileged user 65534, with tmpfs at `/tmp` and `/sandbox` and the workspace
/// mounted read-only at `/workspace`; then the runtime's environment, image and command.
pub open spec fn run_args_text(
    config: ConfigView,
    container_name: Seq<char>,
    workspace: Seq<char>,
    runtime: RuntimeView,
) -> Seq<Seq<char>> {
    seq![
        "run"@,
        "--rm"@,
        "--pull"@,
        "never"@,
        "--name"@,
        container_name,
        "--interactive"@,
        "--network"@,
        "none"@,
        "--cpus"@,
        config.cpus,
        "--memory"@,
        config.memory,
        "--memory-swap"@,
        config.memory,
        "--pids-limit"@,
        decimal(config.pids_limit),
        "--read-only"@,
        "--cap-drop"@,
        "ALL"@,
        "--security-opt"@,
        "no-new-privileges"@,
        "--user"@,
        "65534:65534"@,
        "--workdir"@,
        "/workspace"@,
        "--tmpfs"@,
        "/tmp:rw,noexec,nosuid,nodev,size=64m"@,
        "--tmpfs"@,
        "/sandbox:rw,exec,nosuid,nodev"@,
        "--mount"@,
        "type=bind,source="@ + workspace + ",target=/workspace,readonly"@,
    ] + env_args(runtime.env) + seq![runtime.image] + runtime.command
}

/// Whether `flag` is followed by `value` somewhere in `args`.
pub open spec fn has_option(args: Seq<Seq<char>>, flag: Seq<char>, value: Seq<char>) -> bool {
    exists|k: int| 0 <= k && k + 1 < args.len() && #[trigger] args[k] == flag && args[k + 1] == value
}

/// Whatever the settings, the workspace and the runtime, an execution runs in a container
/// that is removed when it exits, pulls no image, has no network, runs as the unprivileged
/// user 65534 with no capabilities and no privilege gain on a read-only root file system,
/// has its memory, swap, CPU and process limits set, and sees the workspace read-only.
pub proof fn lemma_run_args_confine(
    config: ConfigView,
    container_name: Seq<char>,
    workspace: Seq<char>,
    runtime: RuntimeView,
)
    ensures
        ({
            let a = run_args_text(config, container_name, workspace, runtime);
            &&& a[0] == "run"@ && a[1] == "--rm"@
            &&& has_option(a, "--pull"@, "never"@)
            &&& has_option(a, "--network"@, "none"@)
            &&& has_option(a, "--cpus"@, config.cpus)
            &&& has_option(a, "--memory"@, config.memory)
            &&& has_option(a, "--memory-swap"@, config.memory)
            &&& has_option(a, "--pids-limit"@, decimal(config.pids_limit))
            &&& a.contains("--read-only"@)
            &&& has_option(a, "--cap-drop"@, "ALL"@)
            &&& has_option(a, "--security-opt"@, "no-new-privileges"@)
            &&& has_option(a, "--user"@, "65534:65534"@)
            &&& has_option(a, "--mount"@, "type=bind,source="@ + workspace + ",target=/workspace,readonly"@)
        }),
{
    let a = run_args_text(config, container_name, workspace, runtime);
    assert(a[2] == "--pull"@ && a[3] == "never"@);
    assert(a[7] == "--network"@ && a[8] == "none"@);
    assert(a[9] == "--cpus"@ && a[10] == config.cpus);
    assert(a[11] == "--memory"@ && a[12] == config.memory);
    assert(a[13] == "--memory-swap"@ && a[14] == config.memory);
    assert(a[15] == "--pids-limit"@ && a[16] == decimal(config.pids_limit));
    assert(a[17] == "--read-only"@);
    assert(a[18] == "--cap-drop"@ && a[19] == "ALL"@);
    assert(a[20] == "--security-opt"@ && a[21] == "no-new-privileges"@);
    assert(a[22] == "--user"@ && a[23] == "65534:65534"@);
    assert(a[30] == "--mount"@ && a[31] == "type=bind,source="@ + workspace + ",target=/workspace,readonly"@);
}

/// Whatever the settings, the workspace and the runtime, the arguments end with the runtime's
/// image followed by every word of its command, in order: the container runs exactly the
/// runtime's command.
pub proof fn lemma_run_args_end_with_command(
    config: ConfigView,
    container_name: Seq<char>,
    workspace: Seq<char>,
    runtime: RuntimeView,
)
    ensures
        ({
            let a = run_args_text(config, container_name, workspace, runtime);
            &&& a.len() > runtime.command.len()
            &&& a.subrange(a.len() - runtime.command.len() - 1, a.len() as int) == seq![runtime.image]
                + runtime.command
        }),
{
    let a = run_args_text(config, container_name, workspace, runtime);
    assert(a.subrange(a.len() - runtime.command.len() - 1, a.len() as int) =~= seq![runtime.image]
        + runtime.command);
}

/// The environment arguments are `--env KEY=VALUE` for each variable, in order.
pub proof fn lemma_env_args_shape(env: Seq<(Seq<char>, Seq<char>)>)
    ensures
        env_args(env).len() == 2 * env.len(),
        forall|k: int| 0 <= k < env.len() ==> #[trigger] env_args(env)[2 * k] == "--env"@,
        forall|k: int|
            0 <= k < env.len() ==> #[trigger] env_args(env)[2 * k + 1] == env[k].0 + "="@
                + env[k].1,
    decreases env.len(),
{
    if env.len() > 0 {
        let rest = env.drop_last();
        lemma_env_args_shape(rest);
        let tail = seq!["--env"@, env.last().0 + "="@ + env.last().1];
        let all = env_args(env);
        assert(all == env_args(rest) + tail);
        assert forall|k: int| 0 <= k < env.len() implies #[trigger] all[2 * k] == "--env"@ by {
            if k < rest.len() {
                assert(all[2 * k] == env_args(rest)[2 * k]);
            } else {
                assert(all[2 * k] == tail[0]);
            }
        }
        assert forall|k: int| 0 <= k < env.len() implies #[trigger] all[2 * k + 1] == env[k].0
            + "="@ + env[k].1 by {
            if k < rest.len() {
                assert(env[k] == rest[k]);
                assert(all[2 * k + 1] == env_args(rest)[2 * k + 1]);
            } else {
                assert(all[2 * k + 1] == tail[1]);
            }
        }
    }
}

/// Whatever the settings, the workspace and the runtime, every variable of the runtime's
/// environment is passed to the container as `--env KEY=VALUE`.
pub proof fn lemma_run_args_pass_env(
    config: ConfigView,
    container_name: Seq<char>,
    workspace: Seq<char>,
    runtime: RuntimeView,
)
    ensures
        forall|k: int|
            0 <= k < runtime.env.len() ==> has_option(
                run_args_text(config, container_name, workspace, runtime),
                "--env"@,
                (#[trigger] runtime.env[k]).0 + "="@ + runtime.env[k].1,
            ),
{
    let a = run_args_text(config, container_name, workspace, runtime);
    lemma_env_args_shape(runtime.env);
    assert forall|k: int| 0 <= k < runtime.env.len() implies has_option(
        a,
        "--env"@,
        (#[trigger] runtime.env[k]).0 + "="@ + runtime.env[k].1,
    ) by {
        assert(env_args(runtime.env)[2 * k] == "--env"@);
        assert(env_args(runtime.env)[2 * k + 1] == runtime.env[k].0 + "="@ + runtime.env[k].1);
        assert(a[32 + 2 * k] == env_args(runtime.env)[2 * k]);
        assert(a[32 + 2 * k + 1] == env_args(runtime.env)[2 * k + 1]);
    }
}

/// The arguments of `docker` that run `request` in a container named `container_name`
/// with the workspace directory `workspace`.
pub fn run_args(
    config: &Config,
    container_name: &str,
    workspace: &str,
    request: &SandboxRequest,
) -> (args: Vec<String>)
    ensures
        texts(args@) == run_args_text(config@, container_name@, workspace@, request.runtime@),
        texts(args@).len() > request.runtime@.command.len(),
        texts(args@).subrange(
            texts(args@).len() - request.runtime@.command.len() - 1,
            texts(args@).len() as int,
        ) == seq![request.runtime@.image] + request.runtime@.command,
        forall|k: int|
            0 <= k < request.runtime@.env.len() ==> has_option(
                texts(args@),
                "--env"@,
                (#[trigger] request.runtime@.env[k]).0 + "="@ + request.runtime@.env[k].1,
            ),
{
    proof {
        lemma_run_args_end_with_command(config@, container_name@, workspace@, request.runtime@);
        lemma_run_args_pass_env(config@, container_name@, workspace@, request.runtime@);
    }
    let mut args: Vec<String> = Vec::new();
    push_str(&mut args, "run");
    push_str(&mut args, "--rm");
    push_str(&mut args, "--pull");
    push_str(&mut args, "never");
    push_str(&mut args, "--name");
    push_str(&mut args, container_name);
    push_str(&mut args, "--interactive");
    push_str(&mut args, "--network");
    push_str(&mut args, "none");
    push_str(&mut args, "--cpus");
    push_str(&mut args, config.cpus.as_str());
    push_str(&mut args, "--memory");
    push_str(&mut args, config.memory.as_str());
    push_str(&mut args, "--memory-swap");
    push_str(&mut args, config.memory.as_str());
    push_str(&mut args, "--pids-limit");
    push_text(&mut args, decimal_string(config.pids_limit as u128));
    push_str(&mut args, "--read-only");
    push_str(&mut args, "--cap-drop");
    push_str(&mut args, "ALL");
    push_str(&mut args, "--security-opt");
    push_str(&mut args, "no-new-privileges");
    push_str(&mut args, "--user");
    push_str(&mut args, "65534:65534");
    push_str(&mut args, "--workdir");
    push_str(&mut args, "/workspace");
    push_str(&mut args, "--tmpfs");
    push_str(&mut args, "/tmp:rw,noexec,nosuid,nodev,size=64m");
    push_str(&mut args, "--tmpfs");
    push_str(&mut args, "/sandbox:rw,exec,nosuid,nodev");
    push_str(&mut args, "--mount");
    let mut mount = "type=bind,source=".to_owned();
    mount.append(workspace);
    mount.append(",target=/workspace,readonly");
    push_text(&mut args, mount);
    let ghost head = texts(args@);
    let runtime = request.runtime;
    let mut k: usize = 0;
    while k < runtime.env.len()
        invariant
            0 <= k <= runtime.env@.len(),
            texts(args@) == head + env_args(runtime@.env.take(k as int)),
        decreases runtime.env@.len() - k,
    {
        let (key, value) = runtime.env[k];
        push_str(&mut args, "--env");
        let mut pair = key.to_owned();
        pair.append("=");
        pair.append(value);
        push_text(&mut args, pair);
        proof {
            let e = runtime@.env.take(k + 1);
            assert(e.drop_last() =~= runtime@.env.take(k as int));
            assert(e.last() == (key@, value@));
        }
        k = k + 1;
    }
    assert(runtime@.env.take(runtime.env@.len() as int) =~= runtime@.env);
    let ghost middle = texts(args@);
    push_str(&mut args, runtime.image);
    let mut k: usize = 0;
    while k < runtime.command.len()
        invariant
            0 <= k <= runtime.command@.len(),
            texts(args@) == middle + seq![runtime@.image] + runtime@.command.take(k as int),
        decreases runtime.command@.len() - k,
    {
        push_str(&mut args, runtime.command[k]);
        assert(runtime@.command.take(k + 1) =~= runtime@.command.take(k as int).push(
            runtime.command@[k as int]@,
        ));
        k = k + 1;
    }
    assert(runtime@.command.take(runtime.command@.len() as int) =~= runtime@.command);
    args
}

/// The arguments of `docker` that force the removal of a container.
pub fn remove_args(container_name: &str) -> (args: Vec<String>)
    ensures
        texts(args@) == seq!["rm"@, "-f"@, container_name@],
{
    let mut args: Vec<String> = Vec::new();
    push_str(&mut args, "rm");
    push_str(&mut args, "-f");
    push_str(&mut args, container_name);
    args
}

} // verus!
