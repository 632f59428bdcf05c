use vstd::prelude::*;

use crate::error::AppError;
use crate::text::{
    chars_equal, chars_of, decimal, int_error_text, lemma_decimal_parses_back, parse_unsigned,
    parse_unsigned_chars,
};
use crate::timeout::Timeout;

verus! {

/// The service's settings.
#[derive(Debug)]
pub struct Config {
    /// The address to listen on, as written; the service parses it before it binds.
    pub bind_addr: String,
    pub docker_bin: String,
    pub tmp_dir: String,
    pub max_code_bytes: usize,
    pub max_stdin_bytes: usize,
    pub max_output_bytes: usize,
    pub default_timeout: Timeout,
    pub max_timeout: Timeout,
    pub memory: String,
    pub cpus: String,
    pub pids_limit: u32,
}

/// The settings as text and numbers.
pub struct ConfigView {
    pub bind_addr: Seq<char>,
    pub docker_bin: Seq<char>,
    pub tmp_dir: Seq<char>,
    pub max_code_bytes: nat,
    pub max_stdin_bytes: nat,
    pub max_output_bytes: nat,
    pub default_timeout_ms: nat,
    pub max_timeout_ms: nat,
    pub memory: Seq<char>,
    pub cpus: Seq<char>,
    pub pids_limit: nat,
}

impl View for Config {
    type V = ConfigView;

    open spec fn view(&self) -> ConfigView {
        ConfigView {
            bind_addr: self.bind_addr@,
            docker_bin: self.docker_bin@,
            tmp_dir: self.tmp_dir@,
            max_code_bytes: self.max_code_bytes as nat,
            max_stdin_bytes: self.max_stdin_bytes as nat,
            max_output_bytes: self.max_output_bytes as nat,
            default_timeout_ms: self.default_timeout.millis as nat,
            max_timeout_ms: self.max_timeout.millis as nat,
            memory: self.memory@,
            cpus: self.cpus@,
            pids_limit: self.pids_limit as nat,
        }
    }
}

/// The value of the first variable named `key` in `vars`, if there is one.
pub open spec fn lookup(vars: Seq<(Seq<char>, Seq<char>)>, key: Seq<char>) -> Option<Seq<char>>
    decreases vars.len(),
{
    if vars.len() == 0 {
        None
    } else if vars[0].0 == key {
        Some(vars[0].1)
    } else {
        lookup(vars.drop_first(), key)
    }
}

/// The value of `key` in `vars`, or `default` where it is not set.
pub open spec fn value_or(vars: Seq<(Seq<char>, Seq<char>)>, key: Seq<char>, default: Seq<char>) -> Seq<
    char,
> {
    match lookup(vars, key) {
        Some(v) => v,
        None => default,
    }
}

/// `Debug` of a string: the string in double quotes, with escapes.
pub uninterp spec fn debug_text(s: Seq<char>) -> Seq<char>;

/// The message that refuses the value of a setting.
pub open spec fn invalid_setting_text(key: Seq<char>, value: Seq<char>, reason: Seq<char>) -> Seq<
    char,
> {
    key + "="@ + debug_text(value) + " is invalid: "@ + reason
}

/// A numeric setting no greater than `limit`: its value, or the message that refuses it.
pub open spec fn number_setting(
    vars: Seq<(Seq<char>, Seq<char>)>,
    key: Seq<char>,
    default: Seq<char>,
    limit: nat,
) -> Result<nat, Seq<char>> {
    let value = value_or(vars, key, default);
    match parse_unsigned(value, limit) {
        Ok(n) => Ok(n),
        Err(kind) => Err(invalid_setting_text(key, value, int_error_text(kind))),
    }
}

/// The settings that `vars` gives, with `temp_dir` as the default workspace root;
/// the first setting that cannot be read, in the order of the fields, decides the error.
pub open spec fn config_from(vars: Seq<(Seq<char>, Seq<char>)>, temp_dir: Seq<char>) -> Result<
    ConfigView,
    Seq<char>,
> {
    let code = number_setting(vars, "SANDBOX_MAX_CODE_BYTES"@, "65536"@, usize::MAX as nat);
    let stdin = number_setting(vars, "SANDBOX_MAX_STDIN_BYTES"@, "65536"@, usize::MAX as nat);
    let output = number_setting(vars, "SANDBOX_MAX_OUTPUT_BYTES"@, "65536"@, usize::MAX as nat);
    let default_timeout = number_setting(
        vars,
        "SANDBOX_DEFAULT_TIMEOUT_MS"@,
        "10000"@,
        u64::MAX as nat,
    );
    let max_timeout = number_setting(vars, "SANDBOX_MAX_TIMEOUT_MS"@, "30000"@, u64::MAX as nat);
    let pids = number_setting(vars, "SANDBOX_PIDS_LIMIT"@, "128"@, u32::MAX as nat);
    if code is Err {
        Err(code->Err_0)
    } else if stdin is Err {
        Err(stdin->Err_0)
    } else if output is Err {
        Err(output->Err_0)
    } else if default_timeout is Err {
        Err(default_timeout->Err_0)
    } else if max_timeout is Err {
        Err(max_timeout->Err_0)
    } else if pids is Err {
        Err(pids->Err_0)
    } else {
        Ok(
            ConfigView {
                bind_addr: value_or(vars, "SANDBOX_BIND_ADDR"@, "127.0.0.1:8080"@),
                docker_bin: value_or(vars, "SANDBOX_DOCKER_BIN"@, "docker"@),
                tmp_dir: value_or(vars, "SANDBOX_TMP_DIR"@, temp_dir),
                max_code_bytes: code->Ok_0,
                max_stdin_bytes: stdin->Ok_0,
                max_output_bytes: output->Ok_0,
                default_timeout_ms: default_timeout->Ok_0,
                max_timeout_ms: max_timeout->Ok_0,
                memory: value_or(vars, "SANDBOX_MEMORY"@, "1024m"@),
                cpus: value_or(vars, "SANDBOX_CPUS"@, "1.0"@),
                pids_limit: pids->Ok_0,
            },
        )
    }
}

/// `v` is what the variables give for `key`: the value of the first variable named `key`, or
/// `default` where no variable has that name.
pub open spec fn given_value(
    vars: Seq<(Seq<char>, Seq<char>)>,
    key: Seq<char>,
    default: Seq<char>,
    v: Seq<char>,
) -> bool {
    ||| exists|i: int|
        #![trigger vars[i]]
        0 <= i < vars.len() && vars[i].0 == key && (forall|j: int|
            0 <= j < i ==> (#[trigger] vars[j]).0 != key) && v == vars[i].1
    ||| (forall|i: int| 0 <= i < vars.len() ==> (#[trigger] vars[i]).0 != key) && v == default
}

/// `n` is the number that the variables give for `key`: the decimal value given for it, read
/// as an unsigned number no greater than `limit`.
pub open spec fn given_number(
    vars: Seq<(Seq<char>, Seq<char>)>,
    key: Seq<char>,
    default: Seq<char>,
    limit: nat,
    n: nat,
) -> bool {
    exists|s: Seq<char>|
        #[trigger] given_value(vars, key, default, s) && parse_unsigned(s, limit) == Ok::<
            nat,
            crate::text::IntErrorKind,
        >(n)
}

/// Each setting is the one its documented variable gives, or its documented default.
pub open spec fn settings_given(
    vars: Seq<(Seq<char>, Seq<char>)>,
    temp_dir: Seq<char>,
    c: ConfigView,
) -> bool {
    &&& given_value(vars, "SANDBOX_BIND_ADDR"@, "127.0.0.1:8080"@, c.bind_addr)
    &&& given_value(vars, "SANDBOX_DOCKER_BIN"@, "docker"@, c.docker_bin)
    &&& given_value(vars, "SANDBOX_TMP_DIR"@, temp_dir, c.tmp_dir)
    &&& given_number(vars, "SANDBOX_MAX_CODE_BYTES"@, "65536"@, usize::MAX as nat, c.max_code_bytes)
    &&& given_number(vars, "SANDBOX_MAX_STDIN_BYTES"@, "65536"@, usize::MAX as nat, c.max_stdin_bytes)
    &&& given_number(
        vars,
        "SANDBOX_MAX_OUTPUT_BYTES"@,
        "65536"@,
        usize::MAX as nat,
        c.max_output_bytes,
    )
    &&& given_number(
        vars,
        "SANDBOX_DEFAULT_TIMEOUT_MS"@,
        "10000"@,
        u64::MAX as nat,
        c.default_timeout_ms,
    )
    &&& given_number(vars, "SANDBOX_MAX_TIMEOUT_MS"@, "30000"@, u64::MAX as nat, c.max_timeout_ms)
    &&& given_value(vars, "SANDBOX_MEMORY"@, "1024m"@, c.memory)
    &&& given_value(vars, "SANDBOX_CPUS"@, "1.0"@, c.cpus)
    &&& given_number(vars, "SANDBOX_PIDS_LIMIT"@, "128"@, u32::MAX as nat, c.pids_limit)
}

/// The value looked up for a key is the one that the first variable of that name gives.
pub proof fn lemma_value_or_given(
    vars: Seq<(Seq<char>, Seq<char>)>,
    key: Seq<char>,
    default: Seq<char>,
)
    ensures
        given_value(vars, key, default, value_or(vars, key, default)),
    decreases vars.len(),
{
    if vars.len() > 0 {
        let rest = vars.drop_first();
        lemma_value_or_given(rest, key, default);
        if vars[0].0 != key {
            assert(lookup(vars, key) == lookup(rest, key));
            if exists|i: int|
                #![trigger rest[i]]
                0 <= i < rest.len() && rest[i].0 == key && (forall|j: int|
                    0 <= j < i ==> (#[trigger] rest[j]).0 != key) && value_or(rest, key, default)
                    == rest[i].1 {
                let i = choose|i: int|
                    #![trigger rest[i]]
                    0 <= i < rest.len() && rest[i].0 == key && (forall|j: int|
                        0 <= j < i ==> (#[trigger] rest[j]).0 != key) && value_or(rest, key, default)
                        == rest[i].1;
                assert(vars[i + 1] == rest[i]);
                assert forall|j: int| 0 <= j < i + 1 implies (#[trigger] vars[j]).0 != key by {
                    if j > 0 {
                        assert(vars[j] == rest[j - 1]);
                    }
                }
            } else {
                assert forall|j: int| 0 <= j < vars.len() implies (#[trigger] vars[j]).0 != key by {
                    if j > 0 {
                        assert(vars[j] == rest[j - 1]);
                    }
                }
            }
        } else {
            assert(vars[0].0 == key);
        }
    }
}

/// The settings that the variables give are each the one given by the setting's documented
/// variable, or its documented default; and the variables are refused exactly when one of the
/// numeric settings is no number that fits its type.
pub proof fn lemma_config_settings(vars: Seq<(Seq<char>, Seq<char>)>, temp_dir: Seq<char>)
    ensures
        config_from(vars, temp_dir) matches Ok(c) ==> settings_given(vars, temp_dir, c),
        config_from(vars, temp_dir) is Ok <==> {
            &&& parse_unsigned(value_or(vars, "SANDBOX_MAX_CODE_BYTES"@, "65536"@), usize::MAX as nat) is Ok
            &&& parse_unsigned(value_or(vars, "SANDBOX_MAX_STDIN_BYTES"@, "65536"@), usize::MAX as nat) is Ok
            &&& parse_unsigned(value_or(vars, "SANDBOX_MAX_OUTPUT_BYTES"@, "65536"@), usize::MAX as nat) is Ok
            &&& parse_unsigned(value_or(vars, "SANDBOX_DEFAULT_TIMEOUT_MS"@, "10000"@), u64::MAX as nat) is Ok
            &&& parse_unsigned(value_or(vars, "SANDBOX_MAX_TIMEOUT_MS"@, "30000"@), u64::MAX as nat) is Ok
            &&& parse_unsigned(value_or(vars, "SANDBOX_PIDS_LIMIT"@, "128"@), u32::MAX as nat) is Ok
        },
{
    lemma_value_or_given(vars, "SANDBOX_BIND_ADDR"@, "127.0.0.1:8080"@);
    lemma_value_or_given(vars, "SANDBOX_DOCKER_BIN"@, "docker"@);
    lemma_value_or_given(vars, "SANDBOX_TMP_DIR"@, temp_dir);
    lemma_value_or_given(vars, "SANDBOX_MAX_CODE_BYTES"@, "65536"@);
    lemma_value_or_given(vars, "SANDBOX_MAX_STDIN_BYTES"@, "65536"@);
    lemma_value_or_given(vars, "SANDBOX_MAX_OUTPUT_BYTES"@, "65536"@);
    lemma_value_or_given(vars, "SANDBOX_DEFAULT_TIMEOUT_MS"@, "10000"@);
    lemma_value_or_given(vars, "SANDBOX_MAX_TIMEOUT_MS"@, "30000"@);
    lemma_value_or_given(vars, "SANDBOX_MEMORY"@, "1024m"@);
    lemma_value_or_given(vars, "SANDBOX_CPUS"@, "1.0"@);
    lemma_value_or_given(vars, "SANDBOX_PIDS_LIMIT"@, "128"@);
}

/// With no variables set, the settings are the documented defaults: listening on
/// 127.0.0.1:8080, `docker`, the given temporary directory, 65536 bytes of code, input and
/// output, a default timeout of 10000 ms and a maximum of 30000 ms, 1024m of memory, 1.0 CPU
/// and 128 processes.
pub proof fn lemma_default_settings(temp_dir: Seq<char>)
    ensures
        config_from(Seq::empty(), temp_dir) == Ok::<ConfigView, Seq<char>>(
            ConfigView {
                bind_addr: "127.0.0.1:8080"@,
                docker_bin: "docker"@,
                tmp_dir: temp_dir,
                max_code_bytes: 65536,
                max_stdin_bytes: 65536,
                max_output_bytes: 65536,
                default_timeout_ms: 10000,
                max_timeout_ms: 30000,
                memory: "1024m"@,
                cpus: "1.0"@,
                pids_limit: 128,
            },
        ),
{
    reveal_strlit("65536");
    reveal_strlit("10000");
    reveal_strlit("30000");
    reveal_strlit("128");
    reveal_with_fuel(decimal, 6);
    assert("65536"@ =~= decimal(65536));
    assert("10000"@ =~= decimal(10000));
    assert("30000"@ =~= decimal(30000));
    assert("128"@ =~= decimal(128));
    lemma_decimal_parses_back(65536, usize::MAX as nat);
    lemma_decimal_parses_back(10000, u64::MAX as nat);
    lemma_decimal_parses_back(30000, u64::MAX as nat);
    lemma_decimal_parses_back(128, u32::MAX as nat);
}

/// The environment variables as text.
pub open spec fn vars_view(vars: Seq<(String, String)>) -> Seq<(Seq<char>, Seq<char>)> {
    vars.map_values(|kv: (String, String)| (kv.0@, kv.1@))
}

/// `Debug` of a string: the string in double quotes, with escapes.
#[verifier::external_body]
fn debug_quoted(s: &str) -> (r: String)
    ensures
        r@ == debug_text(s@),
{
    format!("{:?}", s)
}

/// The names of the environment variables that the settings are read from.
pub fn setting_names() -> (names: Vec<&'static str>)
    ensures
        names@.map_values(|n: &str| n@) == seq![
            "SANDBOX_BIND_ADDR"@,
            "SANDBOX_DOCKER_BIN"@,
            "SANDBOX_TMP_DIR"@,
            "SANDBOX_MAX_CODE_BYTES"@,
            "SANDBOX_MAX_STDIN_BYTES"@,
            "SANDBOX_MAX_OUTPUT_BYTES"@,
            "SANDBOX_DEFAULT_TIMEOUT_MS"@,
            "SANDBOX_MAX_TIMEOUT_MS"@,
            "SANDBOX_MEMORY"@,
            "SANDBOX_CPUS"@,
            "SANDBOX_PIDS_LIMIT"@,
        ],
{
    let names = vec![
        "SANDBOX_BIND_ADDR",
        "SANDBOX_DOCKER_BIN",
        "SANDBOX_TMP_DIR",
        "SANDBOX_MAX_CODE_BYTES",
        "SANDBOX_MAX_STDIN_BYTES",
        "SANDBOX_MAX_OUTPUT_BYTES",
        "SANDBOX_DEFAULT_TIMEOUT_MS",
        "SANDBOX_MAX_TIMEOUT_MS",
        "SANDBOX_MEMORY",
        "SANDBOX_CPUS",
        "SANDBOX_PIDS_LIMIT",
    ];
    assert(names@.map_values(|n: &str| n@) =~= seq![
        "SANDBOX_BIND_ADDR"@,
        "SANDBOX_DOCKER_BIN"@,
        "SANDBOX_TMP_DIR"@,
        "SANDBOX_MAX_CODE_BYTES"@,
        "SANDBOX_MAX_STDIN_BYTES"@,
        "SANDBOX_MAX_OUTPUT_BYTES"@,
        "SANDBOX_DEFAULT_TIMEOUT_MS"@,
        "SANDBOX_MAX_TIMEOUT_MS"@,
        "SANDBOX_MEMORY"@,
        "SANDBOX_CPUS"@,
        "SANDBOX_PIDS_LIMIT"@,
    ]);
    names
}

/// The value of `key` in `vars`, or `default` where it is not set.
pub fn setting_value(vars: &Vec<(String, String)>, key: &str, default: &str) -> (v: String)
    ensures
        v@ == value_or(vars_view(vars@), key@, default@),
{
    let key_chars = chars_of(key);
    let mut k: usize = 0;
    assert(vars_view(vars@).skip(0) =~= vars_view(vars@));
    while k < vars.len()
        invariant
            0 <= k <= vars@.len(),
            key_chars@ == key@,
            lookup(vars_view(vars@), key@) == lookup(vars_view(vars@).skip(k as int), key@),
        decreases vars@.len() - k,
    {
        let ghost rest = vars_view(vars@).skip(k as int);
        assert(rest.drop_first() =~= vars_view(vars@).skip(k + 1));
        assert(rest[0] == (vars@[k as int].0@, vars@[k as int].1@));
        if chars_equal(&chars_of(vars[k].0.as_str()), &key_chars) {
            return vars[k].1.as_str().to_owned();
        }
        k = k + 1;
    }
    default.to_owned()
}

/// The message that refuses `value` as the value of `key`, for `reason`.
pub fn invalid_setting(key: &str, value: &str, reason: &str) -> (e: AppError)
    ensures
        e matches AppError::Config(m) && m@ == invalid_setting_text(key@, value@, reason@),
{
    let mut m = key.to_owned();
    m.append("=");
    m.append(debug_quoted(value).as_str());
    m.append(" is invalid: ");
    m.append(reason);
    AppError::Config(m)
}

/// A numeric setting no greater than `limit`.
fn read_number(vars: &Vec<(String, String)>, key: &str, default: &str, limit: u64) -> (r: Result<
    u64,
    AppError,
>)
    ensures
        match number_setting(vars_view(vars@), key@, default@, limit as nat) {
            Ok(n) => n <= limit && r == Ok::<u64, AppError>(n as u64),
            Err(t) => r matches Err(AppError::Config(m)) && m@ == t,
        },
{
    let value = setting_value(vars, key, default);
    match parse_unsigned_chars(&chars_of(value.as_str()), limit) {
        Ok(n) => Ok(n),
        Err(kind) => Err(invalid_setting(key, value.as_str(), kind.text().as_str())),
    }
}

/// The settings, or the first refusal, once the listening address has been checked as
/// `address` tells: a refused address comes first, as the setting read before all others.
pub open spec fn config_with_address(
    vars: Seq<(Seq<char>, Seq<char>)>,
    temp_dir: Seq<char>,
    address: Result<(), Seq<char>>,
) -> Result<ConfigView, Seq<char>> {
    match address {
        Err(reason) => Err(
            invalid_setting_text(
                "SANDBOX_BIND_ADDR"@,
                value_or(vars, "SANDBOX_BIND_ADDR"@, "127.0.0.1:8080"@),
                reason,
            ),
        ),
        Ok(()) => config_from(vars, temp_dir),
    }
}

impl Config {
    /// The address to listen on, as written in `vars`, or the default `127.0.0.1:8080`.
    pub fn bind_addr_setting(vars: &Vec<(String, String)>) -> (v: String)
        ensures
            v@ == value_or(vars_view(vars@), "SANDBOX_BIND_ADDR"@, "127.0.0.1:8080"@),
    {
        setting_value(vars, "SANDBOX_BIND_ADDR", "127.0.0.1:8080")
    }

    /// The settings that the environment variables `vars` give, each unset one taking its
    /// default, with `temp_dir` as the default root of the workspaces.
    pub fn from_vars(vars: &Vec<(String, String)>, temp_dir: &str) -> (r: Result<Config, AppError>)
        ensures
            match config_from(vars_view(vars@), temp_dir@) {
                Ok(v) => r matches Ok(c) && c@ == v,
                Err(t) => r matches Err(AppError::Config(m)) && m@ == t,
            },
            r matches Ok(c) ==> settings_given(vars_view(vars@), temp_dir@, c@),
            vars@.len() == 0 ==> (r matches Ok(c) && c.docker_bin@ == "docker"@ && c.bind_addr@
                == "127.0.0.1:8080"@ && c.tmp_dir@ == temp_dir@ && c.max_code_bytes == 65536
                && c.max_stdin_bytes == 65536 && c.max_output_bytes == 65536
                && c.default_timeout.millis == 10000 && c.max_timeout.millis == 30000
                && c.memory@ == "1024m"@ && c.cpus@ == "1.0"@ && c.pids_limit == 128),
    {
        proof {
            lemma_config_settings(vars_view(vars@), temp_dir@);
            lemma_default_settings(temp_dir@);
            if vars@.len() == 0 {
                assert(vars_view(vars@) =~= Seq::<(Seq<char>, Seq<char>)>::empty());
            }
        }
        let max_code_bytes = match read_number(vars, "SANDBOX_MAX_CODE_BYTES", "65536", usize::MAX as u64) {
            Ok(n) => n,
            Err(e) => return Err(e),
        };
        let max_stdin_bytes = match read_number(vars, "SANDBOX_MAX_STDIN_BYTES", "65536", usize::MAX as u64) {
            Ok(n) => n,
            Err(e) => return Err(e),
        };
        let max_output_bytes = match read_number(vars, "SANDBOX_MAX_OUTPUT_BYTES", "65536", usize::MAX as u64) {
            Ok(n) => n,
            Err(e) => return Err(e),
        };
        let default_ms = match read_number(vars, "SANDBOX_DEFAULT_TIMEOUT_MS", "10000", u64::MAX) {
            Ok(n) => n,
            Err(e) => return Err(e),
        };
        let max_ms = match read_number(vars, "SANDBOX_MAX_TIMEOUT_MS", "30000", u64::MAX) {
            Ok(n) => n,
            Err(e) => return Err(e),
        };
        let pids = match read_number(vars, "SANDBOX_PIDS_LIMIT", "128", u32::MAX as u64) {
            Ok(n) => n,
            Err(e) => return Err(e),
        };
        Ok(
            Config {
                bind_addr: Config::bind_addr_setting(vars),
                docker_bin: setting_value(vars, "SANDBOX_DOCKER_BIN", "docker"),
                tmp_dir: setting_value(vars, "SANDBOX_TMP_DIR", temp_dir),
                max_code_bytes: max_code_bytes as usize,
                max_stdin_bytes: max_stdin_bytes as usize,
                max_output_bytes: max_output_bytes as usize,
                default_timeout: Timeout::from_millis(default_ms),
                max_timeout: Timeout::from_millis(max_ms),
                memory: setting_value(vars, "SANDBOX_MEMORY", "1024m"),
                cpus: setting_value(vars, "SANDBOX_CPUS", "1.0"),
                pids_limit: pids as u32,
            },
        )
    }
}

impl Config {
    /// The settings that `vars` give, where `address` is the outcome of parsing the
    /// listening address (`bind_addr_setting`) as a socket address: `Err` carries the
    /// parser's reason. A refused address is reported before any other setting.
    pub fn from_vars_with_address(
        vars: &Vec<(String, String)>,
        temp_dir: &str,
        address: Result<(), String>,
    ) -> (r: Result<Config, AppError>)
        ensures
            match config_with_address(
                vars_view(vars@),
                temp_dir@,
                match address {
                    Ok(()) => Ok(()),
                    Err(reason) => Err(reason@),
                },
            ) {
                Ok(v) => r matches Ok(c) && c@ == v,
                Err(t) => r matches Err(AppError::Config(m)) && m@ == t,
            },
            address is Err ==> r is Err,
            r matches Ok(c) ==> settings_given(vars_view(vars@), temp_dir@, c@),
    {
        match address {
            Err(reason) => {
                let value = Config::bind_addr_setting(vars);
                Err(invalid_setting("SANDBOX_BIND_ADDR", value.as_str(), reason.as_str()))
            },
            Ok(()) => Config::from_vars(vars, temp_dir),
        }
    }
}

} // verus!
