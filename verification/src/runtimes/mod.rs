use vstd::prelude::*;

use crate::error::AppError;
use crate::models::LanguageInfo;
use naming::{lemma_plain_name_normal, lemma_registry_well_formed, names_of};
use crate::text::{
    all_white_space, ascii_lower, chars_equal, chars_of, eq_ignore_ascii_case, lemma_trim_ignores_padding,
    lemma_trim_lower_commute, lower_ascii, trim, trim_chars,
};

pub mod deno;
pub mod mainstream;
pub mod naming;
pub mod python;

verus! {

/// How a language is run: the container image, the file the code is written to, the
/// command that runs it and the environment it runs in.
#[derive(Debug, Clone, Copy)]
pub struct RuntimeSpec {
    pub id: &'static str,
    pub aliases: &'static [&'static str],
    pub image: &'static str,
    pub file_name: &'static str,
    pub command: &'static [&'static str],
    pub env: &'static [(&'static str, &'static str)],
}

/// A runtime as text.
pub struct RuntimeView {
    pub id: Seq<char>,
    pub aliases: Seq<Seq<char>>,
    pub image: Seq<char>,
    pub file_name: Seq<char>,
    pub command: Seq<Seq<char>>,
    pub env: Seq<(Seq<char>, Seq<char>)>,
}

impl View for RuntimeSpec {
    type V = RuntimeView;

    open spec fn view(&self) -> RuntimeView {
        RuntimeView {
            id: self.id@,
            aliases: self.aliases@.map_values(|a: &str| a@),
            image: self.image@,
            file_name: self.file_name@,
            command: self.command@.map_values(|a: &str| a@),
            env: self.env@.map_values(|kv: (&str, &str)| (kv.0@, kv.1@)),
        }
    }
}

/// The supported runtimes, in the order in which a language name is looked up.
pub open spec fn registry() -> Seq<RuntimeView> {
    seq![
        deno::javascript(),
        deno::typescript(),
        python::python(),
        mainstream::bash(),
        mainstream::c(),
        mainstream::cpp(),
        mainstream::csharp(),
        mainstream::go(),
        mainstream::java(),
        mainstream::node(),
        mainstream::perl(),
        mainstream::php(),
        mainstream::r(),
        mainstream::rust(),
        mainstream::swift(),
    ]
}

/// A language name as it is looked up: without surrounding white space, in ASCII lower case.
pub open spec fn normalize(name: Seq<char>) -> Seq<char> {
    ascii_lower(trim(name))
}

/// Whether the runtime answers to the normalized name: by its id, or by an alias
/// compared without ASCII case.
pub open spec fn answers_to(r: RuntimeView, name: Seq<char>) -> bool {
    ||| r.id == name
    ||| exists|i: int| 0 <= i < r.aliases.len() && eq_ignore_ascii_case(#[trigger] r.aliases[i], name)
}

/// Whether `i` is the first runtime of `rs` that answers to `name`.
pub open spec fn is_first_match(rs: Seq<RuntimeView>, name: Seq<char>, i: int) -> bool {
    &&& 0 <= i < rs.len()
    &&& answers_to(rs[i], name)
    &&& forall|j: int| 0 <= j < i ==> !answers_to(#[trigger] rs[j], name)
}

/// Whether `info` lists the runtime `r`: its id and its aliases, in order.
pub open spec fn describes(info: LanguageInfo, r: RuntimeView) -> bool {
    &&& info.id@ == r.id
    &&& info.aliases@.map_values(|a: String| a@) == r.aliases
}

impl RuntimeSpec {
    /// The public description of this runtime.
    pub fn info(self) -> (info: LanguageInfo)
        ensures
            describes(info, self@),
    {
        let mut aliases: Vec<String> = Vec::new();
        let mut k: usize = 0;
        while k < self.aliases.len()
            invariant
                0 <= k <= self.aliases@.len(),
                aliases@.map_values(|a: String| a@) =~= self@.aliases.take(k as int),
            decreases self.aliases@.len() - k,
        {
            let alias = self.aliases[k].to_owned();
            let ghost before = aliases@;
            aliases.push(alias);
            assert(aliases@ == before.push(alias));
            assert(aliases@.map_values(|a: String| a@) =~= before.map_values(|a: String| a@).push(
                alias@,
            ));
            assert(self@.aliases.take(k + 1) =~= self@.aliases.take(k as int).push(
                self.aliases@[k as int]@,
            ));
            k = k + 1;
        }
        assert(self@.aliases.take(self.aliases@.len() as int) =~= self@.aliases);
        LanguageInfo { id: self.id.to_owned(), aliases }
    }
}

/// Every supported runtime.
pub fn all() -> (rts: &'static [RuntimeSpec])
    ensures
        rts@.map_values(|r: RuntimeSpec| r@) == registry(),
{
    let rts: &'static [RuntimeSpec] = &[
        RuntimeSpec {
            id: "javascript",
            aliases: &["js"],
            image: "denoland/deno:alpine",
            file_name: "main.js",
            command: &[
                "deno",
                "run",
                "--no-prompt",
                "--cached-only",
                "--v8-flags=--max-old-space-size=96",
                "/workspace/main.js",
            ],
            env: &[("DENO_DIR", "/tmp/deno"), ("NO_COLOR", "1")],
        },
        RuntimeSpec {
            id: "typescript",
            aliases: &["ts"],
            image: "denoland/deno:alpine",
            file_name: "main.ts",
            command: &[
                "deno",
                "run",
                "--no-prompt",
                "--cached-only",
                "--v8-flags=--max-old-space-size=96",
                "/workspace/main.ts",
            ],
            env: &[("DENO_DIR", "/tmp/deno"), ("NO_COLOR", "1")],
        },
        RuntimeSpec {
            id: "python",
            aliases: &["py"],
            image: "python:3.14-alpine",
            file_name: "main.py",
            command: &[
                "python",
                "-I",
                "-B",
                "/workspace/main.py",
            ],
            env: &[("PYTHONDONTWRITEBYTECODE", "1"), ("PYTHONUNBUFFERED", "1")],
        },
        RuntimeSpec {
            id: "bash",
            aliases: &["sh", "shell"],
            image: "bash:5.3-alpine3.23",
            file_name: "main.sh",
            command: &[
                "bash",
                "/workspace/main.sh",
            ],
            env: &[],
        },
        RuntimeSpec {
            id: "c",
            aliases: &["c99", "c11", "c17"],
            image: "gcc:15",
            file_name: "main.c",
            command: &[
                "sh",
                "-lc",
                "gcc -std=c17 -O0 -pipe /workspace/main.c -o /sandbox/main && /sandbox/main",
            ],
            env: &[],
        },
        RuntimeSpec {
            id: "cpp",
            aliases: &["c++", "cc", "cxx"],
            image: "gcc:15",
            file_name: "main.cpp",
            command: &[
                "sh",
                "-lc",
                "g++ -std=c++23 -O0 -pipe /workspace/main.cpp -o /sandbox/main && /sandbox/main",
            ],
            env: &[],
        },
        RuntimeSpec {
            id: "csharp",
            aliases: &["cs", "c#"],
            image: "mcr.microsoft.com/dotnet/sdk:10.0.102-noble",
            file_name: "Program.cs",
            command: &[
                "sh",
                "-lc",
                "mkdir -p /sandbox/app && cd /sandbox/app && dotnet new console --force >/dev/null && cp /workspace/Program.cs Program.cs && dotnet run --no-launch-profile",
            ],
            env: &[("DOTNET_CLI_HOME", "/tmp"), ("DOTNET_NOLOGO", "1"), ("DOTNET_SKIP_FIRST_TIME_EXPERIENCE", "1")],
        },
        RuntimeSpec {
            id: "go",
            aliases: &["golang"],
            image: "golang:1.26-alpine",
            file_name: "main.go",
            command: &[
                "sh",
                "-lc",
                "GOCACHE=/tmp/go-cache go build -o /sandbox/main /workspace/main.go && /sandbox/main",
            ],
            env: &[("HOME", "/tmp")],
        },
        RuntimeSpec {
            id: "java",
            aliases: &["jdk"],
            image: "eclipse-temurin:21-jdk-alpine",
            file_name: "Main.java",
            command: &[
                "sh",
                "-lc",
                "javac -d /sandbox /workspace/Main.java && java -cp /sandbox Main",
            ],
            env: &[("HOME", "/tmp")],
        },
        RuntimeSpec {
            id: "node",
            aliases: &["nodejs"],
            image: "node:25-alpine",
            file_name: "main.mjs",
            command: &[
                "node",
                "/workspace/main.mjs",
            ],
            env: &[("NO_COLOR", "1")],
        },
        RuntimeSpec {
            id: "perl",
            aliases: &["pl"],
            image: "perl:5.42-slim",
            file_name: "main.pl",
            command: &[
                "perl",
                "/workspace/main.pl",
            ],
            env: &[],
        },
        RuntimeSpec {
            id: "php",
            aliases: &[],
            image: "php:8.4-cli-alpine",
            file_name: "main.php",
            command: &[
                "php",
                "/workspace/main.php",
            ],
            env: &[],
        },
        RuntimeSpec {
            id: "r",
            aliases: &["rscript"],
            image: "r-base:4.5.3",
            file_name: "main.R",
            command: &[
                "Rscript",
                "/workspace/main.R",
            ],
            env: &[("HOME", "/tmp")],
        },
        RuntimeSpec {
            id: "rust",
            aliases: &["rs"],
            image: "rust:1.95.0-alpine3.22",
            file_name: "main.rs",
            command: &[
                "sh",
                "-lc",
                "rustc --edition=2024 /workspace/main.rs -o /sandbox/main && /sandbox/main",
            ],
            env: &[("CARGO_HOME", "/tmp/cargo"), ("RUSTUP_HOME", "/tmp/rustup")],
        },
        RuntimeSpec {
            id: "swift",
            aliases: &[],
            image: "swift:6.3-noble",
            file_name: "main.swift",
            command: &[
                "sh",
                "-lc",
                "swiftc /workspace/main.swift -o /sandbox/main && /sandbox/main",
            ],
            env: &[("HOME", "/tmp")],
        },
    ];
    assert(rts@.len() == 15);
    assert(rts@[0]@.aliases =~= deno::javascript().aliases);
    assert(rts@[0]@.command =~= deno::javascript().command);
    assert(rts@[0]@.env =~= deno::javascript().env);
    assert(rts@[1]@.aliases =~= deno::typescript().aliases);
    assert(rts@[1]@.command =~= deno::typescript().command);
    assert(rts@[1]@.env =~= deno::typescript().env);
    assert(rts@[2]@.aliases =~= python::python().aliases);
    assert(rts@[2]@.command =~= python::python().command);
    assert(rts@[2]@.env =~= python::python().env);
    assert(rts@[3]@.aliases =~= mainstream::bash().aliases);
    assert(rts@[3]@.command =~= mainstream::bash().command);
    assert(rts@[3]@.env =~= mainstream::bash().env);
    assert(rts@[4]@.aliases =~= mainstream::c().aliases);
    assert(rts@[4]@.command =~= mainstream::c().command);
    assert(rts@[4]@.env =~= mainstream::c().env);
    assert(rts@[5]@.aliases =~= mainstream::cpp().aliases);
    assert(rts@[5]@.command =~= mainstream::cpp().command);
    assert(rts@[5]@.env =~= mainstream::cpp().env);
    assert(rts@[6]@.aliases =~= mainstream::csharp().aliases);
    assert(rts@[6]@.command =~= mainstream::csharp().command);
    assert(rts@[6]@.env =~= mainstream::csharp().env);
    assert(rts@[7]@.aliases =~= mainstream::go().aliases);
    assert(rts@[7]@.command =~= mainstream::go().command);
    assert(rts@[7]@.env =~= mainstream::go().env);
    assert(rts@[8]@.aliases =~= mainstream::java().aliases);
    assert(rts@[8]@.command =~= mainstream::java().command);
    assert(rts@[8]@.env =~= mainstream::java().env);
    assert(rts@[9]@.aliases =~= mainstream::node().aliases);
    assert(rts@[9]@.command =~= mainstream::node().command);
    assert(rts@[9]@.env =~= mainstream::node().env);
    assert(rts@[10]@.aliases =~= mainstream::perl().aliases);
    assert(rts@[10]@.command =~= mainstream::perl().command);
    assert(rts@[10]@.env =~= mainstream::perl().env);
    assert(rts@[11]@.aliases =~= mainstream::php().aliases);
    assert(rts@[11]@.command =~= mainstream::php().command);
    assert(rts@[11]@.env =~= mainstream::php().env);
    assert(rts@[12]@.aliases =~= mainstream::r().aliases);
    assert(rts@[12]@.command =~= mainstream::r().command);
    assert(rts@[12]@.env =~= mainstream::r().env);
    assert(rts@[13]@.aliases =~= mainstream::rust().aliases);
    assert(rts@[13]@.command =~= mainstream::rust().command);
    assert(rts@[13]@.env =~= mainstream::rust().env);
    assert(rts@[14]@.aliases =~= mainstream::swift().aliases);
    assert(rts@[14]@.command =~= mainstream::swift().command);
    assert(rts@[14]@.env =~= mainstream::swift().env);
    assert(rts@.map_values(|r: RuntimeSpec| r@) =~= registry());
    rts
}


/// The public description of every supported runtime, in registry order.
pub fn list() -> (infos: Vec<LanguageInfo>)
    ensures
        infos@.len() == registry().len(),
        forall|i: int| 0 <= i < infos@.len() ==> describes(#[trigger] infos@[i], registry()[i]),
{
    let rts = all();
    let mut infos: Vec<LanguageInfo> = Vec::new();
    let mut k: usize = 0;
    while k < rts.len()
        invariant
            0 <= k <= rts@.len(),
            rts@.map_values(|r: RuntimeSpec| r@) == registry(),
            infos@.len() == k,
            forall|i: int| 0 <= i < k ==> describes(#[trigger] infos@[i], registry()[i]),
        decreases rts@.len() - k,
    {
        let rt = rts[k];
        assert(rt@ == registry()[k as int]);
        infos.push(rt.info());
        k = k + 1;
    }
    infos
}

/// Whether the runtime answers to the normalized name `name`.
fn answers(rt: &RuntimeSpec, name: &Vec<char>) -> (b: bool)
    ensures
        b == answers_to(rt@, name@),
{
    if chars_equal(&chars_of(rt.id), name) {
        return true;
    }
    let lowered = lower_ascii(name);
    let mut k: usize = 0;
    while k < rt.aliases.len()
        invariant
            0 <= k <= rt.aliases@.len(),
            lowered@ == ascii_lower(name@),
            forall|i: int| 0 <= i < k ==> !eq_ignore_ascii_case(#[trigger] rt@.aliases[i], name@),
        decreases rt.aliases@.len() - k,
    {
        let alias = lower_ascii(&chars_of(rt.aliases[k]));
        if chars_equal(&alias, &lowered) {
            assert(eq_ignore_ascii_case(rt@.aliases[k as int], name@));
            return true;
        }
        k = k + 1;
    }
    false
}

/// Looks a language up by name, ignoring surrounding white space and ASCII case: the first
/// runtime whose id is the normalized name, or one of whose aliases equals it without case.
pub fn resolve(language: &str) -> (r: Result<RuntimeSpec, AppError>)
    ensures
        match r {
            Ok(rt) => exists|i: int|
                is_first_match(registry(), normalize(language@), i) && rt@ == #[trigger] registry()[i],
            Err(e) => (e matches AppError::UnsupportedLanguage(s) && s@ == language@) && forall|i: int|
                0 <= i < registry().len() ==> !answers_to(#[trigger] registry()[i], normalize(language@)),
        },
{
    let normalized = lower_ascii(&trim_chars(&chars_of(language)));
    let rts = all();
    let mut k: usize = 0;
    while k < rts.len()
        invariant
            0 <= k <= rts@.len(),
            rts@.map_values(|r: RuntimeSpec| r@) == registry(),
            normalized@ == normalize(language@),
            forall|i: int| 0 <= i < k ==> !answers_to(#[trigger] registry()[i], normalize(language@)),
        decreases rts@.len() - k,
    {
        let rt = rts[k];
        assert(rt@ == registry()[k as int]);
        if answers(&rt, &normalized) {
            assert(is_first_match(registry(), normalize(language@), k as int));
            return Ok(rt);
        }
        k = k + 1;
    }
    Err(AppError::UnsupportedLanguage(language.to_owned()))
}


/// A language is looked up without regard to white space around its name or to the case
/// of its ASCII letters: a name padded with white space and spelt in other case is looked up
/// as the name itself.
pub proof fn lemma_lookup_ignores_space_and_case(
    name: Seq<char>,
    spelling: Seq<char>,
    before: Seq<char>,
    after: Seq<char>,
)
    requires
        eq_ignore_ascii_case(name, spelling),
        all_white_space(before),
        all_white_space(after),
    ensures
        normalize(before + spelling + after) == normalize(name),
        forall|i: int|
            is_first_match(registry(), normalize(before + spelling + after), i) == is_first_match(
                registry(),
                normalize(name),
                i,
            ),
{
    lemma_trim_ignores_padding(before, spelling, after);
    lemma_trim_lower_commute(spelling);
    lemma_trim_lower_commute(name);
}


/// Every registered runtime is found by its id and by each of its aliases.
pub proof fn lemma_registered_names_resolve(i: int, name: Seq<char>)
    requires
        0 <= i < registry().len(),
        names_of(registry()[i]).contains(name),
    ensures
        is_first_match(registry(), normalize(name), i),
{
    let rs = registry();
    lemma_registry_well_formed();
    let k = choose|k: int| 0 <= k < names_of(rs[i]).len() && names_of(rs[i])[k] == name;
    lemma_plain_name_normal(name);
    if k > 0 {
        assert(rs[i].aliases[k - 1] == name);
        assert(eq_ignore_ascii_case(rs[i].aliases[k - 1], name));
    }
    assert forall|j: int| 0 <= j < i implies !answers_to(#[trigger] rs[j], normalize(name)) by {
        assert(names_of(rs[j])[0] == rs[j].id);
        if rs[j].id == name {
            assert(names_of(rs[j])[0] == names_of(rs[i])[k]);
        }
        assert forall|m: int| 0 <= m < rs[j].aliases.len() implies !eq_ignore_ascii_case(
            #[trigger] rs[j].aliases[m],
            name,
        ) by {
            let a = rs[j].aliases[m];
            assert(names_of(rs[j])[m + 1] == a);
            lemma_plain_name_normal(a);
            if ascii_lower(a) == ascii_lower(name) {
                assert(names_of(rs[j])[m + 1] == names_of(rs[i])[k]);
            }
        }
    }
}


/// Whether `spelling` writes `name` with some of its ASCII lower-case letters in upper case:
/// the same length, and at each place the same character, or the upper-case letter 32 code
/// points below a lower-case one.
pub open spec fn case_variant(spelling: Seq<char>, name: Seq<char>) -> bool {
    &&& spelling.len() == name.len()
    &&& forall|k: int|
        0 <= k < name.len() ==> #[trigger] spelling[k] == name[k] || ('a' <= name[k] <= 'z'
            && spelling[k] as u32 + 32 == name[k] as u32)
}

/// Every registered runtime is found by its id and by each of its aliases written in any
/// mix of ASCII upper and lower case.
pub proof fn lemma_any_case_resolves(i: int, name: Seq<char>, spelling: Seq<char>)
    requires
        0 <= i < registry().len(),
        names_of(registry()[i]).contains(name),
        case_variant(spelling, name),
    ensures
        is_first_match(registry(), normalize(spelling), i),
{
    lemma_registry_well_formed();
    let rs = registry();
    let k = choose|k: int| 0 <= k < names_of(rs[i]).len() && names_of(rs[i])[k] == name;
    assert(naming::is_plain_name(name));
    lemma_plain_name_normal(name);
    assert forall|m: int| 0 <= m < spelling.len() implies crate::text::lower_char(
        #[trigger] spelling[m],
    ) == name[m] by {
        crate::text::lemma_lower_char_shifts_upper(spelling[m]);
        crate::text::lemma_lower_char_shifts_upper(name[m]);
        if spelling[m] != name[m] {
            assert(spelling[m] as u32 + 32 == name[m] as u32);
            assert('A' <= spelling[m] <= 'Z');
            assert(crate::text::lower_char(spelling[m]) as u32 == name[m] as u32);
        }
    }
    assert(ascii_lower(spelling) =~= name);
    // Upper-case ASCII letters are no white space, so the ends of the spelling are none.
    crate::text::lemma_lower_char_shifts_upper(spelling[0]);
    crate::text::lemma_lower_char_shifts_upper(spelling.last());
    assert(spelling[0] == name[0] || 'A' <= spelling[0] <= 'Z');
    assert(spelling.last() == name[name.len() - 1] || 'A' <= spelling.last() <= 'Z');
    assert(trim(spelling) == spelling);
    assert(normalize(spelling) == name);
    lemma_registered_names_resolve(i, name);
}

} // verus!
