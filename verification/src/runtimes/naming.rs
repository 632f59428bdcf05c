use vstd::prelude::*;

use super::{deno, mainstream, python, registry, RuntimeView};
use crate::text::{ascii_lower, eq_ignore_ascii_case, is_white_space};

verus! {

/// The names a runtime answers to: its id, then its aliases.
pub open spec fn names_of(r: RuntimeView) -> Seq<Seq<char>> {
    seq![r.id] + r.aliases
}

/// A name that looks itself up: not empty, without white space at its ends and without
/// ASCII upper-case letters.
pub open spec fn is_plain_name(s: Seq<char>) -> bool {
    &&& s.len() > 0
    &&& !is_white_space(s[0])
    &&& !is_white_space(s.last())
    &&& forall|k: int| 0 <= k < s.len() ==> !('A' <= #[trigger] s[k] <= 'Z')
}

/// Whether the runtime's command names the file that the code is written to, at the place
/// where the workspace is mounted.
pub open spec fn mentions_source(r: RuntimeView) -> bool {
    let path = "/workspace/"@ + r.file_name;
    exists|c: int, p: int|
        0 <= c < r.command.len() && 0 <= p && p + path.len() <= r.command[c].len()
            && #[trigger] r.command[c].subrange(p, p + path.len()) == path
}

/// Whether `s` ends with `t`.
pub open spec fn ends_with(s: Seq<char>, t: Seq<char>) -> bool {
    t.len() <= s.len() && s.subrange(s.len() - t.len(), s.len() as int) == t
}

/// Whether the runtime's command ends by running the code: its last word is the source file
/// itself, handed to an interpreter, or a shell script whose last step runs what the script
/// built: the program `/sandbox/main`, the Java class `Main`, or the .NET project.
pub open spec fn runs_code(r: RuntimeView) -> bool {
    let last = r.command.last();
    &&& r.command.len() > 0
    &&& {
        ||| last == "/workspace/"@ + r.file_name
        ||| ends_with(last, " && /sandbox/main"@)
        ||| ends_with(last, " && java -cp /sandbox Main"@)
        ||| ends_with(last, " && dotnet run --no-launch-profile"@)
    }
}

/// A number that tells the registered names apart: length, first, second and last character.
spec fn name_code(s: Seq<char>) -> int {
    let second: int = if s.len() > 1 {
        s[1] as int
    } else {
        0
    };
    ((s.len() * 1114112 + s[0] as int) * 1114112 + second) * 1114112 + s.last() as int
}

/// The runtime that a registered name belongs to.
spec fn owner(s: Seq<char>) -> int {
    let c = name_code(s);
    if c == 13828997177930743924 {
        0
    } else if c == 2765904693315174515 {
        0
    } else if c == 13829009590412968052 {
        1
    } else if c == 2765917105770659955 {
        1
    } else if c == 8297458383112962158 {
        2
    } else if c == 2765912140795150457 {
        2
    } else if c == 5531667884489637992 {
        3
    } else if c == 2765915864512856168 {
        3
    } else if c == 6914575546251214956 {
        3
    } else if c == 1383009443888758883 {
        4
    } else if c == 4148782565111169081 {
        4
    } else if c == 4148782565102256177 {
        4
    } else if c == 4148782565102256183 {
        4
    } else if c == 4148782565172445296 {
        5
    } else if c == 4148782565095571499 {
        5
    } else if c == 2765896004578508899 {
        5
    } else if c == 4148782565181358200 {
        5
    } else if c == 8297442246914146416 {
        6
    } else if c == 2765896004596334707 {
        6
    } else if c == 2765896004507205667 {
        6
    } else if c == 2765900969574072431 {
        7
    } else if c == 8297447211891884135 {
        7
    } else if c == 5531677814454026337 {
        8
    } else if c == 4148791253877915755 {
        8
    } else if c == 5531682779451818085 {
        9
    } else if c == 8297455900610723955 {
        9
    } else if c == 5531685261931774060 {
        10
    } else if c == 2765912140780666988 {
        10
    } else if c == 4148798701355663472 {
        11
    } else if c == 1383028062571987058 {
        12
    } else if c == 9680347426176827508 {
        12
    } else if c == 5531687744440696948 {
        13
    } else if c == 2765914623279562867 {
        13
    } else if c == 6914575546267926644 {
        14
    } else {
        -1
    }
}

proof fn lemma_names_javascript()
    ensures
        forall|k: int|
            0 <= k < names_of(deno::javascript()).len() ==> is_plain_name(#[trigger] names_of(deno::javascript())[k]) && owner(
                names_of(deno::javascript())[k],
            ) == 0,
        deno::javascript().image.len() > 0,
        deno::javascript().file_name.len() > 0,
        mentions_source(deno::javascript()),
        runs_code(deno::javascript()),
{
    reveal_strlit("/workspace/");
    reveal_strlit("/workspace/main.js");
    reveal_strlit("denoland/deno:alpine");
    reveal_strlit("javascript");
    reveal_strlit("js");
    reveal_strlit("main.js");
    assert("/workspace/"@ =~= seq!['/', 'w', 'o', 'r', 'k', 's', 'p', 'a', 'c', 'e', '/']);
    assert("/workspace/main.js"@ =~= seq!['/', 'w', 'o', 'r', 'k', 's', 'p', 'a', 'c', 'e', '/', 'm', 'a', 'i', 'n', '.', 'j', 's']);
    assert("javascript"@ =~= seq!['j', 'a', 'v', 'a', 's', 'c', 'r', 'i', 'p', 't']);
    assert("js"@ =~= seq!['j', 's']);
    assert("main.js"@ =~= seq!['m', 'a', 'i', 'n', '.', 'j', 's']);
    let r = deno::javascript();
    assert(names_of(r) =~= seq!["javascript"@, "js"@]);
    assert(is_plain_name(names_of(r)[0]) && owner(names_of(r)[0]) == 0);
    assert(is_plain_name(names_of(r)[1]) && owner(names_of(r)[1]) == 0);
    assert(r.command.last() =~= "/workspace/"@ + r.file_name);
    let path = "/workspace/"@ + r.file_name;
    assert(path.len() == 18);
    assert(r.command[5].subrange(0, 0int + path.len()) =~= path);
}

proof fn lemma_names_typescript()
    ensures
        forall|k: int|
            0 <= k < names_of(deno::typescript()).len() ==> is_plain_name(#[trigger] names_of(deno::typescript())[k]) && owner(
                names_of(deno::typescript())[k],
            ) == 1,
        deno::typescript().image.len() > 0,
        deno::typescript().file_name.len() > 0,
        mentions_source(deno::typescript()),
        runs_code(deno::typescript()),
{
    reveal_strlit("/workspace/");
    reveal_strlit("/workspace/main.ts");
    reveal_strlit("denoland/deno:alpine");
    reveal_strlit("main.ts");
    reveal_strlit("ts");
    reveal_strlit("typescript");
    assert("/workspace/"@ =~= seq!['/', 'w', 'o', 'r', 'k', 's', 'p', 'a', 'c', 'e', '/']);
    assert("/workspace/main.ts"@ =~= seq!['/', 'w', 'o', 'r', 'k', 's', 'p', 'a', 'c', 'e', '/', 'm', 'a', 'i', 'n', '.', 't', 's']);
    assert("main.ts"@ =~= seq!['m', 'a', 'i', 'n', '.', 't', 's']);
    assert("ts"@ =~= seq!['t', 's']);
    assert("typescript"@ =~= seq!['t', 'y', 'p', 'e', 's', 'c', 'r', 'i', 'p', 't']);
    let r = deno::typescript();
    assert(names_of(r) =~= seq!["typescript"@, "ts"@]);
    assert(is_plain_name(names_of(r)[0]) && owner(names_of(r)[0]) == 1);
    assert(is_plain_name(names_of(r)[1]) && owner(names_of(r)[1]) == 1);
    assert(r.command.last() =~= "/workspace/"@ + r.file_name);
    let path = "/workspace/"@ + r.file_name;
    assert(path.len() == 18);
    assert(r.command[5].subrange(0, 0int + path.len()) =~= path);
}

proof fn lemma_names_python()
    ensures
        forall|k: int|
            0 <= k < names_of(python::python()).len() ==> is_plain_name(#[trigger] names_of(python::python())[k]) && owner(
                names_of(python::python())[k],
            ) == 2,
        python::python().image.len() > 0,
        python::python().file_name.len() > 0,
        mentions_source(python::python()),
        runs_code(python::python()),
{
    reveal_strlit("/workspace/");
    reveal_strlit("/workspace/main.py");
    reveal_strlit("main.py");
    reveal_strlit("py");
    reveal_strlit("python");
    reveal_strlit("python:3.14-alpine");
    assert("/workspace/"@ =~= seq!['/', 'w', 'o', 'r', 'k', 's', 'p', 'a', 'c', 'e', '/']);
    assert("/workspace/main.py"@ =~= seq!['/', 'w', 'o', 'r', 'k', 's', 'p', 'a', 'c', 'e', '/', 'm', 'a', 'i', 'n', '.', 'p', 'y']);
    assert("main.py"@ =~= seq!['m', 'a', 'i', 'n', '.', 'p', 'y']);
    assert("py"@ =~= seq!['p', 'y']);
    assert("python"@ =~= seq!['p', 'y', 't', 'h', 'o', 'n']);
    let r = python::python();
    assert(names_of(r) =~= seq!["python"@, "py"@]);
    assert(is_plain_name(names_of(r)[0]) && owner(names_of(r)[0]) == 2);
    assert(is_plain_name(names_of(r)[1]) && owner(names_of(r)[1]) == 2);
    assert(r.command.last() =~= "/workspace/"@ + r.file_name);
    let path = "/workspace/"@ + r.file_name;
    assert(path.len() == 18);
    assert(r.command[3].subrange(0, 0int + path.len()) =~= path);
}

proof fn lemma_names_bash()
    ensures
        forall|k: int|
            0 <= k < names_of(mainstream::bash()).len() ==> is_plain_name(#[trigger] names_of(mainstream::bash())[k]) && owner(
                names_of(mainstream::bash())[k],
            ) == 3,
        mainstream::bash().image.len() > 0,
        mainstream::bash().file_name.len() > 0,
        mentions_source(mainstream::bash()),
        runs_code(mainstream::bash()),
{
    reveal_strlit("/workspace/");
    reveal_strlit("/workspace/main.sh");
    reveal_strlit("bash");
    reveal_strlit("bash:5.3-alpine3.23");
    reveal_strlit("main.sh");
    reveal_strlit("sh");
    reveal_strlit("shell");
    assert("/workspace/"@ =~= seq!['/', 'w', 'o', 'r', 'k', 's', 'p', 'a', 'c', 'e', '/']);
    assert("/workspace/main.sh"@ =~= seq!['/', 'w', 'o', 'r', 'k', 's', 'p', 'a', 'c', 'e', '/', 'm', 'a', 'i', 'n', '.', 's', 'h']);
    assert("bash"@ =~= seq!['b', 'a', 's', 'h']);
    assert("main.sh"@ =~= seq!['m', 'a', 'i', 'n', '.', 's', 'h']);
    assert("sh"@ =~= seq!['s', 'h']);
    assert("shell"@ =~= seq!['s', 'h', 'e', 'l', 'l']);
    let r = mainstream::bash();
    assert(names_of(r) =~= seq!["bash"@, "sh"@, "shell"@]);
    assert(is_plain_name(names_of(r)[0]) && owner(names_of(r)[0]) == 3);
    assert(is_plain_name(names_of(r)[1]) && owner(names_of(r)[1]) == 3);
    assert(is_plain_name(names_of(r)[2]) && owner(names_of(r)[2]) == 3);
    assert(r.command.last() =~= "/workspace/"@ + r.file_name);
    let path = "/workspace/"@ + r.file_name;
    assert(path.len() == 18);
    assert(r.command[1].subrange(0, 0int + path.len()) =~= path);
}

proof fn lemma_names_c()
    ensures
        forall|k: int|
            0 <= k < names_of(mainstream::c()).len() ==> is_plain_name(#[trigger] names_of(mainstream::c())[k]) && owner(
                names_of(mainstream::c())[k],
            ) == 4,
        mainstream::c().image.len() > 0,
        mainstream::c().file_name.len() > 0,
        mentions_source(mainstream::c()),
        runs_code(mainstream::c()),
{
    reveal_strlit(" && /sandbox/main");
    reveal_strlit("/workspace/");
    reveal_strlit("c");
    reveal_strlit("c11");
    reveal_strlit("c17");
    reveal_strlit("c99");
    reveal_strlit("gcc -std=c17 -O0 -pipe /workspace/main.c -o /sandbox/main && /sandbox/main");
    reveal_strlit("gcc:15");
    reveal_strlit("main.c");
    assert(" && /sandbox/main"@ =~= seq![' ', '&', '&', ' ', '/', 's', 'a', 'n', 'd', 'b', 'o', 'x', '/', 'm', 'a', 'i', 'n']);
    assert("/workspace/"@ =~= seq!['/', 'w', 'o', 'r', 'k', 's', 'p', 'a', 'c', 'e', '/']);
    assert("c"@ =~= seq!['c']);
    assert("c11"@ =~= seq!['c', '1', '1']);
    assert("c17"@ =~= seq!['c', '1', '7']);
    assert("c99"@ =~= seq!['c', '9', '9']);
    assert("gcc -std=c17 -O0 -pipe /workspace/main.c -o /sandbox/main && /sandbox/main"@ =~= seq!['g', 'c', 'c', ' ', '-', 's', 't', 'd', '=', 'c', '1', '7', ' ', '-', 'O', '0', ' ', '-', 'p', 'i', 'p', 'e', ' ', '/', 'w', 'o', 'r', 'k', 's', 'p', 'a', 'c', 'e', '/', 'm', 'a', 'i', 'n', '.', 'c', ' ', '-', 'o', ' ', '/', 's', 'a', 'n', 'd', 'b', 'o', 'x', '/', 'm', 'a', 'i', 'n', ' ', '&', '&', ' ', '/', 's', 'a', 'n', 'd', 'b', 'o', 'x', '/', 'm', 'a', 'i', 'n']);
    assert("main.c"@ =~= seq!['m', 'a', 'i', 'n', '.', 'c']);
    let r = mainstream::c();
    assert(names_of(r) =~= seq!["c"@, "c99"@, "c11"@, "c17"@]);
    assert(is_plain_name(names_of(r)[0]) && owner(names_of(r)[0]) == 4);
    assert(is_plain_name(names_of(r)[1]) && owner(names_of(r)[1]) == 4);
    assert(is_plain_name(names_of(r)[2]) && owner(names_of(r)[2]) == 4);
    assert(is_plain_name(names_of(r)[3]) && owner(names_of(r)[3]) == 4);
    assert(r.command.last().subrange(r.command.last().len() - " && /sandbox/main"@.len(), r.command.last().len() as int) =~= " && /sandbox/main"@);
    let path = "/workspace/"@ + r.file_name;
    assert(path.len() == 17);
    assert(r.command[2].subrange(23, 23int + path.len()) =~= path);
}

proof fn lemma_names_cpp()
    ensures
        forall|k: int|
            0 <= k < names_of(mainstream::cpp()).len() ==> is_plain_name(#[trigger] names_of(mainstream::cpp())[k]) && owner(
                names_of(mainstream::cpp())[k],
            ) == 5,
        mainstream::cpp().image.len() > 0,
        mainstream::cpp().file_name.len() > 0,
        mentions_source(mainstream::cpp()),
        runs_code(mainstream::cpp()),
{
    reveal_strlit(" && /sandbox/main");
    reveal_strlit("/workspace/");
    reveal_strlit("c++");
    reveal_strlit("cc");
    reveal_strlit("cpp");
    reveal_strlit("cxx");
    reveal_strlit("g++ -std=c++23 -O0 -pipe /workspace/main.cpp -o /sandbox/main && /sandbox/main");
    reveal_strlit("gcc:15");
    reveal_strlit("main.cpp");
    assert(" && /sandbox/main"@ =~= seq![' ', '&', '&', ' ', '/', 's', 'a', 'n', 'd', 'b', 'o', 'x', '/', 'm', 'a', 'i', 'n']);
    assert("/workspace/"@ =~= seq!['/', 'w', 'o', 'r', 'k', 's', 'p', 'a', 'c', 'e', '/']);
    assert("c++"@ =~= seq!['c', '+', '+']);
    assert("cc"@ =~= seq!['c', 'c']);
    assert("cpp"@ =~= seq!['c', 'p', 'p']);
    assert("cxx"@ =~= seq!['c', 'x', 'x']);
    assert("g++ -std=c++23 -O0 -pipe /workspace/main.cpp -o /sandbox/main && /sandbox/main"@ =~= seq!['g', '+', '+', ' ', '-', 's', 't', 'd', '=', 'c', '+', '+', '2', '3', ' ', '-', 'O', '0', ' ', '-', 'p', 'i', 'p', 'e', ' ', '/', 'w', 'o', 'r', 'k', 's', 'p', 'a', 'c', 'e', '/', 'm', 'a', 'i', 'n', '.', 'c', 'p', 'p', ' ', '-', 'o', ' ', '/', 's', 'a', 'n', 'd', 'b', 'o', 'x', '/', 'm', 'a', 'i', 'n', ' ', '&', '&', ' ', '/', 's', 'a', 'n', 'd', 'b', 'o', 'x', '/', 'm', 'a', 'i', 'n']);
    assert("main.cpp"@ =~= seq!['m', 'a', 'i', 'n', '.', 'c', 'p', 'p']);
    let r = mainstream::cpp();
    assert(names_of(r) =~= seq!["cpp"@, "c++"@, "cc"@, "cxx"@]);
    assert(is_plain_name(names_of(r)[0]) && owner(names_of(r)[0]) == 5);
    assert(is_plain_name(names_of(r)[1]) && owner(names_of(r)[1]) == 5);
    assert(is_plain_name(names_of(r)[2]) && owner(names_of(r)[2]) == 5);
    assert(is_plain_name(names_of(r)[3]) && owner(names_of(r)[3]) == 5);
    assert(r.command.last().subrange(r.command.last().len() - " && /sandbox/main"@.len(), r.command.last().len() as int) =~= " && /sandbox/main"@);
    let path = "/workspace/"@ + r.file_name;
    assert(path.len() == 19);
    assert(r.command[2].subrange(25, 25int + path.len()) =~= path);
}

proof fn lemma_names_csharp()
    ensures
        forall|k: int|
            0 <= k < names_of(mainstream::csharp()).len() ==> is_plain_name(#[trigger] names_of(mainstream::csharp())[k]) && owner(
                names_of(mainstream::csharp())[k],
            ) == 6,
        mainstream::csharp().image.len() > 0,
        mainstream::csharp().file_name.len() > 0,
        mentions_source(mainstream::csharp()),
        runs_code(mainstream::csharp()),
{
    reveal_strlit(" && dotnet run --no-launch-profile");
    reveal_strlit("/workspace/");
    reveal_strlit("Program.cs");
    reveal_strlit("c#");
    reveal_strlit("cs");
    reveal_strlit("csharp");
    reveal_strlit("mcr.microsoft.com/dotnet/sdk:10.0.102-noble");
    reveal_strlit("mkdir -p /sandbox/app && cd /sandbox/app && dotnet new console --force >/dev/null && cp /workspace/Program.cs Program.cs && dotnet run --no-launch-profile");
    assert(" && dotnet run --no-launch-profile"@ =~= seq![' ', '&', '&', ' ', 'd', 'o', 't', 'n', 'e', 't', ' ', 'r', 'u', 'n', ' ', '-', '-', 'n', 'o', '-', 'l', 'a', 'u', 'n', 'c', 'h', '-', 'p', 'r', 'o', 'f', 'i', 'l', 'e']);
    assert("/workspace/"@ =~= seq!['/', 'w', 'o', 'r', 'k', 's', 'p', 'a', 'c', 'e', '/']);
    assert("Program.cs"@ =~= seq!['P', 'r', 'o', 'g', 'r', 'a', 'm', '.', 'c', 's']);
    assert("c#"@ =~= seq!['c', '#']);
    assert("cs"@ =~= seq!['c', 's']);
    assert("csharp"@ =~= seq!['c', 's', 'h', 'a', 'r', 'p']);
    assert("mkdir -p /sandbox/app && cd /sandbox/app && dotnet new console --force >/dev/null && cp /workspace/Program.cs Program.cs && dotnet run --no-launch-profile"@ =~= seq!['m', 'k', 'd', 'i', 'r', ' ', '-', 'p', ' ', '/', 's', 'a', 'n', 'd', 'b', 'o', 'x', '/', 'a', 'p', 'p', ' ', '&', '&', ' ', 'c', 'd', ' ', '/', 's', 'a', 'n', 'd', 'b', 'o', 'x', '/', 'a', 'p', 'p', ' ', '&', '&', ' ', 'd', 'o', 't', 'n', 'e', 't', ' ', 'n', 'e', 'w', ' ', 'c', 'o', 'n', 's', 'o', 'l', 'e', ' ', '-', '-', 'f', 'o', 'r', 'c', 'e', ' ', '>', '/', 'd', 'e', 'v', '/', 'n', 'u', 'l', 'l', ' ', '&', '&', ' ', 'c', 'p', ' ', '/', 'w', 'o', 'r', 'k', 's', 'p', 'a', 'c', 'e', '/', 'P', 'r', 'o', 'g', 'r', 'a', 'm', '.', 'c', 's', ' ', 'P', 'r', 'o', 'g', 'r', 'a', 'm', '.', 'c', 's', ' ', '&', '&', ' ', 'd', 'o', 't', 'n', 'e', 't', ' ', 'r', 'u', 'n', ' ', '-', '-', 'n', 'o', '-', 'l', 'a', 'u', 'n', 'c', 'h', '-', 'p', 'r', 'o', 'f', 'i', 'l', 'e']);
    let r = mainstream::csharp();
    assert(names_of(r) =~= seq!["csharp"@, "cs"@, "c#"@]);
    assert(is_plain_name(names_of(r)[0]) && owner(names_of(r)[0]) == 6);
    assert(is_plain_name(names_of(r)[1]) && owner(names_of(r)[1]) == 6);
    assert(is_plain_name(names_of(r)[2]) && owner(names_of(r)[2]) == 6);
    assert(r.command.last().subrange(r.command.last().len() - " && dotnet run --no-launch-profile"@.len(), r.command.last().len() as int) =~= " && dotnet run --no-launch-profile"@);
    let path = "/workspace/"@ + r.file_name;
    assert(path.len() == 21);
    assert(r.command[2].subrange(88, 88int + path.len()) =~= path);
}

proof fn lemma_names_go()
    ensures
        forall|k: int|
            0 <= k < names_of(mainstream::go()).len() ==> is_plain_name(#[trigger] names_of(mainstream::go())[k]) && owner(
                names_of(mainstream::go())[k],
            ) == 7,
        mainstream::go().image.len() > 0,
        mainstream::go().file_name.len() > 0,
        mentions_source(mainstream::go()),
        runs_code(mainstream::go()),
{
    reveal_strlit(" && /sandbox/main");
    reveal_strlit("/workspace/");
    reveal_strlit("GOCACHE=/tmp/go-cache go build -o /sandbox/main /workspace/main.go && /sandbox/main");
    reveal_strlit("go");
    reveal_strlit("golang");
    reveal_strlit("golang:1.26-alpine");
    reveal_strlit("main.go");
    assert(" && /sandbox/main"@ =~= seq![' ', '&', '&', ' ', '/', 's', 'a', 'n', 'd', 'b', 'o', 'x', '/', 'm', 'a', 'i', 'n']);
    assert("/workspace/"@ =~= seq!['/', 'w', 'o', 'r', 'k', 's', 'p', 'a', 'c', 'e', '/']);
    assert("GOCACHE=/tmp/go-cache go build -o /sandbox/main /workspace/main.go && /sandbox/main"@ =~= seq!['G', 'O', 'C', 'A', 'C', 'H', 'E', '=', '/', 't', 'm', 'p', '/', 'g', 'o', '-', 'c', 'a', 'c', 'h', 'e', ' ', 'g', 'o', ' ', 'b', 'u', 'i', 'l', 'd', ' ', '-', 'o', ' ', '/', 's', 'a', 'n', 'd', 'b', 'o', 'x', '/', 'm', 'a', 'i', 'n', ' ', '/', 'w', 'o', 'r', 'k', 's', 'p', 'a', 'c', 'e', '/', 'm', 'a', 'i', 'n', '.', 'g', 'o', ' ', '&', '&', ' ', '/', 's', 'a', 'n', 'd', 'b', 'o', 'x', '/', 'm', 'a', 'i', 'n']);
    assert("go"@ =~= seq!['g', 'o']);
    assert("golang"@ =~= seq!['g', 'o', 'l', 'a', 'n', 'g']);
    assert("main.go"@ =~= seq!['m', 'a', 'i', 'n', '.', 'g', 'o']);
    let r = mainstream::go();
    assert(names_of(r) =~= seq!["go"@, "golang"@]);
    assert(is_plain_name(names_of(r)[0]) && owner(names_of(r)[0]) == 7);
    assert(is_plain_name(names_of(r)[1]) && owner(names_of(r)[1]) == 7);
    assert(r.command.last().subrange(r.command.last().len() - " && /sandbox/main"@.len(), r.command.last().len() as int) =~= " && /sandbox/main"@);
    let path = "/workspace/"@ + r.file_name;
    assert(path.len() == 18);
    assert(r.command[2].subrange(48, 48int + path.len()) =~= path);
}

proof fn lemma_names_java()
    ensures
        forall|k: int|
            0 <= k < names_of(mainstream::java()).len() ==> is_plain_name(#[trigger] names_of(mainstream::java())[k]) && owner(
                names_of(mainstream::java())[k],
            ) == 8,
        mainstream::java().image.len() > 0,
        mainstream::java().file_name.len() > 0,
        mentions_source(mainstream::java()),
        runs_code(mainstream::java()),
{
    reveal_strlit(" && java -cp /sandbox Main");
    reveal_strlit("/workspace/");
    reveal_strlit("Main.java");
    reveal_strlit("eclipse-temurin:21-jdk-alpine");
    reveal_strlit("java");
    reveal_strlit("javac -d /sandbox /workspace/Main.java && java -cp /sandbox Main");
    reveal_strlit("jdk");
    assert(" && java -cp /sandbox Main"@ =~= seq![' ', '&', '&', ' ', 'j', 'a', 'v', 'a', ' ', '-', 'c', 'p', ' ', '/', 's', 'a', 'n', 'd', 'b', 'o', 'x', ' ', 'M', 'a', 'i', 'n']);
    assert("/workspace/"@ =~= seq!['/', 'w', 'o', 'r', 'k', 's', 'p', 'a', 'c', 'e', '/']);
    assert("Main.java"@ =~= seq!['M', 'a', 'i', 'n', '.', 'j', 'a', 'v', 'a']);
    assert("java"@ =~= seq!['j', 'a', 'v', 'a']);
    assert("javac -d /sandbox /workspace/Main.java && java -cp /sandbox Main"@ =~= seq!['j', 'a', 'v', 'a', 'c', ' ', '-', 'd', ' ', '/', 's', 'a', 'n', 'd', 'b', 'o', 'x', ' ', '/', 'w', 'o', 'r', 'k', 's', 'p', 'a', 'c', 'e', '/', 'M', 'a', 'i', 'n', '.', 'j', 'a', 'v', 'a', ' ', '&', '&', ' ', 'j', 'a', 'v', 'a', ' ', '-', 'c', 'p', ' ', '/', 's', 'a', 'n', 'd', 'b', 'o', 'x', ' ', 'M', 'a', 'i', 'n']);
    assert("jdk"@ =~= seq!['j', 'd', 'k']);
    let r = mainstream::java();
    assert(names_of(r) =~= seq!["java"@, "jdk"@]);
    assert(is_plain_name(names_of(r)[0]) && owner(names_of(r)[0]) == 8);
    assert(is_plain_name(names_of(r)[1]) && owner(names_of(r)[1]) == 8);
    assert(r.command.last().subrange(r.command.last().len() - " && java -cp /sandbox Main"@.len(), r.command.last().len() as int) =~= " && java -cp /sandbox Main"@);
    let path = "/workspace/"@ + r.file_name;
    assert(path.len() == 20);
    assert(r.command[2].subrange(18, 18int + path.len()) =~= path);
}

proof fn lemma_names_node()
    ensures
        forall|k: int|
            0 <= k < names_of(mainstream::node()).len() ==> is_plain_name(#[trigger] names_of(mainstream::node())[k]) && owner(
                names_of(mainstream::node())[k],
            ) == 9,
        mainstream::node().image.len() > 0,
        mainstream::node().file_name.len() > 0,
        mentions_source(mainstream::node()),
        runs_code(mainstream::node()),
{
    reveal_strlit("/workspace/");
    reveal_strlit("/workspace/main.mjs");
    reveal_strlit("main.mjs");
    reveal_strlit("node");
    reveal_strlit("node:25-alpine");
    reveal_strlit("nodejs");
    assert("/workspace/"@ =~= seq!['/', 'w', 'o', 'r', 'k', 's', 'p', 'a', 'c', 'e', '/']);
    assert("/workspace/main.mjs"@ =~= seq!['/', 'w', 'o', 'r', 'k', 's', 'p', 'a', 'c', 'e', '/', 'm', 'a', 'i', 'n', '.', 'm', 'j', 's']);
    assert("main.mjs"@ =~= seq!['m', 'a', 'i', 'n', '.', 'm', 'j', 's']);
    assert("node"@ =~= seq!['n', 'o', 'd', 'e']);
    assert("nodejs"@ =~= seq!['n', 'o', 'd', 'e', 'j', 's']);
    let r = mainstream::node();
    assert(names_of(r) =~= seq!["node"@, "nodejs"@]);
    assert(is_plain_name(names_of(r)[0]) && owner(names_of(r)[0]) == 9);
    assert(is_plain_name(names_of(r)[1]) && owner(names_of(r)[1]) == 9);
    assert(r.command.last() =~= "/workspace/"@ + r.file_name);
    let path = "/workspace/"@ + r.file_name;
    assert(path.len() == 19);
    assert(r.command[1].subrange(0, 0int + path.len()) =~= path);
}

proof fn lemma_names_perl()
    ensures
        forall|k: int|
            0 <= k < names_of(mainstream::perl()).len() ==> is_plain_name(#[trigger] names_of(mainstream::perl())[k]) && owner(
                names_of(mainstream::perl())[k],
            ) == 10,
        mainstream::perl().image.len() > 0,
        mainstream::perl().file_name.len() > 0,
        mentions_source(mainstream::perl()),
        runs_code(mainstream::perl()),
{
    reveal_strlit("/workspace/");
    reveal_strlit("/workspace/main.pl");
    reveal_strlit("main.pl");
    reveal_strlit("perl");
    reveal_strlit("perl:5.42-slim");
    reveal_strlit("pl");
    assert("/workspace/"@ =~= seq!['/', 'w', 'o', 'r', 'k', 's', 'p', 'a', 'c', 'e', '/']);
    assert("/workspace/main.pl"@ =~= seq!['/', 'w', 'o', 'r', 'k', 's', 'p', 'a', 'c', 'e', '/', 'm', 'a', 'i', 'n', '.', 'p', 'l']);
    assert("main.pl"@ =~= seq!['m', 'a', 'i', 'n', '.', 'p', 'l']);
    assert("perl"@ =~= seq!['p', 'e', 'r', 'l']);
    assert("pl"@ =~= seq!['p', 'l']);
    let r = mainstream::perl();
    assert(names_of(r) =~= seq!["perl"@, "pl"@]);
    assert(is_plain_name(names_of(r)[0]) && owner(names_of(r)[0]) == 10);
    assert(is_plain_name(names_of(r)[1]) && owner(names_of(r)[1]) == 10);
    assert(r.command.last() =~= "/workspace/"@ + r.file_name);
    let path = "/workspace/"@ + r.file_name;
    assert(path.len() == 18);
    assert(r.command[1].subrange(0, 0int + path.len()) =~= path);
}

proof fn lemma_names_php()
    ensures
        forall|k: int|
            0 <= k < names_of(mainstream::php()).len() ==> is_plain_name(#[trigger] names_of(mainstream::php())[k]) && owner(
                names_of(mainstream::php())[k],
            ) == 11,
        mainstream::php().image.len() > 0,
        mainstream::php().file_name.len() > 0,
        mentions_source(mainstream::php()),
        runs_code(mainstream::php()),
{
    reveal_strlit("/workspace/");
    reveal_strlit("/workspace/main.php");
    reveal_strlit("main.php");
    reveal_strlit("php");
    reveal_strlit("php:8.4-cli-alpine");
    assert("/workspace/"@ =~= seq!['/', 'w', 'o', 'r', 'k', 's', 'p', 'a', 'c', 'e', '/']);
    assert("/workspace/main.php"@ =~= seq!['/', 'w', 'o', 'r', 'k', 's', 'p', 'a', 'c', 'e', '/', 'm', 'a', 'i', 'n', '.', 'p', 'h', 'p']);
    assert("main.php"@ =~= seq!['m', 'a', 'i', 'n', '.', 'p', 'h', 'p']);
    assert("php"@ =~= seq!['p', 'h', 'p']);
    let r = mainstream::php();
    assert(names_of(r) =~= seq!["php"@]);
    assert(is_plain_name(names_of(r)[0]) && owner(names_of(r)[0]) == 11);
    assert(r.command.last() =~= "/workspace/"@ + r.file_name);
    let path = "/workspace/"@ + r.file_name;
    assert(path.len() == 19);
    assert(r.command[1].subrange(0, 0int + path.len()) =~= path);
}

proof fn lemma_names_r()
    ensures
        forall|k: int|
            0 <= k < names_of(mainstream::r()).len() ==> is_plain_name(#[trigger] names_of(mainstream::r())[k]) && owner(
                names_of(mainstream::r())[k],
            ) == 12,
        mainstream::r().image.len() > 0,
        mainstream::r().file_name.len() > 0,
        mentions_source(mainstream::r()),
        runs_code(mainstream::r()),
{
    reveal_strlit("/workspace/");
    reveal_strlit("/workspace/main.R");
    reveal_strlit("main.R");
    reveal_strlit("r");
    reveal_strlit("r-base:4.5.3");
    reveal_strlit("rscript");
    assert("/workspace/"@ =~= seq!['/', 'w', 'o', 'r', 'k', 's', 'p', 'a', 'c', 'e', '/']);
    assert("/workspace/main.R"@ =~= seq!['/', 'w', 'o', 'r', 'k', 's', 'p', 'a', 'c', 'e', '/', 'm', 'a', 'i', 'n', '.', 'R']);
    assert("main.R"@ =~= seq!['m', 'a', 'i', 'n', '.', 'R']);
    assert("r"@ =~= seq!['r']);
    assert("rscript"@ =~= seq!['r', 's', 'c', 'r', 'i', 'p', 't']);
    let r = mainstream::r();
    assert(names_of(r) =~= seq!["r"@, "rscript"@]);
    assert(is_plain_name(names_of(r)[0]) && owner(names_of(r)[0]) == 12);
    assert(is_plain_name(names_of(r)[1]) && owner(names_of(r)[1]) == 12);
    assert(r.command.last() =~= "/workspace/"@ + r.file_name);
    let path = "/workspace/"@ + r.file_name;
    assert(path.len() == 17);
    assert(r.command[1].subrange(0, 0int + path.len()) =~= path);
}

proof fn lemma_names_rust()
    ensures
        forall|k: int|
            0 <= k < names_of(mainstream::rust()).len() ==> is_plain_name(#[trigger] names_of(mainstream::rust())[k]) && owner(
                names_of(mainstream::rust())[k],
            ) == 13,
        mainstream::rust().image.len() > 0,
        mainstream::rust().file_name.len() > 0,
        mentions_source(mainstream::rust()),
        runs_code(mainstream::rust()),
{
    reveal_strlit(" && /sandbox/main");
    reveal_strlit("/workspace/");
    reveal_strlit("main.rs");
    reveal_strlit("rs");
    reveal_strlit("rust");
    reveal_strlit("rust:1.95.0-alpine3.22");
    reveal_strlit("rustc --edition=2024 /workspace/main.rs -o /sandbox/main && /sandbox/main");
    assert(" && /sandbox/main"@ =~= seq![' ', '&', '&', ' ', '/', 's', 'a', 'n', 'd', 'b', 'o', 'x', '/', 'm', 'a', 'i', 'n']);
    assert("/workspace/"@ =~= seq!['/', 'w', 'o', 'r', 'k', 's', 'p', 'a', 'c', 'e', '/']);
    assert("main.rs"@ =~= seq!['m', 'a', 'i', 'n', '.', 'r', 's']);
    assert("rs"@ =~= seq!['r', 's']);
    assert("rust"@ =~= seq!['r', 'u', 's', 't']);
    assert("rustc --edition=2024 /workspace/main.rs -o /sandbox/main && /sandbox/main"@ =~= seq!['r', 'u', 's', 't', 'c', ' ', '-', '-', 'e', 'd', 'i', 't', 'i', 'o', 'n', '=', '2', '0', '2', '4', ' ', '/', 'w', 'o', 'r', 'k', 's', 'p', 'a', 'c', 'e', '/', 'm', 'a', 'i', 'n', '.', 'r', 's', ' ', '-', 'o', ' ', '/', 's', 'a', 'n', 'd', 'b', 'o', 'x', '/', 'm', 'a', 'i', 'n', ' ', '&', '&', ' ', '/', 's', 'a', 'n', 'd', 'b', 'o', 'x', '/', 'm', 'a', 'i', 'n']);
    let r = mainstream::rust();
    assert(names_of(r) =~= seq!["rust"@, "rs"@]);
    assert(is_plain_name(names_of(r)[0]) && owner(names_of(r)[0]) == 13);
    assert(is_plain_name(names_of(r)[1]) && owner(names_of(r)[1]) == 13);
    assert(r.command.last().subrange(r.command.last().len() - " && /sandbox/main"@.len(), r.command.last().len() as int) =~= " && /sandbox/main"@);
    let path = "/workspace/"@ + r.file_name;
    assert(path.len() == 18);
    assert(r.command[2].subrange(21, 21int + path.len()) =~= path);
}

proof fn lemma_names_swift()
    ensures
        forall|k: int|
            0 <= k < names_of(mainstream::swift()).len() ==> is_plain_name(#[trigger] names_of(mainstream::swift())[k]) && owner(
                names_of(mainstream::swift())[k],
            ) == 14,
        mainstream::swift().image.len() > 0,
        mainstream::swift().file_name.len() > 0,
        mentions_source(mainstream::swift()),
        runs_code(mainstream::swift()),
{
    reveal_strlit(" && /sandbox/main");
    reveal_strlit("/workspace/");
    reveal_strlit("main.swift");
    reveal_strlit("swift");
    reveal_strlit("swift:6.3-noble");
    reveal_strlit("swiftc /workspace/main.swift -o /sandbox/main && /sandbox/main");
    assert(" && /sandbox/main"@ =~= seq![' ', '&', '&', ' ', '/', 's', 'a', 'n', 'd', 'b', 'o', 'x', '/', 'm', 'a', 'i', 'n']);
    assert("/workspace/"@ =~= seq!['/', 'w', 'o', 'r', 'k', 's', 'p', 'a', 'c', 'e', '/']);
    assert("main.swift"@ =~= seq!['m', 'a', 'i', 'n', '.', 's', 'w', 'i', 'f', 't']);
    assert("swift"@ =~= seq!['s', 'w', 'i', 'f', 't']);
    assert("swiftc /workspace/main.swift -o /sandbox/main && /sandbox/main"@ =~= seq!['s', 'w', 'i', 'f', 't', 'c', ' ', '/', 'w', 'o', 'r', 'k', 's', 'p', 'a', 'c', 'e', '/', 'm', 'a', 'i', 'n', '.', 's', 'w', 'i', 'f', 't', ' ', '-', 'o', ' ', '/', 's', 'a', 'n', 'd', 'b', 'o', 'x', '/', 'm', 'a', 'i', 'n', ' ', '&', '&', ' ', '/', 's', 'a', 'n', 'd', 'b', 'o', 'x', '/', 'm', 'a', 'i', 'n']);
    let r = mainstream::swift();
    assert(names_of(r) =~= seq!["swift"@]);
    assert(is_plain_name(names_of(r)[0]) && owner(names_of(r)[0]) == 14);
    assert(r.command.last().subrange(r.command.last().len() - " && /sandbox/main"@.len(), r.command.last().len() as int) =~= " && /sandbox/main"@);
    let path = "/workspace/"@ + r.file_name;
    assert(path.len() == 21);
    assert(r.command[2].subrange(7, 7int + path.len()) =~= path);
}

/// The registry is well formed: every name that a runtime answers to looks itself up, no
/// name belongs to two runtimes, not even with ASCII letters in other case, and every runtime has an image and a source file that its
/// command names under `/workspace`, and a command that ends by running the code.
pub proof fn lemma_registry_well_formed()
    ensures
        forall|i: int, k: int|
            0 <= i < registry().len() && 0 <= k < names_of(registry()[i]).len() ==> is_plain_name(
                #[trigger] names_of(registry()[i])[k],
            ),
        forall|i: int, j: int, k: int, l: int|
            0 <= i < registry().len() && 0 <= j < registry().len() && 0 <= k < names_of(
                registry()[i],
            ).len() && 0 <= l < names_of(registry()[j]).len() && #[trigger] names_of(registry()[i])[k]
                == #[trigger] names_of(registry()[j])[l] ==> i == j,
        forall|i: int, j: int, k: int, l: int|
            0 <= i < registry().len() && 0 <= j < registry().len() && 0 <= k < names_of(
                registry()[i],
            ).len() && 0 <= l < names_of(registry()[j]).len() && eq_ignore_ascii_case(
                #[trigger] names_of(registry()[i])[k],
                #[trigger] names_of(registry()[j])[l],
            ) ==> i == j,
        forall|i: int|
            0 <= i < registry().len() ==> (#[trigger] registry()[i]).image.len() > 0
                && registry()[i].file_name.len() > 0 && mentions_source(registry()[i])
                && runs_code(registry()[i]),
{
    assert forall|i: int, k: int|
        0 <= i < registry().len() && 0 <= k < names_of(registry()[i]).len() implies is_plain_name(
        #[trigger] names_of(registry()[i])[k],
    ) && owner(names_of(registry()[i])[k]) == i && registry()[i].image.len() > 0
        && registry()[i].file_name.len() > 0 && mentions_source(registry()[i])
        && runs_code(registry()[i]) by {
        if i == 0 {
            lemma_names_javascript();
        } else if i == 1 {
            lemma_names_typescript();
        } else if i == 2 {
            lemma_names_python();
        } else if i == 3 {
            lemma_names_bash();
        } else if i == 4 {
            lemma_names_c();
        } else if i == 5 {
            lemma_names_cpp();
        } else if i == 6 {
            lemma_names_csharp();
        } else if i == 7 {
            lemma_names_go();
        } else if i == 8 {
            lemma_names_java();
        } else if i == 9 {
            lemma_names_node();
        } else if i == 10 {
            lemma_names_perl();
        } else if i == 11 {
            lemma_names_php();
        } else if i == 12 {
            lemma_names_r();
        } else if i == 13 {
            lemma_names_rust();
        } else if i == 14 {
            lemma_names_swift();
        }
    }
    assert forall|i: int|
        0 <= i < registry().len() implies (#[trigger] registry()[i]).image.len() > 0
        && registry()[i].file_name.len() > 0 && mentions_source(registry()[i])
        && runs_code(registry()[i]) by {
        assert(names_of(registry()[i])[0] == registry()[i].id);
    }
    assert forall|i: int, j: int, k: int, l: int|
        0 <= i < registry().len() && 0 <= j < registry().len() && 0 <= k < names_of(
            registry()[i],
        ).len() && 0 <= l < names_of(registry()[j]).len() && eq_ignore_ascii_case(
            #[trigger] names_of(registry()[i])[k],
            #[trigger] names_of(registry()[j])[l],
        ) implies i == j by {
        lemma_plain_name_normal(names_of(registry()[i])[k]);
        lemma_plain_name_normal(names_of(registry()[j])[l]);
    }
}

/// A plain name is already in the form in which names are looked up.
pub proof fn lemma_plain_name_normal(s: Seq<char>)
    requires
        is_plain_name(s),
    ensures
        super::normalize(s) == s,
        ascii_lower(s) == s,
{
    assert(ascii_lower(s) =~= s);
}

} // verus!
