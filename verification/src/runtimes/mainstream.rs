use vstd::prelude::*;

use super::RuntimeView;

verus! {

/// Bash scripts.
pub open spec fn bash() -> RuntimeView {
    RuntimeView {
        id: "bash"@,
        aliases: seq!["sh"@, "shell"@],
        image: "bash:5.3-alpine3.23"@,
        file_name: "main.sh"@,
        command: seq!["bash"@, "/workspace/main.sh"@],
        env: Seq::empty(),
    }
}

/// C17, compiled by GCC into the writable `/sandbox` and run from there.
pub open spec fn c() -> RuntimeView {
    RuntimeView {
        id: "c"@,
        aliases: seq!["c99"@, "c11"@, "c17"@],
        image: "gcc:15"@,
        file_name: "main.c"@,
        command: seq!["sh"@, "-lc"@, "gcc -std=c17 -O0 -pipe /workspace/main.c -o /sandbox/main && /sandbox/main"@],
        env: Seq::empty(),
    }
}

/// C++23, compiled by GCC into the writable `/sandbox` and run from there.
pub open spec fn cpp() -> RuntimeView {
    RuntimeView {
        id: "cpp"@,
        aliases: seq!["c++"@, "cc"@, "cxx"@],
        image: "gcc:15"@,
        file_name: "main.cpp"@,
        command: seq!["sh"@, "-lc"@, "g++ -std=c++23 -O0 -pipe /workspace/main.cpp -o /sandbox/main && /sandbox/main"@],
        env: Seq::empty(),
    }
}

/// C#, built and run as a .NET console project in the writable `/sandbox`.
pub open spec fn csharp() -> RuntimeView {
    RuntimeView {
        id: "csharp"@,
        aliases: seq!["cs"@, "c#"@],
        image: "mcr.microsoft.com/dotnet/sdk:10.0.102-noble"@,
        file_name: "Program.cs"@,
        command: seq!["sh"@, "-lc"@, "mkdir -p /sandbox/app && cd /sandbox/app && dotnet new console --force >/dev/null && cp /workspace/Program.cs Program.cs && dotnet run --no-launch-profile"@],
        env: seq![("DOTNET_CLI_HOME"@, "/tmp"@), ("DOTNET_NOLOGO"@, "1"@), ("DOTNET_SKIP_FIRST_TIME_EXPERIENCE"@, "1"@)],
    }
}

/// Go, built into the writable `/sandbox` with its cache in `/tmp`.
pub open spec fn go() -> RuntimeView {
    RuntimeView {
        id: "go"@,
        aliases: seq!["golang"@],
        image: "golang:1.26-alpine"@,
        file_name: "main.go"@,
        command: seq!["sh"@, "-lc"@, "GOCACHE=/tmp/go-cache go build -o /sandbox/main /workspace/main.go && /sandbox/main"@],
        env: seq![("HOME"@, "/tmp"@)],
    }
}

/// Java, compiled into the writable `/sandbox` and run from there.
pub open spec fn java() -> RuntimeView {
    RuntimeView {
        id: "java"@,
        aliases: seq!["jdk"@],
        image: "eclipse-temurin:21-jdk-alpine"@,
        file_name: "Main.java"@,
        command: seq!["sh"@, "-lc"@, "javac -d /sandbox /workspace/Main.java && java -cp /sandbox Main"@],
        env: seq![("HOME"@, "/tmp"@)],
    }
}

/// JavaScript as an ES module, run by Node.js.
pub open spec fn node() -> RuntimeView {
    RuntimeView {
        id: "node"@,
        aliases: seq!["nodejs"@],
        image: "node:25-alpine"@,
        file_name: "main.mjs"@,
        command: seq!["node"@, "/workspace/main.mjs"@],
        env: seq![("NO_COLOR"@, "1"@)],
    }
}

/// Perl scripts.
pub open spec fn perl() -> RuntimeView {
    RuntimeView {
        id: "perl"@,
        aliases: seq!["pl"@],
        image: "perl:5.42-slim"@,
        file_name: "main.pl"@,
        command: seq!["perl"@, "/workspace/main.pl"@],
        env: Seq::empty(),
    }
}

/// PHP scripts, run by the command-line interpreter.
pub open spec fn php() -> RuntimeView {
    RuntimeView {
        id: "php"@,
        aliases: Seq::empty(),
        image: "php:8.4-cli-alpine"@,
        file_name: "main.php"@,
        command: seq!["php"@, "/workspace/main.php"@],
        env: Seq::empty(),
    }
}

/// R scripts, run by `Rscript`.
pub open spec fn r() -> RuntimeView {
    RuntimeView {
        id: "r"@,
        aliases: seq!["rscript"@],
        image: "r-base:4.5.3"@,
        file_name: "main.R"@,
        command: seq!["Rscript"@, "/workspace/main.R"@],
        env: seq![("HOME"@, "/tmp"@)],
    }
}

/// Rust 2024, compiled by `rustc` into the writable `/sandbox` and run from there.
pub open spec fn rust() -> RuntimeView {
    RuntimeView {
        id: "rust"@,
        aliases: seq!["rs"@],
        image: "rust:1.95.0-alpine3.22"@,
        file_name: "main.rs"@,
        command: seq!["sh"@, "-lc"@, "rustc --edition=2024 /workspace/main.rs -o /sandbox/main && /sandbox/main"@],
        env: seq![("CARGO_HOME"@, "/tmp/cargo"@), ("RUSTUP_HOME"@, "/tmp/rustup"@)],
    }
}

/// Swift, compiled by `swiftc` into the writable `/sandbox` and run from there.
pub open spec fn swift() -> RuntimeView {
    RuntimeView {
        id: "swift"@,
        aliases: Seq::empty(),
        image: "swift:6.3-noble"@,
        file_name: "main.swift"@,
        command: seq!["sh"@, "-lc"@, "swiftc /workspace/main.swift -o /sandbox/main && /sandbox/main"@],
        env: seq![("HOME"@, "/tmp"@)],
    }
}

} // verus!
