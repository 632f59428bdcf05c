use vstd::prelude::*;

use super::RuntimeView;

verus! {

/// JavaScript, run by Deno from the cache only, with a capped V8 heap.
pub open spec fn javascript() -> RuntimeView {
    RuntimeView {
        id: "javascript"@,
        aliases: seq!["js"@],
        image: "denoland/deno:alpine"@,
        file_name: "main.js"@,
        command: seq!["deno"@, "run"@, "--no-prompt"@, "--cached-only"@, "--v8-flags=--max-old-space-size=96"@, "/workspace/main.js"@],
        env: seq![("DENO_DIR"@, "/tmp/deno"@), ("NO_COLOR"@, "1"@)],
    }
}

/// TypeScript, run by Deno in the same way as JavaScript.
pub open spec fn typescript() -> RuntimeView {
    RuntimeView {
        id: "typescript"@,
        aliases: seq!["ts"@],
        image: "denoland/deno:alpine"@,
        file_name: "main.ts"@,
        command: seq!["deno"@, "run"@, "--no-prompt"@, "--cached-only"@, "--v8-flags=--max-old-space-size=96"@, "/workspace/main.ts"@],
        env: seq![("DENO_DIR"@, "/tmp/deno"@), ("NO_COLOR"@, "1"@)],
    }
}

} // verus!
