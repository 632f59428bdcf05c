use vstd::prelude::*;

use super::RuntimeView;

verus! {

/// Python in isolated mode, writing no bytecode.
pub open spec fn python() -> RuntimeView {
    RuntimeView {
        id: "python"@,
        aliases: seq!["py"@],
        image: "python:3.14-alpine"@,
        file_name: "main.py"@,
        command: seq!["python"@, "-I"@, "-B"@, "/workspace/main.py"@],
        env: seq![("PYTHONDONTWRITEBYTECODE"@, "1"@), ("PYTHONUNBUFFERED"@, "1"@)],
    }
}

} // verus!
