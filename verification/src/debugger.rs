//! Debug replay: the supervised debugger invocation that replays a crash
//! file against the debug-profile binary.
//!
//! The command style is chosen by the configured debugger's file name: a
//! name containing the known substring selects the scripted sequence with a
//! file-style step; any other name selects the structurally equivalent
//! sequence with `--args`-style argument passing.  Both run the same four
//! logical steps: break on the panic symbol, run, backtrace, name the
//! binary.  The crash file reaches the target through a dedicated
//! environment variable, not through the argument list.

use vstd::prelude::*;

use crate::invocation::{push_env, CommandSpec, EnvVar};
use crate::paths::{binary_path_spec, debug_binary_path};
use crate::strutil::{
    contains_str, extend_strings, file_name_of, file_name_spec, opt_or, push_tok, push_string,
    spec_contains,
};

verus! {

/// Does the configured debugger select the file-style scripted sequence?
/// Decided by its file name containing the known substring.
pub open spec fn uses_lldb_style(debugger: Seq<char>) -> bool {
    spec_contains(file_name_spec(debugger), "lldb"@)
}

/// Runtime test for [`uses_lldb_style`].
pub fn debugger_uses_lldb(debugger: &str) -> (r: bool)
    ensures
        r == uses_lldb_style(debugger@),
{
    let name = file_name_of(debugger);
    contains_str(name.as_str(), "lldb")
}

/// The debugger's argument list: one of the two scripted four-step
/// sequences, the binary path, then the forwarded target arguments.
pub open spec fn debugger_args_spec(
    debugger: Seq<char>,
    dest: Seq<char>,
    target_args: Seq<Seq<char>>,
) -> Seq<Seq<char>> {
    (if uses_lldb_style(debugger) {
        seq!["-o"@, "b rust_panic"@, "-o"@, "r"@, "-o"@, "bt"@, "-f"@, dest, "--"@]
    } else {
        seq!["-ex"@, "b rust_panic"@, "-ex"@, "r"@, "-ex"@, "bt"@, "--args"@, dest]
    }) + target_args
}

/// The debugger's environment: the crash file for the target's fuzz entry
/// point, and the backtrace toggle, propagated or defaulted on.
pub open spec fn debugger_env_spec(
    crash_file: Seq<char>,
    backtrace: Option<Seq<char>>,
) -> Seq<(Seq<char>, Seq<char>)> {
    seq![
        ("CARGO_HONGGFUZZ_CRASH_FILENAME"@, crash_file),
        ("RUST_BACKTRACE"@, opt_or(backtrace, "1"@)),
    ]
}

/// Assemble the debugger invocation.  The caller spawns it as a supervised
/// child — the session is interactive, so the orchestrator stays parent —
/// waits, and mirrors the exit code.
pub fn debugger_invocation(
    debugger: &str,
    output_dir: &str,
    triple: &str,
    target: &str,
    crash_file: &str,
    target_args: &Vec<String>,
    backtrace_env: &Option<String>,
) -> (cmd: CommandSpec)
    ensures
        cmd.program@ == debugger@,
        cmd.args.deep_view() == debugger_args_spec(
            debugger@,
            binary_path_spec(output_dir@, triple@, "debug"@, target@),
            target_args.deep_view(),
        ),
        cmd.env.deep_view() == debugger_env_spec(crash_file@, backtrace_env.deep_view()),
{
    let dest = debug_binary_path(output_dir, triple, target);
    let mut args: Vec<String> = Vec::new();
    if debugger_uses_lldb(debugger) {
        push_tok(&mut args, "-o");
        push_tok(&mut args, "b rust_panic");
        push_tok(&mut args, "-o");
        push_tok(&mut args, "r");
        push_tok(&mut args, "-o");
        push_tok(&mut args, "bt");
        push_tok(&mut args, "-f");
        push_string(&mut args, &dest);
        push_tok(&mut args, "--");
        proof {
            assert(args.deep_view() =~= seq![
                "-o"@,
                "b rust_panic"@,
                "-o"@,
                "r"@,
                "-o"@,
                "bt"@,
                "-f"@,
                dest@,
                "--"@,
            ]);
        }
    } else {
        push_tok(&mut args, "-ex");
        push_tok(&mut args, "b rust_panic");
        push_tok(&mut args, "-ex");
        push_tok(&mut args, "r");
        push_tok(&mut args, "-ex");
        push_tok(&mut args, "bt");
        push_tok(&mut args, "--args");
        push_string(&mut args, &dest);
        proof {
            assert(args.deep_view() =~= seq![
                "-ex"@,
                "b rust_panic"@,
                "-ex"@,
                "r"@,
                "-ex"@,
                "bt"@,
                "--args"@,
                dest@,
            ]);
        }
    }
    extend_strings(&mut args, target_args);
    let mut env: Vec<EnvVar> = Vec::new();
    push_env(&mut env, "CARGO_HONGGFUZZ_CRASH_FILENAME", String::from_str(crash_file));
    let backtrace = match backtrace_env {
        Some(s) => s.clone(),
        None => String::from_str("1"),
    };
    push_env(&mut env, "RUST_BACKTRACE", backtrace);
    proof {
        assert(env.deep_view() =~= debugger_env_spec(crash_file@, backtrace_env.deep_view()));
    }
    CommandSpec { program: String::from_str(debugger), args, env }
}

} // verus!
