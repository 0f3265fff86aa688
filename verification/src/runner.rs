//! Run launch: the engine invocation that takes over the process.
//!
//! The engine receives the workspace, the corpus, a persistent-fuzzing
//! flag, the user's engine arguments, the compiled target binary, and the
//! forwarded target arguments.  Two sanitizer-option values are always
//! prepended — never appended — to any preexisting value of the same
//! variable, to disable two noisy diagnostics.

use vstd::prelude::*;

use crate::invocation::{push_env, CommandSpec, EnvVar};
use crate::paths::{binary_path_spec, engine_binary_path, release_binary_path};
use crate::strutil::{
    concat2, extend_strings, opt_or_empty, path_join, push_string, push_tok, split_whitespace,
    split_ws_spec,
};

verus! {

/// The sanitizer overlay for address sanitizing: the quieting option,
/// prepended to whatever value was already set.
pub open spec fn asan_value_spec(existing: Option<Seq<char>>) -> Seq<char> {
    "detect_odr_violation=0:"@ + opt_or_empty(existing)
}

/// The sanitizer overlay for thread sanitizing, prepended the same way.
pub open spec fn tsan_value_spec(existing: Option<Seq<char>>) -> Seq<char> {
    "report_signal_unsafe=0:"@ + opt_or_empty(existing)
}

/// Prepend the address-sanitizer quieting option to the existing value.
pub fn asan_options_value(existing: &Option<String>) -> (r: String)
    ensures
        r@ == asan_value_spec(existing.deep_view()),
{
    match existing {
        Some(s) => concat2("detect_odr_violation=0:", s.as_str()),
        None => {
            let r = String::from_str("detect_odr_violation=0:");
            proof {
                assert(r@ =~= asan_value_spec(existing.deep_view()));
            }
            r
        },
    }
}

/// Prepend the thread-sanitizer quieting option to the existing value.
pub fn tsan_options_value(existing: &Option<String>) -> (r: String)
    ensures
        r@ == tsan_value_spec(existing.deep_view()),
{
    match existing {
        Some(s) => concat2("report_signal_unsafe=0:", s.as_str()),
        None => {
            let r = String::from_str("report_signal_unsafe=0:");
            proof {
                assert(r@ =~= tsan_value_spec(existing.deep_view()));
            }
            r
        },
    }
}

/// The engine's argument list: workspace, corpus, persistent mode, the
/// user's engine arguments, then the target binary and its forwarded
/// arguments after the separator.
pub open spec fn engine_args_spec(
    workspace: Seq<char>,
    target: Seq<char>,
    corpus: Seq<char>,
    run_args: Seq<Seq<char>>,
    bin_path: Seq<char>,
    forwarded: Seq<Seq<char>>,
) -> Seq<Seq<char>> {
    seq!["-W"@, workspace + "/"@ + target, "-f"@, corpus, "-P"@] + run_args + seq!["--"@, bin_path]
        + forwarded
}

/// Assemble the engine invocation.  The caller replaces the current process
/// image with it; on success control never returns, and the sole return
/// path is a launch failure naming the expected engine path.
pub fn engine_invocation(
    output_dir: &str,
    workspace: &str,
    corpus: &str,
    triple: &str,
    target: &str,
    run_args: &str,
    forwarded: &Vec<String>,
    asan: &Option<String>,
    tsan: &Option<String>,
) -> (cmd: CommandSpec)
    ensures
        cmd.program@ == output_dir@ + "/honggfuzz"@,
        cmd.args.deep_view() == engine_args_spec(
            workspace@,
            target@,
            corpus@,
            split_ws_spec(run_args@),
            binary_path_spec(output_dir@, triple@, "release"@, target@),
            forwarded.deep_view(),
        ),
        cmd.env.deep_view() == seq![
            ("ASAN_OPTIONS"@, asan_value_spec(asan.deep_view())),
            ("TSAN_OPTIONS"@, tsan_value_spec(tsan.deep_view())),
        ],
{
    let mut args: Vec<String> = Vec::new();
    push_tok(&mut args, "-W");
    let ws_target = path_join(workspace, target);
    push_string(&mut args, &ws_target);
    push_tok(&mut args, "-f");
    push_tok(&mut args, corpus);
    push_tok(&mut args, "-P");
    proof {
        assert(args.deep_view() =~= seq![
            "-W"@,
            workspace@ + "/"@ + target@,
            "-f"@,
            corpus@,
            "-P"@,
        ]);
    }
    let user_run_args = split_whitespace(run_args);
    extend_strings(&mut args, &user_run_args);
    let ghost with_run_args = args.deep_view();
    push_tok(&mut args, "--");
    let bin = release_binary_path(output_dir, triple, target);
    push_string(&mut args, &bin);
    proof {
        assert(args.deep_view() =~= with_run_args + seq!["--"@, bin@]);
    }
    extend_strings(&mut args, forwarded);
    proof {
        assert(args.deep_view() =~= engine_args_spec(
            workspace@,
            target@,
            corpus@,
            split_ws_spec(run_args@),
            binary_path_spec(output_dir@, triple@, "release"@, target@),
            forwarded.deep_view(),
        ));
    }
    let mut env: Vec<EnvVar> = Vec::new();
    push_env(&mut env, "ASAN_OPTIONS", asan_options_value(asan));
    push_env(&mut env, "TSAN_OPTIONS", tsan_options_value(tsan));
    proof {
        assert(env.deep_view() =~= seq![
            ("ASAN_OPTIONS"@, asan_value_spec(asan.deep_view())),
            ("TSAN_OPTIONS"@, tsan_value_spec(tsan.deep_view())),
        ]);
    }
    CommandSpec { program: engine_binary_path(output_dir), args, env }
}

} // verus!
