//! The orchestration pipeline: dispatch, and the full plan for each
//! subcommand, from plain input values to the exact child-process
//! invocations.
//!
//! Ambient environment reads are confined to the boundary: the caller
//! snapshots every consumed variable once into an [`EnvSnapshot`] and the
//! pipeline is a pure function of that snapshot and the command-line
//! values.  The version guard runs strictly before any toolchain
//! invocation is assembled: on a mismatch an error is returned and no
//! invocation value exists at all.

use vstd::prelude::*;

use crate::errors::Error;
use crate::invocation::{CommandSpec, ReplaceProcess, SuperviseProcess};
use crate::debugger::{debugger_args_spec, debugger_env_spec, debugger_invocation};
use crate::paths::{
    binary_path_spec, precedence_spec, resolve_corpus_dir, resolve_output_dir, resolve_workspace,
};
use crate::resolver::{
    incremental_spec, is_release, needs_engine, resolve, resolved_flags, variant_needs_engine,
    BuildVariant,
};
use crate::runner::{asan_value_spec, engine_args_spec, engine_invocation, tsan_value_spec};
use crate::strutil::{opt_or, opt_or_empty, opt_str_empty, push_string, push_tok, split_ws_spec, str_eq};
use crate::toolchain::{build_invocation, clean_invocation, toolchain_args_spec, toolchain_env_spec};
use crate::version_guard;

verus! {

/// Snapshot of every environment value the pipeline consumes, read once at
/// the process boundary and threaded explicitly through every component.
pub struct EnvSnapshot {
    /// Path of the build-system binary to invoke.
    pub cargo_bin: String,
    /// Override of the isolated build-output directory.
    pub output_dir: Option<String>,
    /// Override of the fuzzing workspace directory.
    pub workspace: Option<String>,
    /// Override of the corpus directory.
    pub corpus: Option<String>,
    /// User flags for the compiler, appended after the generated flags.
    pub user_flags: Option<String>,
    /// User arguments for the build system.
    pub build_args: Option<String>,
    /// User arguments for the fuzzing engine.
    pub run_args: Option<String>,
    /// Debugger binary selector.
    pub debugger: Option<String>,
    /// Preexisting address-sanitizer options, prepended to.
    pub asan_options: Option<String>,
    /// Preexisting thread-sanitizer options, prepended to.
    pub tsan_options: Option<String>,
    /// Backtrace toggle, defaulted on when absent.
    pub backtrace: Option<String>,
}

/// The subcommand selected on the command line.
#[derive(Clone, Copy, Debug, PartialEq, Eq, Structural)]
pub enum CliCommand {
    /// Build the given variant.
    Build(BuildVariant),
    /// Build the given variant of one target, then hand the process over to
    /// the engine.
    Run(BuildVariant),
    /// Build the debug profile of one target, then replay a crash file
    /// under a supervised debugger.
    RunDebug,
    /// Clean the isolated output directory.
    Clean,
    /// Print the orchestrator version.
    Version,
}

/// The dispatch table, one entry per subcommand name.
pub open spec fn parse_command_spec(s: Seq<char>) -> Option<CliCommand> {
    if s == "build"@ {
        Some(CliCommand::Build(BuildVariant::Instrumented))
    } else if s == "build-no-instr"@ {
        Some(CliCommand::Build(BuildVariant::NotInstrumented))
    } else if s == "build-debug"@ {
        Some(CliCommand::Build(BuildVariant::DebugProfile))
    } else if s == "build-grcov"@ {
        Some(CliCommand::Build(BuildVariant::CoverageProfile))
    } else if s == "run"@ {
        Some(CliCommand::Run(BuildVariant::Instrumented))
    } else if s == "run-no-instr"@ {
        Some(CliCommand::Run(BuildVariant::NotInstrumented))
    } else if s == "run-debug"@ {
        Some(CliCommand::RunDebug)
    } else if s == "clean"@ {
        Some(CliCommand::Clean)
    } else if s == "version"@ {
        Some(CliCommand::Version)
    } else {
        None
    }
}

/// Map a subcommand name to the command it selects; unknown names are a
/// usage error for the caller to report.
pub fn parse_command(s: &str) -> (r: Option<CliCommand>)
    ensures
        r == parse_command_spec(s@),
{
    if str_eq(s, "build") {
        Some(CliCommand::Build(BuildVariant::Instrumented))
    } else if str_eq(s, "build-no-instr") {
        Some(CliCommand::Build(BuildVariant::NotInstrumented))
    } else if str_eq(s, "build-debug") {
        Some(CliCommand::Build(BuildVariant::DebugProfile))
    } else if str_eq(s, "build-grcov") {
        Some(CliCommand::Build(BuildVariant::CoverageProfile))
    } else if str_eq(s, "run") {
        Some(CliCommand::Run(BuildVariant::Instrumented))
    } else if str_eq(s, "run-no-instr") {
        Some(CliCommand::Run(BuildVariant::NotInstrumented))
    } else if str_eq(s, "run-debug") {
        Some(CliCommand::RunDebug)
    } else if str_eq(s, "clean") {
        Some(CliCommand::Clean)
    } else if str_eq(s, "version") {
        Some(CliCommand::Version)
    } else {
        None
    }
}

/// Plan a build of one variant: version guard first, then profile
/// resolution, then the toolchain invocation.
///
/// Succeeds exactly when the variant needs no engine or the two version
/// strings agree; on a mismatch the error carries both versions and no
/// toolchain invocation is assembled at all.
pub fn plan_build(
    variant: BuildVariant,
    env: &EnvSnapshot,
    crate_root: &str,
    triple: &str,
    extra_args: &Vec<String>,
    local_version: &str,
    engine_version: &str,
    gold_linker: bool,
    target_is_macos: bool,
) -> (r: Result<CommandSpec, Error>)
    ensures
        r is Ok <==> (!needs_engine(variant) || local_version@ == engine_version@),
        r is Err ==> (r->Err_0 matches Error::VersionMismatch { local: l, reported: rep }
            && l@ == local_version@ && rep@ == engine_version@),
        r is Ok ==> ({
            let cmd = r->Ok_0;
            let out_dir = opt_or(env.output_dir.deep_view(), "hfuzz_target"@);
            let user = split_ws_spec(opt_or_empty(env.user_flags.deep_view()));
            let bargs = split_ws_spec(opt_or_empty(env.build_args.deep_view()));
            &&& cmd.program@ == env.cargo_bin@
            &&& cmd.args.deep_view() == toolchain_args_spec(
                triple@,
                extra_args.deep_view(),
                bargs,
                is_release(variant),
            )
            &&& cmd.env.deep_view() == toolchain_env_spec(
                resolved_flags(variant, user, gold_linker, target_is_macos),
                incremental_spec(variant),
                out_dir,
                crate_root@,
                local_version@,
                needs_engine(variant),
            )
        }),
{
    if variant_needs_engine(variant) {
        match version_guard::check(local_version, engine_version) {
            Err(e) => {
                return Err(e);
            },
            Ok(_) => {},
        }
    }
    let out_dir = resolve_output_dir(&env.output_dir);
    let cfg = resolve(
        variant,
        opt_str_empty(&env.user_flags),
        opt_str_empty(&env.build_args),
        triple,
        out_dir.as_str(),
        gold_linker,
        target_is_macos,
    );
    Ok(build_invocation(&cfg, env.cargo_bin.as_str(), crate_root, extra_args, local_version))
}

/// The full plan of a `run` invocation.
pub struct RunPlan {
    /// Corpus directory, created if absent before launch; a creation
    /// failure is a warning, not an abort.
    pub corpus_dir: String,
    /// The supervised build of the single named target.
    pub build: CommandSpec,
    /// The terminal engine launch replacing the orchestrator process.
    pub engine: ReplaceProcess,
}

/// Plan a `run`: resolve paths by precedence, build the named target under
/// the requested variant, then hand the process over to the engine.
///
/// Succeeds exactly when a target was named and — for engine-needing
/// variants — the versions agree; a missing target is a usage error before
/// anything else is considered.
pub fn plan_run(
    variant: BuildVariant,
    target: &Option<String>,
    workspace_flag: &Option<String>,
    corpus_flag: &Option<String>,
    env: &EnvSnapshot,
    crate_root: &str,
    triple: &str,
    forwarded: &Vec<String>,
    local_version: &str,
    engine_version: &str,
    gold_linker: bool,
    target_is_macos: bool,
) -> (r: Result<RunPlan, Error>)
    ensures
        r is Ok <==> (target is Some && (!needs_engine(variant) || local_version@
            == engine_version@)),
        target is None ==> (r is Err && r->Err_0 is UsageError),
        (target is Some && needs_engine(variant) && local_version@ != engine_version@) ==> (
        r is Err && (r->Err_0 matches Error::VersionMismatch { local: l, reported: rep }
            && l@ == local_version@ && rep@ == engine_version@)),
        r is Ok ==> ({
            let plan = r->Ok_0;
            let t = target->0@;
            let ws = precedence_spec(
                workspace_flag.deep_view(),
                env.workspace.deep_view(),
                "hfuzz_workspace"@,
            );
            let corpus = precedence_spec(
                corpus_flag.deep_view(),
                env.corpus.deep_view(),
                ws + "/"@ + t + "/input"@,
            );
            let out_dir = opt_or(env.output_dir.deep_view(), "hfuzz_target"@);
            let user = split_ws_spec(opt_or_empty(env.user_flags.deep_view()));
            let bargs = split_ws_spec(opt_or_empty(env.build_args.deep_view()));
            &&& plan.corpus_dir@ == corpus
            &&& plan.build.program@ == env.cargo_bin@
            &&& plan.build.args.deep_view() == toolchain_args_spec(
                triple@,
                seq!["--bin"@, t],
                bargs,
                is_release(variant),
            )
            &&& plan.build.env.deep_view() == toolchain_env_spec(
                resolved_flags(variant, user, gold_linker, target_is_macos),
                incremental_spec(variant),
                out_dir,
                crate_root@,
                local_version@,
                needs_engine(variant),
            )
            &&& plan.engine.command.program@ == out_dir + "/honggfuzz"@
            &&& plan.engine.command.args.deep_view() == engine_args_spec(
                ws,
                t,
                corpus,
                split_ws_spec(opt_or_empty(env.run_args.deep_view())),
                binary_path_spec(out_dir, triple@, "release"@, t),
                forwarded.deep_view(),
            )
            &&& plan.engine.command.env.deep_view() == seq![
                ("ASAN_OPTIONS"@, asan_value_spec(env.asan_options.deep_view())),
                ("TSAN_OPTIONS"@, tsan_value_spec(env.tsan_options.deep_view())),
            ]
        }),
{
    let target_name = match target {
        Some(t) => t,
        None => {
            return Err(Error::UsageError);
        },
    };
    if variant_needs_engine(variant) {
        match version_guard::check(local_version, engine_version) {
            Err(e) => {
                return Err(e);
            },
            Ok(_) => {},
        }
    }
    let ws = resolve_workspace(workspace_flag, &env.workspace);
    let corpus = resolve_corpus_dir(corpus_flag, &env.corpus, ws.as_str(), target_name.as_str());
    let out_dir = resolve_output_dir(&env.output_dir);
    let cfg = resolve(
        variant,
        opt_str_empty(&env.user_flags),
        opt_str_empty(&env.build_args),
        triple,
        out_dir.as_str(),
        gold_linker,
        target_is_macos,
    );
    let mut extra: Vec<String> = Vec::new();
    push_tok(&mut extra, "--bin");
    push_string(&mut extra, target_name);
    proof {
        assert(extra.deep_view() =~= seq!["--bin"@, target_name@]);
    }
    let build = build_invocation(&cfg, env.cargo_bin.as_str(), crate_root, &extra, local_version);
    let engine = engine_invocation(
        out_dir.as_str(),
        ws.as_str(),
        corpus.as_str(),
        triple,
        target_name.as_str(),
        opt_str_empty(&env.run_args),
        forwarded,
        &env.asan_options,
        &env.tsan_options,
    );
    Ok(RunPlan { corpus_dir: corpus, build, engine: ReplaceProcess { command: engine } })
}

/// The full plan of a crash-replay invocation.
pub struct DebugPlan {
    /// The supervised build of the debug profile of the target.
    pub build: CommandSpec,
    /// The supervised debugger session; the orchestrator stays parent and
    /// mirrors its exit code.
    pub debugger: SuperviseProcess,
}

/// Plan a crash replay: build the debug profile of the named target, then
/// run the crash file under the configured debugger.
///
/// Succeeds exactly when both the target and the crash file were named;
/// the debug profile needs no engine, so no version guard applies.
pub fn plan_debug(
    target: &Option<String>,
    crash_file: &Option<String>,
    debugger_flag: &Option<String>,
    env: &EnvSnapshot,
    crate_root: &str,
    triple: &str,
    target_args: &Vec<String>,
    local_version: &str,
    gold_linker: bool,
    target_is_macos: bool,
) -> (r: Result<DebugPlan, Error>)
    ensures
        r is Ok <==> (target is Some && crash_file is Some),
        r is Err ==> r->Err_0 is UsageError,
        r is Ok ==> ({
            let plan = r->Ok_0;
            let t = target->0@;
            let cf = crash_file->0@;
            let out_dir = opt_or(env.output_dir.deep_view(), "hfuzz_target"@);
            let dbg = precedence_spec(
                debugger_flag.deep_view(),
                env.debugger.deep_view(),
                "rust-lldb"@,
            );
            let user = split_ws_spec(opt_or_empty(env.user_flags.deep_view()));
            let bargs = split_ws_spec(opt_or_empty(env.build_args.deep_view()));
            &&& plan.build.program@ == env.cargo_bin@
            &&& plan.build.args.deep_view() == toolchain_args_spec(
                triple@,
                seq!["--bin"@, t],
                bargs,
                false,
            )
            &&& plan.build.env.deep_view() == toolchain_env_spec(
                resolved_flags(BuildVariant::DebugProfile, user, gold_linker, target_is_macos),
                "1"@,
                out_dir,
                crate_root@,
                local_version@,
                false,
            )
            &&& plan.debugger.command.program@ == dbg
            &&& plan.debugger.command.args.deep_view() == debugger_args_spec(
                dbg,
                binary_path_spec(out_dir, triple@, "debug"@, t),
                target_args.deep_view(),
            )
            &&& plan.debugger.command.env.deep_view() == debugger_env_spec(
                cf,
                env.backtrace.deep_view(),
            )
        }),
{
    let target_name = match target {
        Some(t) => t,
        None => {
            return Err(Error::UsageError);
        },
    };
    let crash = match crash_file {
        Some(c) => c,
        None => {
            return Err(Error::UsageError);
        },
    };
    let out_dir = resolve_output_dir(&env.output_dir);
    let dbg = crate::paths::resolve_with_precedence(debugger_flag, &env.debugger, "rust-lldb");
    let cfg = resolve(
        BuildVariant::DebugProfile,
        opt_str_empty(&env.user_flags),
        opt_str_empty(&env.build_args),
        triple,
        out_dir.as_str(),
        gold_linker,
        target_is_macos,
    );
    let mut extra: Vec<String> = Vec::new();
    push_tok(&mut extra, "--bin");
    push_string(&mut extra, target_name);
    proof {
        assert(extra.deep_view() =~= seq!["--bin"@, target_name@]);
    }
    let build = build_invocation(&cfg, env.cargo_bin.as_str(), crate_root, &extra, local_version);
    let session = debugger_invocation(
        dbg.as_str(),
        out_dir.as_str(),
        triple,
        target_name.as_str(),
        crash.as_str(),
        target_args,
        &env.backtrace,
    );
    Ok(DebugPlan { build, debugger: SuperviseProcess { command: session } })
}

/// Plan a clean: the build system's own clean operation, pinned to the
/// isolated output directory whatever extra arguments pass through.
pub fn plan_clean(env: &EnvSnapshot, extra_args: &Vec<String>) -> (cmd: CommandSpec)
    ensures
        cmd.program@ == env.cargo_bin@,
        cmd.args.deep_view() == seq!["clean"@] + extra_args.deep_view(),
        cmd.env.deep_view() == seq![
            ("CARGO_TARGET_DIR"@, opt_or(env.output_dir.deep_view(), "hfuzz_target"@)),
        ],
{
    let out_dir = resolve_output_dir(&env.output_dir);
    clean_invocation(env.cargo_bin.as_str(), out_dir.as_str(), extra_args)
}

} // verus!
