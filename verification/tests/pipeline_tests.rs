use hfuzz::errors::Error;
use hfuzz::opts::{CommonOpts, LevelFilter, Opt, OptSub};
use hfuzz::pipeline::{
    parse_command, plan_build, plan_clean, plan_debug, plan_run, CliCommand, EnvSnapshot, RunPlan,
};
use hfuzz::resolver::BuildVariant;
use hfuzz::version_guard;

const TRIPLE: &str = "x86_64-unknown-linux-gnu";

fn plain_env() -> EnvSnapshot {
    EnvSnapshot {
        cargo_bin: "cargo".to_string(),
        output_dir: None,
        workspace: None,
        corpus: None,
        user_flags: None,
        build_args: None,
        run_args: None,
        debugger: None,
        asan_options: None,
        tsan_options: None,
        backtrace: None,
    }
}

fn env_value<'a>(cmd_env: &'a [hfuzz::invocation::EnvVar], name: &str) -> Option<&'a str> {
    cmd_env.iter().find(|e| e.name == name).map(|e| e.value.as_str())
}

#[test]
fn version_guard_equal_proceeds() {
    assert!(version_guard::check("0.5.55", "0.5.55").is_ok());
    let cmd = plan_build(
        BuildVariant::Instrumented,
        &plain_env(),
        "/crate",
        TRIPLE,
        &vec![],
        "0.5.55",
        "0.5.55",
        false,
        false,
    );
    assert!(cmd.is_ok());
}

#[test]
fn version_guard_rejects_any_difference() {
    for reported in ["0.5.1", "0.5.2 ", " 0.5.2", "0.5.2\n", "0.5.2x", "0.5.2X", ""] {
        let r = version_guard::check("0.5.2", reported);
        match r {
            Err(Error::VersionMismatch { local, reported: rep }) => {
                assert_eq!(local, "0.5.2");
                assert_eq!(rep, reported);
            }
            other => panic!("expected a version mismatch, got {:?}", other),
        }
    }
}

#[test]
fn version_mismatch_aborts_before_any_invocation() {
    // local = "0.5.2", reported = "0.5.1": the pipeline aborts and no
    // toolchain invocation value exists at all.
    let r = plan_build(
        BuildVariant::Instrumented,
        &plain_env(),
        "/crate",
        TRIPLE,
        &vec![],
        "0.5.2",
        "0.5.1",
        false,
        false,
    );
    match r {
        Err(e) => assert!(e.is_version_mismatch()),
        Ok(_) => panic!("a mismatched build must not be planned"),
    }
    let r = plan_run(
        BuildVariant::Instrumented,
        &Some("demo".to_string()),
        &None,
        &None,
        &plain_env(),
        "/crate",
        TRIPLE,
        &vec![],
        "0.5.2",
        "0.5.1",
        false,
        false,
    );
    assert!(r.is_err());
}

#[test]
fn version_guard_applies_only_to_engine_variants() {
    // The debug and the plain release profile need no engine, so differing
    // versions do not block them.
    for variant in [BuildVariant::NotInstrumented, BuildVariant::DebugProfile] {
        let r = plan_build(
            variant,
            &plain_env(),
            "/crate",
            TRIPLE,
            &vec![],
            "0.5.2",
            "0.5.1",
            false,
            false,
        );
        assert!(r.is_ok());
    }
    let r = plan_build(
        BuildVariant::CoverageProfile,
        &plain_env(),
        "/crate",
        TRIPLE,
        &vec![],
        "0.5.2",
        "0.5.1",
        false,
        false,
    );
    assert!(r.is_err());
}

#[test]
fn build_invocation_exact_shape() {
    let mut env = plain_env();
    env.user_flags = Some("-Zsanitizer=address".to_string());
    env.build_args = Some("--features foo".to_string());
    let cmd = plan_build(
        BuildVariant::DebugProfile,
        &env,
        "/work/crate",
        TRIPLE,
        &vec!["--bin".to_string(), "demo".to_string()],
        "0.5.55",
        "0.5.55",
        false,
        false,
    )
    .unwrap();
    assert_eq!(cmd.program, "cargo");
    assert_eq!(
        cmd.args,
        vec!["build", "--target", TRIPLE, "--bin", "demo", "--features", "foo"]
    );
    assert_eq!(
        env_value(&cmd.env, "RUSTFLAGS"),
        Some(
            "--cfg fuzzing -C debug-assertions -C overflow_checks \
             --cfg fuzzing_debug -C opt-level=0 -C debuginfo=2 -Zsanitizer=address"
        )
    );
    assert_eq!(env_value(&cmd.env, "CARGO_INCREMENTAL"), Some("1"));
    assert_eq!(env_value(&cmd.env, "CARGO_TARGET_DIR"), Some("hfuzz_target"));
    assert_eq!(env_value(&cmd.env, "CRATE_ROOT"), Some("/work/crate"));
    // The debug profile needs no engine: no version or placement markers.
    assert_eq!(env_value(&cmd.env, "CARGO_HONGGFUZZ_BUILD_VERSION"), None);
    assert_eq!(env_value(&cmd.env, "CARGO_HONGGFUZZ_TARGET_DIR"), None);
}

#[test]
fn release_build_carries_release_switch_and_markers() {
    let cmd = plan_build(
        BuildVariant::Instrumented,
        &plain_env(),
        "/crate",
        TRIPLE,
        &vec![],
        "0.5.55",
        "0.5.55",
        false,
        false,
    )
    .unwrap();
    assert_eq!(cmd.args.last().map(|s| s.as_str()), Some("--release"));
    assert_eq!(env_value(&cmd.env, "CARGO_HONGGFUZZ_BUILD_VERSION"), Some("0.5.55"));
    assert_eq!(env_value(&cmd.env, "CARGO_HONGGFUZZ_TARGET_DIR"), Some("hfuzz_target"));
}

fn demo_run_plan() -> RunPlan {
    plan_run(
        BuildVariant::Instrumented,
        &Some("demo".to_string()),
        &None,
        &None,
        &plain_env(),
        "/crate",
        TRIPLE,
        &vec![],
        "0.5.55",
        "0.5.55",
        false,
        false,
    )
    .unwrap()
}

#[test]
fn run_plan_end_to_end_defaults() {
    let plan = demo_run_plan();
    assert_eq!(plan.corpus_dir, "hfuzz_workspace/demo/input");
    assert_eq!(plan.build.args, vec!["build", "--target", TRIPLE, "--bin", "demo", "--release"]);
    let engine = &plan.engine.command;
    assert_eq!(engine.program, "hfuzz_target/honggfuzz");
    let bin = format!("hfuzz_target/{}/release/demo", TRIPLE);
    assert_eq!(
        engine.args,
        vec![
            "-W",
            "hfuzz_workspace/demo",
            "-f",
            "hfuzz_workspace/demo/input",
            "-P",
            "--",
            bin.as_str(),
        ]
    );
    assert_eq!(env_value(&engine.env, "ASAN_OPTIONS"), Some("detect_odr_violation=0:"));
    assert_eq!(env_value(&engine.env, "TSAN_OPTIONS"), Some("report_signal_unsafe=0:"));
}

#[test]
fn run_plan_sanitizer_options_are_prepended() {
    let mut env = plain_env();
    env.asan_options = Some("abort_on_error=1".to_string());
    env.tsan_options = Some("halt_on_error=1".to_string());
    let plan = plan_run(
        BuildVariant::Instrumented,
        &Some("demo".to_string()),
        &None,
        &None,
        &env,
        "/crate",
        TRIPLE,
        &vec![],
        "0.5.55",
        "0.5.55",
        false,
        false,
    )
    .unwrap();
    let engine = &plan.engine.command;
    assert_eq!(
        env_value(&engine.env, "ASAN_OPTIONS"),
        Some("detect_odr_violation=0:abort_on_error=1")
    );
    assert_eq!(
        env_value(&engine.env, "TSAN_OPTIONS"),
        Some("report_signal_unsafe=0:halt_on_error=1")
    );
}

#[test]
fn run_plan_engine_args_and_forwarding() {
    let mut env = plain_env();
    env.run_args = Some("-t 1 -n 12".to_string());
    let plan = plan_run(
        BuildVariant::Instrumented,
        &Some("demo".to_string()),
        &None,
        &None,
        &env,
        "/crate",
        TRIPLE,
        &vec!["--seed".to_string(), "7".to_string()],
        "0.5.55",
        "0.5.55",
        false,
        false,
    )
    .unwrap();
    let engine = &plan.engine.command;
    let bin = format!("hfuzz_target/{}/release/demo", TRIPLE);
    assert_eq!(
        engine.args,
        vec![
            "-W",
            "hfuzz_workspace/demo",
            "-f",
            "hfuzz_workspace/demo/input",
            "-P",
            "-t",
            "1",
            "-n",
            "12",
            "--",
            bin.as_str(),
            "--seed",
            "7",
        ]
    );
}

#[test]
fn workspace_and_corpus_precedence_flag_over_env_over_default() {
    let mut env = plain_env();
    env.workspace = Some("env_ws".to_string());
    env.corpus = Some("env_corpus".to_string());
    // All three layers set to conflicting values: the flag wins.
    let plan = plan_run(
        BuildVariant::Instrumented,
        &Some("demo".to_string()),
        &Some("flag_ws".to_string()),
        &Some("flag_corpus".to_string()),
        &env,
        "/crate",
        TRIPLE,
        &vec![],
        "0.5.55",
        "0.5.55",
        false,
        false,
    )
    .unwrap();
    assert_eq!(plan.corpus_dir, "flag_corpus");
    assert_eq!(plan.engine.command.args[1], "flag_ws/demo");
    // Without the flags, the environment wins over the default.
    let plan = plan_run(
        BuildVariant::Instrumented,
        &Some("demo".to_string()),
        &None,
        &None,
        &env,
        "/crate",
        TRIPLE,
        &vec![],
        "0.5.55",
        "0.5.55",
        false,
        false,
    )
    .unwrap();
    assert_eq!(plan.corpus_dir, "env_corpus");
    assert_eq!(plan.engine.command.args[1], "env_ws/demo");
}

#[test]
fn missing_target_is_a_usage_error() {
    let r = plan_run(
        BuildVariant::Instrumented,
        &None,
        &None,
        &None,
        &plain_env(),
        "/crate",
        TRIPLE,
        &vec![],
        "0.5.55",
        "0.5.55",
        false,
        false,
    );
    assert_eq!(r.err(), Some(Error::UsageError));
    let r = plan_debug(
        &Some("demo".to_string()),
        &None,
        &None,
        &plain_env(),
        "/crate",
        TRIPLE,
        &vec![],
        "0.5.55",
        false,
        false,
    );
    assert_eq!(r.err(), Some(Error::UsageError));
    let r = plan_debug(
        &None,
        &Some("crash.fuzz".to_string()),
        &None,
        &plain_env(),
        "/crate",
        TRIPLE,
        &vec![],
        "0.5.55",
        false,
        false,
    );
    assert_eq!(r.err(), Some(Error::UsageError));
}

#[test]
fn debug_plan_lldb_style() {
    let plan = plan_debug(
        &Some("demo".to_string()),
        &Some("hfuzz_workspace/demo/x.fuzz".to_string()),
        &None,
        &plain_env(),
        "/crate",
        TRIPLE,
        &vec!["--opt".to_string()],
        "0.5.55",
        false,
        false,
    )
    .unwrap();
    // The default debugger name contains the known substring: file-style.
    let dbg = &plan.debugger.command;
    assert_eq!(dbg.program, "rust-lldb");
    let bin = format!("hfuzz_target/{}/debug/demo", TRIPLE);
    assert_eq!(
        dbg.args,
        vec![
            "-o",
            "b rust_panic",
            "-o",
            "r",
            "-o",
            "bt",
            "-f",
            bin.as_str(),
            "--",
            "--opt",
        ]
    );
    assert_eq!(
        env_value(&dbg.env, "CARGO_HONGGFUZZ_CRASH_FILENAME"),
        Some("hfuzz_workspace/demo/x.fuzz")
    );
    assert_eq!(env_value(&dbg.env, "RUST_BACKTRACE"), Some("1"));
    // The build part uses the debug profile, not a release one.
    assert_eq!(plan.build.args, vec!["build", "--target", TRIPLE, "--bin", "demo"]);
}

#[test]
fn debug_plan_alternate_style_and_backtrace_propagation() {
    let mut env = plain_env();
    env.backtrace = Some("full".to_string());
    let plan = plan_debug(
        &Some("demo".to_string()),
        &Some("c.fuzz".to_string()),
        &Some("/usr/bin/gdb".to_string()),
        &env,
        "/crate",
        TRIPLE,
        &vec![],
        "0.5.55",
        false,
        false,
    )
    .unwrap();
    let dbg = &plan.debugger.command;
    assert_eq!(dbg.program, "/usr/bin/gdb");
    let bin = format!("hfuzz_target/{}/debug/demo", TRIPLE);
    assert_eq!(
        dbg.args,
        vec![
            "-ex",
            "b rust_panic",
            "-ex",
            "r",
            "-ex",
            "bt",
            "--args",
            bin.as_str(),
        ]
    );
    assert_eq!(env_value(&dbg.env, "RUST_BACKTRACE"), Some("full"));
}

#[test]
fn clean_targets_isolated_output_dir_regardless_of_args() {
    let cmd = plan_clean(&plain_env(), &vec![]);
    assert_eq!(cmd.program, "cargo");
    assert_eq!(cmd.args, vec!["clean"]);
    assert_eq!(env_value(&cmd.env, "CARGO_TARGET_DIR"), Some("hfuzz_target"));
    let cmd = plan_clean(
        &plain_env(),
        &vec!["--doc".to_string(), "--target-dir".to_string(), "elsewhere".to_string()],
    );
    assert_eq!(cmd.args, vec!["clean", "--doc", "--target-dir", "elsewhere"]);
    assert_eq!(env_value(&cmd.env, "CARGO_TARGET_DIR"), Some("hfuzz_target"));
    let mut env = plain_env();
    env.output_dir = Some("custom_out".to_string());
    let cmd = plan_clean(&env, &vec!["--doc".to_string()]);
    assert_eq!(env_value(&cmd.env, "CARGO_TARGET_DIR"), Some("custom_out"));
}

#[test]
fn dispatch_table() {
    assert_eq!(parse_command("build"), Some(CliCommand::Build(BuildVariant::Instrumented)));
    assert_eq!(
        parse_command("build-no-instr"),
        Some(CliCommand::Build(BuildVariant::NotInstrumented))
    );
    assert_eq!(parse_command("build-debug"), Some(CliCommand::Build(BuildVariant::DebugProfile)));
    assert_eq!(
        parse_command("build-grcov"),
        Some(CliCommand::Build(BuildVariant::CoverageProfile))
    );
    assert_eq!(parse_command("run"), Some(CliCommand::Run(BuildVariant::Instrumented)));
    assert_eq!(
        parse_command("run-no-instr"),
        Some(CliCommand::Run(BuildVariant::NotInstrumented))
    );
    assert_eq!(parse_command("run-debug"), Some(CliCommand::RunDebug));
    assert_eq!(parse_command("clean"), Some(CliCommand::Clean));
    assert_eq!(parse_command("version"), Some(CliCommand::Version));
    assert_eq!(parse_command("fuzz"), None);
    assert_eq!(parse_command(""), None);
}

#[test]
fn verbosity_levels() {
    fn fuzz_opt(verbose: u8) -> Opt {
        Opt {
            command: OptSub::Fuzz {
                common_opts: CommonOpts {
                    only_build: false,
                    rustflags: None,
                    build_args: None,
                    verbose,
                    workspace: "hfuzz_workspace".to_string(),
                },
                input: "input".to_string(),
                target: "demo".to_string(),
                no_instr: false,
                args: vec![],
            },
        }
    }
    assert_eq!(fuzz_opt(0).verbosity(), LevelFilter::Error);
    assert_eq!(fuzz_opt(1).verbosity(), LevelFilter::Error);
    assert_eq!(fuzz_opt(2).verbosity(), LevelFilter::Warn);
    assert_eq!(fuzz_opt(3).verbosity(), LevelFilter::Info);
    assert_eq!(fuzz_opt(4).verbosity(), LevelFilter::Debug);
    assert_eq!(fuzz_opt(5).verbosity(), LevelFilter::Trace);
    assert_eq!(fuzz_opt(255).verbosity(), LevelFilter::Trace);
    let debug = OptSub::Debug {
        common_opts: CommonOpts {
            only_build: false,
            rustflags: None,
            build_args: None,
            verbose: 3,
            workspace: "w".to_string(),
        },
        debugger: "rust-lldb".to_string(),
        target: "demo".to_string(),
        crash_file: "c.fuzz".to_string(),
        target_args: vec![],
    };
    assert_eq!(debug.verbosity(), LevelFilter::Info);
}

#[test]
fn locked_engine_version_lookup() {
    let lock = "\
# lock file
[[package]]
name = \"arbitrary\"
version = \"0.4.7\"

[[package]]
name = \"honggfuzz\"
version = \"0.5.55\"
dependencies = [
 \"arbitrary\",
]
";
    assert_eq!(version_guard::locked_engine_version(lock), Some("0.5.55".to_string()));
    assert_eq!(version_guard::locked_engine_version("no such package"), None);
    assert_eq!(version_guard::locked_engine_version(""), None);
}

#[test]
fn error_variants_distinguishable() {
    let mismatch = Error::VersionMismatch { local: "a".to_string(), reported: "b".to_string() };
    assert!(mismatch.is_version_mismatch());
    assert!(!Error::UsageError.is_version_mismatch());
    assert_ne!(Error::ToolchainFailure { code: 101 }, Error::ToolchainFailure { code: 1 });
    assert_ne!(
        Error::ProcessLaunchFailure { path: "hfuzz_target/honggfuzz".to_string() },
        Error::UsageError
    );
    assert_eq!(hfuzz::orchestrator_version(), "0.5.55");
}
