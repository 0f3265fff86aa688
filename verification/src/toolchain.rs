//! Toolchain driver: the exact build-system invocation for a resolved
//! configuration, and the workspace-clean invocation.
//!
//! The flag set travels through the environment, not through the argument
//! list, so nested build-time helper invocations do not inherit the
//! instrumentation flags.  For variants that need the external engine, two
//! extra environment markers carry the expected engine version and the
//! placement path for the engine artifacts.

use vstd::prelude::*;

use crate::invocation::{push_env, CommandSpec, EnvVar};
use crate::resolver::{needs_engine, variant_needs_engine, BuildConfiguration};
use crate::strutil::{extend_strings, join_with_spaces, join_ws, push_string, push_tok};

verus! {

/// The build system's argument list: the build verb, the target triple, the
/// caller's extra arguments, the user's build arguments, and last the
/// release switch when the profile is a release one.
pub open spec fn toolchain_args_spec(
    triple: Seq<char>,
    extra: Seq<Seq<char>>,
    build_args: Seq<Seq<char>>,
    release: bool,
) -> Seq<Seq<char>> {
    seq!["build"@, "--target"@, triple] + extra + build_args + if release {
        seq!["--release"@]
    } else {
        Seq::empty()
    }
}

/// The build system's environment: the joined flag set, the incremental
/// toggle, the isolated output directory, the crate root, and — only for
/// variants needing the engine — the version and placement markers read by
/// the build-time helper.
pub open spec fn toolchain_env_spec(
    flags: Seq<Seq<char>>,
    incremental: Seq<char>,
    output_dir: Seq<char>,
    crate_root: Seq<char>,
    version: Seq<char>,
    engine: bool,
) -> Seq<(Seq<char>, Seq<char>)> {
    seq![
        ("RUSTFLAGS"@, join_ws(flags)),
        ("CARGO_INCREMENTAL"@, incremental),
        ("CARGO_TARGET_DIR"@, output_dir),
        ("CRATE_ROOT"@, crate_root),
    ] + if engine {
        seq![
            ("CARGO_HONGGFUZZ_BUILD_VERSION"@, version),
            ("CARGO_HONGGFUZZ_TARGET_DIR"@, output_dir),
        ]
    } else {
        Seq::empty()
    }
}

/// Assemble the build invocation for a resolved configuration.  Nothing is
/// executed here; the caller spawns the result, inherits its stdio, and
/// propagates a nonzero exit status verbatim.
pub fn build_invocation(
    cfg: &BuildConfiguration,
    cargo_bin: &str,
    crate_root: &str,
    extra_args: &Vec<String>,
    local_version: &str,
) -> (cmd: CommandSpec)
    ensures
        cmd.program@ == cargo_bin@,
        cmd.args.deep_view() == toolchain_args_spec(
            cfg.target_triple@,
            extra_args.deep_view(),
            cfg.build_args.deep_view(),
            cfg.release,
        ),
        cmd.env.deep_view() == toolchain_env_spec(
            cfg.flags.deep_view(),
            cfg.incremental@,
            cfg.output_dir@,
            crate_root@,
            local_version@,
            needs_engine(cfg.variant),
        ),
{
    let mut args: Vec<String> = Vec::new();
    push_tok(&mut args, "build");
    push_tok(&mut args, "--target");
    push_string(&mut args, &cfg.target_triple);
    proof {
        assert(args.deep_view() =~= seq!["build"@, "--target"@, cfg.target_triple@]);
    }
    extend_strings(&mut args, extra_args);
    extend_strings(&mut args, &cfg.build_args);
    let ghost without_release = args.deep_view();
    if cfg.release {
        push_tok(&mut args, "--release");
        proof {
            assert(args.deep_view() =~= without_release + seq!["--release"@]);
        }
    } else {
        proof {
            assert(args.deep_view() =~= without_release + Seq::<Seq<char>>::empty());
        }
    }
    proof {
        assert(args.deep_view() =~= toolchain_args_spec(
            cfg.target_triple@,
            extra_args.deep_view(),
            cfg.build_args.deep_view(),
            cfg.release,
        ));
    }
    let mut env: Vec<EnvVar> = Vec::new();
    let rustflags_value = join_with_spaces(&cfg.flags);
    push_env(&mut env, "RUSTFLAGS", rustflags_value);
    push_env(&mut env, "CARGO_INCREMENTAL", cfg.incremental.clone());
    push_env(&mut env, "CARGO_TARGET_DIR", cfg.output_dir.clone());
    push_env(&mut env, "CRATE_ROOT", String::from_str(crate_root));
    let ghost base_env = env.deep_view();
    if variant_needs_engine(cfg.variant) {
        push_env(&mut env, "CARGO_HONGGFUZZ_BUILD_VERSION", String::from_str(local_version));
        push_env(&mut env, "CARGO_HONGGFUZZ_TARGET_DIR", cfg.output_dir.clone());
        proof {
            assert(env.deep_view() =~= base_env + seq![
                ("CARGO_HONGGFUZZ_BUILD_VERSION"@, local_version@),
                ("CARGO_HONGGFUZZ_TARGET_DIR"@, cfg.output_dir@),
            ]);
        }
    }
    proof {
        assert(env.deep_view() =~= toolchain_env_spec(
            cfg.flags.deep_view(),
            cfg.incremental@,
            cfg.output_dir@,
            crate_root@,
            local_version@,
            needs_engine(cfg.variant),
        ));
    }
    CommandSpec { program: String::from_str(cargo_bin), args, env }
}

/// Assemble the workspace-clean invocation.  Whatever extra arguments are
/// passed through, the environment pins the clean to the isolated output
/// directory used for fuzz builds, so ordinary build artifacts are never
/// touched.
pub fn clean_invocation(cargo_bin: &str, output_dir: &str, extra_args: &Vec<String>) -> (cmd:
    CommandSpec)
    ensures
        cmd.program@ == cargo_bin@,
        cmd.args.deep_view() == seq!["clean"@] + extra_args.deep_view(),
        cmd.env.deep_view() == seq![("CARGO_TARGET_DIR"@, output_dir@)],
{
    let mut args: Vec<String> = Vec::new();
    push_tok(&mut args, "clean");
    extend_strings(&mut args, extra_args);
    proof {
        assert(args.deep_view() =~= seq!["clean"@] + extra_args.deep_view());
    }
    let mut env: Vec<EnvVar> = Vec::new();
    push_env(&mut env, "CARGO_TARGET_DIR", String::from_str(output_dir));
    proof {
        assert(env.deep_view() =~= seq![("CARGO_TARGET_DIR"@, output_dir@)]);
    }
    CommandSpec { program: String::from_str(cargo_bin), args, env }
}

} // verus!
