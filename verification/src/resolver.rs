//! Build-profile resolution: the pure mapping from a requested build variant
//! plus user overrides to a concrete build configuration.
//!
//! The resolved flag sequence is fully determined by the variant, the user
//! flags and the linker-probe outcome; generated flags always come first and
//! user flags are appended last, so a user value can override a generated
//! duplicate.

use vstd::prelude::*;

use crate::strutil::{
    extend_strings, push_tok, split_whitespace, split_ws_spec, str_eq,
};

verus! {

/// The four instrumentation profiles a build can be made under.  Chosen once
/// per invocation and immutable afterwards.
#[derive(Clone, Copy, Debug, PartialEq, Eq, Structural)]
pub enum BuildVariant {
    /// Release build with coverage instrumentation for the engine.
    Instrumented,
    /// Release build without instrumentation.
    NotInstrumented,
    /// Non-release build for debugger replay of a crash.
    DebugProfile,
    /// Non-release build with profiling instrumentation for coverage reports.
    CoverageProfile,
}

/// Variants whose build artifacts are consumed by the external engine binary.
pub open spec fn needs_engine(v: BuildVariant) -> bool {
    v == BuildVariant::Instrumented || v == BuildVariant::CoverageProfile
}

/// Runtime test for [`needs_engine`].
pub fn variant_needs_engine(v: BuildVariant) -> (r: bool)
    ensures
        r == needs_engine(v),
{
    match v {
        BuildVariant::Instrumented => true,
        BuildVariant::CoverageProfile => true,
        _ => false,
    }
}

/// Variants built in release mode.
pub open spec fn is_release(v: BuildVariant) -> bool {
    v == BuildVariant::Instrumented || v == BuildVariant::NotInstrumented
}

/// The incremental-compilation toggle: off exactly for the coverage profile.
pub open spec fn incremental_spec(v: BuildVariant) -> Seq<char> {
    if v == BuildVariant::CoverageProfile {
        "0"@
    } else {
        "1"@
    }
}

/// Flags every variant gets: the fuzzing-mode marker, debug assertions and
/// overflow checks.
pub open spec fn base_flags() -> Seq<Seq<char>> {
    seq!["--cfg"@, "fuzzing"@, "-C"@, "debug-assertions"@, "-C"@, "overflow_checks"@]
}

/// Extra flags of the debug profile: debug-fuzzing marker, no optimization,
/// full debug info.
pub open spec fn debug_profile_flags() -> Seq<Seq<char>> {
    seq!["--cfg"@, "fuzzing_debug"@, "-C"@, "opt-level=0"@, "-C"@, "debuginfo=2"@]
}

/// Extra flags of the coverage profile: debug-fuzzing marker, profiling
/// instrumentation, abort on panic, no optimization, full debug info, a
/// single codegen unit, zero inline threshold, dead code retained.
pub open spec fn coverage_profile_flags() -> Seq<Seq<char>> {
    seq![
        "--cfg"@,
        "fuzzing_debug"@,
        "-Zprofile"@,
        "-Cpanic=abort"@,
        "-C"@,
        "opt-level=0"@,
        "-C"@,
        "debuginfo=2"@,
        "-Ccodegen-units=1"@,
        "-Cinline-threshold=0"@,
        "-Clink-dead-code"@,
    ]
}

/// Extra flags of the two release variants: maximal optimization, native-CPU
/// targeting, no debug info.
pub open spec fn release_flags() -> Seq<Seq<char>> {
    seq!["-C"@, "opt-level=3"@, "-C"@, "target-cpu=native"@, "-C"@, "debuginfo=0"@]
}

/// The coverage-instrumentation pass and its tracing options.
pub open spec fn sancov_flags() -> Seq<Seq<char>> {
    seq![
        "-C"@,
        "passes=sancov"@,
        "-C"@,
        "llvm-args=-sanitizer-coverage-level=4"@,
        "-C"@,
        "llvm-args=-sanitizer-coverage-trace-pc-guard"@,
        "-C"@,
        "llvm-args=-sanitizer-coverage-trace-divs"@,
    ]
}

/// Compare tracing, omitted on the one platform where it would need a
/// sanitizer the build does not otherwise request.
pub open spec fn trace_compares_flags(target_is_macos: bool) -> Seq<Seq<char>> {
    if target_is_macos {
        Seq::empty()
    } else {
        seq!["-C"@, "llvm-args=-sanitizer-coverage-trace-compares"@]
    }
}

/// The alternate-linker flag, emitted only when the probe found the linker.
pub open spec fn gold_linker_flags(gold_linker: bool) -> Seq<Seq<char>> {
    if gold_linker {
        seq!["-Clink-arg=-fuse-ld=gold"@]
    } else {
        Seq::empty()
    }
}

/// Everything the instrumented variant adds beyond the release flags.
pub open spec fn instrumentation_flags(target_is_macos: bool, gold_linker: bool) -> Seq<
    Seq<char>,
> {
    sancov_flags() + trace_compares_flags(target_is_macos) + gold_linker_flags(gold_linker)
}

/// The variant-specific part of the generated flags.
pub open spec fn variant_flags(
    v: BuildVariant,
    gold_linker: bool,
    target_is_macos: bool,
) -> Seq<Seq<char>> {
    match v {
        BuildVariant::Instrumented => release_flags() + instrumentation_flags(
            target_is_macos,
            gold_linker,
        ),
        BuildVariant::NotInstrumented => release_flags(),
        BuildVariant::DebugProfile => debug_profile_flags(),
        BuildVariant::CoverageProfile => coverage_profile_flags(),
    }
}

/// All generated flags, in emission order.
pub open spec fn generated_flags(
    v: BuildVariant,
    gold_linker: bool,
    target_is_macos: bool,
) -> Seq<Seq<char>> {
    base_flags() + variant_flags(v, gold_linker, target_is_macos)
}

/// The full resolved sequence: generated flags first, user flags appended
/// last.
pub open spec fn resolved_flags(
    v: BuildVariant,
    user: Seq<Seq<char>>,
    gold_linker: bool,
    target_is_macos: bool,
) -> Seq<Seq<char>> {
    generated_flags(v, gold_linker, target_is_macos) + user
}

/// A concrete build configuration, constructed fresh per invocation and
/// discarded after the toolchain returns.
#[derive(Debug)]
pub struct BuildConfiguration {
    /// The profile this configuration was resolved for.
    pub variant: BuildVariant,
    /// Target platform triple the toolchain builds for.
    pub target_triple: String,
    /// Ordered flag sequence: generated flags, then user-supplied flags.
    pub flags: Vec<String>,
    /// Extra arguments handed to the build system, whitespace-split from the
    /// user's override value.
    pub build_args: Vec<String>,
    /// Incremental-compilation toggle, `"1"` by default, `"0"` for the
    /// coverage profile.
    pub incremental: String,
    /// Isolated output directory, never the toolchain's default, so variant
    /// artifacts cannot collide with ordinary builds.
    pub output_dir: String,
    /// Release or non-release mode.
    pub release: bool,
}

/// Resolve a build variant and the user overrides to a concrete
/// configuration.  Deterministic: every field is a fixed function of the
/// arguments; the linker-probe outcome arrives as the `gold_linker` argument
/// and only ever changes the emitted flags.
///
/// The two user override values are split on whitespace with no quoting
/// support, a documented limitation that is preserved.
pub fn resolve(
    variant: BuildVariant,
    user_flags: &str,
    user_build_args: &str,
    target_triple: &str,
    output_dir: &str,
    gold_linker: bool,
    target_is_macos: bool,
) -> (c: BuildConfiguration)
    ensures
        c.variant == variant,
        c.target_triple@ == target_triple@,
        c.output_dir@ == output_dir@,
        c.flags.deep_view() == resolved_flags(
            variant,
            split_ws_spec(user_flags@),
            gold_linker,
            target_is_macos,
        ),
        c.build_args.deep_view() == split_ws_spec(user_build_args@),
        c.incremental@ == incremental_spec(variant),
        c.release == is_release(variant),
{
    let mut flags: Vec<String> = Vec::new();
    push_tok(&mut flags, "--cfg");
    push_tok(&mut flags, "fuzzing");
    push_tok(&mut flags, "-C");
    push_tok(&mut flags, "debug-assertions");
    push_tok(&mut flags, "-C");
    push_tok(&mut flags, "overflow_checks");
    proof {
        assert(flags.deep_view() =~= base_flags());
    }
    match variant {
        BuildVariant::DebugProfile => {
            push_tok(&mut flags, "--cfg");
            push_tok(&mut flags, "fuzzing_debug");
            push_tok(&mut flags, "-C");
            push_tok(&mut flags, "opt-level=0");
            push_tok(&mut flags, "-C");
            push_tok(&mut flags, "debuginfo=2");
            proof {
                assert(flags.deep_view() =~= base_flags() + debug_profile_flags());
            }
        },
        BuildVariant::CoverageProfile => {
            push_tok(&mut flags, "--cfg");
            push_tok(&mut flags, "fuzzing_debug");
            push_tok(&mut flags, "-Zprofile");
            push_tok(&mut flags, "-Cpanic=abort");
            push_tok(&mut flags, "-C");
            push_tok(&mut flags, "opt-level=0");
            push_tok(&mut flags, "-C");
            push_tok(&mut flags, "debuginfo=2");
            push_tok(&mut flags, "-Ccodegen-units=1");
            push_tok(&mut flags, "-Cinline-threshold=0");
            push_tok(&mut flags, "-Clink-dead-code");
            proof {
                assert(flags.deep_view() =~= base_flags() + coverage_profile_flags());
            }
        },
        BuildVariant::NotInstrumented => {
            push_tok(&mut flags, "-C");
            push_tok(&mut flags, "opt-level=3");
            push_tok(&mut flags, "-C");
            push_tok(&mut flags, "target-cpu=native");
            push_tok(&mut flags, "-C");
            push_tok(&mut flags, "debuginfo=0");
            proof {
                assert(flags.deep_view() =~= base_flags() + release_flags());
            }
        },
        BuildVariant::Instrumented => {
            push_tok(&mut flags, "-C");
            push_tok(&mut flags, "opt-level=3");
            push_tok(&mut flags, "-C");
            push_tok(&mut flags, "target-cpu=native");
            push_tok(&mut flags, "-C");
            push_tok(&mut flags, "debuginfo=0");
            push_tok(&mut flags, "-C");
            push_tok(&mut flags, "passes=sancov");
            push_tok(&mut flags, "-C");
            push_tok(&mut flags, "llvm-args=-sanitizer-coverage-level=4");
            push_tok(&mut flags, "-C");
            push_tok(&mut flags, "llvm-args=-sanitizer-coverage-trace-pc-guard");
            push_tok(&mut flags, "-C");
            push_tok(&mut flags, "llvm-args=-sanitizer-coverage-trace-divs");
            proof {
                assert(flags.deep_view() =~= base_flags() + release_flags() + sancov_flags());
            }
            let ghost sofar = flags.deep_view();
            if !target_is_macos {
                push_tok(&mut flags, "-C");
                push_tok(&mut flags, "llvm-args=-sanitizer-coverage-trace-compares");
                proof {
                    assert(flags.deep_view() =~= sofar + trace_compares_flags(target_is_macos));
                }
            } else {
                proof {
                    assert(flags.deep_view() =~= sofar + trace_compares_flags(target_is_macos));
                }
            }
            let ghost sofar2 = flags.deep_view();
            if gold_linker {
                push_tok(&mut flags, "-Clink-arg=-fuse-ld=gold");
                proof {
                    assert(flags.deep_view() =~= sofar2 + gold_linker_flags(gold_linker));
                }
            } else {
                proof {
                    assert(flags.deep_view() =~= sofar2 + gold_linker_flags(gold_linker));
                }
            }
            proof {
                assert(flags.deep_view() =~= base_flags() + (release_flags()
                    + instrumentation_flags(target_is_macos, gold_linker)));
            }
        },
    }
    proof {
        assert(flags.deep_view() =~= generated_flags(variant, gold_linker, target_is_macos));
    }
    let user = split_whitespace(user_flags);
    extend_strings(&mut flags, &user);
    let build_args = split_whitespace(user_build_args);
    let incremental = match variant {
        BuildVariant::CoverageProfile => String::from_str("0"),
        _ => String::from_str("1"),
    };
    let release = match variant {
        BuildVariant::Instrumented => true,
        BuildVariant::NotInstrumented => true,
        _ => false,
    };
    BuildConfiguration {
        variant,
        target_triple: String::from_str(target_triple),
        flags,
        build_args,
        incremental,
        output_dir: String::from_str(output_dir),
        release,
    }
}

/// Resolver purity: for a fixed variant, user flag list and linker-probe
/// outcome, the resolved flag sequence is one fixed value, so repeated
/// resolutions of the same inputs agree flag for flag.
pub proof fn lemma_resolve_deterministic(
    variant: BuildVariant,
    user: Seq<Seq<char>>,
    gold_linker: bool,
    target_is_macos: bool,
    f1: Seq<Seq<char>>,
    f2: Seq<Seq<char>>,
)
    requires
        f1 == resolved_flags(variant, user, gold_linker, target_is_macos),
        f2 == resolved_flags(variant, user, gold_linker, target_is_macos),
    ensures
        f1 == f2,
{
}

/// Ordering invariant: the generated flags form a prefix of the resolved
/// sequence and every user flag stands after all of them; in particular a
/// user flag that duplicates a generated flag appears strictly after it.
pub proof fn lemma_user_flag_follows_generated(
    variant: BuildVariant,
    user: Seq<Seq<char>>,
    gold_linker: bool,
    target_is_macos: bool,
    j: int,
    k: int,
)
    requires
        0 <= j < generated_flags(variant, gold_linker, target_is_macos).len(),
        0 <= k < user.len(),
    ensures
        resolved_flags(variant, user, gold_linker, target_is_macos)[j] == generated_flags(
            variant,
            gold_linker,
            target_is_macos,
        )[j],
        resolved_flags(variant, user, gold_linker, target_is_macos)[generated_flags(
            variant,
            gold_linker,
            target_is_macos,
        ).len() + k] == user[k],
        j < generated_flags(variant, gold_linker, target_is_macos).len() + k,
{
}

/// First position of `tok` in `flags`: the flag-sequence inspector, used to
/// check the ordering invariant on concrete sequences.
pub fn first_index_of(flags: &Vec<String>, tok: &str) -> (r: Option<usize>)
    ensures
        match r {
            Some(i) => i < flags@.len() && flags.deep_view()[i as int] == tok@ && forall|k: int|
                0 <= k < i ==> flags.deep_view()[k] != tok@,
            None => forall|k: int| 0 <= k < flags@.len() ==> flags.deep_view()[k] != tok@,
        },
{
    let mut i: usize = 0;
    while i < flags.len()
        invariant
            i <= flags@.len(),
            flags.deep_view().len() == flags@.len(),
            forall|k: int| 0 <= k < i ==> flags.deep_view()[k] != tok@,
        decreases flags@.len() - i,
    {
        if str_eq(flags[i].as_str(), tok) {
            return Some(i);
        }
        i += 1;
    }
    None
}

/// Is `tok` one of the flags?
pub fn contains_token(flags: &Vec<String>, tok: &str) -> (r: bool)
    ensures
        r == flags.deep_view().contains(tok@),
{
    let r = first_index_of(flags, tok);
    match r {
        Some(i) => {
            proof {
                assert(flags.deep_view()[i as int] == tok@);
            }
            true
        },
        None => {
            proof {
                assert(!flags.deep_view().contains(tok@));
            }
            false
        },
    }
}

} // verus!
