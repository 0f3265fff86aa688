//! Path resolution: workspace, corpus and binary locations, each with the
//! explicit-flag > environment-variable > computed-default precedence, and
//! the one decision of the crate-root search.

use vstd::prelude::*;

use crate::strutil::{concat2, opt_or, path_join};

verus! {

/// Explicit flag wins over the environment value, which wins over the
/// computed default.
pub open spec fn precedence_spec(
    flag: Option<Seq<char>>,
    env: Option<Seq<char>>,
    default: Seq<char>,
) -> Seq<char> {
    match flag {
        Some(v) => v,
        None => opt_or(env, default),
    }
}

/// Resolve one overridable value by the flag > environment > default rule.
pub fn resolve_with_precedence(flag: &Option<String>, env: &Option<String>, default: &str) -> (r:
    String)
    ensures
        r@ == precedence_spec(flag.deep_view(), env.deep_view(), default@),
{
    match flag {
        Some(s) => s.clone(),
        None => match env {
            Some(s) => s.clone(),
            None => String::from_str(default),
        },
    }
}

/// The working directory for fuzzing artifacts.
pub fn resolve_workspace(flag: &Option<String>, env: &Option<String>) -> (r: String)
    ensures
        r@ == precedence_spec(flag.deep_view(), env.deep_view(), "hfuzz_workspace"@),
{
    resolve_with_precedence(flag, env, "hfuzz_workspace")
}

/// The isolated build-output directory, never the toolchain's default, so
/// instrumented and ordinary artifacts cannot collide.
pub fn resolve_output_dir(env: &Option<String>) -> (r: String)
    ensures
        r@ == opt_or(env.deep_view(), "hfuzz_target"@),
{
    match env {
        Some(s) => s.clone(),
        None => String::from_str("hfuzz_target"),
    }
}

/// Default corpus location: `<workspace>/<target>/input`.
pub open spec fn default_corpus_spec(workspace: Seq<char>, target: Seq<char>) -> Seq<char> {
    workspace + "/"@ + target + "/input"@
}

/// The corpus directory, by the same precedence rule, defaulting to
/// `<workspace>/<target>/input`.
pub fn resolve_corpus_dir(
    flag: &Option<String>,
    env: &Option<String>,
    workspace: &str,
    target: &str,
) -> (r: String)
    ensures
        r@ == precedence_spec(
            flag.deep_view(),
            env.deep_view(),
            default_corpus_spec(workspace@, target@),
        ),
{
    match flag {
        Some(s) => s.clone(),
        None => match env {
            Some(s) => s.clone(),
            None => {
                let base = path_join(workspace, target);
                concat2(base.as_str(), "/input")
            },
        },
    }
}

/// Where a built binary of the given profile directory stands:
/// `<output_dir>/<triple>/<profile>/<target>`.
pub open spec fn binary_path_spec(
    output_dir: Seq<char>,
    triple: Seq<char>,
    profile: Seq<char>,
    target: Seq<char>,
) -> Seq<char> {
    output_dir + "/"@ + triple + "/"@ + profile + "/"@ + target
}

/// The release binary the engine fuzzes.
pub fn release_binary_path(output_dir: &str, triple: &str, target: &str) -> (r: String)
    ensures
        r@ == binary_path_spec(output_dir@, triple@, "release"@, target@),
{
    let a = path_join(output_dir, triple);
    let b = path_join(a.as_str(), "release");
    path_join(b.as_str(), target)
}

/// The debug binary the debugger replays.
pub fn debug_binary_path(output_dir: &str, triple: &str, target: &str) -> (r: String)
    ensures
        r@ == binary_path_spec(output_dir@, triple@, "debug"@, target@),
{
    let a = path_join(output_dir, triple);
    let b = path_join(a.as_str(), "debug");
    path_join(b.as_str(), target)
}

/// Where the external engine binary is placed by the build-time helper.
pub fn engine_binary_path(output_dir: &str) -> (r: String)
    ensures
        r@ == output_dir@ + "/honggfuzz"@,
{
    concat2(output_dir, "/honggfuzz")
}

/// The per-target directory inside the workspace, where the engine writes
/// crash artifacts.
pub fn workspace_target_dir(workspace: &str, target: &str) -> (r: String)
    ensures
        r@ == workspace@ + "/"@ + target@,
{
    path_join(workspace, target)
}

/// One step of the search for the crate root (the nearest ancestor
/// directory holding the build manifest).
#[derive(Clone, Copy, Debug, PartialEq, Eq, Structural)]
pub enum RootSearchStep {
    /// The manifest is here: the search ends at this directory.
    Found,
    /// No manifest here: continue at the parent directory.
    Ascend,
    /// No manifest and no parent left: the search fails.
    GiveUp,
}

/// The decision of one search step, from the two probe outcomes.
pub fn root_search_step(has_manifest: bool, has_parent: bool) -> (r: RootSearchStep)
    ensures
        r == (if has_manifest {
            RootSearchStep::Found
        } else if has_parent {
            RootSearchStep::Ascend
        } else {
            RootSearchStep::GiveUp
        }),
{
    if has_manifest {
        RootSearchStep::Found
    } else if has_parent {
        RootSearchStep::Ascend
    } else {
        RootSearchStep::GiveUp
    }
}

} // verus!
