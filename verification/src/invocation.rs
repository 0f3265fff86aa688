//! The value model of a child-process invocation.
//!
//! Every external process the pipeline starts is first assembled as plain
//! data — program, argument list, environment assignments — so that all
//! flag and path logic stays pure.  The two launch styles are kept as
//! distinct types: a supervised child is awaited and its exit status
//! mirrored, while a replacing launch substitutes the current process image
//! and, on success, never returns.

use vstd::prelude::*;

verus! {

/// One environment assignment laid over the inherited environment of a
/// child process.
#[derive(Debug)]
pub struct EnvVar {
    pub name: String,
    pub value: String,
}

impl DeepView for EnvVar {
    type V = (Seq<char>, Seq<char>);

    open spec fn deep_view(&self) -> Self::V {
        (self.name@, self.value@)
    }
}

/// A fully assembled child-process invocation.
#[derive(Debug)]
pub struct CommandSpec {
    /// Program to execute, by path or by lookup name.
    pub program: String,
    /// Arguments, in order.
    pub args: Vec<String>,
    /// Environment assignments, in order; all other variables are
    /// inherited verbatim so native diagnostics reach the user.
    pub env: Vec<EnvVar>,
}

/// A terminal launch: the current process image is replaced by the command;
/// on success control never returns to the orchestrator.
#[derive(Debug)]
pub struct ReplaceProcess {
    pub command: CommandSpec,
}

/// A supervised launch: the command runs as a child, is awaited, and its
/// exit status is mirrored.
#[derive(Debug)]
pub struct SuperviseProcess {
    pub command: CommandSpec,
}

/// Push one environment assignment.
pub fn push_env(env: &mut Vec<EnvVar>, name: &str, value: String)
    ensures
        final(env).deep_view() == old(env).deep_view().push((name@, value@)),
{
    let ghost v = value@;
    env.push(EnvVar { name: String::from_str(name), value });
    proof {
        assert(env.deep_view() =~= old(env).deep_view().push((name@, v)));
    }
}

} // verus!
