//! The parsed command-line options, as plain values, and the verbosity
//! mapping.
//!
//! Parsing itself is done by the argument-parsing framework around this
//! crate; what arrives here is already plain data.

use vstd::prelude::*;

verus! {

/// How much logging the user asked for.
#[derive(Clone, Copy, Debug, PartialEq, Eq, Structural)]
pub enum LevelFilter {
    Off,
    Error,
    Warn,
    Info,
    Debug,
    Trace,
}

/// The level selected by a repeat count of the verbose flag.
pub open spec fn verbosity_level_spec(verbose: u8) -> LevelFilter {
    if verbose == 2 {
        LevelFilter::Warn
    } else if verbose == 3 {
        LevelFilter::Info
    } else if verbose == 4 {
        LevelFilter::Debug
    } else if verbose > 4 {
        LevelFilter::Trace
    } else {
        LevelFilter::Error
    }
}

/// Options shared by the fuzzing and replay subcommands.
#[derive(Debug)]
pub struct CommonOpts {
    /// Only build the binary, do not execute it.
    pub only_build: bool,
    /// Flags for the compiler.
    pub rustflags: Option<String>,
    /// Arguments for the build system.
    pub build_args: Option<String>,
    /// Repeat count of the verbose flag.
    pub verbose: u8,
    /// Path of the working directory.
    pub workspace: String,
}

/// The selected subcommand with its values.
#[derive(Debug)]
pub enum OptSub {
    /// Build and run fuzzing.
    Fuzz {
        common_opts: CommonOpts,
        /// Corpus directory override.
        input: String,
        /// Which binary to fuzz.
        target: String,
        /// Build without compiler instrumentation.
        no_instr: bool,
        /// Arguments forwarded to the binary and the engine.
        args: Vec<String>,
    },
    /// Replay a crash file under a debugger.
    Debug {
        common_opts: CommonOpts,
        /// Name or path of the debugger.
        debugger: String,
        /// Which binary target to replay.
        target: String,
        /// Path of the crash file.
        crash_file: String,
        /// Arguments forwarded to the target.
        target_args: Vec<String>,
    },
    /// Clean the saved fuzzing state and related files.
    Clean,
}

impl OptSub {
    /// The verbose repeat count of the subcommand's shared options.
    pub open spec fn verbose_count(&self) -> u8 {
        match self {
            OptSub::Fuzz { common_opts, .. } => common_opts.verbose,
            OptSub::Debug { common_opts, .. } => common_opts.verbose,
            OptSub::Clean => 0,
        }
    }

    /// The logging level the user asked for.  The clean subcommand carries
    /// no verbosity at all, so it is excluded here.
    pub fn verbosity(&self) -> (r: LevelFilter)
        requires
            !(self is Clean),
        ensures
            r == verbosity_level_spec(self.verbose_count()),
    {
        let verbose = match self {
            OptSub::Fuzz { common_opts, .. } => common_opts.verbose,
            OptSub::Debug { common_opts, .. } => common_opts.verbose,
            OptSub::Clean => 0,
        };
        if verbose == 2 {
            LevelFilter::Warn
        } else if verbose == 3 {
            LevelFilter::Info
        } else if verbose == 4 {
            LevelFilter::Debug
        } else if verbose > 4 {
            LevelFilter::Trace
        } else {
            LevelFilter::Error
        }
    }
}

/// The whole parsed command line.
#[derive(Debug)]
pub struct Opt {
    pub command: OptSub,
}

impl Opt {
    /// The logging level the user asked for.
    pub fn verbosity(&self) -> (r: LevelFilter)
        requires
            !(self.command is Clean),
        ensures
            r == verbosity_level_spec(self.command.verbose_count()),
    {
        self.command.verbosity()
    }
}

} // verus!
