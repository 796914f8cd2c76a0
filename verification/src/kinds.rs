//! Basic vocabulary of the caching core: compiler families, caching verdicts,
//! command descriptions and process outcomes, all held as plain values.

use vstd::prelude::*;

verus! {

/// Supported C-family compiler dialects.
#[derive(Debug, PartialEq, Eq, Structural, Clone, Copy)]
pub enum CCompilerKind {
    Gcc,
    Clang,
    Diab,
    Msvc,
}

/// Supported compilers.
#[derive(Debug, PartialEq, Eq, Structural, Clone, Copy)]
pub enum CompilerKind {
    /// A C compiler.
    C(CCompilerKind),
    /// A Rust compiler.
    Rust,
}

impl CompilerKind {
    /// The language label used to partition per-language statistics.
    pub open spec fn spec_lang_kind(&self) -> Seq<char> {
        match self {
            CompilerKind::C(_) => "C/C++"@,
            CompilerKind::Rust => "Rust"@,
        }
    }

    pub fn lang_kind(&self) -> (r: String)
        ensures
            r@ == self.spec_lang_kind(),
    {
        match self {
            CompilerKind::C(_) => String::from_str("C/C++"),
            CompilerKind::Rust => String::from_str("Rust"),
        }
    }
}

/// The state of `--color` options passed to a compiler.
#[derive(Debug, PartialEq, Eq, Structural, Clone, Copy)]
pub enum ColorMode {
    Off,
    On,
    Auto,
}

impl Default for ColorMode {
    fn default() -> (r: ColorMode)
        ensures
            r == ColorMode::Auto,
    {
        ColorMode::Auto
    }
}

/// Can this result be stored in cache?
#[derive(Debug, PartialEq, Eq, Structural, Clone, Copy)]
pub enum Cacheable {
    Yes,
    No,
}

/// Control of caching behavior.
#[derive(Debug, PartialEq, Eq, Structural, Clone, Copy)]
pub enum CacheControl {
    /// Default caching behavior.
    Default,
    /// Ignore existing cache entries, force recompilation.
    ForceRecache,
}

/// Specifics about cache misses.
#[derive(Debug, PartialEq, Eq, Structural, Clone, Copy)]
pub enum MissType {
    /// The compilation was not found in the cache, nothing more.
    Normal,
    /// Cache lookup was overridden, recompilation was forced.
    ForcedRecache,
    /// Cache took too long to respond.
    TimedOut,
    /// Error reading from cache.
    CacheReadError,
}

/// Specifics about distributed compilation.
#[derive(Debug, PartialEq, Eq, Structural, Clone, Copy)]
pub enum DistType {
    /// Distribution was not enabled.
    NoDist,
    /// Distributed compile success.
    Succeeded,
    /// Distributed compile failed.
    Error,
}

/// Possible results of parsing compiler arguments.
#[derive(Debug)]
pub enum CompilerArguments<T> {
    /// Commandline can be handled.
    Handled(T),
    /// Cannot cache this compilation; carries a short stable reason key and
    /// optional extra information.
    CannotCache(&'static str, Option<String>),
    /// This commandline is not a compile.
    NotCompilation,
}

/// How a finished child process ended.
#[derive(Debug, PartialEq, Eq, Structural, Clone, Copy)]
pub enum ExitStatus {
    /// Exited normally with the given code.
    Code(i32),
    /// Killed by the given signal.
    Signal(i32),
}

impl ExitStatus {
    /// Did the process exit with code zero?
    pub open spec fn spec_success(&self) -> bool {
        *self == ExitStatus::Code(0i32)
    }

    pub fn success(&self) -> (r: bool)
        ensures
            r == self.spec_success(),
    {
        match self {
            ExitStatus::Code(c) => *c == 0i32,
            ExitStatus::Signal(_) => false,
        }
    }
}

/// Captured outcome of a child process: exit status plus both streams.
#[derive(Debug, Clone)]
pub struct ProcessOutput {
    pub status: ExitStatus,
    pub stdout: Vec<u8>,
    pub stderr: Vec<u8>,
}

/// A fully determined compiler invocation: executable, ordered arguments,
/// ordered environment bindings, and a working directory.
#[derive(Debug, Clone)]
pub struct CompileCommand {
    pub executable: String,
    pub arguments: Vec<String>,
    pub env_vars: Vec<(String, String)>,
    pub cwd: String,
}

} // verus!
