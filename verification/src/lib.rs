//! Core of a compiler-output caching daemon, with its decision logic stated in
//! contracts and verified: compiler detection, compilation fingerprints, the
//! hash-lookup-compile-store pipeline, the distributed offload path with local
//! fallback, the distributed-client lifecycle, the server's idle shutdown, and
//! per-language statistics.
//!
//! Everything that touches the outside world (sockets, child processes, the
//! filesystem, the remote scheduler) is driven by a host program: the library
//! exposes state machines whose actions the host performs and whose events the
//! host reports back.

pub mod detect;
pub mod dist;
pub mod entry;
pub mod fingerprint;
pub mod kinds;
pub mod kvmap;
pub mod pipeline;
pub mod server;
pub mod stats;
pub mod strutil;

pub use dist::DistClientContainer;
pub use dist::DistInfo;
pub use kinds::CCompilerKind;
pub use kinds::CacheControl;
pub use kinds::Cacheable;
pub use kinds::ColorMode;
pub use kinds::CompileCommand;
pub use kinds::CompilerArguments;
pub use kinds::CompilerKind;
pub use kinds::DistType;
pub use kinds::ExitStatus;
pub use kinds::MissType;
pub use kinds::ProcessOutput;
pub use pipeline::CacheWriteInfo;
pub use pipeline::CompileResult;
pub use pipeline::Compilation;
pub use pipeline::HashResult;
pub use pipeline::NoopOutputsRewriter;
pub use pipeline::OutputsRewriter;
pub use server::Message;
pub use server::ServerInfo;
pub use server::ServerMessage;
pub use server::ServerStartup;
pub use stats::PerLanguageCount;
pub use stats::ServerStats;
