//! The cache pipeline: hash, bounded lookup, hit materialization, and the
//! compile-then-store path. The host performs the suspendable work (hashing,
//! storage access, running the compiler, writing files) and reports each
//! outcome; every decision in between is made here.

use vstd::prelude::*;

use crate::entry::CacheEntry;
use crate::entry::CacheObject;
use crate::entry::clone_bytes;
use crate::entry::objects_map;
use crate::kinds::CacheControl;
use crate::kinds::Cacheable;
use crate::kinds::DistType;
use crate::kinds::ExitStatus;
use crate::kinds::MissType;
use crate::kinds::ProcessOutput;
use crate::strutil::parent_dir;
use crate::strutil::join_path;
use crate::strutil::spec_join_path;
use crate::strutil::spec_parent_dir;

verus! {

/// Upper bound, in seconds, the host may wait on one storage lookup before the
/// pipeline treats it as timed out.
pub const CACHE_LOOKUP_TIMEOUT_SECS: u64 = 60;

/// What a compilation promises to produce: the declared outputs as pairs of a
/// unique logical name and a path relative to the working directory.
#[derive(Debug, Clone)]
pub struct Compilation {
    pub outputs: Vec<(String, String)>,
}

/// Result of generating a hash from a compiler command.
#[derive(Debug, Clone)]
pub struct HashResult {
    /// The hash key of the inputs: a hex digest.
    pub key: String,
    /// What to compile, if compilation turns out to be necessary.
    pub compilation: Compilation,
    /// A weak key that may be used to identify the toolchain.
    pub weak_toolchain_key: String,
}

/// How the hashing step ended.
#[derive(Debug)]
pub enum HashOutcome {
    /// The fingerprint was produced.
    Ready(HashResult),
    /// The preprocessor exited with a failure; its captured streams are
    /// forwarded verbatim.
    PreprocessorFailed(ProcessOutput),
    /// Any other hashing error, with its message.
    Failed(String),
}

/// What to do once the hashing step has ended.
#[derive(Debug)]
pub enum HashDecision {
    /// Report the preprocessor's own streams as the compile result, touching
    /// neither storage nor the compiler.
    ReportError(ProcessOutput),
    /// Surface the hashing error.
    Fail(String),
    /// Consult storage under the hash key, bounded by the lookup timeout.
    Lookup(HashResult),
    /// Forced recache: skip the lookup and compile as a forced-recache miss.
    SkipLookup(HashResult),
}

/// First step of the pipeline: decide between reporting a preprocessor
/// failure, surfacing a hashing error, looking the key up, and skipping the
/// lookup when a recache is forced.
pub fn plan_after_hash(outcome: HashOutcome, cache_control: CacheControl) -> (r: HashDecision)
    ensures
        match outcome {
            HashOutcome::PreprocessorFailed(o) => r == HashDecision::ReportError(o),
            HashOutcome::Failed(m) => r == HashDecision::Fail(m),
            HashOutcome::Ready(h) => if cache_control == CacheControl::ForceRecache {
                r == HashDecision::SkipLookup(h)
            } else {
                r == HashDecision::Lookup(h)
            },
        },
{
    match outcome {
        HashOutcome::PreprocessorFailed(o) => HashDecision::ReportError(o),
        HashOutcome::Failed(m) => HashDecision::Fail(m),
        HashOutcome::Ready(h) => {
            if cache_control == CacheControl::ForceRecache {
                HashDecision::SkipLookup(h)
            } else {
                HashDecision::Lookup(h)
            }
        },
    }
}

/// The miss type of a lookup the pipeline never issued because a recache was
/// forced.
pub fn skipped_lookup_miss_type() -> (r: MissType)
    ensures
        r == MissType::ForcedRecache,
{
    MissType::ForcedRecache
}

/// What the storage backend answered for one key.
#[derive(Debug)]
pub enum Cache {
    /// The entry was found.
    Hit(CacheEntry),
    /// The entry was not found.
    Miss,
    /// The backend asks that the entry be treated as absent.
    Recache,
}

/// How the bounded lookup ended.
#[derive(Debug)]
pub enum LookupOutcome {
    /// The backend answered in time.
    Completed(Cache),
    /// The timeout elapsed first.
    TimedOut,
    /// The lookup failed, with its message.
    ReadError(String),
}

/// What to do once the lookup has ended.
#[derive(Debug)]
pub enum LookupDecision {
    /// Materialize the found entry.
    UseHit(CacheEntry),
    /// Compile, classifying the miss.
    Compile(MissType),
}

/// Second step: classify the lookup's outcome. Every non-hit outcome proceeds
/// to compilation; an error is never surfaced here.
pub fn classify_lookup(outcome: LookupOutcome) -> (r: LookupDecision)
    ensures
        match outcome {
            LookupOutcome::Completed(Cache::Hit(e)) => r == LookupDecision::UseHit(e),
            LookupOutcome::Completed(Cache::Miss) => r == LookupDecision::Compile(
                MissType::Normal,
            ),
            LookupOutcome::Completed(Cache::Recache) => r == LookupDecision::Compile(
                MissType::ForcedRecache,
            ),
            LookupOutcome::TimedOut => r == LookupDecision::Compile(MissType::TimedOut),
            LookupOutcome::ReadError(_) => r == LookupDecision::Compile(MissType::CacheReadError),
        },
{
    match outcome {
        LookupOutcome::Completed(Cache::Hit(e)) => LookupDecision::UseHit(e),
        LookupOutcome::Completed(Cache::Miss) => LookupDecision::Compile(MissType::Normal),
        LookupOutcome::Completed(Cache::Recache) => LookupDecision::Compile(
            MissType::ForcedRecache,
        ),
        LookupOutcome::TimedOut => LookupDecision::Compile(MissType::TimedOut),
        LookupOutcome::ReadError(_) => LookupDecision::Compile(MissType::CacheReadError),
    }
}

/// One file write the host must perform to materialize a hit: write `data` to
/// a fresh uniquely-named temporary file inside `dir`, then atomically rename
/// it over `dest`, then apply `mode` if one is given.
#[derive(Debug)]
pub struct MaterializeAction {
    pub dest: String,
    /// The directory the temporary file must be created in: the destination's
    /// own directory, so that the rename stays on one filesystem and is atomic.
    pub dir: String,
    pub data: Vec<u8>,
    pub mode: Option<u32>,
}

/// The bytes a member of an entry holds, the empty sequence when absent.
pub open spec fn spec_stream_of(e: CacheEntry, name: Seq<char>) -> Seq<u8> {
    if e.contents().contains_key(name) {
        e.contents()[name].0
    } else {
        Seq::empty()
    }
}

/// Whether a hit can be materialized at all: every declared output has a blob
/// in the entry and a destination with a parent directory.
pub open spec fn spec_hit_materializable(
    e: CacheEntry,
    outputs: Seq<(String, String)>,
    cwd: Seq<char>,
) -> bool {
    forall|i: int|
        0 <= i < outputs.len() ==> e.contents().contains_key((#[trigger] outputs[i]).0@)
            && spec_parent_dir(spec_join_path(cwd, outputs[i].1@)) is Some
}

/// Third step, on a hit: recover the captured streams (absent members yield
/// empty streams) and plan one atomic write per declared output. On any
/// missing piece the whole hit fails; the pipeline never falls back to a
/// recompile once a hit was found.
pub fn materialize_hit(
    entry: &CacheEntry,
    outputs: &Vec<(String, String)>,
    cwd: &str,
    lookup_duration: u64,
) -> (r: Result<(Vec<MaterializeAction>, CompileResult, ProcessOutput), String>)
    requires
        entry.wf(),
    ensures
        match r {
            Result::Ok((acts, res, out)) => {
                &&& spec_hit_materializable(*entry, outputs@, cwd@)
                &&& acts@.len() == outputs@.len()
                &&& forall|i: int|
                    0 <= i < outputs@.len() ==> {
                        let dest = spec_join_path(cwd@, (#[trigger] outputs@[i]).1@);
                        &&& acts@[i].dest@ == dest
                        &&& Option::Some(acts@[i].dir@) == spec_parent_dir(dest)
                        &&& acts@[i].data@ == entry.contents()[outputs@[i].0@].0
                        &&& acts@[i].mode == entry.contents()[outputs@[i].0@].1
                    }
                &&& res == CompileResult::CacheHit(lookup_duration)
                &&& out.status == ExitStatus::Code(0i32)
                &&& out.stdout@ == spec_stream_of(*entry, "stdout"@)
                &&& out.stderr@ == spec_stream_of(*entry, "stderr"@)
            },
            Result::Err(_) => !spec_hit_materializable(*entry, outputs@, cwd@),
        },
{
    let stdout = match entry.get_object("stdout") {
        Option::Some((data, _)) => data,
        Option::None => Vec::new(),
    };
    let stderr = match entry.get_object("stderr") {
        Option::Some((data, _)) => data,
        Option::None => Vec::new(),
    };
    let mut acts: Vec<MaterializeAction> = Vec::new();
    let n = outputs.len();
    let mut i: usize = 0;
    while i < n
        invariant
            entry.wf(),
            n == outputs@.len(),
            i <= n,
            acts@.len() == i,
            forall|j: int|
                0 <= j < i ==> {
                    let dest = spec_join_path(cwd@, (#[trigger] outputs@[j]).1@);
                    &&& entry.contents().contains_key(outputs@[j].0@)
                    &&& acts@[j].dest@ == dest
                    &&& Option::Some(acts@[j].dir@) == spec_parent_dir(dest)
                    &&& acts@[j].data@ == entry.contents()[outputs@[j].0@].0
                    &&& acts@[j].mode == entry.contents()[outputs@[j].0@].1
                },
        decreases n - i,
    {
        let dest = join_path(cwd, outputs[i].1.as_str());
        let dir = match parent_dir(dest.as_str()) {
            Option::Some(d) => d,
            Option::None => {
                return Result::Err(String::from_str("Output file without a parent directory!"));
            },
        };
        let (data, mode) = match entry.get_object(outputs[i].0.as_str()) {
            Option::Some(dm) => dm,
            Option::None => {
                return Result::Err(String::from_str("Missing object in cache entry"));
            },
        };
        acts.push(MaterializeAction { dest, dir, data, mode });
        i += 1;
    }
    let out = ProcessOutput { status: ExitStatus::Code(0), stdout, stderr };
    Result::Ok((acts, CompileResult::CacheHit(lookup_duration), out))
}

/// A store the host still owes the storage backend once a cacheable compile
/// has succeeded: the entry to be put under the hash key. The host may finish
/// it in the background; the requesting client need not wait on it.
#[derive(Debug)]
pub struct PendingCacheWrite {
    pub key: String,
    pub entry: CacheEntry,
}

/// Information about a successful cache write.
#[derive(Debug, Clone)]
pub struct CacheWriteInfo {
    pub object_file_pretty: String,
    /// How long the write took, in nanoseconds.
    pub duration: u64,
}

/// The result of a compilation or cache retrieval. Durations are in
/// nanoseconds; equality ignores durations and the pending write.
#[derive(Debug)]
pub enum CompileResult {
    /// An error made the compilation not possible.
    Error,
    /// Result was found in cache.
    CacheHit(u64),
    /// Result was not found in cache; carries the write still owed to storage.
    CacheMiss(MissType, DistType, u64, PendingCacheWrite),
    /// Not in cache, but the compilation result was determined to be not
    /// cacheable.
    NotCacheable,
    /// Not in cache, but compilation failed.
    CompileFailed,
}

impl CompileResult {
    /// Equality over the tags and the miss and distribution classifications
    /// alone.
    pub open spec fn spec_same_outcome(&self, other: &CompileResult) -> bool {
        match (self, other) {
            (CompileResult::Error, CompileResult::Error) => true,
            (CompileResult::CacheHit(_), CompileResult::CacheHit(_)) => true,
            (
                CompileResult::CacheMiss(m, dt, _, _),
                CompileResult::CacheMiss(n, dt2, _, _),
            ) => m == n && dt == dt2,
            (CompileResult::NotCacheable, CompileResult::NotCacheable) => true,
            (CompileResult::CompileFailed, CompileResult::CompileFailed) => true,
            _ => false,
        }
    }
}

impl PartialEq for CompileResult {
    fn eq(&self, other: &CompileResult) -> (r: bool) {
        match (self, other) {
            (CompileResult::Error, CompileResult::Error) => true,
            (CompileResult::CacheHit(_), CompileResult::CacheHit(_)) => true,
            (
                CompileResult::CacheMiss(m, dt, _, _),
                CompileResult::CacheMiss(n, dt2, _, _),
            ) => m == n && dt == dt2,
            (CompileResult::NotCacheable, CompileResult::NotCacheable) => true,
            (CompileResult::CompileFailed, CompileResult::CompileFailed) => true,
            _ => false,
        }
    }
}

impl vstd::std_specs::cmp::PartialEqSpecImpl for CompileResult {
    open spec fn obeys_eq_spec() -> bool {
        true
    }

    open spec fn eq_spec(&self, other: &CompileResult) -> bool {
        self.spec_same_outcome(other)
    }
}

/// The contents of the entry stored after a cacheable compile: one blob per
/// declared output, plus the captured streams when they are not empty.
pub open spec fn spec_stored_entry(
    files: Seq<CacheObject>,
    stdout: Seq<u8>,
    stderr: Seq<u8>,
) -> Map<Seq<char>, (Seq<u8>, Option<u32>)> {
    let base = objects_map(files);
    let with_stdout = if stdout.len() > 0 {
        base.insert("stdout"@, (stdout, Option::None))
    } else {
        base
    };
    if stderr.len() > 0 {
        with_stdout.insert("stderr"@, (stderr, Option::None))
    } else {
        with_stdout
    }
}

/// Final step, after a compile ran: gate the store on the compile's success
/// and its cacheability, and build the entry owed to storage. The returned
/// result carries a pending write exactly when the compiler exited zero and
/// the compilation was cacheable.
pub fn finish_compile(
    key: String,
    miss_type: MissType,
    cacheable: Cacheable,
    dist_type: DistType,
    output: ProcessOutput,
    output_files: Vec<CacheObject>,
    compile_duration: u64,
) -> (r: (CompileResult, ProcessOutput))
    ensures
        r.1 == output,
        !output.status.spec_success() ==> r.0 == CompileResult::CompileFailed,
        output.status.spec_success() && cacheable == Cacheable::No ==> r.0
            == CompileResult::NotCacheable,
        output.status.spec_success() && cacheable == Cacheable::Yes ==> match r.0 {
            CompileResult::CacheMiss(mt, dt, d, w) => {
                &&& mt == miss_type
                &&& dt == dist_type
                &&& d == compile_duration
                &&& w.key == key
                &&& w.entry.wf()
                &&& w.entry.contents() == spec_stored_entry(
                    output_files@,
                    output.stdout@,
                    output.stderr@,
                )
            },
            _ => false,
        },
        (r.0 matches CompileResult::CacheMiss(..)) <==> (output.status.spec_success()
            && cacheable == Cacheable::Yes),
{
    if !output.status.success() {
        return (CompileResult::CompileFailed, output);
    }
    if cacheable != Cacheable::Yes {
        return (CompileResult::NotCacheable, output);
    }
    let mut entry = CacheEntry::new();
    let n = output_files.len();
    let mut i: usize = 0;
    while i < n
        invariant
            n == output_files@.len(),
            i <= n,
            entry.wf(),
            entry.contents() == objects_map(output_files@.take(i as int)),
        decreases n - i,
    {
        let name = output_files[i].name.clone();
        let data = clone_bytes(&output_files[i].data);
        let mode = output_files[i].mode;
        entry.put_object(name, data, mode);
        proof {
            assert(output_files@.take(i as int + 1).drop_last() =~= output_files@.take(i as int));
            assert(output_files@.take(i as int + 1).last() == output_files@[i as int]);
        }
        i += 1;
    }
    proof {
        assert(output_files@.take(n as int) =~= output_files@);
    }
    if output.stdout.len() > 0 {
        entry.put_object(String::from_str("stdout"), clone_bytes(&output.stdout), Option::None);
    }
    if output.stderr.len() > 0 {
        entry.put_object(String::from_str("stderr"), clone_bytes(&output.stderr), Option::None);
    }
    let result = CompileResult::CacheMiss(
        miss_type,
        dist_type,
        compile_duration,
        PendingCacheWrite { key, entry },
    );
    (result, output)
}

/// What a later hit hands back equals what the original compile stored: for
/// any declared output among pairwise distinct names (none of them a reserved
/// stream name), the stored entry maps the output's logical name to exactly
/// the bytes and mode of the file the compiler produced.
pub proof fn lemma_hit_equals_store(
    files: Seq<CacheObject>,
    stdout: Seq<u8>,
    stderr: Seq<u8>,
    i: int,
)
    requires
        0 <= i < files.len(),
        forall|p: int, q: int|
            #![trigger files[p].name@, files[q].name@]
            0 <= p < q < files.len() ==> files[p].name@ != files[q].name@,
        files[i].name@ != "stdout"@,
        files[i].name@ != "stderr"@,
    ensures
        spec_stored_entry(files, stdout, stderr).contains_key(files[i].name@),
        spec_stored_entry(files, stdout, stderr)[files[i].name@] == (
            files[i].data@,
            files[i].mode,
        ),
{
    crate::entry::lemma_objects_map_at(files, i);
}

/// Per-adapter post-processing of outputs fetched from a remote build,
/// typically rewriting embedded absolute paths; adapters implement it.
pub trait OutputsRewriter {
    /// Handle the local output paths the fetch produced.
    fn handle_outputs(&self, output_paths: &Vec<String>) -> Result<(), String>;
}

/// The rewriter for adapters whose outputs need no post-processing.
#[derive(Debug, Clone, Copy)]
pub struct NoopOutputsRewriter;

impl OutputsRewriter for NoopOutputsRewriter {
    fn handle_outputs(&self, output_paths: &Vec<String>) -> Result<(), String> {
        Result::Ok(())
    }
}

} // verus!
