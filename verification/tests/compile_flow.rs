// The cache pipeline end to end: cold miss, warm hit, forced recache,
// preprocessor failure, cache-read error, and the distributed offload with its
// local fallback. A vector of (key, entry) pairs stands in for the storage
// backend; every decision in between is the library's.

use sccache::dist::offload_step;
use sccache::dist::start_offload;
use sccache::dist::AllocJobResult;
use sccache::dist::DistClientAccess;
use sccache::dist::DistError;
use sccache::dist::DistEvent;
use sccache::dist::OffloadState;
use sccache::dist::RunJobOutcome;
use sccache::dist::SubmitToolchainResult;
use sccache::entry::CacheEntry;
use sccache::entry::CacheObject;
use sccache::fingerprint::compilation_fingerprint;
use sccache::kinds::CacheControl;
use sccache::kinds::Cacheable;
use sccache::kinds::CompileCommand;
use sccache::kinds::DistType;
use sccache::kinds::ExitStatus;
use sccache::kinds::MissType;
use sccache::kinds::ProcessOutput;
use sccache::pipeline::classify_lookup;
use sccache::pipeline::finish_compile;
use sccache::pipeline::materialize_hit;
use sccache::pipeline::plan_after_hash;
use sccache::pipeline::skipped_lookup_miss_type;
use sccache::pipeline::Cache;
use sccache::pipeline::CompileResult;
use sccache::pipeline::Compilation;
use sccache::pipeline::HashDecision;
use sccache::pipeline::HashOutcome;
use sccache::pipeline::HashResult;
use sccache::pipeline::LookupDecision;
use sccache::pipeline::LookupOutcome;
use sccache::pipeline::PendingCacheWrite;

const COMPILER_STDOUT: &[u8] = b"compiler stdout";
const COMPILER_STDERR: &[u8] = b"compiler stderr";

struct TestStorage {
    entries: Vec<(String, CacheEntry)>,
}

impl TestStorage {
    fn new() -> TestStorage {
        TestStorage { entries: Vec::new() }
    }

    fn get(&self, key: &str) -> Cache {
        for (k, e) in &self.entries {
            if k == key {
                return Cache::Hit(e.clone());
            }
        }
        Cache::Miss
    }

    fn put(&mut self, w: PendingCacheWrite) {
        self.entries.push((w.key, w.entry));
    }

    fn len(&self) -> usize {
        self.entries.len()
    }
}

fn test_hash() -> HashResult {
    let arguments: Vec<String> =
        vec!["-c".to_string(), "foo.c".to_string(), "-o".to_string(), "foo.o".to_string()];
    let key = compilation_fingerprint(
        &b"gcc-compiler-digest".to_vec(),
        &arguments,
        "/t",
        &Vec::new(),
        &b"preprocessor output".to_vec(),
    );
    HashResult {
        key,
        compilation: Compilation { outputs: vec![("obj".to_string(), "foo.o".to_string())] },
        weak_toolchain_key: "weak-key".to_string(),
    }
}

fn compiler_output() -> ProcessOutput {
    ProcessOutput {
        status: ExitStatus::Code(0),
        stdout: COMPILER_STDOUT.to_vec(),
        stderr: COMPILER_STDERR.to_vec(),
    }
}

fn object_file() -> CacheObject {
    CacheObject { name: "obj".to_string(), data: b"file contents".to_vec(), mode: Some(0o100644) }
}

fn local_cmd() -> CompileCommand {
    CompileCommand {
        executable: "/usr/bin/gcc".to_string(),
        arguments: vec!["-c".to_string(), "foo.c".to_string(), "-o".to_string(), "foo.o".to_string()],
        env_vars: Vec::new(),
        cwd: "/t".to_string(),
    }
}

/// Run the miss path to completion, locally, and return the result pair.
fn compile_locally(hash: &HashResult, miss_type: MissType) -> (CompileResult, ProcessOutput) {
    let machine = start_offload(
        Ok((local_cmd(), None, Cacheable::Yes)),
        DistClientAccess::Unavailable,
    );
    assert!(matches!(machine.state, OffloadState::LocalCompiling));
    let machine = offload_step(machine, DistEvent::LocalCompiled(compiler_output()));
    let (dist_type, output) = match machine.state {
        OffloadState::Complete { dist_type, output } => (dist_type, output),
        _ => panic!("offload did not complete"),
    };
    assert_eq!(dist_type, DistType::NoDist);
    finish_compile(
        hash.key.clone(),
        miss_type,
        machine.cacheable,
        dist_type,
        output,
        vec![object_file()],
        7,
    )
}

#[test]
fn test_compiler_get_cached_or_compile() {
    let mut storage = TestStorage::new();
    let hash = test_hash();

    // Cold: hash, look up, miss, compile locally, store.
    let decision = plan_after_hash(HashOutcome::Ready(hash), CacheControl::Default);
    let hash = match decision {
        HashDecision::Lookup(h) => h,
        _ => panic!("expected a lookup"),
    };
    let looked = classify_lookup(LookupOutcome::Completed(storage.get(&hash.key)));
    let miss_type = match looked {
        LookupDecision::Compile(mt) => mt,
        _ => panic!("expected a miss"),
    };
    assert_eq!(miss_type, MissType::Normal);
    let (cached, res) = compile_locally(&hash, miss_type);
    assert_eq!(
        cached,
        CompileResult::CacheMiss(
            MissType::Normal,
            DistType::NoDist,
            0,
            PendingCacheWrite { key: String::new(), entry: CacheEntry::new() },
        )
    );
    match cached {
        CompileResult::CacheMiss(MissType::Normal, DistType::NoDist, _, w) => {
            assert_eq!(w.key, hash.key);
            storage.put(w);
        }
        _ => panic!("unexpected compile result"),
    }
    assert_eq!(ExitStatus::Code(0), res.status);
    assert_eq!(COMPILER_STDOUT, res.stdout.as_slice());
    assert_eq!(COMPILER_STDERR, res.stderr.as_slice());

    // Warm: the same inputs hash to the same key, the lookup hits, and the
    // object file's bytes come back without any compiler invocation.
    let hash2 = test_hash();
    assert_eq!(hash.key, hash2.key);
    let decision = plan_after_hash(HashOutcome::Ready(hash2), CacheControl::Default);
    let hash2 = match decision {
        HashDecision::Lookup(h) => h,
        _ => panic!("expected a lookup"),
    };
    let looked = classify_lookup(LookupOutcome::Completed(storage.get(&hash2.key)));
    let entry = match looked {
        LookupDecision::UseHit(e) => e,
        _ => panic!("expected a hit"),
    };
    let (actions, cached, res) =
        materialize_hit(&entry, &hash2.compilation.outputs, "/t", 3).unwrap();
    assert_eq!(actions.len(), 1);
    assert_eq!(actions[0].dest, "/t/foo.o");
    assert_eq!(actions[0].dir, "/t");
    assert_eq!(actions[0].data, b"file contents".to_vec());
    assert_eq!(actions[0].mode, Some(0o100644));
    assert_eq!(cached, CompileResult::CacheHit(0));
    assert_eq!(ExitStatus::Code(0), res.status);
    assert_eq!(COMPILER_STDOUT, res.stdout.as_slice());
    assert_eq!(COMPILER_STDERR, res.stderr.as_slice());
}

#[test]
fn test_compiler_get_cached_or_compile_force_recache() {
    let mut storage = TestStorage::new();

    // First, an ordinary compile that stores its result.
    let hash = test_hash();
    let decision = plan_after_hash(HashOutcome::Ready(hash), CacheControl::Default);
    let hash = match decision {
        HashDecision::Lookup(h) => h,
        _ => panic!("expected a lookup"),
    };
    let (cached, _res) = compile_locally(&hash, MissType::Normal);
    match cached {
        CompileResult::CacheMiss(MissType::Normal, DistType::NoDist, _, w) => storage.put(w),
        _ => panic!("unexpected compile result"),
    }

    // Forced recache: the lookup is skipped although the entry exists, the
    // compiler runs again, and the miss is classified as forced.
    let hash = test_hash();
    let decision = plan_after_hash(HashOutcome::Ready(hash), CacheControl::ForceRecache);
    let hash = match decision {
        HashDecision::SkipLookup(h) => h,
        _ => panic!("the lookup should have been skipped"),
    };
    let (cached, res) = compile_locally(&hash, skipped_lookup_miss_type());
    match cached {
        CompileResult::CacheMiss(MissType::ForcedRecache, DistType::NoDist, _, w) => {
            storage.put(w)
        }
        _ => panic!("unexpected compile result"),
    }
    assert_eq!(ExitStatus::Code(0), res.status);
    assert_eq!(COMPILER_STDOUT, res.stdout.as_slice());
    assert_eq!(COMPILER_STDERR, res.stderr.as_slice());
}

#[test]
fn test_compiler_get_cached_or_compile_preprocessor_error() {
    let storage = TestStorage::new();
    const PREPROCESSOR_STDERR: &[u8] = b"something went wrong";
    let outcome = HashOutcome::PreprocessorFailed(ProcessOutput {
        status: ExitStatus::Code(1),
        stdout: b"preprocessor output".to_vec(),
        stderr: PREPROCESSOR_STDERR.to_vec(),
    });
    let decision = plan_after_hash(outcome, CacheControl::Default);
    let res = match decision {
        HashDecision::ReportError(o) => o,
        _ => panic!("a preprocessor failure must short-circuit"),
    };
    let cached = CompileResult::Error;
    assert_eq!(cached, CompileResult::Error);
    assert_eq!(ExitStatus::Code(1), res.status);
    // Nothing on stdout: that would just be preprocessor spew.
    assert_eq!(b"preprocessor output", res.stdout.as_slice());
    assert_eq!(PREPROCESSOR_STDERR, res.stderr.as_slice());
    // Storage was never consulted.
    assert_eq!(storage.len(), 0);
}

#[test]
fn test_compiler_get_cached_or_compile_cache_error() {
    let mut storage = TestStorage::new();
    let hash = test_hash();
    let decision = plan_after_hash(HashOutcome::Ready(hash), CacheControl::Default);
    let hash = match decision {
        HashDecision::Lookup(h) => h,
        _ => panic!("expected a lookup"),
    };
    // The storage backend fails the read: the compile proceeds as a miss.
    let looked = classify_lookup(LookupOutcome::ReadError("Some Error".to_string()));
    let miss_type = match looked {
        LookupDecision::Compile(mt) => mt,
        _ => panic!("expected a miss"),
    };
    assert_eq!(miss_type, MissType::CacheReadError);
    let (cached, res) = compile_locally(&hash, miss_type);
    match cached {
        CompileResult::CacheMiss(MissType::CacheReadError, DistType::NoDist, _, w) => {
            // ... and stores normally.
            storage.put(w);
        }
        _ => panic!("unexpected compile result"),
    }
    assert_eq!(storage.len(), 1);
    assert_eq!(ExitStatus::Code(0), res.status);
    assert_eq!(COMPILER_STDOUT, res.stdout.as_slice());
    assert_eq!(COMPILER_STDERR, res.stderr.as_slice());
}

#[test]
fn lookup_timeout_is_a_timed_out_miss() {
    let looked = classify_lookup(LookupOutcome::TimedOut);
    assert!(matches!(looked, LookupDecision::Compile(MissType::TimedOut)));
    let looked = classify_lookup(LookupOutcome::Completed(Cache::Recache));
    assert!(matches!(looked, LookupDecision::Compile(MissType::ForcedRecache)));
}

fn dist_cmd() -> CompileCommand {
    CompileCommand {
        executable: "/usr/bin/gcc".to_string(),
        arguments: vec!["-c".to_string(), "foo.c".to_string()],
        env_vars: Vec::new(),
        cwd: "/t".to_string(),
    }
}

#[test]
fn test_compiler_get_cached_or_compile_dist() {
    let mut storage = TestStorage::new();
    let hash = test_hash();

    let machine = start_offload(
        Ok((local_cmd(), Some(dist_cmd()), Cacheable::Yes)),
        DistClientAccess::Available,
    );
    assert!(matches!(machine.state, OffloadState::Preparing));
    let machine = offload_step(machine, DistEvent::Prepared { ok: true });
    assert!(matches!(machine.state, OffloadState::PuttingToolchain));
    let machine = offload_step(
        machine,
        DistEvent::ToolchainPut(Ok(Some("/overridden/compiler".to_string()))),
    );
    // The overriding remote compiler path was substituted into the command.
    assert_eq!(machine.dist_cmd.executable, "/overridden/compiler");
    assert!(matches!(machine.state, OffloadState::Allocating));
    let machine = offload_step(
        machine,
        DistEvent::JobAllocated(Ok(AllocJobResult::Success { job_id: 0, need_toolchain: true })),
    );
    assert!(matches!(machine.state, OffloadState::SubmittingToolchain { job_id: 0 }));
    let machine = offload_step(
        machine,
        DistEvent::ToolchainSubmitted(Ok(SubmitToolchainResult::Success)),
    );
    assert!(matches!(machine.state, OffloadState::RunningJob { job_id: 0 }));
    let machine = offload_step(
        machine,
        DistEvent::JobRan(Ok(RunJobOutcome::Complete(compiler_output()))),
    );
    assert!(matches!(machine.state, OffloadState::FetchingOutputs { .. }));
    let machine = offload_step(machine, DistEvent::OutputsFetched(Ok(())));
    assert!(matches!(machine.state, OffloadState::Rewriting { .. }));
    let machine = offload_step(machine, DistEvent::OutputsRewritten(Ok(())));
    let (dist_type, output) = match machine.state {
        OffloadState::Complete { dist_type, output } => (dist_type, output),
        _ => panic!("offload did not complete"),
    };
    assert_eq!(dist_type, DistType::Succeeded);

    let (cached, res) = finish_compile(
        hash.key.clone(),
        MissType::Normal,
        machine.cacheable,
        dist_type,
        output,
        vec![object_file()],
        7,
    );
    match cached {
        CompileResult::CacheMiss(MissType::Normal, DistType::Succeeded, _, w) => storage.put(w),
        _ => panic!("unexpected compile result"),
    }
    assert_eq!(ExitStatus::Code(0), res.status);
    assert_eq!(COMPILER_STDOUT, res.stdout.as_slice());
    assert_eq!(COMPILER_STDERR, res.stderr.as_slice());

    // A second, identical compile is served from the cache.
    let hash2 = test_hash();
    let looked = classify_lookup(LookupOutcome::Completed(storage.get(&hash2.key)));
    let entry = match looked {
        LookupDecision::UseHit(e) => e,
        _ => panic!("expected a hit"),
    };
    let (_actions, cached, res) =
        materialize_hit(&entry, &hash2.compilation.outputs, "/t", 3).unwrap();
    assert_eq!(cached, CompileResult::CacheHit(0));
    assert_eq!(COMPILER_STDOUT, res.stdout.as_slice());
    assert_eq!(COMPILER_STDERR, res.stderr.as_slice());
}

fn soft_error() -> DistError {
    DistError { msg: "remote stage failure".to_string(), http_client_error: false }
}

#[test]
fn test_compiler_get_cached_or_compile_dist_error() {
    // Whichever of the four offload stages fails, the compile still completes
    // locally and the outcome is a forced-recache miss with DistType::Error.
    let failures: Vec<(&str, Vec<DistEvent>)> = vec![
        ("put toolchain failure", vec![
            DistEvent::Prepared { ok: true },
            DistEvent::ToolchainPut(Err(soft_error())),
        ]),
        ("alloc job failure", vec![
            DistEvent::Prepared { ok: true },
            DistEvent::ToolchainPut(Ok(None)),
            DistEvent::JobAllocated(Err(soft_error())),
        ]),
        ("submit toolchain failure", vec![
            DistEvent::Prepared { ok: true },
            DistEvent::ToolchainPut(Ok(None)),
            DistEvent::JobAllocated(Ok(AllocJobResult::Success {
                job_id: 0,
                need_toolchain: true,
            })),
            DistEvent::ToolchainSubmitted(Err(soft_error())),
        ]),
        ("run job failure", vec![
            DistEvent::Prepared { ok: true },
            DistEvent::ToolchainPut(Ok(Some("/overridden/compiler".to_string()))),
            DistEvent::JobAllocated(Ok(AllocJobResult::Success {
                job_id: 0,
                need_toolchain: true,
            })),
            DistEvent::ToolchainSubmitted(Ok(SubmitToolchainResult::Success)),
            DistEvent::JobRan(Err(soft_error())),
        ]),
    ];
    for (what, events) in failures {
        let mut storage = TestStorage::new();
        let hash = test_hash();
        let mut machine = start_offload(
            Ok((local_cmd(), Some(dist_cmd()), Cacheable::Yes)),
            DistClientAccess::Available,
        );
        for ev in events {
            machine = offload_step(machine, ev);
        }
        assert!(
            matches!(machine.state, OffloadState::FallbackCompiling),
            "stage did not fall back: {}",
            what
        );
        let machine = offload_step(machine, DistEvent::LocalCompiled(compiler_output()));
        let (dist_type, output) = match machine.state {
            OffloadState::Complete { dist_type, output } => (dist_type, output),
            _ => panic!("offload did not complete: {}", what),
        };
        assert_eq!(dist_type, DistType::Error);
        let (cached, res) = finish_compile(
            hash.key.clone(),
            MissType::ForcedRecache,
            machine.cacheable,
            dist_type,
            output,
            vec![object_file()],
            7,
        );
        match cached {
            CompileResult::CacheMiss(MissType::ForcedRecache, DistType::Error, _, w) => {
                storage.put(w)
            }
            _ => panic!("unexpected compile result: {}", what),
        }
        assert_eq!(ExitStatus::Code(0), res.status);
        assert_eq!(COMPILER_STDOUT, res.stdout.as_slice());
        assert_eq!(COMPILER_STDERR, res.stderr.as_slice());
    }
}

#[test]
fn http_client_error_is_fatal() {
    let machine = start_offload(
        Ok((local_cmd(), Some(dist_cmd()), Cacheable::Yes)),
        DistClientAccess::Available,
    );
    let machine = offload_step(machine, DistEvent::Prepared { ok: true });
    let machine = offload_step(
        machine,
        DistEvent::ToolchainPut(Err(DistError {
            msg: "401 unauthorized".to_string(),
            http_client_error: true,
        })),
    );
    assert!(matches!(machine.state, OffloadState::Failed { .. }));
}

#[test]
fn failed_compile_is_never_stored() {
    // The cacheability gate: a failing exit status, or a not-cacheable
    // verdict, never produces a pending cache write.
    let hash = test_hash();
    let failed = ProcessOutput {
        status: ExitStatus::Code(2),
        stdout: Vec::new(),
        stderr: b"error: oh no".to_vec(),
    };
    let (cached, _res) = finish_compile(
        hash.key.clone(),
        MissType::Normal,
        Cacheable::Yes,
        DistType::NoDist,
        failed,
        vec![object_file()],
        7,
    );
    assert_eq!(cached, CompileResult::CompileFailed);

    let (cached, _res) = finish_compile(
        hash.key.clone(),
        MissType::Normal,
        Cacheable::No,
        DistType::NoDist,
        compiler_output(),
        vec![object_file()],
        7,
    );
    assert_eq!(cached, CompileResult::NotCacheable);
}

#[test]
fn hit_serves_exactly_the_stored_bytes() {
    // Store an entry via the miss path, then check every byte of the
    // materialization against what the compiler produced.
    let hash = test_hash();
    let (cached, _res) = finish_compile(
        hash.key.clone(),
        MissType::Normal,
        Cacheable::Yes,
        DistType::NoDist,
        compiler_output(),
        vec![object_file()],
        7,
    );
    let w = match cached {
        CompileResult::CacheMiss(_, _, _, w) => w,
        _ => panic!("expected a miss"),
    };
    let (actions, _, out) = materialize_hit(&w.entry, &hash.compilation.outputs, "/t", 1).unwrap();
    assert_eq!(actions.len(), 1);
    assert_eq!(actions[0].data, object_file().data);
    assert_eq!(actions[0].mode, object_file().mode);
    assert_eq!(out.stdout.as_slice(), COMPILER_STDOUT);
    assert_eq!(out.stderr.as_slice(), COMPILER_STDERR);
    // Empty streams are not stored as members.
    let quiet = ProcessOutput { status: ExitStatus::Code(0), stdout: Vec::new(), stderr: Vec::new() };
    let (cached, _res) = finish_compile(
        hash.key.clone(),
        MissType::Normal,
        Cacheable::Yes,
        DistType::NoDist,
        quiet,
        vec![object_file()],
        7,
    );
    let w = match cached {
        CompileResult::CacheMiss(_, _, _, w) => w,
        _ => panic!("expected a miss"),
    };
    assert_eq!(w.entry.len(), 1);
    let (_, _, out) = materialize_hit(&w.entry, &hash.compilation.outputs, "/t", 1).unwrap();
    assert!(out.stdout.is_empty());
    assert!(out.stderr.is_empty());
}

#[test]
fn hit_materialization_fails_on_missing_member() {
    let mut entry = CacheEntry::new();
    entry.put_object("other".to_string(), b"x".to_vec(), None);
    let outputs = vec![("obj".to_string(), "foo.o".to_string())];
    assert!(materialize_hit(&entry, &outputs, "/t", 1).is_err());
    // A destination without a parent directory fails the whole hit too.
    let mut entry = CacheEntry::new();
    entry.put_object("obj".to_string(), b"x".to_vec(), None);
    let rootward = vec![("obj".to_string(), "/".to_string())];
    assert!(materialize_hit(&entry, &rootward, "/t", 1).is_err());
}
