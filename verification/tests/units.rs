// The smaller pieces: fingerprints, hex, the frame codec, decimal parsing,
// the idle timer, the statistics, the dist-client lifecycle, and the
// request handlers.

use sccache::dist::CreateOutcome;
use sccache::dist::DistClientContainer;
use sccache::dist::DistClientState;
use sccache::dist::DistInfo;
use sccache::dist::GetClientStep;
use sccache::dist::SchedulerStatusResult;
use sccache::entry::CacheEntry;
use sccache::entry::CacheObject;
use sccache::fingerprint::compilation_fingerprint;
use sccache::fingerprint::encode_parts;
use sccache::fingerprint::fingerprint_key;
use sccache::fingerprint::hex_encode;
use sccache::kinds::CCompilerKind;
use sccache::kinds::CacheControl;
use sccache::kinds::ColorMode;
use sccache::kinds::CompilerArguments;
use sccache::kinds::CompilerKind;
use sccache::kinds::DistType;
use sccache::kinds::ExitStatus;
use sccache::kinds::MissType;
use sccache::kinds::ProcessOutput;
use sccache::pipeline::CacheWriteInfo;
use sccache::pipeline::CompileResult;
use sccache::pipeline::PendingCacheWrite;
use sccache::server::cache_control_from_env;
use sccache::server::check_compiler;
use sccache::server::frame_message;
use sccache::server::handle_request;
use sccache::server::idle_timeout_from;
use sccache::server::max_frame_length_from;
use sccache::server::on_cache_write_finished;
use sccache::server::on_compile_task_finished;
use sccache::server::parse_frame;
use sccache::server::parse_u64;
use sccache::server::Compile;
use sccache::server::CompileResponse;
use sccache::server::CompileTaskError;
use sccache::server::IdleTracker;
use sccache::server::Message;
use sccache::server::Request;
use sccache::server::RequestAction;
use sccache::server::ServerMessage;
use sccache::stats::PerLanguageCount;
use sccache::stats::ServerStats;
use sccache::stats::StatValue;
use sccache::strutil::join_path;
use sccache::strutil::parent_dir;

#[test]
fn fingerprint_of_nothing_is_the_empty_digest() {
    // With no parts the framing is empty, so the key is the well-known SHA-1
    // of the empty byte string; this fails if the digest or the hex encoding
    // hand back their input.
    let key = fingerprint_key(&Vec::new());
    assert_eq!(key, "da39a3ee5e6b4b0d3255bfef95601890afd80709");
}

#[test]
fn fingerprint_is_deterministic() {
    let args: Vec<String> = vec!["-c".to_string(), "foo.c".to_string()];
    let env: Vec<(String, String)> = vec![("CPATH".to_string(), "/inc".to_string())];
    let a = compilation_fingerprint(&b"id".to_vec(), &args, "/work", &env, &b"src".to_vec());
    let b = compilation_fingerprint(&b"id".to_vec(), &args, "/work", &env, &b"src".to_vec());
    assert_eq!(a, b);
    assert_eq!(a.len(), 40);
    assert!(a.chars().all(|c| c.is_ascii_hexdigit()));
}

#[test]
fn fingerprint_is_sensitive() {
    let args: Vec<String> = vec!["-c".to_string(), "foo.c".to_string()];
    let env: Vec<(String, String)> = Vec::new();
    let base = compilation_fingerprint(&b"id".to_vec(), &args, "/work", &env, &b"src".to_vec());
    // Changing the preprocessed source, the argv, or the compiler identity
    // changes the key.
    let other = compilation_fingerprint(&b"id".to_vec(), &args, "/work", &env, &b"src2".to_vec());
    assert_ne!(base, other);
    let args2: Vec<String> = vec!["-c".to_string(), "bar.c".to_string()];
    let other = compilation_fingerprint(&b"id".to_vec(), &args2, "/work", &env, &b"src".to_vec());
    assert_ne!(base, other);
    let other = compilation_fingerprint(&b"id2".to_vec(), &args, "/work", &env, &b"src".to_vec());
    assert_ne!(base, other);
    // Boundaries do not blend: one argument of "ab" differs from two of "a"
    // and "b".
    let one: Vec<String> = vec!["ab".to_string()];
    let two: Vec<String> = vec!["a".to_string(), "b".to_string()];
    assert_ne!(
        compilation_fingerprint(&b"id".to_vec(), &one, "/w", &env, &b"s".to_vec()),
        compilation_fingerprint(&b"id".to_vec(), &two, "/w", &env, &b"s".to_vec()),
    );
}

#[test]
fn hex_and_framing() {
    assert_eq!(hex_encode(&vec![0xbe, 0xef]), "beef");
    assert_eq!(hex_encode(&vec![]), "");
    assert_eq!(hex_encode(&vec![0x00, 0x0f, 0xa0]), "000fa0");
    // Each part is framed behind its eight-byte length.
    let parts = vec![b"ab".to_vec()];
    let enc = encode_parts(&parts);
    assert_eq!(enc, vec![0, 0, 0, 0, 0, 0, 0, 2, b'a', b'b']);
}

#[test]
fn frame_codec_round_trips() {
    let payload = b"hello frame".to_vec();
    let framed = frame_message(&payload).unwrap();
    assert_eq!(&framed[..4], &[0, 0, 0, 11]);
    let back = parse_frame(&framed).unwrap();
    assert_eq!(back, payload);
    // A short buffer has no frame yet.
    assert!(parse_frame(&framed[..10].to_vec()).is_none());
    assert!(parse_frame(&vec![0, 0]).is_none());
    // Trailing bytes of the next frame do not disturb the first.
    let mut longer = framed.clone();
    longer.extend_from_slice(&[9, 9, 9]);
    assert_eq!(parse_frame(&longer).unwrap(), payload);
}

#[test]
fn decimal_parsing() {
    assert_eq!(parse_u64("600"), Some(600));
    assert_eq!(parse_u64("0"), Some(0));
    assert_eq!(parse_u64(""), None);
    assert_eq!(parse_u64("12a"), None);
    assert_eq!(parse_u64("-3"), None);
    assert_eq!(parse_u64("18446744073709551615"), Some(u64::MAX));
    assert_eq!(parse_u64("18446744073709551616"), None);
}

#[test]
fn idle_timeout_setting() {
    assert_eq!(idle_timeout_from(None), 600);
    assert_eq!(idle_timeout_from(Some("30".to_string())), 30);
    assert_eq!(idle_timeout_from(Some("0".to_string())), 0);
    assert_eq!(idle_timeout_from(Some("soon".to_string())), 600);
    assert_eq!(max_frame_length_from(Some("1024".to_string())), Some(1024));
    assert_eq!(max_frame_length_from(Some("big".to_string())), None);
    assert_eq!(max_frame_length_from(None), None);
}

#[test]
fn idle_shutdown_window() {
    // With timeout T and no requests, the timer expires exactly at start + T.
    let tracker = IdleTracker::new(100, 10);
    assert!(!tracker.expired(100));
    assert!(!tracker.expired(109));
    assert!(tracker.expired(110));
    // A request before the deadline pushes it out; spaced closer than T,
    // requests keep the server alive.
    let mut tracker = IdleTracker::new(100, 10);
    assert!(!tracker.on_message(ServerMessage::Request, 105));
    assert!(!tracker.expired(114));
    assert!(tracker.expired(115));
    // A shutdown message stops the server at once.
    assert!(tracker.on_message(ServerMessage::Shutdown, 116));
    // A zero timeout disables auto-shutdown.
    let mut tracker = IdleTracker::new(100, 0);
    assert!(!tracker.expired(u64::MAX));
    assert!(!tracker.on_message(ServerMessage::Request, 200));
    assert!(!tracker.expired(u64::MAX));
}

#[test]
fn per_language_counts() {
    let mut plc = PerLanguageCount::new();
    assert_eq!(plc.all(), 0);
    plc.increment(&CompilerKind::C(CCompilerKind::Gcc));
    plc.increment(&CompilerKind::C(CCompilerKind::Clang));
    plc.increment(&CompilerKind::Rust);
    assert_eq!(plc.all(), 3);
    assert_eq!(plc.get("C/C++"), Some(2));
    assert_eq!(plc.get("Rust"), Some(1));
    assert_eq!(plc.get("Fortran"), None);
    assert_eq!(CompilerKind::C(CCompilerKind::Msvc).lang_kind(), "C/C++");
    assert_eq!(CompilerKind::Rust.lang_kind(), "Rust");
}

#[test]
fn stat_rows_report() {
    let mut stats: ServerStats = Default::default();
    stats.compile_requests = 7;
    stats.cache_hits.increment(&CompilerKind::Rust);
    stats.cache_hits.increment(&CompilerKind::Rust);
    stats.cache_write_duration = 100;
    stats.cache_writes = 2;
    stats.cache_read_hit_duration = 90;
    let rows = stats.stat_rows();
    assert_eq!(rows[0].name, "Compile requests");
    assert_eq!(rows[0].value, StatValue::Count(7));
    assert_eq!(rows[2].name, "Cache hits");
    assert_eq!(rows[2].value, StatValue::Count(2));
    assert_eq!(rows[3].name, "Cache hits (Rust)");
    assert_eq!(rows[3].value, StatValue::Count(2));
    let avg_write = rows.iter().find(|r| r.name == "Average cache write").unwrap();
    assert_eq!(avg_write.value, StatValue::AverageDuration(50));
    let avg_hit = rows.iter().find(|r| r.name == "Average cache read hit").unwrap();
    assert_eq!(avg_hit.value, StatValue::AverageDuration(45));
    let avg_miss = rows.iter().find(|r| r.name == "Average cache read miss").unwrap();
    assert_eq!(avg_miss.value, StatValue::AverageDuration(0));
}

#[test]
fn dist_client_lifecycle() {
    // No scheduler configured: always local.
    let mut c = DistClientContainer::new(None, 1000);
    assert!(matches!(c.get_client(1000), GetClientStep::CompileLocally));
    assert!(matches!(c.get_status(), Some(DistInfo::Disabled(_))));

    // Configured: the first ask attempts creation.
    let mut c = DistClientContainer::new(Some("http://scheduler:10600".to_string()), 1000);
    assert!(matches!(c.get_client(1000), GetClientStep::NeedsCreate));
    // The scheduler does not answer: rest, then retry.
    c.finish_create(CreateOutcome::SchedulerUnreachable, 1000);
    assert!(matches!(c.state, DistClientState::RetryCreateAt(1030)));
    assert!(matches!(c.get_client(1029), GetClientStep::CompileLocally));
    assert!(matches!(c.get_client(1030), GetClientStep::NeedsCreate));
    match c.get_status() {
        Some(DistInfo::NotConnected(url, why)) => {
            assert_eq!(url.as_deref(), Some("http://scheduler:10600"));
            assert_eq!(why, "enabled, not connected, will retry");
        }
        other => panic!("unexpected status: {:?}", other),
    }
    // Creation succeeds: the client is used.
    c.finish_create(CreateOutcome::Connected, 1030);
    assert!(matches!(c.get_client(1031), GetClientStep::UseClient));
    assert!(c.get_status().is_none());
    let info = c.status_from_scheduler(Some(SchedulerStatusResult { num_servers: 3, num_cpus: 24 }));
    assert!(matches!(info, DistInfo::SchedulerStatus(_, SchedulerStatusResult { num_servers: 3, num_cpus: 24 })));
    let info = c.status_from_scheduler(None);
    match info {
        DistInfo::NotConnected(_, why) => {
            assert_eq!(why, "could not communicate with scheduler")
        }
        other => panic!("unexpected status: {:?}", other),
    }
    // A reset forces recreation on the very next ask.
    c.reset_state(2000);
    assert!(matches!(c.get_client(2000), GetClientStep::NeedsCreate));
    // A missing auth token fails fast once, then schedules a retry.
    c.finish_create(CreateOutcome::AuthTokenError("no token".to_string()), 2000);
    match c.get_client(2000) {
        GetClientStep::Misconfigured(msg) => assert_eq!(msg, "no token"),
        other => panic!("unexpected step: {:?}", other),
    }
    assert!(matches!(c.get_client(2000), GetClientStep::NeedsCreate));
    // Disabled stays disabled.
    let mut c = DistClientContainer::new_disabled();
    c.reset_state(50);
    assert!(matches!(c.state, DistClientState::Disabled));
}

#[test]
fn request_dispatch() {
    let mut stats: ServerStats = Default::default();
    let compile = Compile {
        exe: "/usr/bin/gcc".to_string(),
        args: vec!["-c".to_string(), "foo.c".to_string()],
        env_vars: Vec::new(),
        cwd: "/t".to_string(),
    };
    let action = handle_request(&mut stats, Request::Compile(compile));
    assert!(matches!(action, RequestAction::StartCompile(_)));
    assert_eq!(stats.compile_requests, 1);
    assert!(matches!(handle_request(&mut stats, Request::GetStats), RequestAction::ReportStats));
    assert!(matches!(
        handle_request(&mut stats, Request::DistStatus),
        RequestAction::ReportDistStatus
    ));
    assert!(matches!(
        handle_request(&mut stats, Request::Shutdown),
        RequestAction::BeginShutdown
    ));
    assert_eq!(stats.compile_requests, 1);
    assert!(matches!(
        handle_request(&mut stats, Request::ZeroStats),
        RequestAction::ReportStatsAfterZero
    ));
    assert_eq!(stats.compile_requests, 0);
}

#[test]
fn check_compiler_classifies_command_lines() {
    let mut stats: ServerStats = Default::default();
    // No compiler detected.
    let r = check_compiler::<u32>(&mut stats, None);
    assert_eq!(r, CompileResponse::UnsupportedCompiler);
    assert_eq!(stats.requests_unsupported_compiler, 1);
    // A parsed compilation starts a task.
    let r = check_compiler(&mut stats, Some(CompilerArguments::Handled(17u32)));
    assert_eq!(r, CompileResponse::CompileStarted);
    assert_eq!(stats.requests_executed, 1);
    // A non-cacheable command line is counted under its reason key.
    let r = check_compiler::<u32>(
        &mut stats,
        Some(CompilerArguments::CannotCache("multiple input files", None)),
    );
    assert_eq!(r, CompileResponse::UnhandledCompile);
    assert_eq!(stats.requests_not_cacheable, 1);
    let reasons = stats.not_cached_entries();
    assert_eq!(reasons.len(), 1);
    assert_eq!(reasons[0].0, "multiple input files");
    assert_eq!(reasons[0].1, 1);
    // Not a compilation at all.
    let r = check_compiler::<u32>(&mut stats, Some(CompilerArguments::NotCompilation));
    assert_eq!(r, CompileResponse::UnhandledCompile);
    assert_eq!(stats.requests_not_compile, 1);
}

#[test]
fn recache_forced_by_environment() {
    let plain: Vec<(String, String)> = vec![("PATH".to_string(), "/usr/bin".to_string())];
    assert_eq!(cache_control_from_env(&plain), CacheControl::Default);
    let forced: Vec<(String, String)> = vec![
        ("PATH".to_string(), "/usr/bin".to_string()),
        ("SCCACHE_RECACHE".to_string(), "1".to_string()),
    ];
    assert_eq!(cache_control_from_env(&forced), CacheControl::ForceRecache);
}

fn some_write() -> PendingCacheWrite {
    PendingCacheWrite { key: "k".to_string(), entry: CacheEntry::new() }
}

#[test]
fn task_end_accounts_each_outcome() {
    let kind = CompilerKind::C(CCompilerKind::Gcc);
    let out = ProcessOutput {
        status: ExitStatus::Code(0),
        stdout: b"so".to_vec(),
        stderr: b"se".to_vec(),
    };

    // A cache hit.
    let mut stats: ServerStats = Default::default();
    let end = on_compile_task_finished(
        &mut stats,
        &kind,
        ColorMode::Auto,
        Ok((CompileResult::CacheHit(30), out.clone())),
    );
    assert_eq!(stats.cache_hits.get("C/C++"), Some(1));
    assert_eq!(stats.cache_read_hit_duration, 30);
    assert_eq!(end.response.retcode, Some(0));
    assert_eq!(end.response.signal, None);
    assert_eq!(end.response.stdout, b"so".to_vec());
    assert!(end.pending_write.is_none());
    assert!(!end.reset_dist_client);

    // A miss carries the pending write out and classifies itself.
    let mut stats: ServerStats = Default::default();
    let end = on_compile_task_finished(
        &mut stats,
        &kind,
        ColorMode::Auto,
        Ok((
            CompileResult::CacheMiss(MissType::TimedOut, DistType::Error, 40, some_write()),
            out.clone(),
        )),
    );
    assert_eq!(stats.cache_misses.get("C/C++"), Some(1));
    assert_eq!(stats.cache_timeouts, 1);
    assert_eq!(stats.dist_errors, 1);
    assert_eq!(stats.cache_read_miss_duration, 40);
    assert!(end.pending_write.is_some());

    // A compile that died on a signal reports the signal.
    let mut stats: ServerStats = Default::default();
    let killed = ProcessOutput {
        status: ExitStatus::Signal(9),
        stdout: Vec::new(),
        stderr: Vec::new(),
    };
    let end = on_compile_task_finished(
        &mut stats,
        &kind,
        ColorMode::On,
        Ok((CompileResult::CompileFailed, killed)),
    );
    assert_eq!(stats.compile_fails, 1);
    assert_eq!(end.response.retcode, None);
    assert_eq!(end.response.signal, Some(9));
    assert_eq!(end.response.color_mode, ColorMode::On);

    // A preprocessor failure forwards the child's streams verbatim.
    let mut stats: ServerStats = Default::default();
    let failed = ProcessOutput {
        status: ExitStatus::Code(1),
        stdout: Vec::new(),
        stderr: b"something went wrong".to_vec(),
    };
    let end = on_compile_task_finished(
        &mut stats,
        &kind,
        ColorMode::Auto,
        Err(CompileTaskError::ProcessError(failed)),
    );
    assert_eq!(stats.compile_fails, 1);
    assert_eq!(end.response.retcode, Some(1));
    assert_eq!(end.response.stderr, b"something went wrong".to_vec());

    // A fatal remote-client error resets the dist client.
    let mut stats: ServerStats = Default::default();
    let end = on_compile_task_finished(
        &mut stats,
        &kind,
        ColorMode::Auto,
        Err(CompileTaskError::HttpClientError("401".to_string())),
    );
    assert!(end.reset_dist_client);
    assert_eq!(end.response.retcode, Some(1));
    assert_eq!(end.response.stderr, b"sccache: http error status: 401".to_vec());

    // A structural error reports its cause chain with retcode -2.
    let mut stats: ServerStats = Default::default();
    let end = on_compile_task_finished(
        &mut stats,
        &kind,
        ColorMode::Auto,
        Err(CompileTaskError::Other(
            "io failure".to_string(),
            vec!["disk full".to_string()],
        )),
    );
    assert_eq!(stats.cache_errors.get("C/C++"), Some(1));
    assert_eq!(end.response.retcode, Some(-2));
    assert_eq!(
        end.response.stderr,
        b"sccache: encountered fatal error\nsccache: error : io failure\nsccache:  cause: disk full\n"
            .to_vec()
    );
}

#[test]
fn cache_write_completion_counts() {
    let mut stats: ServerStats = Default::default();
    on_cache_write_finished(&mut stats, Ok(None));
    assert_eq!(stats.cache_writes, 0);
    on_cache_write_finished(
        &mut stats,
        Ok(Some(CacheWriteInfo { object_file_pretty: "foo.o".to_string(), duration: 25 })),
    );
    assert_eq!(stats.cache_writes, 1);
    assert_eq!(stats.cache_write_duration, 25);
    on_cache_write_finished(&mut stats, Err("backend gone".to_string()));
    assert_eq!(stats.cache_write_errors, 1);
    // Counters never go down except through an explicit zeroing.
    assert_eq!(stats.cache_writes, 1);
}

#[test]
fn compile_result_equality_ignores_durations_and_writes() {
    assert_eq!(CompileResult::CacheHit(1), CompileResult::CacheHit(999));
    assert_eq!(
        CompileResult::CacheMiss(MissType::Normal, DistType::NoDist, 1, some_write()),
        CompileResult::CacheMiss(MissType::Normal, DistType::NoDist, 2, some_write()),
    );
    assert_ne!(
        CompileResult::CacheMiss(MissType::Normal, DistType::NoDist, 1, some_write()),
        CompileResult::CacheMiss(MissType::ForcedRecache, DistType::NoDist, 1, some_write()),
    );
    assert_ne!(CompileResult::Error, CompileResult::CompileFailed);
    assert_eq!(CompileResult::NotCacheable, CompileResult::NotCacheable);
}

#[test]
fn cache_entry_is_a_map() {
    let mut e = CacheEntry::new();
    e.put_object("a".to_string(), b"one".to_vec(), None);
    e.put_object("b".to_string(), b"two".to_vec(), Some(0o755));
    assert_eq!(e.len(), 2);
    assert_eq!(e.get_object("a"), Some((b"one".to_vec(), None)));
    assert_eq!(e.get_object("b"), Some((b"two".to_vec(), Some(0o755))));
    assert_eq!(e.get_object("c"), None);
    // Re-putting a name replaces the blob.
    e.put_object("a".to_string(), b"three".to_vec(), None);
    assert_eq!(e.len(), 2);
    assert_eq!(e.get_object("a"), Some((b"three".to_vec(), None)));
    let _ = CacheObject { name: "x".to_string(), data: Vec::new(), mode: None };
}

#[test]
fn path_helpers() {
    assert_eq!(join_path("/t", "foo.o"), "/t/foo.o");
    assert_eq!(join_path("/t", "/abs/foo.o"), "/abs/foo.o");
    assert_eq!(parent_dir("/a/b/c"), Some("/a/b".to_string()));
    assert_eq!(parent_dir("/foo.o"), Some("/".to_string()));
    assert_eq!(parent_dir("foo.o"), Some("".to_string()));
    assert_eq!(parent_dir("/"), None);
    assert_eq!(parent_dir(""), None);
}

#[test]
fn message_into_inner() {
    let m: Message<u32, Vec<u8>> = Message::WithBody(7, Vec::new());
    assert_eq!(m.into_inner(), 7);
    let m: Message<u32, Vec<u8>> = Message::WithoutBody(9);
    assert_eq!(m.into_inner(), 9);
}

#[test]
fn color_mode_defaults_to_auto() {
    let c: ColorMode = Default::default();
    assert_eq!(c, ColorMode::Auto);
}
