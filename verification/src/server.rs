//! The server side: the framed transport's length prefix, the startup
//! notification message, the environment-derived settings, the rolling idle
//! timer that shuts an unused server down, and the handling of each request.

use vstd::prelude::*;

use vstd::string::StrSliceExecFns;
use vstd::utf8::encode_utf8;

use crate::kinds::CacheControl;
use crate::kinds::ColorMode;
use crate::kinds::CompilerArguments;
use crate::kinds::CompilerKind;
use crate::kinds::ExitStatus;
use crate::kinds::ProcessOutput;
use crate::pipeline::CacheWriteInfo;
use crate::pipeline::CompileResult;
use crate::pipeline::PendingCacheWrite;
use crate::stats::ServerStats;
use crate::stats::spec_bump;
use crate::dist::DistInfo;

verus! {

/// If the server is idle for this many seconds, shut down.
pub const DEFAULT_IDLE_TIMEOUT: u64 = 600;

/// Result of background server startup.
#[derive(Debug, Clone)]
pub enum ServerStartup {
    /// Server started successfully on `port`.
    Started { port: u16 },
    /// Timed out waiting for server startup.
    TimedOut,
    /// Server encountered an error.
    Failed { reason: String },
}

/// Messages sent from the per-connection services to the main event loop.
/// A `Request` resets the idle shutdown timer; a `Shutdown` asks the whole
/// server to stop.
#[derive(Debug, PartialEq, Eq, Structural, Clone, Copy)]
pub enum ServerMessage {
    /// A message sent whenever a request is received.
    Request,
    /// Message sent whenever a shutdown request is received.
    Shutdown,
}

/// One compile request as a client sends it.
#[derive(Debug, Clone)]
pub struct Compile {
    pub exe: String,
    pub args: Vec<String>,
    pub env_vars: Vec<(String, String)>,
    pub cwd: String,
}

/// A client's request.
#[derive(Debug)]
pub enum Request {
    Compile(Compile),
    GetStats,
    DistStatus,
    ZeroStats,
    Shutdown,
}

/// The first phase of a compile reply.
#[derive(Debug, PartialEq, Eq, Structural, Clone, Copy)]
pub enum CompileResponse {
    CompileStarted,
    UnhandledCompile,
    UnsupportedCompiler,
}

/// The second phase of a compile reply: what the compilation came to.
#[derive(Debug, Clone)]
pub struct CompileFinished {
    pub retcode: Option<i32>,
    pub signal: Option<i32>,
    pub stdout: Vec<u8>,
    pub stderr: Vec<u8>,
    pub color_mode: ColorMode,
}

impl Default for CompileFinished {
    fn default() -> (r: CompileFinished)
        ensures
            r.retcode is None,
            r.signal is None,
            r.stdout@ == Seq::<u8>::empty(),
            r.stderr@ == Seq::<u8>::empty(),
            r.color_mode == ColorMode::Auto,
    {
        CompileFinished {
            retcode: Option::None,
            signal: Option::None,
            stdout: Vec::new(),
            stderr: Vec::new(),
            color_mode: ColorMode::Auto,
        }
    }
}

/// Info and stats about the server.
#[derive(Debug, Clone)]
pub struct ServerInfo {
    pub stats: ServerStats,
    pub cache_location: String,
    pub cache_size: Option<u64>,
    pub max_cache_size: Option<u64>,
}

/// A reply to a client.
#[derive(Debug)]
pub enum Response {
    Compile(CompileResponse),
    CompileFinished(CompileFinished),
    Stats(ServerInfo),
    DistStatus(DistInfo),
    ShuttingDown(ServerInfo),
}

/// Is this character a decimal digit?
pub open spec fn spec_is_digit(c: char) -> bool {
    '0' <= c && c <= '9'
}

/// The number a digit string denotes.
pub open spec fn spec_digits_value(s: Seq<char>) -> int
    decreases s.len(),
{
    if s.len() == 0 {
        0
    } else {
        spec_digits_value(s.drop_last()) * 10 + (s.last() as int - '0' as int)
    }
}

/// What parsing a decimal integer yields: the denoted number, for a nonempty
/// all-digit string whose value fits; nothing otherwise.
pub open spec fn spec_parse_u64(s: Seq<char>) -> Option<u64> {
    if s.len() > 0 && (forall|i: int| 0 <= i < s.len() ==> spec_is_digit(#[trigger] s[i]))
        && spec_digits_value(s) <= u64::MAX {
        Option::Some(spec_digits_value(s) as u64)
    } else {
        Option::None
    }
}

proof fn lemma_digits_value_monotonic(s: Seq<char>, i: int)
    requires
        0 <= i <= s.len(),
        forall|j: int| 0 <= j < s.len() ==> spec_is_digit(#[trigger] s[j]),
    ensures
        spec_digits_value(s) >= spec_digits_value(s.take(i)),
        spec_digits_value(s) >= 0,
    decreases s.len(),
{
    if s.len() == 0 {
        assert(s.take(i) =~= s);
    } else {
        assert(forall|j: int|
            0 <= j < s.len() - 1 ==> (#[trigger] s.drop_last()[j]) == s[j]);
        assert(spec_is_digit(s.last()));
        assert(s.last() as int - '0' as int >= 0);
        if i == s.len() {
            assert(s.take(i) =~= s);
            lemma_digits_value_monotonic(s.drop_last(), s.len() - 1);
        } else {
            lemma_digits_value_monotonic(s.drop_last(), i);
            assert(s.drop_last().take(i) =~= s.take(i));
        }
    }
}

/// Parse a decimal integer.
pub fn parse_u64(s: &str) -> (r: Option<u64>)
    ensures
        r == spec_parse_u64(s@),
{
    let n = s.unicode_len();
    if n == 0 {
        return Option::None;
    }
    let mut value: u64 = 0;
    let mut i: usize = 0;
    proof {
        assert(s@.take(0) =~= Seq::<char>::empty());
    }
    while i < n
        invariant
            n == s@.len(),
            i <= n,
            forall|j: int| 0 <= j < i ==> spec_is_digit(#[trigger] s@[j]),
            value == spec_digits_value(s@.take(i as int)),
        decreases n - i,
    {
        let c = s.get_char(i);
        if !(c >= '0' && c <= '9') {
            return Option::None;
        }
        let d = (c as u32 - 48) as u64;
        proof {
            assert(s@.take(i as int + 1).drop_last() =~= s@.take(i as int));
            assert(s@.take(i as int + 1).last() == s@[i as int]);
        }
        if value > (u64::MAX - d) / 10 {
            proof {
                assert(value * 10 + d > u64::MAX);
                if forall|j: int| 0 <= j < s@.len() ==> spec_is_digit(#[trigger] s@[j]) {
                    lemma_digits_value_monotonic(s@, i as int + 1);
                    assert(spec_digits_value(s@) > u64::MAX);
                }
            }
            return Option::None;
        }
        value = value * 10 + d;
        i += 1;
    }
    proof {
        assert(s@.take(n as int) =~= s@);
    }
    Option::Some(value)
}

/// The idle timeout, in seconds, from the environment's setting: the parsed
/// value if one was given and parses, the default otherwise; zero disables
/// idle shutdown.
pub fn idle_timeout_from(setting: Option<String>) -> (r: u64)
    ensures
        r == match setting {
            Option::Some(s) => match spec_parse_u64(s@) {
                Option::Some(v) => v,
                Option::None => DEFAULT_IDLE_TIMEOUT as u64,
            },
            Option::None => DEFAULT_IDLE_TIMEOUT as u64,
        },
{
    match setting {
        Option::Some(s) => match parse_u64(s.as_str()) {
            Option::Some(v) => v,
            Option::None => DEFAULT_IDLE_TIMEOUT,
        },
        Option::None => DEFAULT_IDLE_TIMEOUT,
    }
}

/// The maximum inbound frame length from the environment's setting: an invalid
/// value is ignored (the host keeps its default and may warn).
pub fn max_frame_length_from(setting: Option<String>) -> (r: Option<u64>)
    ensures
        r == match setting {
            Option::Some(s) => spec_parse_u64(s@),
            Option::None => Option::<u64>::None,
        },
{
    match setting {
        Option::Some(s) => parse_u64(s.as_str()),
        Option::None => Option::None,
    }
}

/// A time `timeout` after `now`, stopping at the clock's width.
pub open spec fn spec_deadline(now: u64, timeout: u64) -> u64 {
    if now + timeout > u64::MAX {
        u64::MAX
    } else {
        (now + timeout) as u64
    }
}

/// The rolling idle timer: armed whenever a request arrives, disabled by a
/// zero timeout.
#[derive(Debug, PartialEq, Eq, Structural, Clone, Copy)]
pub struct IdleTracker {
    /// Seconds of allowed inactivity; zero disables auto-shutdown.
    pub timeout: u64,
    /// When the server should shut down, unless a request arrives first.
    pub deadline: Option<u64>,
}

impl IdleTracker {
    /// Arm the timer at startup.
    pub fn new(now: u64, timeout: u64) -> (r: IdleTracker)
        ensures
            r.timeout == timeout,
            r.deadline == if timeout == 0 {
                Option::<u64>::None
            } else {
                Option::Some(spec_deadline(now, timeout))
            },
    {
        IdleTracker {
            timeout,
            deadline: if timeout == 0 {
                Option::None
            } else {
                Option::Some(deadline_at(now, timeout))
            },
        }
    }

    /// Take one server message: a shutdown request stops the server at once; a
    /// request message extends the deadline to one timeout after now.
    pub fn on_message(&mut self, msg: ServerMessage, now: u64) -> (shutdown: bool)
        ensures
            final(self).timeout == old(self).timeout,
            shutdown == (msg == ServerMessage::Shutdown),
            final(self).deadline == match msg {
                ServerMessage::Shutdown => old(self).deadline,
                ServerMessage::Request => if old(self).timeout == 0 {
                    old(self).deadline
                } else {
                    Option::Some(spec_deadline(now, old(self).timeout))
                },
            },
    {
        match msg {
            ServerMessage::Shutdown => true,
            ServerMessage::Request => {
                if self.timeout != 0 {
                    self.deadline = Option::Some(deadline_at(now, self.timeout));
                }
                false
            },
        }
    }

    /// Has the idle deadline passed?
    pub fn expired(&self, now: u64) -> (r: bool)
        ensures
            r == match self.deadline {
                Option::Some(d) => now >= d,
                Option::None => false,
            },
    {
        match self.deadline {
            Option::Some(d) => now >= d,
            Option::None => false,
        }
    }
}

fn deadline_at(now: u64, timeout: u64) -> (r: u64)
    ensures
        r == spec_deadline(now, timeout),
{
    if now <= u64::MAX - timeout {
        now + timeout
    } else {
        u64::MAX
    }
}

/// Idle shutdown: with a nonzero timeout, after a request at time `t` the
/// timer reports expiry exactly from `t + timeout` on (and never earlier, so
/// requests spaced closer than the timeout keep the server alive); with a zero
/// timeout it never expires.
pub proof fn lemma_idle_shutdown(tr: IdleTracker, msg: ServerMessage, t: u64, now: u64)
    requires
        msg == ServerMessage::Request,
        t + tr.timeout <= u64::MAX,
    ensures
        ({
            let armed = IdleTracker {
                timeout: tr.timeout,
                deadline: if tr.timeout == 0 {
                    tr.deadline
                } else {
                    Option::Some(spec_deadline(t, tr.timeout))
                },
            };
            &&& tr.timeout != 0 ==> ((match armed.deadline {
                Option::Some(d) => now >= d,
                Option::None => false,
            }) <==> now >= t + tr.timeout)
            &&& (tr.timeout == 0 && tr.deadline is None) ==> !(match armed.deadline {
                Option::Some(d) => now >= d,
                Option::None => false,
            })
        }),
{
}

/// Force a recache exactly when the client's forwarded environment carries
/// the recache marker.
pub fn cache_control_from_env(env_vars: &Vec<(String, String)>) -> (r: CacheControl)
    ensures
        r == (if exists|i: int|
            0 <= i < env_vars@.len() && (#[trigger] env_vars@[i]).0@ == "SCCACHE_RECACHE"@ {
            CacheControl::ForceRecache
        } else {
            CacheControl::Default
        }),
{
    let n = env_vars.len();
    let mut i: usize = 0;
    while i < n
        invariant
            n == env_vars@.len(),
            i <= n,
            forall|j: int| 0 <= j < i ==> (#[trigger] env_vars@[j]).0@ != "SCCACHE_RECACHE"@,
        decreases n - i,
    {
        if crate::entry::str_eq(env_vars[i].0.as_str(), "SCCACHE_RECACHE") {
            return CacheControl::ForceRecache;
        }
        i += 1;
    }
    CacheControl::Default
}

/// A frame length as four big-endian bytes.
pub open spec fn spec_u32_be(n: u32) -> Seq<u8> {
    seq![
        ((n >> 24) & 0xff) as u8,
        ((n >> 16) & 0xff) as u8,
        ((n >> 8) & 0xff) as u8,
        (n & 0xff) as u8,
    ]
}

/// The number four big-endian bytes denote.
pub open spec fn spec_u32_value(b: Seq<u8>) -> int {
    b[0] * 0x1000000 + b[1] * 0x10000 + b[2] * 0x100 + b[3]
}

/// One frame of the transport: the payload behind its length.
pub open spec fn spec_frame(payload: Seq<u8>) -> Seq<u8> {
    spec_u32_be(payload.len() as u32) + payload
}

/// What reading one frame from a buffer yields: the first frame's payload,
/// once the buffer holds the length and that many bytes.
pub open spec fn spec_parse_frame(data: Seq<u8>) -> Option<Seq<u8>> {
    if data.len() >= 4 {
        let len = spec_u32_value(data.take(4));
        if data.len() >= 4 + len {
            Option::Some(data.subrange(4, 4 + len))
        } else {
            Option::None
        }
    } else {
        Option::None
    }
}

/// Frame a message for the length-delimited transport; a payload too long for
/// the four-byte length cannot be framed.
pub fn frame_message(payload: &Vec<u8>) -> (r: Option<Vec<u8>>)
    ensures
        match r {
            Option::Some(f) => payload@.len() <= u32::MAX && f@ == spec_frame(payload@),
            Option::None => payload@.len() > u32::MAX,
        },
{
    if payload.len() > u32::MAX as usize {
        return Option::None;
    }
    let n = payload.len() as u32;
    proof {
        assert((n >> 24) & 0xff < 256 && (n >> 16) & 0xff < 256 && (n >> 8) & 0xff < 256 && n
            & 0xff < 256) by (bit_vector);
    }
    let mut f: Vec<u8> = Vec::new();
    f.push(((n >> 24) & 0xff) as u8);
    f.push(((n >> 16) & 0xff) as u8);
    f.push(((n >> 8) & 0xff) as u8);
    f.push((n & 0xff) as u8);
    let ghost header = f@;
    proof {
        assert(header =~= spec_u32_be(n));
    }
    let m = payload.len();
    let mut i: usize = 0;
    while i < m
        invariant
            m == payload@.len(),
            i <= m,
            f@ == header + payload@.take(i as int),
        decreases m - i,
    {
        f.push(payload[i]);
        proof {
            assert(f@ =~= header + payload@.take(i as int + 1));
        }
        i += 1;
    }
    proof {
        assert(payload@.take(m as int) =~= payload@);
    }
    Option::Some(f)
}

/// Read one frame's payload out of a buffer.
pub fn parse_frame(data: &Vec<u8>) -> (r: Option<Vec<u8>>)
    ensures
        match r {
            Option::Some(p) => spec_parse_frame(data@) == Option::Some(p@),
            Option::None => spec_parse_frame(data@) is None,
        },
{
    if data.len() < 4 {
        return Option::None;
    }
    let len: u64 = ((data[0] as u64) << 24) | ((data[1] as u64) << 16) | ((data[2] as u64) << 8)
        | (data[3] as u64);
    proof {
        let b0 = data@[0];
        let b1 = data@[1];
        let b2 = data@[2];
        let b3 = data@[3];
        assert(((b0 as u64) << 24) | ((b1 as u64) << 16) | ((b2 as u64) << 8) | (b3 as u64) == (
        b0 as u64) * 0x1000000 + (b1 as u64) * 0x10000 + (b2 as u64) * 0x100 + (b3 as u64))
            by (bit_vector);
        assert(data@.take(4)[0] == b0 && data@.take(4)[1] == b1 && data@.take(4)[2] == b2
            && data@.take(4)[3] == b3);
    }
    if len > (usize::MAX as u64) || data.len() - 4 < (len as usize) {
        return Option::None;
    }
    let len = len as usize;
    let mut p: Vec<u8> = Vec::new();
    let mut i: usize = 0;
    while i < len
        invariant
            len + 4 <= data@.len(),
            len + 4 <= usize::MAX,
            i <= len,
            p@ == data@.subrange(4, 4 + i as int),
        decreases len - i,
    {
        p.push(data[4 + i]);
        proof {
            assert(p@ =~= data@.subrange(4, 4 + i as int + 1));
        }
        i += 1;
    }
    Option::Some(p)
}

/// The transport round trip: a framed payload, followed by whatever else the
/// peer has sent, parses back to exactly that payload.
pub proof fn lemma_frame_roundtrip(payload: Seq<u8>, rest: Seq<u8>)
    requires
        payload.len() <= u32::MAX,
    ensures
        spec_parse_frame(spec_frame(payload) + rest) == Option::Some(payload),
{
    let n = payload.len() as u32;
    let data = spec_frame(payload) + rest;
    assert(data.take(4) =~= spec_u32_be(n));
    let b0 = spec_u32_be(n)[0];
    let b1 = spec_u32_be(n)[1];
    let b2 = spec_u32_be(n)[2];
    let b3 = spec_u32_be(n)[3];
    assert(((n >> 24) & 0xff) as u8 as int * 0x1000000 + ((n >> 16) & 0xff) as u8 as int * 0x10000
        + ((n >> 8) & 0xff) as u8 as int * 0x100 + (n & 0xff) as u8 as int == n as int)
        by (bit_vector);
    assert(spec_u32_value(data.take(4)) == n as int);
    assert(data.subrange(4, 4 + n as int) =~= payload);
}

/// What the service does with one decoded request.
#[derive(Debug)]
pub enum RequestAction {
    /// Detect the compiler, parse the command line, and start the compile.
    StartCompile(Compile),
    /// Reply with the server's info and stats.
    ReportStats,
    /// Reply with the distributed client's status.
    ReportDistStatus,
    /// The stats were just zeroed; reply with the (now empty) info.
    ReportStatsAfterZero,
    /// Tell the supervisor to shut down, then reply with the info.
    BeginShutdown,
}

/// Dispatch one request: count a compile request, zero the stats when asked,
/// and name the reply the host must produce.
pub fn handle_request(stats: &mut ServerStats, req: Request) -> (r: RequestAction)
    requires
        old(stats).wf(),
    ensures
        final(stats).wf(),
        match req {
            Request::Compile(c) => *final(stats) == (ServerStats {
                compile_requests: spec_bump(old(stats).compile_requests),
                ..*old(stats)
            }) && r == RequestAction::StartCompile(c),
            Request::GetStats => *final(stats) == *old(stats) && r is ReportStats,
            Request::DistStatus => *final(stats) == *old(stats) && r is ReportDistStatus,
            Request::ZeroStats => final(stats).is_zeroed() && r is ReportStatsAfterZero,
            Request::Shutdown => *final(stats) == *old(stats) && r is BeginShutdown,
        },
{
    match req {
        Request::Compile(c) => {
            stats.compile_requests = bump_u64(stats.compile_requests);
            RequestAction::StartCompile(c)
        },
        Request::GetStats => RequestAction::ReportStats,
        Request::DistStatus => RequestAction::ReportDistStatus,
        Request::ZeroStats => {
            let zeroed: ServerStats = Default::default();
            *stats = zeroed;
            RequestAction::ReportStatsAfterZero
        },
        Request::Shutdown => RequestAction::BeginShutdown,
    }
}

fn bump_u64(c: u64) -> (r: u64)
    ensures
        r == spec_bump(c),
{
    if c == u64::MAX {
        c
    } else {
        c + 1
    }
}

/// A per-language map with one more event counted for a language.
pub open spec fn spec_plc_bumped(m: Map<Seq<char>, u64>, lang: Seq<char>) -> Map<Seq<char>, u64> {
    m.insert(
        lang,
        spec_bump(
            if m.contains_key(lang) {
                m[lang]
            } else {
                0
            },
        ),
    )
}

/// Check that a detected compiler can handle and cache the command line:
/// no compiler at all is unsupported; a parsed command line starts a compile
/// task; a non-cacheable or non-compile command line is left to the client.
/// `parsed` is the adapter's parse of the arguments, absent when no compiler
/// was detected.
pub fn check_compiler<T>(stats: &mut ServerStats, parsed: Option<CompilerArguments<T>>) -> (r:
    CompileResponse)
    requires
        old(stats).wf(),
    ensures
        final(stats).wf(),
        match parsed {
            Option::None => *final(stats) == (ServerStats {
                requests_unsupported_compiler: spec_bump(old(stats).requests_unsupported_compiler),
                ..*old(stats)
            }) && r == CompileResponse::UnsupportedCompiler,
            Option::Some(CompilerArguments::Handled(_)) => *final(stats) == (ServerStats {
                requests_executed: spec_bump(old(stats).requests_executed),
                ..*old(stats)
            }) && r == CompileResponse::CompileStarted,
            Option::Some(CompilerArguments::CannotCache(why, _)) => *final(stats) == (ServerStats {
                requests_not_cacheable: spec_bump(old(stats).requests_not_cacheable),
                not_cached: final(stats).not_cached,
                ..*old(stats)
            }) && final(stats).not_cached@ == spec_plc_bumped(old(stats).not_cached@, why@) && r
                == CompileResponse::UnhandledCompile,
            Option::Some(CompilerArguments::NotCompilation) => *final(stats) == (ServerStats {
                requests_not_compile: spec_bump(old(stats).requests_not_compile),
                ..*old(stats)
            }) && r == CompileResponse::UnhandledCompile,
        },
{
    match parsed {
        Option::None => {
            stats.requests_unsupported_compiler = bump_u64(stats.requests_unsupported_compiler);
            CompileResponse::UnsupportedCompiler
        },
        Option::Some(CompilerArguments::Handled(_)) => {
            stats.requests_executed = bump_u64(stats.requests_executed);
            CompileResponse::CompileStarted
        },
        Option::Some(CompilerArguments::CannotCache(why, _)) => {
            stats.requests_not_cacheable = bump_u64(stats.requests_not_cacheable);
            let prev = match stats.not_cached.get(why) {
                Option::Some(v) => v,
                Option::None => 0,
            };
            stats.not_cached.insert(String::from_str(why), bump_u64(prev));
            CompileResponse::UnhandledCompile
        },
        Option::Some(CompilerArguments::NotCompilation) => {
            stats.requests_not_compile = bump_u64(stats.requests_not_compile);
            CompileResponse::UnhandledCompile
        },
    }
}

/// An addition that stops at the counter's width.
pub open spec fn spec_sat_add(a: u64, b: u64) -> u64 {
    if a + b > u64::MAX {
        u64::MAX
    } else {
        (a + b) as u64
    }
}

fn sat_add(a: u64, b: u64) -> (r: u64)
    ensures
        r == spec_sat_add(a, b),
{
    if a <= u64::MAX - b {
        a + b
    } else {
        u64::MAX
    }
}

/// How a compile task can fail before producing a result.
#[derive(Debug)]
pub enum CompileTaskError {
    /// A child process failed; its captured outcome stands as the result.
    ProcessError(ProcessOutput),
    /// A fatal remote-build client error.
    HttpClientError(String),
    /// A structural error: a message and its chain of causes.
    Other(String, Vec<String>),
}

/// What ends a compile task: the reply to stream to the client, whether the
/// distributed client must be reset, and the cache write still owed.
#[derive(Debug)]
pub struct TaskEnd {
    pub response: CompileFinished,
    pub reset_dist_client: bool,
    pub pending_write: Option<PendingCacheWrite>,
}

/// The cause lines of a fatal-error report, in order.
pub open spec fn spec_cause_lines(causes: Seq<Seq<char>>) -> Seq<char>
    decreases causes.len(),
{
    if causes.len() == 0 {
        Seq::empty()
    } else {
        spec_cause_lines(causes.drop_last()) + "sccache:  cause: "@ + causes.last() + "\n"@
    }
}

/// The whole fatal-error report handed to the client on a structural error.
pub open spec fn spec_fatal_chars(msg: Seq<char>, causes: Seq<Seq<char>>) -> Seq<char> {
    "sccache: encountered fatal error\n"@ + "sccache: error : "@ + msg + "\n"@ + spec_cause_lines(
        causes,
    )
}

fn fatal_message(msg: &String, causes: &Vec<String>) -> (r: Vec<u8>)
    ensures
        r@ == encode_utf8(
            spec_fatal_chars(msg@, causes@.map_values(|c: String| c@)),
        ),
{
    let ghost cs = causes@.map_values(|c: String| c@);
    let mut text = String::from_str("sccache: encountered fatal error\n");
    text.append("sccache: error : ");
    text.append(msg.as_str());
    text.append("\n");
    let ghost prefix = text@;
    proof {
        assert(cs.take(0) =~= Seq::<Seq<char>>::empty());
        assert(text@ =~= prefix + spec_cause_lines(cs.take(0)));
    }
    let n = causes.len();
    let mut i: usize = 0;
    while i < n
        invariant
            n == causes@.len(),
            i <= n,
            cs == causes@.map_values(|c: String| c@),
            text@ == prefix + spec_cause_lines(cs.take(i as int)),
        decreases n - i,
    {
        text.append("sccache:  cause: ");
        text.append(causes[i].as_str());
        text.append("\n");
        proof {
            assert(cs.take(i as int + 1).drop_last() =~= cs.take(i as int));
            assert(cs.take(i as int + 1).last() == cs[i as int]);
            assert(text@ =~= prefix + spec_cause_lines(cs.take(i as int + 1)));
        }
        i += 1;
    }
    proof {
        assert(cs.take(n as int) =~= cs);
        assert(spec_fatal_chars(msg@, cs) =~= text@);
    }
    text.as_str().as_bytes_vec()
}

/// The report handed to the client on a fatal remote-build client error.
pub open spec fn spec_http_error_chars(msg: Seq<char>) -> Seq<char> {
    "sccache: http error status: "@ + msg
}

fn http_error_message(msg: &String) -> (r: Vec<u8>)
    ensures
        r@ == encode_utf8(spec_http_error_chars(msg@)),
{
    let mut text = String::from_str("sccache: http error status: ");
    text.append(msg.as_str());
    proof {
        assert(text@ =~= spec_http_error_chars(msg@));
    }
    text.as_str().as_bytes_vec()
}

/// Settle one finished compile task: account for it in the stats, assemble the
/// `CompileFinished` reply (the exit code or signal, the streams, the color
/// mode), extract the cache write still owed to storage, and flag a fatal
/// remote-client error so the host resets the distributed client.
pub fn on_compile_task_finished(
    stats: &mut ServerStats,
    kind: &CompilerKind,
    color_mode: ColorMode,
    result: Result<(CompileResult, ProcessOutput), CompileTaskError>,
) -> (r: TaskEnd)
    requires
        old(stats).wf(),
    ensures
        final(stats).wf(),
        r.response.color_mode == color_mode,
        match result {
            Result::Ok((compiled, out)) => {
                &&& !r.reset_dist_client
                &&& r.response.retcode == (match out.status {
                    ExitStatus::Code(c) => Option::Some(c),
                    ExitStatus::Signal(_) => Option::<i32>::None,
                })
                &&& r.response.signal == (match out.status {
                    ExitStatus::Code(_) => Option::<i32>::None,
                    ExitStatus::Signal(s) => Option::Some(s),
                })
                &&& r.response.stdout == out.stdout
                &&& r.response.stderr == out.stderr
                &&& match compiled {
                    CompileResult::Error => {
                        &&& *final(stats) == (ServerStats {
                            cache_errors: final(stats).cache_errors,
                            ..*old(stats)
                        })
                        &&& final(stats).cache_errors@ == spec_plc_bumped(
                            old(stats).cache_errors@,
                            kind.spec_lang_kind(),
                        )
                        &&& r.pending_write is None
                    },
                    CompileResult::CacheHit(d) => {
                        &&& *final(stats) == (ServerStats {
                            cache_hits: final(stats).cache_hits,
                            cache_read_hit_duration: spec_sat_add(
                                old(stats).cache_read_hit_duration,
                                d,
                            ),
                            ..*old(stats)
                        })
                        &&& final(stats).cache_hits@ == spec_plc_bumped(
                            old(stats).cache_hits@,
                            kind.spec_lang_kind(),
                        )
                        &&& r.pending_write is None
                    },
                    CompileResult::CacheMiss(mt, dt, d, w) => {
                        &&& *final(stats) == (ServerStats {
                            cache_misses: final(stats).cache_misses,
                            cache_errors: final(stats).cache_errors,
                            cache_read_miss_duration: spec_sat_add(
                                old(stats).cache_read_miss_duration,
                                d,
                            ),
                            dist_compiles: if dt == crate::kinds::DistType::Succeeded {
                                spec_bump(old(stats).dist_compiles)
                            } else {
                                old(stats).dist_compiles
                            },
                            dist_errors: if dt == crate::kinds::DistType::Error {
                                spec_bump(old(stats).dist_errors)
                            } else {
                                old(stats).dist_errors
                            },
                            forced_recaches: if mt == crate::kinds::MissType::ForcedRecache {
                                spec_bump(old(stats).forced_recaches)
                            } else {
                                old(stats).forced_recaches
                            },
                            cache_timeouts: if mt == crate::kinds::MissType::TimedOut {
                                spec_bump(old(stats).cache_timeouts)
                            } else {
                                old(stats).cache_timeouts
                            },
                            ..*old(stats)
                        })
                        &&& final(stats).cache_misses@ == spec_plc_bumped(
                            old(stats).cache_misses@,
                            kind.spec_lang_kind(),
                        )
                        &&& final(stats).cache_errors@ == (if mt
                            == crate::kinds::MissType::CacheReadError {
                            spec_plc_bumped(old(stats).cache_errors@, kind.spec_lang_kind())
                        } else {
                            old(stats).cache_errors@
                        })
                        &&& r.pending_write == Option::Some(w)
                    },
                    CompileResult::NotCacheable => {
                        &&& *final(stats) == (ServerStats {
                            cache_misses: final(stats).cache_misses,
                            non_cacheable_compilations: spec_bump(
                                old(stats).non_cacheable_compilations,
                            ),
                            ..*old(stats)
                        })
                        &&& final(stats).cache_misses@ == spec_plc_bumped(
                            old(stats).cache_misses@,
                            kind.spec_lang_kind(),
                        )
                        &&& r.pending_write is None
                    },
                    CompileResult::CompileFailed => {
                        &&& *final(stats) == (ServerStats {
                            compile_fails: spec_bump(old(stats).compile_fails),
                            ..*old(stats)
                        })
                        &&& r.pending_write is None
                    },
                }
            },
            Result::Err(CompileTaskError::ProcessError(o)) => {
                &&& *final(stats) == (ServerStats {
                    compile_fails: spec_bump(old(stats).compile_fails),
                    ..*old(stats)
                })
                &&& !r.reset_dist_client
                &&& r.pending_write is None
                &&& r.response.retcode == (match o.status {
                    ExitStatus::Code(c) => Option::Some(c),
                    ExitStatus::Signal(_) => Option::<i32>::None,
                })
                &&& r.response.signal == (match o.status {
                    ExitStatus::Code(_) => Option::<i32>::None,
                    ExitStatus::Signal(s) => Option::Some(s),
                })
                &&& r.response.stdout == o.stdout
                &&& r.response.stderr == o.stderr
            },
            Result::Err(CompileTaskError::HttpClientError(m)) => {
                &&& *final(stats) == *old(stats)
                &&& r.reset_dist_client
                &&& r.pending_write is None
                &&& r.response.retcode == Option::Some(1i32)
                &&& r.response.signal is None
                &&& r.response.stderr@ == encode_utf8(spec_http_error_chars(m@))
            },
            Result::Err(CompileTaskError::Other(m, causes)) => {
                &&& *final(stats) == (ServerStats {
                    cache_errors: final(stats).cache_errors,
                    ..*old(stats)
                })
                &&& final(stats).cache_errors@ == spec_plc_bumped(
                    old(stats).cache_errors@,
                    kind.spec_lang_kind(),
                )
                &&& !r.reset_dist_client
                &&& r.pending_write is None
                &&& r.response.retcode == Option::Some(-2i32)
                &&& r.response.signal is None
                &&& r.response.stderr@ == encode_utf8(
                    spec_fatal_chars(m@, causes@.map_values(|c: String| c@)),
                )
            },
        },
{
    let mut res = CompileFinished::default();
    res.color_mode = color_mode;
    match result {
        Result::Ok((compiled, out)) => {
            let mut pending: Option<PendingCacheWrite> = Option::None;
            match compiled {
                CompileResult::Error => {
                    stats.cache_errors.increment(kind);
                },
                CompileResult::CacheHit(d) => {
                    stats.cache_hits.increment(kind);
                    stats.cache_read_hit_duration = sat_add(stats.cache_read_hit_duration, d);
                },
                CompileResult::CacheMiss(mt, dt, d, w) => {
                    match dt {
                        crate::kinds::DistType::NoDist => {},
                        crate::kinds::DistType::Succeeded => {
                            stats.dist_compiles = bump_u64(stats.dist_compiles);
                        },
                        crate::kinds::DistType::Error => {
                            stats.dist_errors = bump_u64(stats.dist_errors);
                        },
                    }
                    match mt {
                        crate::kinds::MissType::Normal => {},
                        crate::kinds::MissType::ForcedRecache => {
                            stats.forced_recaches = bump_u64(stats.forced_recaches);
                        },
                        crate::kinds::MissType::TimedOut => {
                            stats.cache_timeouts = bump_u64(stats.cache_timeouts);
                        },
                        crate::kinds::MissType::CacheReadError => {
                            stats.cache_errors.increment(kind);
                        },
                    }
                    stats.cache_misses.increment(kind);
                    stats.cache_read_miss_duration = sat_add(stats.cache_read_miss_duration, d);
                    pending = Option::Some(w);
                },
                CompileResult::NotCacheable => {
                    stats.cache_misses.increment(kind);
                    stats.non_cacheable_compilations = bump_u64(stats.non_cacheable_compilations);
                },
                CompileResult::CompileFailed => {
                    stats.compile_fails = bump_u64(stats.compile_fails);
                },
            }
            match out.status {
                ExitStatus::Code(c) => {
                    res.retcode = Option::Some(c);
                },
                ExitStatus::Signal(s) => {
                    res.signal = Option::Some(s);
                },
            }
            res.stdout = out.stdout;
            res.stderr = out.stderr;
            TaskEnd { response: res, reset_dist_client: false, pending_write: pending }
        },
        Result::Err(CompileTaskError::ProcessError(o)) => {
            stats.compile_fails = bump_u64(stats.compile_fails);
            match o.status {
                ExitStatus::Code(c) => {
                    res.retcode = Option::Some(c);
                },
                ExitStatus::Signal(s) => {
                    res.signal = Option::Some(s);
                },
            }
            res.stdout = o.stdout;
            res.stderr = o.stderr;
            TaskEnd { response: res, reset_dist_client: false, pending_write: Option::None }
        },
        Result::Err(CompileTaskError::HttpClientError(m)) => {
            res.retcode = Option::Some(1);
            res.stderr = http_error_message(&m);
            TaskEnd { response: res, reset_dist_client: true, pending_write: Option::None }
        },
        Result::Err(CompileTaskError::Other(m, causes)) => {
            stats.cache_errors.increment(kind);
            res.retcode = Option::Some(-2);
            res.stderr = fatal_message(&m, &causes);
            TaskEnd { response: res, reset_dist_client: false, pending_write: Option::None }
        },
    }
}

/// Settle one finished background cache write: a failure only counts an error
/// (never surfacing to the client, whose compile already succeeded); a success
/// counts the write and its duration; no write owed counts nothing.
pub fn on_cache_write_finished(
    stats: &mut ServerStats,
    outcome: Result<Option<CacheWriteInfo>, String>,
)
    requires
        old(stats).wf(),
    ensures
        final(stats).wf(),
        match outcome {
            Result::Err(_) => *final(stats) == (ServerStats {
                cache_write_errors: spec_bump(old(stats).cache_write_errors),
                ..*old(stats)
            }),
            Result::Ok(Option::Some(info)) => *final(stats) == (ServerStats {
                cache_writes: spec_bump(old(stats).cache_writes),
                cache_write_duration: spec_sat_add(old(stats).cache_write_duration, info.duration),
                ..*old(stats)
            }),
            Result::Ok(Option::None) => *final(stats) == *old(stats),
        },
{
    match outcome {
        Result::Err(_) => {
            stats.cache_write_errors = bump_u64(stats.cache_write_errors);
        },
        Result::Ok(Option::Some(info)) => {
            stats.cache_writes = bump_u64(stats.cache_writes);
            stats.cache_write_duration = sat_add(stats.cache_write_duration, info.duration);
        },
        Result::Ok(Option::None) => {},
    }
}


/// A reply, with or without a streamed body to follow.
#[derive(Debug)]
pub enum Message<R, B> {
    /// The initial message, with a body whose chunks follow it.
    WithBody(R, B),
    /// A complete one-part message.
    WithoutBody(R),
}

impl<R, B> Message<R, B> {
    /// The message itself, the body put aside.
    pub fn into_inner(self) -> (r: R)
        ensures
            match self {
                Message::WithBody(m, _) => r == m,
                Message::WithoutBody(m) => r == m,
            },
    {
        match self {
            Message::WithBody(m, _) => m,
            Message::WithoutBody(m) => m,
        }
    }
}

/// On shutdown, wait at most this many seconds for the active connections to
/// finish before exiting regardless.
pub const SHUTDOWN_GRACE_SECS: u64 = 10;

/// The count of in-flight per-connection services; graceful shutdown waits,
/// bounded, until it reaches zero.
#[derive(Debug, PartialEq, Eq, Structural, Clone, Copy)]
pub struct ActiveCounter {
    pub active: u64,
}

impl ActiveCounter {
    /// One active holder: the server itself.
    pub fn new() -> (r: ActiveCounter)
        ensures
            r.active == 1,
    {
        ActiveCounter { active: 1 }
    }

    /// A connection came up.
    pub fn connect(&mut self)
        requires
            old(self).active < u64::MAX,
        ensures
            final(self).active == old(self).active + 1,
    {
        self.active = self.active + 1;
    }

    /// A connection went away.
    pub fn disconnect(&mut self)
        requires
            old(self).active > 0,
        ensures
            final(self).active == old(self).active - 1,
    {
        self.active = self.active - 1;
    }

    /// May the server exit without cutting anyone off?
    pub fn all_done(&self) -> (r: bool)
        ensures
            r == (self.active == 0),
    {
        self.active == 0
    }
}

/// Counters only grow: every recorded event moves a counter up by the
/// saturating step used throughout the stats; nothing but the explicit
/// zeroing in `handle_request` ever lowers one.
pub proof fn lemma_counters_monotonic(c: u64, total: u64, more: u64)
    ensures
        spec_bump(c) >= c,
        spec_sat_add(total, more) >= total,
{
}

} // verus!
