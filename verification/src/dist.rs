//! The distributed-compile offload path and the per-server distributed-client
//! lifecycle. Every remote call is performed by the host; the machines here
//! decide, for each reported outcome, whether to proceed, fall back to a local
//! compile, or surface a fatal client error.

use vstd::prelude::*;

use crate::kinds::Cacheable;
use crate::kinds::CompileCommand;
use crate::kinds::DistType;
use crate::kinds::ProcessOutput;

verus! {

/// If the dist client couldn't be created, retry creation at this number of
/// seconds from now (or later).
pub const DIST_CLIENT_RECREATE_TIMEOUT_SECS: u64 = 30;

/// An error reported by a remote-build call, classified by whether it is a
/// fatal client error (connectivity or authentication at the HTTP layer).
#[derive(Debug, Clone)]
pub struct DistError {
    pub msg: String,
    pub http_client_error: bool,
}

/// Result of allocating a job on the remote scheduler.
#[derive(Debug, Clone)]
pub enum AllocJobResult {
    Success { job_id: u64, need_toolchain: bool },
    Fail { msg: String },
}

/// Result of submitting the toolchain archive for an allocated job.
#[derive(Debug, Clone, Copy, PartialEq, Eq, Structural)]
pub enum SubmitToolchainResult {
    Success,
    JobNotFound,
    CannotCache,
}

/// Result of running an allocated job.
#[derive(Debug, Clone)]
pub enum RunJobOutcome {
    /// The job ran; carries the remote compiler's captured outcome.
    Complete(ProcessOutput),
    JobNotFound,
}

/// Whether a distributed client was at hand when the compile started.
#[derive(Debug)]
pub enum DistClientAccess {
    /// No client: compile locally, distribution not enabled.
    Unavailable,
    /// A live client is held by the host.
    Available,
    /// Asking for the client itself failed; the compile fails.
    Denied(String),
}

/// Where the offload stands; each non-terminal state names the call the host
/// must perform next.
#[derive(Debug)]
pub enum OffloadState {
    /// Translate output paths to their remote form and build the packagers.
    Preparing,
    /// Hand the toolchain archive to the client.
    PuttingToolchain,
    /// Ask the scheduler for a job.
    Allocating,
    /// Send the toolchain for the allocated job.
    SubmittingToolchain { job_id: u64 },
    /// Run the job.
    RunningJob { job_id: u64 },
    /// Copy each fetched blob to its local path, deleting every path created
    /// so far if any copy fails.
    FetchingOutputs { output: ProcessOutput },
    /// Run the outputs rewriter over the fetched files.
    Rewriting { output: ProcessOutput },
    /// An offload stage failed non-fatally: run the local compile command.
    FallbackCompiling,
    /// No distribution: run the local compile command.
    LocalCompiling,
    /// The compile is done.
    Complete { dist_type: DistType, output: ProcessOutput },
    /// A fatal error; nothing ran to completion.
    Failed { msg: String },
}

/// One in-flight compile's offload machine.
#[derive(Debug)]
pub struct OffloadMachine {
    /// Verdict of the adapter: may a success be stored?
    pub cacheable: Cacheable,
    /// The local compile command, kept for fallback.
    pub compile_cmd: CompileCommand,
    /// The remote compile command; its executable may be overridden once the
    /// toolchain is put.
    pub dist_cmd: CompileCommand,
    pub state: OffloadState,
}

/// One outcome the host reports back to the machine.
#[derive(Debug)]
pub enum DistEvent {
    /// Paths were translated (or not) and packagers built (or not).
    Prepared { ok: bool },
    /// `put_toolchain` ended; on success carries an optional overriding
    /// remote compiler path.
    ToolchainPut(Result<Option<String>, DistError>),
    JobAllocated(Result<AllocJobResult, DistError>),
    ToolchainSubmitted(Result<SubmitToolchainResult, DistError>),
    JobRan(Result<RunJobOutcome, DistError>),
    OutputsFetched(Result<(), DistError>),
    OutputsRewritten(Result<(), DistError>),
    /// The local compile command was executed.
    LocalCompiled(ProcessOutput),
}

/// Does the machine's state await exactly this event?
pub open spec fn spec_offload_accepts(m: OffloadMachine, ev: DistEvent) -> bool {
    match ev {
        DistEvent::Prepared { .. } => m.state is Preparing,
        DistEvent::ToolchainPut(_) => m.state is PuttingToolchain,
        DistEvent::JobAllocated(_) => m.state is Allocating,
        DistEvent::ToolchainSubmitted(_) => m.state is SubmittingToolchain,
        DistEvent::JobRan(_) => m.state is RunningJob,
        DistEvent::OutputsFetched(_) => m.state is FetchingOutputs,
        DistEvent::OutputsRewritten(_) => m.state is Rewriting,
        DistEvent::LocalCompiled(_) => m.state is FallbackCompiling || m.state is LocalCompiling,
    }
}

/// The state a failed remote call leads to: a fatal HTTP-layer client error is
/// surfaced unchanged, anything else falls back to a local compile.
pub open spec fn spec_fail_state(e: DistError) -> OffloadState {
    if e.http_client_error {
        OffloadState::Failed { msg: e.msg }
    } else {
        OffloadState::FallbackCompiling
    }
}

/// The transition relation of the offload machine.
pub open spec fn spec_offload_next(m: OffloadMachine, ev: DistEvent) -> OffloadMachine {
    let next_state = match ev {
        DistEvent::Prepared { ok } => if ok {
            OffloadState::PuttingToolchain
        } else {
            OffloadState::FallbackCompiling
        },
        DistEvent::ToolchainPut(res) => match res {
            Result::Ok(_) => OffloadState::Allocating,
            Result::Err(e) => spec_fail_state(e),
        },
        DistEvent::JobAllocated(res) => match res {
            Result::Ok(AllocJobResult::Success { job_id, need_toolchain }) => if need_toolchain {
                OffloadState::SubmittingToolchain { job_id }
            } else {
                OffloadState::RunningJob { job_id }
            },
            Result::Ok(AllocJobResult::Fail { .. }) => OffloadState::FallbackCompiling,
            Result::Err(e) => spec_fail_state(e),
        },
        DistEvent::ToolchainSubmitted(res) => match res {
            Result::Ok(SubmitToolchainResult::Success) => OffloadState::RunningJob {
                job_id: m.state->SubmittingToolchain_job_id,
            },
            Result::Ok(_) => OffloadState::FallbackCompiling,
            Result::Err(e) => spec_fail_state(e),
        },
        DistEvent::JobRan(res) => match res {
            Result::Ok(RunJobOutcome::Complete(output)) => OffloadState::FetchingOutputs { output },
            Result::Ok(RunJobOutcome::JobNotFound) => OffloadState::FallbackCompiling,
            Result::Err(e) => spec_fail_state(e),
        },
        DistEvent::OutputsFetched(res) => match res {
            Result::Ok(_) => OffloadState::Rewriting {
                output: m.state->FetchingOutputs_output,
            },
            Result::Err(e) => spec_fail_state(e),
        },
        DistEvent::OutputsRewritten(res) => match res {
            Result::Ok(_) => OffloadState::Complete {
                dist_type: DistType::Succeeded,
                output: m.state->Rewriting_output,
            },
            Result::Err(e) => spec_fail_state(e),
        },
        DistEvent::LocalCompiled(output) => OffloadState::Complete {
            dist_type: if m.state is LocalCompiling {
                DistType::NoDist
            } else {
                DistType::Error
            },
            output,
        },
    };
    let dist_cmd = match ev {
        DistEvent::ToolchainPut(Result::Ok(Option::Some(exe))) => CompileCommand {
            executable: exe,
            arguments: m.dist_cmd.arguments,
            env_vars: m.dist_cmd.env_vars,
            cwd: m.dist_cmd.cwd,
        },
        _ => m.dist_cmd,
    };
    OffloadMachine { cacheable: m.cacheable, compile_cmd: m.compile_cmd, dist_cmd, state: next_state }
}

/// Entry into the compile: generation of the concrete commands, and whether a
/// distributed client was at hand. A failure to generate commands, or a denial
/// from the client container, is fatal; a missing distributed command or an
/// absent client only keeps the compile local.
pub fn start_offload(
    commands: Result<(CompileCommand, Option<CompileCommand>, Cacheable), String>,
    client: DistClientAccess,
) -> (m: OffloadMachine)
    ensures
        match commands {
            Result::Err(e) => m.state == (OffloadState::Failed { msg: e }),
            Result::Ok((cmd, dist_opt, cacheable)) => {
                &&& m.cacheable == cacheable
                &&& m.compile_cmd == cmd
                &&& match client {
                    DistClientAccess::Denied(msg) => m.state == (OffloadState::Failed { msg }),
                    DistClientAccess::Unavailable => m.state is LocalCompiling,
                    DistClientAccess::Available => match dist_opt {
                        Option::None => m.state is FallbackCompiling,
                        Option::Some(d) => m.state is Preparing && m.dist_cmd == d,
                    },
                }
            },
        },
{
    let empty_cmd = CompileCommand {
        executable: String::new(),
        arguments: Vec::new(),
        env_vars: Vec::new(),
        cwd: String::new(),
    };
    match commands {
        Result::Err(e) => OffloadMachine {
            cacheable: Cacheable::No,
            compile_cmd: empty_cmd.clone(),
            dist_cmd: empty_cmd,
            state: OffloadState::Failed { msg: e },
        },
        Result::Ok((cmd, dist_opt, cacheable)) => match client {
            DistClientAccess::Denied(msg) => OffloadMachine {
                cacheable,
                compile_cmd: cmd,
                dist_cmd: empty_cmd,
                state: OffloadState::Failed { msg },
            },
            DistClientAccess::Unavailable => OffloadMachine {
                cacheable,
                compile_cmd: cmd,
                dist_cmd: empty_cmd,
                state: OffloadState::LocalCompiling,
            },
            DistClientAccess::Available => match dist_opt {
                Option::None => OffloadMachine {
                    cacheable,
                    compile_cmd: cmd,
                    dist_cmd: empty_cmd,
                    state: OffloadState::FallbackCompiling,
                },
                Option::Some(d) => OffloadMachine {
                    cacheable,
                    compile_cmd: cmd,
                    dist_cmd: d,
                    state: OffloadState::Preparing,
                },
            },
        },
    }
}

/// Advance the offload by one reported outcome.
pub fn offload_step(m: OffloadMachine, ev: DistEvent) -> (r: OffloadMachine)
    requires
        spec_offload_accepts(m, ev),
    ensures
        r == spec_offload_next(m, ev),
{
    let OffloadMachine { cacheable, compile_cmd, dist_cmd, state } = m;
    let mut dist_cmd = dist_cmd;
    let next_state = match ev {
        DistEvent::Prepared { ok } => {
            if ok {
                OffloadState::PuttingToolchain
            } else {
                OffloadState::FallbackCompiling
            }
        },
        DistEvent::ToolchainPut(res) => match res {
            Result::Ok(override_exe) => {
                if let Option::Some(exe) = override_exe {
                    dist_cmd = CompileCommand {
                        executable: exe,
                        arguments: dist_cmd.arguments,
                        env_vars: dist_cmd.env_vars,
                        cwd: dist_cmd.cwd,
                    };
                }
                OffloadState::Allocating
            },
            Result::Err(e) => fail_state(e),
        },
        DistEvent::JobAllocated(res) => match res {
            Result::Ok(AllocJobResult::Success { job_id, need_toolchain }) => {
                if need_toolchain {
                    OffloadState::SubmittingToolchain { job_id }
                } else {
                    OffloadState::RunningJob { job_id }
                }
            },
            Result::Ok(AllocJobResult::Fail { msg: _ }) => OffloadState::FallbackCompiling,
            Result::Err(e) => fail_state(e),
        },
        DistEvent::ToolchainSubmitted(res) => match res {
            Result::Ok(SubmitToolchainResult::Success) => {
                let job_id = match &state {
                    OffloadState::SubmittingToolchain { job_id } => *job_id,
                    _ => 0u64,
                };
                OffloadState::RunningJob { job_id }
            },
            Result::Ok(_) => OffloadState::FallbackCompiling,
            Result::Err(e) => fail_state(e),
        },
        DistEvent::JobRan(res) => match res {
            Result::Ok(RunJobOutcome::Complete(output)) => OffloadState::FetchingOutputs {
                output,
            },
            Result::Ok(RunJobOutcome::JobNotFound) => OffloadState::FallbackCompiling,
            Result::Err(e) => fail_state(e),
        },
        DistEvent::OutputsFetched(res) => match res {
            Result::Ok(_) => {
                let output = match state {
                    OffloadState::FetchingOutputs { output } => output,
                    _ => ProcessOutput {
                        status: crate::kinds::ExitStatus::Code(0),
                        stdout: Vec::new(),
                        stderr: Vec::new(),
                    },
                };
                OffloadState::Rewriting { output }
            },
            Result::Err(e) => fail_state(e),
        },
        DistEvent::OutputsRewritten(res) => match res {
            Result::Ok(_) => {
                let output = match state {
                    OffloadState::Rewriting { output } => output,
                    _ => ProcessOutput {
                        status: crate::kinds::ExitStatus::Code(0),
                        stdout: Vec::new(),
                        stderr: Vec::new(),
                    },
                };
                OffloadState::Complete { dist_type: DistType::Succeeded, output }
            },
            Result::Err(e) => fail_state(e),
        },
        DistEvent::LocalCompiled(output) => {
            let dist_type = match &state {
                OffloadState::LocalCompiling => DistType::NoDist,
                _ => DistType::Error,
            };
            OffloadState::Complete { dist_type, output }
        },
    };
    OffloadMachine { cacheable, compile_cmd, dist_cmd, state: next_state }
}

fn fail_state(e: DistError) -> (r: OffloadState)
    ensures
        r == spec_fail_state(e),
{
    if e.http_client_error {
        OffloadState::Failed { msg: e.msg }
    } else {
        OffloadState::FallbackCompiling
    }
}

/// Is this event a non-fatal failure of one of the four remote offload stages
/// (put-toolchain, alloc-job, submit-toolchain, run-job)?
pub open spec fn spec_stage_failure(ev: DistEvent) -> bool {
    match ev {
        DistEvent::ToolchainPut(res) => res matches Result::Err(e) && !e.http_client_error,
        DistEvent::JobAllocated(res) => match res {
            Result::Ok(AllocJobResult::Success { .. }) => false,
            Result::Ok(AllocJobResult::Fail { .. }) => true,
            Result::Err(e) => !e.http_client_error,
        },
        DistEvent::ToolchainSubmitted(res) => match res {
            Result::Ok(SubmitToolchainResult::Success) => false,
            Result::Ok(_) => true,
            Result::Err(e) => !e.http_client_error,
        },
        DistEvent::JobRan(res) => match res {
            Result::Ok(RunJobOutcome::Complete(_)) => false,
            Result::Ok(RunJobOutcome::JobNotFound) => true,
            Result::Err(e) => !e.http_client_error,
        },
        _ => false,
    }
}

/// Distributed fallback: whichever of the four remote offload stages fails
/// without a fatal HTTP-layer client error, the machine falls back to the
/// local command, and once that has run the compile is complete with the
/// local output, reported as `DistType::Error`, with the cacheability verdict
/// and local command untouched.
pub proof fn lemma_dist_fallback(m: OffloadMachine, ev: DistEvent, local: ProcessOutput)
    requires
        spec_offload_accepts(m, ev),
        spec_stage_failure(ev),
    ensures
        spec_offload_next(m, ev).state is FallbackCompiling,
        spec_offload_next(spec_offload_next(m, ev), DistEvent::LocalCompiled(local)).state == (
        OffloadState::Complete { dist_type: DistType::Error, output: local }),
        spec_offload_next(spec_offload_next(m, ev), DistEvent::LocalCompiled(local)).cacheable
            == m.cacheable,
        spec_offload_next(spec_offload_next(m, ev), DistEvent::LocalCompiled(local)).compile_cmd
            == m.compile_cmd,
{
}

/// Status of the dist client, as reported to a status request.
#[derive(Debug, Clone)]
pub enum DistInfo {
    Disabled(String),
    NotConnected(Option<String>, String),
    SchedulerStatus(Option<String>, SchedulerStatusResult),
}

/// What the remote scheduler reports of itself.
#[derive(Debug, Clone, Copy, PartialEq, Eq, Structural)]
pub struct SchedulerStatusResult {
    pub num_servers: u64,
    pub num_cpus: u64,
}

/// The per-client distributed-client lifecycle: disabled, live, fail-fast, or
/// waiting to retry creation.
#[derive(Debug)]
pub enum DistClientState {
    /// No scheduler configured: never distribute.
    Disabled,
    /// A live client is held by the host.
    Connected,
    /// Configuration is present but a permanent error occurred; the message is
    /// surfaced once, then creation is retried.
    FailWithMessage(String),
    /// Wait until the given time, then attempt creation again.
    RetryCreateAt(u64),
}

/// Owner of the dist-client lifecycle state.
#[derive(Debug)]
pub struct DistClientContainer {
    pub state: DistClientState,
    pub scheduler_url: Option<String>,
}

/// What a caller asking for the client should do.
#[derive(Debug)]
pub enum GetClientStep {
    /// Distribute through the live client.
    UseClient,
    /// Compile locally; distribution is off or resting.
    CompileLocally,
    /// Surface this configuration error to the caller.
    Misconfigured(String),
    /// Attempt to create the client, then report with `finish_create` and ask
    /// again.
    NeedsCreate,
}

/// How one creation attempt ended.
#[derive(Debug)]
pub enum CreateOutcome {
    /// No scheduler address is configured: distribution stays disabled.
    NoSchedulerConfigured,
    /// The auth token could not be loaded: a permanent configuration error.
    AuthTokenError(String),
    /// Constructing the HTTP client failed: retry later.
    ClientCreationFailed,
    /// The initial status probe got no answer from the scheduler: retry later.
    SchedulerUnreachable,
    /// The client is up and the scheduler answered.
    Connected,
}

/// A moment just before `now`, so that the very next attempt is due.
pub open spec fn spec_just_past(now: u64) -> u64 {
    if now >= 1 {
        (now - 1) as u64
    } else {
        0
    }
}

/// A moment one recreation timeout after `now`.
pub open spec fn spec_retry_later(now: u64) -> u64 {
    if now <= u64::MAX - DIST_CLIENT_RECREATE_TIMEOUT_SECS {
        (now + DIST_CLIENT_RECREATE_TIMEOUT_SECS) as u64
    } else {
        u64::MAX
    }
}

impl DistClientContainer {
    /// A container that never distributes.
    pub fn new_disabled() -> (r: Self)
        ensures
            r.state is Disabled,
            r.scheduler_url is None,
    {
        DistClientContainer { state: DistClientState::Disabled, scheduler_url: Option::None }
    }

    /// A fresh container: with no scheduler address it is disabled for good;
    /// with one, the first call for a client attempts creation.
    pub fn new(scheduler_url: Option<String>, now: u64) -> (r: Self)
        ensures
            r.scheduler_url == scheduler_url,
            match scheduler_url {
                Option::None => r.state is Disabled,
                Option::Some(_) => r.state == DistClientState::RetryCreateAt(spec_just_past(now)),
            },
    {
        let state = match &scheduler_url {
            Option::None => DistClientState::Disabled,
            Option::Some(_) => DistClientState::RetryCreateAt(just_past(now)),
        };
        DistClientContainer { state, scheduler_url }
    }

    /// Force any non-disabled state into an imminent creation retry.
    pub fn reset_state(&mut self, now: u64)
        ensures
            final(self).scheduler_url == old(self).scheduler_url,
            final(self).state == match old(self).state {
                DistClientState::Disabled => DistClientState::Disabled,
                _ => DistClientState::RetryCreateAt(spec_just_past(now)),
            },
    {
        match &self.state {
            DistClientState::Disabled => {},
            _ => {
                self.state = DistClientState::RetryCreateAt(just_past(now));
            },
        }
    }

    /// Ask for the client. A fail-fast state surfaces its message exactly once
    /// and immediately schedules a recreation, so the next call attempts it.
    pub fn get_client(&mut self, now: u64) -> (r: GetClientStep)
        ensures
            final(self).scheduler_url == old(self).scheduler_url,
            match old(self).state {
                DistClientState::Disabled => r is CompileLocally && final(self).state is Disabled,
                DistClientState::Connected => r is UseClient && final(self).state is Connected,
                DistClientState::FailWithMessage(msg) => r == GetClientStep::Misconfigured(msg)
                    && final(self).state == DistClientState::RetryCreateAt(spec_just_past(now)),
                DistClientState::RetryCreateAt(t) => if now < t {
                    r is CompileLocally && final(self).state == old(self).state
                } else {
                    r is NeedsCreate && final(self).state == old(self).state
                },
            },
    {
        let step = match &self.state {
            DistClientState::Disabled => GetClientStep::CompileLocally,
            DistClientState::Connected => GetClientStep::UseClient,
            DistClientState::FailWithMessage(msg) => GetClientStep::Misconfigured(msg.clone()),
            DistClientState::RetryCreateAt(t) => {
                if now < *t {
                    GetClientStep::CompileLocally
                } else {
                    GetClientStep::NeedsCreate
                }
            },
        };
        if let GetClientStep::Misconfigured(_) = &step {
            self.state = DistClientState::RetryCreateAt(just_past(now));
        }
        step
    }

    /// Record how a creation attempt ended.
    pub fn finish_create(&mut self, outcome: CreateOutcome, now: u64)
        ensures
            final(self).scheduler_url == old(self).scheduler_url,
            final(self).state == match outcome {
                CreateOutcome::NoSchedulerConfigured => DistClientState::Disabled,
                CreateOutcome::AuthTokenError(msg) => DistClientState::FailWithMessage(msg),
                CreateOutcome::ClientCreationFailed => DistClientState::RetryCreateAt(
                    spec_retry_later(now),
                ),
                CreateOutcome::SchedulerUnreachable => DistClientState::RetryCreateAt(
                    spec_retry_later(now),
                ),
                CreateOutcome::Connected => DistClientState::Connected,
            },
    {
        self.state = match outcome {
            CreateOutcome::NoSchedulerConfigured => DistClientState::Disabled,
            CreateOutcome::AuthTokenError(msg) => DistClientState::FailWithMessage(msg),
            CreateOutcome::ClientCreationFailed => DistClientState::RetryCreateAt(
                retry_later(now),
            ),
            CreateOutcome::SchedulerUnreachable => DistClientState::RetryCreateAt(
                retry_later(now),
            ),
            CreateOutcome::Connected => DistClientState::Connected,
        };
    }

    /// Report the lifecycle's status; a live client needs one scheduler probe,
    /// reported through `status_from_scheduler`.
    pub fn get_status(&self) -> (r: Option<DistInfo>)
        ensures
            match self.state {
                DistClientState::Connected => r is None,
                DistClientState::Disabled => r matches Option::Some(DistInfo::Disabled(s))
                    && s@ == "disabled"@,
                DistClientState::FailWithMessage(_) => r matches Option::Some(
                    DistInfo::NotConnected(u, s),
                ) && u == self.scheduler_url && s@ == "enabled, auth not configured"@,
                DistClientState::RetryCreateAt(_) => r matches Option::Some(
                    DistInfo::NotConnected(u, s),
                ) && u == self.scheduler_url && s@ == "enabled, not connected, will retry"@,
            },
    {
        match &self.state {
            DistClientState::Connected => Option::None,
            DistClientState::Disabled => Option::Some(
                DistInfo::Disabled(String::from_str("disabled")),
            ),
            DistClientState::FailWithMessage(_) => Option::Some(
                DistInfo::NotConnected(
                    clone_url(&self.scheduler_url),
                    String::from_str("enabled, auth not configured"),
                ),
            ),
            DistClientState::RetryCreateAt(_) => Option::Some(
                DistInfo::NotConnected(
                    clone_url(&self.scheduler_url),
                    String::from_str("enabled, not connected, will retry"),
                ),
            ),
        }
    }

    /// Status of a live client, given what the scheduler probe answered.
    pub fn status_from_scheduler(&self, probe: Option<SchedulerStatusResult>) -> (r: DistInfo)
        requires
            self.state is Connected,
        ensures
            match probe {
                Option::Some(res) => r matches DistInfo::SchedulerStatus(u, got) && u
                    == self.scheduler_url && got == res,
                Option::None => r matches DistInfo::NotConnected(u, s) && u == self.scheduler_url
                    && s@ == "could not communicate with scheduler"@,
            },
    {
        match probe {
            Option::Some(res) => DistInfo::SchedulerStatus(clone_url(&self.scheduler_url), res),
            Option::None => DistInfo::NotConnected(
                clone_url(&self.scheduler_url),
                String::from_str("could not communicate with scheduler"),
            ),
        }
    }
}

fn just_past(now: u64) -> (r: u64)
    ensures
        r == spec_just_past(now),
{
    if now >= 1 {
        now - 1
    } else {
        0
    }
}

fn retry_later(now: u64) -> (r: u64)
    ensures
        r == spec_retry_later(now),
{
    if now <= u64::MAX - DIST_CLIENT_RECREATE_TIMEOUT_SECS {
        now + DIST_CLIENT_RECREATE_TIMEOUT_SECS
    } else {
        u64::MAX
    }
}

fn clone_url(u: &Option<String>) -> (r: Option<String>)
    ensures
        r == u,
{
    match u {
        Option::Some(s) => Option::Some(s.clone()),
        Option::None => Option::None,
    }
}


} // verus!
