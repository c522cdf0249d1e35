//! The execution context of one module instance and the handle it leaves
//! behind.
//!
//! Running a module is an ordered sequence of interpreter steps — create the
//! environment, allocate the runtime, parse, load, link the system-call
//! shims, resolve the entry point, invoke it — each of which can fail. The
//! interpreter itself is not relocatable across concurrency domains, so the
//! host drives it on one dedicated execution unit and reports each step's
//! outcome here. This module owns everything the protocol promises: whatever
//! the outcomes are, exactly one terminal status is published, with the
//! message and failure kind that belong to the failing step.

use vstd::prelude::*;
use crate::status::{
    ContainerStatus, StatusChannel, count_terminated, is_terminated, lemma_terminal_exactly_once,
    status_message, terminated_failed, wf_history,
};
use crate::logsink::{LogSink, LogHandle};
use crate::binding::ModuleSpec;

verus! {

/// The ordered interpreter steps of one run, each a potential early-exit
/// failure point.
#[derive(Clone, Copy, Debug, PartialEq, Eq, Structural)]
pub enum Step {
    /// Create an interpreter environment.
    CreateEnvironment,
    /// Allocate the interpreter runtime with the requested stack size.
    CreateRuntime,
    /// Parse the module bytes into a module definition.
    ParseModule,
    /// Load the parsed module into the runtime.
    LoadModule,
    /// Link the WASI system-call shims.
    LinkWasi,
    /// Resolve the `_start` export as a zero-argument, zero-return function.
    FindEntrypoint,
    /// Invoke the entry point to completion.
    Invoke,
}

/// The error taxonomy of a run: setup failures, the distinct
/// missing-entrypoint kind, and runtime failures during execution.
#[derive(Clone, Copy, Debug, PartialEq, Eq, Structural)]
pub enum FailureKind {
    /// Environment, runtime, parse, load or link failed.
    Setup,
    /// The module has no usable `_start` export.
    MissingEntrypoint,
    /// The entry point trapped or failed while executing.
    RuntimeFailure,
}

/// Which failure kind a failing step reports.
pub open spec fn failure_kind_of(step: Step) -> FailureKind {
    match step {
        Step::FindEntrypoint => FailureKind::MissingEntrypoint,
        Step::Invoke => FailureKind::RuntimeFailure,
        _ => FailureKind::Setup,
    }
}

/// The step that follows a successful non-final step.
pub open spec fn next_step(step: Step) -> Step {
    match step {
        Step::CreateEnvironment => Step::CreateRuntime,
        Step::CreateRuntime => Step::ParseModule,
        Step::ParseModule => Step::LoadModule,
        Step::LoadModule => Step::LinkWasi,
        Step::LinkWasi => Step::FindEntrypoint,
        Step::FindEntrypoint => Step::Invoke,
        Step::Invoke => Step::Invoke,
    }
}

/// The initial status message, before any outcome is known.
pub open spec fn waiting_message() -> Seq<char> {
    "No status has been received from the process"@
}

/// The terminal message of a successful run.
pub open spec fn success_message() -> Seq<char> {
    "Module run completed"@
}

/// The terminal message of a run that failed at the given step.
pub open spec fn failure_message(step: Step) -> Seq<char> {
    match step {
        Step::CreateEnvironment => "cannot create environment"@,
        Step::CreateRuntime => "cannot create runtime"@,
        Step::ParseModule => "cannot parse module"@,
        Step::LoadModule => "cannot load module"@,
        Step::LinkWasi => "cannot link WASI"@,
        Step::FindEntrypoint => "cannot find function '_start' in module"@,
        Step::Invoke => "unable to run module"@,
    }
}

/// The failure kind a failing step reports (executable form).
pub fn failure_kind_for(step: Step) -> (k: FailureKind)
    ensures
        k == failure_kind_of(step),
{
    match step {
        Step::FindEntrypoint => FailureKind::MissingEntrypoint,
        Step::Invoke => FailureKind::RuntimeFailure,
        _ => FailureKind::Setup,
    }
}

/// The human-readable message of a failure at the given step.
pub fn failure_message_text(step: Step) -> (s: String)
    ensures
        s@ == failure_message(step),
{
    match step {
        Step::CreateEnvironment => "cannot create environment".to_owned(),
        Step::CreateRuntime => "cannot create runtime".to_owned(),
        Step::ParseModule => "cannot parse module".to_owned(),
        Step::LoadModule => "cannot load module".to_owned(),
        Step::LinkWasi => "cannot link WASI".to_owned(),
        Step::FindEntrypoint => "cannot find function '_start' in module".to_owned(),
        Step::Invoke => "unable to run module".to_owned(),
    }
}

/// Why a run failed: the step that failed and the interpreter's own account
/// of the error, kept for the caller that awaits the run.
#[derive(Debug)]
pub struct RunError {
    pub step: Step,
    pub detail: String,
}

/// Relies on chrono::Utc::now for the wall-clock time of a status
/// transition, reduced to milliseconds since the Unix epoch. chrono
/// documents that it panics only when the system clock is set before the
/// epoch; nothing is assumed about the value returned.
#[verifier::external_body]
fn now_millis() -> (t: i64) {
    chrono::Utc::now().timestamp_millis()
}

/// Where an execution context stands: still working through its steps, or
/// finished with its terminal status published.
#[derive(Clone, Copy, Debug, PartialEq, Eq, Structural)]
pub enum Phase {
    /// The given step is the next outcome the context waits for.
    InProgress(Step),
    /// The terminal status has been published.
    Finished,
}

/// The per-instance protocol driver.
///
/// The host performs each interpreter step on the instance's dedicated
/// execution unit and reports the outcome; the context publishes statuses and
/// enforces the protocol: exactly one terminal status per instance, no
/// transition after it, the failing step deciding the message and the error
/// kind. Module output is appended to the instance's log sink as it is
/// captured.
pub struct ExecutionContext {
    channel: StatusChannel,
    log: LogSink,
    phase: Phase,
    failure: Option<RunError>,
}

impl ExecutionContext {
    /// Every status published so far, in order.
    pub closed spec fn statuses(&self) -> Seq<ContainerStatus> {
        self.channel@
    }

    /// The bytes captured in the instance's log sink.
    pub closed spec fn log_bytes(&self) -> Seq<u8> {
        self.log@
    }

    /// Where the context stands.
    pub closed spec fn phase(&self) -> Phase {
        self.phase
    }

    /// The failure recorded for the awaiting caller, if the run failed.
    pub closed spec fn failure(&self) -> Option<RunError> {
        self.failure
    }

    /// Whether the terminal status has been published.
    pub open spec fn finished(&self) -> bool {
        self.phase() is Finished
    }

    /// The protocol invariant: the history is well-formed; while steps are
    /// outstanding only the initial status exists; once finished, the history
    /// ends in its single terminal status, failed exactly when a failure is
    /// recorded, with the failing step's message.
    pub open spec fn wf(&self) -> bool {
        &&& wf_history(self.statuses())
        &&& match self.phase() {
            Phase::InProgress(_) => {
                &&& self.statuses().len() == 1
                &&& !is_terminated(self.statuses().last())
                &&& self.failure() is None
            },
            Phase::Finished => {
                &&& is_terminated(self.statuses().last())
                &&& (self.failure() is Some <==> terminated_failed(self.statuses().last()))
                &&& (self.failure() matches Some(e) ==> status_message(self.statuses().last())
                    == failure_message(e.step))
                &&& (self.failure() is None ==> status_message(self.statuses().last())
                    == success_message())
            },
        }
    }

    /// Creates the context of a fresh instance: the initial `Waiting` status
    /// is published, the log sink is empty, and the first interpreter step is
    /// outstanding.
    pub fn new() -> (cx: Self)
        ensures
            cx.wf(),
            cx.phase() == Phase::InProgress(Step::CreateEnvironment),
            cx.statuses().len() == 1,
            status_message(cx.statuses()[0]) == waiting_message(),
            !is_terminated(cx.statuses()[0]),
            cx.log_bytes() =~= Seq::<u8>::empty(),
    {
        let t = now_millis();
        let channel = StatusChannel::new(t, "No status has been received from the process".to_owned());
        ExecutionContext {
            channel,
            log: LogSink::new(),
            phase: Phase::InProgress(Step::CreateEnvironment),
            failure: None,
        }
    }

    /// The step whose outcome the context waits for.
    pub fn current_step(&self) -> (s: Step)
        requires
            self.phase() matches Phase::InProgress(_),
        ensures
            self.phase() == Phase::InProgress(s),
    {
        match self.phase {
            Phase::InProgress(s) => s,
            Phase::Finished => unreached(),
        }
    }

    /// Reports that the outstanding step succeeded. After the final step the
    /// run is complete: the single terminal status is published, not failed,
    /// with the success message. After any earlier step the next one becomes
    /// outstanding and nothing is published.
    pub fn step_succeeded(&mut self)
        requires
            old(self).wf(),
            old(self).phase() matches Phase::InProgress(_),
        ensures
            final(self).wf(),
            final(self).log_bytes() == old(self).log_bytes(),
            old(self).phase() matches Phase::InProgress(s) ==> if s == Step::Invoke {
                &&& final(self).finished()
                &&& final(self).failure() is None
                &&& final(self).statuses().len() == old(self).statuses().len() + 1
                &&& final(self).statuses().drop_last() =~= old(self).statuses()
                &&& is_terminated(final(self).statuses().last())
                &&& !terminated_failed(final(self).statuses().last())
                &&& status_message(final(self).statuses().last()) == success_message()
            } else {
                &&& final(self).phase() == Phase::InProgress(next_step(s))
                &&& final(self).statuses() == old(self).statuses()
                &&& final(self).failure() is None
            },
    {
        let step = self.current_step();
        match step {
            Step::CreateEnvironment => {
                self.phase = Phase::InProgress(Step::CreateRuntime);
            },
            Step::CreateRuntime => {
                self.phase = Phase::InProgress(Step::ParseModule);
            },
            Step::ParseModule => {
                self.phase = Phase::InProgress(Step::LoadModule);
            },
            Step::LoadModule => {
                self.phase = Phase::InProgress(Step::LinkWasi);
            },
            Step::LinkWasi => {
                self.phase = Phase::InProgress(Step::FindEntrypoint);
            },
            Step::FindEntrypoint => {
                self.phase = Phase::InProgress(Step::Invoke);
            },
            Step::Invoke => {
                let t = now_millis();
                self.channel.publish(
                    ContainerStatus::Terminated {
                        failed: false,
                        message: "Module run completed".to_owned(),
                        timestamp: t,
                    },
                );
                self.phase = Phase::Finished;
            },
        }
    }

    /// Reports that the outstanding step failed, with the interpreter's own
    /// account of the error. The single terminal status is published, failed,
    /// with the failing step's message, and the failure is recorded for the
    /// awaiting caller with the step's kind.
    pub fn step_failed(&mut self, detail: String)
        requires
            old(self).wf(),
            old(self).phase() matches Phase::InProgress(_),
        ensures
            final(self).wf(),
            final(self).finished(),
            final(self).log_bytes() == old(self).log_bytes(),
            final(self).statuses().len() == old(self).statuses().len() + 1,
            final(self).statuses().drop_last() =~= old(self).statuses(),
            is_terminated(final(self).statuses().last()),
            terminated_failed(final(self).statuses().last()),
            old(self).phase() matches Phase::InProgress(s) ==> {
                &&& status_message(final(self).statuses().last()) == failure_message(s)
                &&& final(self).failure() matches Some(e) && e.step == s && e.detail == detail
            },
    {
        let step = self.current_step();
        let t = now_millis();
        self.channel.publish(
            ContainerStatus::Terminated {
                failed: true,
                message: failure_message_text(step),
                timestamp: t,
            },
        );
        self.phase = Phase::Finished;
        self.failure = Some(RunError { step, detail });
    }

    /// Appends captured module output to the instance's log sink. Capture
    /// never disturbs the status protocol.
    pub fn write_output(&mut self, bytes: &[u8])
        requires
            old(self).wf(),
        ensures
            final(self).wf(),
            final(self).log_bytes() =~= old(self).log_bytes() + bytes@,
            final(self).statuses() == old(self).statuses(),
            final(self).phase() == old(self).phase(),
            final(self).failure() == old(self).failure(),
    {
        self.log.write(bytes);
    }

    /// Closes the run into the caller-facing handle. Only a finished context
    /// can be closed, so every handle carries a published terminal status.
    pub fn into_handle(self) -> (h: InstanceHandle)
        requires
            self.wf(),
            self.finished(),
        ensures
            h.wf(),
            h.statuses() == self.statuses(),
            h.log_bytes() == self.log_bytes(),
            h.failure() == self.failure(),
    {
        InstanceHandle { channel: self.channel, log: self.log, outcome: self.failure }
    }
}

/// Exactly one terminal status is ever observable on an instance's channel:
/// none while its steps are outstanding, and exactly one — never a second —
/// once it has finished, whatever the step outcomes were.
pub proof fn lemma_terminal_exactly_once_per_instance(cx: &ExecutionContext)
    requires
        cx.wf(),
    ensures
        count_terminated(cx.statuses()) == if cx.finished() {
            1nat
        } else {
            0nat
        },
{
    lemma_terminal_exactly_once(cx.statuses());
}

/// The caller-facing handle of one finished instance: it can be stopped
/// (advisory, a no-op once run-to-completion has ended), awaited, and asked
/// for fresh log read handles.
pub struct InstanceHandle {
    channel: StatusChannel,
    log: LogSink,
    outcome: Option<RunError>,
}

impl InstanceHandle {
    /// Every status the instance ever published, in order.
    pub closed spec fn statuses(&self) -> Seq<ContainerStatus> {
        self.channel@
    }

    /// The bytes captured in the instance's log sink.
    pub closed spec fn log_bytes(&self) -> Seq<u8> {
        self.log@
    }

    /// The failure the run ended in, if any.
    pub closed spec fn failure(&self) -> Option<RunError> {
        self.outcome
    }

    /// A handle is well-formed when its history is a finished instance's
    /// history: well-formed, ending in the single terminal status, failed
    /// exactly when a failure is recorded.
    pub open spec fn wf(&self) -> bool {
        &&& wf_history(self.statuses())
        &&& is_terminated(self.statuses().last())
        &&& (self.failure() is Some <==> terminated_failed(self.statuses().last()))
        &&& (self.failure() matches Some(e) ==> status_message(self.statuses().last())
            == failure_message(e.step))
    }

    /// Requests cooperative termination. The execution model is
    /// run-to-completion, so stopping an already-terminated instance returns
    /// success; it takes the handle immutably, so it can neither alter nor
    /// re-publish any status.
    pub fn stop(&self) -> (r: Result<(), RunError>)
        ensures
            r is Ok,
    {
        Ok(())
    }

    /// Awaits completion. The run has already completed, so this is
    /// idempotent: it returns success exactly when the terminal status is not
    /// failed, and otherwise the recorded failure, whose step and detail it
    /// reproduces.
    pub fn wait(&self) -> (r: Result<(), RunError>)
        requires
            self.wf(),
        ensures
            r is Ok <==> !terminated_failed(self.statuses().last()),
            r matches Err(e) ==> self.failure() matches Some(o) && e.step == o.step && e.detail@
                == o.detail@,
    {
        match &self.outcome {
            None => Ok(()),
            Some(e) => Err(RunError { step: e.step, detail: e.detail.clone() }),
        }
    }

    /// The most recently published status: what a subscriber attaching now
    /// observes.
    pub fn latest_status(&self) -> (s: &ContainerStatus)
        requires
            self.wf(),
        ensures
            *s == self.statuses().last(),
    {
        self.channel.latest()
    }

    /// The instance's status channel, for observers that want the published
    /// sequence.
    pub fn status_channel(&self) -> (c: &StatusChannel)
        ensures
            c@ == self.statuses(),
    {
        &self.channel
    }

    /// Vends a fresh log read handle, positioned at offset zero. The factory
    /// never mutates the sink, so handles may be created at any time.
    pub fn new_handle(&self) -> (h: LogHandle)
        ensures
            h.position() == 0,
    {
        self.log.new_handle()
    }

    /// The instance's log sink, for reading through a handle.
    pub fn log_sink(&self) -> (sink: &LogSink)
        ensures
            sink@ == self.log_bytes(),
    {
        &self.log
    }
}

/// A handle always carries exactly one terminal status, and `wait` returns an
/// error exactly when that status is failed.
pub proof fn lemma_handle_terminal_exactly_once(h: &InstanceHandle)
    requires
        h.wf(),
    ensures
        count_terminated(h.statuses()) == 1,
{
    lemma_terminal_exactly_once(h.statuses());
}

/// A runtime context for running one wasm module: the caller-facing pairing
/// of a capability binding with a fresh execution context.
pub struct Wasm3Runtime {
    module: ModuleSpec,
}

impl Wasm3Runtime {
    /// The binding this runtime will execute.
    pub closed spec fn module_spec(&self) -> &ModuleSpec {
        &self.module
    }

    /// Creates a new runtime for the given binding.
    pub fn new(module: ModuleSpec) -> (rt: Self)
        requires
            module.wf(),
        ensures
            rt.module_spec().wf(),
            *rt.module_spec() == module,
    {
        Wasm3Runtime { module }
    }

    /// The module bytes the host hands to the interpreter.
    pub fn module_bytes(&self) -> (b: &Vec<u8>)
        ensures
            b@ == self.module_spec().module_bytes@,
    {
        &self.module.module_bytes
    }

    /// The interpreter stack budget.
    pub fn stack_size(&self) -> (n: u32)
        ensures
            n == self.module_spec().stack_size,
    {
        self.module.stack_size
    }

    /// Starts the instance: the fresh execution context whose steps the host
    /// now drives on a dedicated execution unit.
    pub fn start(&self) -> (cx: ExecutionContext)
        ensures
            cx.wf(),
            cx.phase() == Phase::InProgress(Step::CreateEnvironment),
            cx.statuses().len() == 1,
            status_message(cx.statuses()[0]) == waiting_message(),
            cx.log_bytes() =~= Seq::<u8>::empty(),
    {
        ExecutionContext::new()
    }
}

} // verus!
