//! The lifecycle of a driver as a state machine: its states, and for each
//! operation the relation between the state before, the state after and
//! what the operation returns.
use crate::config::{accepted, rejection, MAX_BUFFER_SIZE};
use crate::types::{ConfigView, DriverError, DriverEvent, DriverStatus};
use vstd::prelude::*;

verus! {

/// What a driver holds, as mathematical values.
pub struct DriverState {
    /// The stored configuration, if there is one.
    pub config: Option<ConfigView>,
    /// Sampling has been asked for and not yet called off.
    pub running: bool,
    pub status: DriverStatus,
    /// The driver answers for a sampling task that has not been awaited.
    pub task_attached: bool,
    /// The number of events that the queue was made to hold.
    pub queue_bound: nat,
    /// The headroom that the queue was given beyond one batch.
    pub additional_buffering: nat,
}

/// What the caller of `stop_acquisition` has to do next.
#[derive(Debug, Clone, Copy, PartialEq, Eq, Structural)]
pub enum StopStep {
    /// Sampling was not running: nothing changed and nothing is to be done.
    Idle,
    /// Sampling has been called off. Where `join` holds, await the sampling
    /// task; then call `finish_stop`.
    Signalled { join: bool },
}

/// What the caller of `shutdown` has to do next.
#[derive(Debug, Clone)]
pub enum ShutdownStep {
    /// Sampling is still running: nothing changed. Stop it, then shut down.
    StopFirst,
    /// The driver is shut down. Put the event on the queue.
    Closed(DriverEvent),
}

/// What `discard` found.
#[derive(Debug, Clone, Copy, PartialEq, Eq, Structural)]
pub struct DiscardReport {
    /// The driver had not been shut down, and was reset.
    pub reset: bool,
    /// A sampling task was attached, and is left to end by itself.
    pub orphaned_task: bool,
}

/// `r` fails with a configuration error that reads `text`.
pub open spec fn is_configuration_error<T>(r: Result<T, DriverError>, text: Seq<char>) -> bool {
    r matches Err(DriverError::ConfigurationError(t)) && t@ == text
}

/// `r` succeeds with the event that announces `status`.
pub open spec fn announces(r: Result<DriverEvent, DriverError>, status: DriverStatus) -> bool {
    r matches Ok(DriverEvent::StatusChange(s)) && s == status
}

impl DriverState {
    /// The conditions that every driver meets between two steps: a stored
    /// configuration is one that the driver accepts, sampling runs only
    /// with a configuration, a task is attached only while sampling runs,
    /// a driver whose status is `NotInitialized` stores nothing and does
    /// not sample, and the queue holds at least one event and at most
    /// `MAX_BUFFER_SIZE`.
    pub open spec fn wf(self) -> bool {
        &&& self.config matches Some(c) ==> accepted(c, self.additional_buffering)
        &&& self.running ==> self.config is Some
        &&& self.task_attached ==> self.running
        &&& self.status == DriverStatus::NotInitialized ==> self.config is None
        &&& 0 < self.queue_bound <= MAX_BUFFER_SIZE
    }

    /// The state of a driver made for `config`.
    pub open spec fn created(config: ConfigView, additional: nat) -> DriverState {
        DriverState {
            config: Some(config),
            running: false,
            status: DriverStatus::Ready,
            task_attached: false,
            queue_bound: config.batch_size + additional,
            additional_buffering: additional,
        }
    }

    /// The state with `config` stored and the status `Ready`.
    pub open spec fn reconfigured(self, config: ConfigView) -> DriverState {
        DriverState { config: Some(config), status: DriverStatus::Ready, ..self }
    }

    /// Sampling can start: it is not running and a configuration is stored.
    pub open spec fn can_start(self) -> bool {
        !self.running && self.config is Some
    }

    /// The state with sampling running.
    pub open spec fn started(self) -> DriverState {
        DriverState { running: true, status: DriverStatus::Running, ..self }
    }

    /// A sampling task may be started: sampling is running and no task is
    /// attached.
    pub open spec fn task_slot_free(self) -> bool {
        self.running && !self.task_attached
    }

    /// The state with a sampling task attached.
    pub open spec fn task_claimed(self) -> DriverState {
        DriverState { task_attached: true, ..self }
    }

    /// The state with sampling called off and the task handed to the
    /// caller to await.
    pub open spec fn stop_signalled(self) -> DriverState {
        DriverState { running: false, task_attached: false, ..self }
    }

    /// The state with the status `Stopped`.
    pub open spec fn stopped(self) -> DriverState {
        DriverState { status: DriverStatus::Stopped, ..self }
    }

    /// The state with no configuration and the status `NotInitialized`.
    pub open spec fn shut_down(self) -> DriverState {
        DriverState { config: None, status: DriverStatus::NotInitialized, ..self }
    }

    /// The state of a driver that was given up: nothing runs, nothing is
    /// stored.
    pub open spec fn discarded(self) -> DriverState {
        DriverState {
            config: None,
            running: false,
            status: DriverStatus::NotInitialized,
            task_attached: false,
            ..self
        }
    }
}

/// `reconfigure(config)` takes `pre` to `post` and returns `r`: a
/// configuration that the driver refuses leaves the state as it was; one
/// that it accepts is stored, and the status `Ready` is announced.
pub open spec fn reconfigure_step(
    pre: DriverState,
    config: ConfigView,
    post: DriverState,
    r: Result<DriverEvent, DriverError>,
) -> bool {
    match rejection(config, pre.additional_buffering) {
        Some(text) => is_configuration_error(r, text) && post == pre,
        None => announces(r, DriverStatus::Ready) && post == pre.reconfigured(config),
    }
}

/// `start_acquisition()` takes `pre` to `post` and returns `r`: while
/// sampling runs it is refused as a configuration error, without a
/// configuration as `NotConfigured`, and either way the state stays as it
/// was; otherwise sampling runs and the status `Running` is announced.
pub open spec fn start_step(
    pre: DriverState,
    post: DriverState,
    r: Result<DriverEvent, DriverError>,
) -> bool {
    if pre.running {
        is_configuration_error(r, "Acquisition already running"@) && post == pre
    } else if pre.config is None {
        r matches Err(DriverError::NotConfigured) && post == pre
    } else {
        announces(r, DriverStatus::Running) && post == pre.started()
    }
}

/// `claim_task_slot()` takes `pre` to `post` and returns `granted`: leave
/// to start a task is given exactly where the slot is free, and then the
/// task is attached.
pub open spec fn claim_step(pre: DriverState, post: DriverState, granted: bool) -> bool {
    &&& granted == pre.task_slot_free()
    &&& post == if granted {
        pre.task_claimed()
    } else {
        pre
    }
}

/// `stop_acquisition()` takes `pre` to `post` and returns `step`: where
/// sampling is not running nothing changes; otherwise it is called off, and
/// the caller is told to await the task if one was attached.
pub open spec fn stop_step(pre: DriverState, post: DriverState, step: StopStep) -> bool {
    if pre.running {
        step == (StopStep::Signalled { join: pre.task_attached }) && post == pre.stop_signalled()
    } else {
        step == StopStep::Idle && post == pre
    }
}

/// `finish_stop()` takes `pre` to `post` and returns `event`: the status is
/// `Stopped`, and the event announces it.
pub open spec fn finish_stop_step(pre: DriverState, post: DriverState, event: DriverEvent) -> bool {
    &&& event matches DriverEvent::StatusChange(s) && s == DriverStatus::Stopped
    &&& post == pre.stopped()
}

/// `shutdown()` takes `pre` to `post` and returns `step`: while sampling
/// runs nothing changes and the caller is told to stop it first; otherwise
/// the configuration is forgotten and the status `NotInitialized` is
/// announced.
pub open spec fn shutdown_step(pre: DriverState, post: DriverState, step: ShutdownStep) -> bool {
    if pre.running {
        step is StopFirst && post == pre
    } else {
        &&& step matches ShutdownStep::Closed(DriverEvent::StatusChange(s)) && s
            == DriverStatus::NotInitialized
        &&& post == pre.shut_down()
    }
}

/// `discard()` takes `pre` to `post` and returns `report`: a driver that
/// was shut down is left as it is; any other is reset, and the report says
/// whether a task was let go.
pub open spec fn discard_step(pre: DriverState, post: DriverState, report: DiscardReport) -> bool {
    if pre.status == DriverStatus::NotInitialized {
        report == (DiscardReport { reset: false, orphaned_task: false }) && post == pre
    } else {
        &&& report == (DiscardReport { reset: true, orphaned_task: pre.task_attached })
        &&& post == pre.discarded()
    }
}

/// Every step of the lifecycle keeps the conditions of `DriverState::wf`.
pub proof fn lemma_steps_preserve_wf(pre: DriverState, post: DriverState)
    requires
        pre.wf(),
        ({
            ||| exists|config: ConfigView, r: Result<DriverEvent, DriverError>|
                reconfigure_step(pre, config, post, r)
            ||| exists|r: Result<DriverEvent, DriverError>| start_step(pre, post, r)
            ||| exists|granted: bool| claim_step(pre, post, granted)
            ||| exists|step: StopStep| stop_step(pre, post, step)
            ||| exists|event: DriverEvent| finish_stop_step(pre, post, event)
            ||| exists|step: ShutdownStep| shutdown_step(pre, post, step)
            ||| exists|report: DiscardReport| discard_step(pre, post, report)
        }),
    ensures
        post.wf(),
{
}

/// Starting and then stopping leaves the status `Stopped`, with sampling
/// not running and no task attached, whether or not a task was started in
/// between; the caller is told to await the task exactly where one was.
pub proof fn lemma_start_then_stop(
    s0: DriverState,
    s1: DriverState,
    started: Result<DriverEvent, DriverError>,
    s2: DriverState,
    granted: bool,
    with_task: bool,
    s3: DriverState,
    step: StopStep,
    s4: DriverState,
    event: DriverEvent,
)
    requires
        s0.wf(),
        s0.can_start(),
        start_step(s0, s1, started),
        if with_task {
            claim_step(s1, s2, granted)
        } else {
            s2 == s1
        },
        stop_step(s2, s3, step),
        finish_stop_step(s3, s4, event),
    ensures
        announces(started, DriverStatus::Running),
        with_task ==> granted,
        step == (StopStep::Signalled { join: with_task }),
        s4.status == DriverStatus::Stopped,
        !s4.running,
        !s4.task_attached,
        s4.config == s0.config,
        s4.wf(),
{
}

/// While sampling runs, a further start is refused as a configuration
/// error and changes nothing, whatever was done since the first start
/// short of stopping.
pub proof fn lemma_second_start_refused(
    s0: DriverState,
    s1: DriverState,
    first: Result<DriverEvent, DriverError>,
    s2: DriverState,
    granted: bool,
    with_task: bool,
    s3: DriverState,
    second: Result<DriverEvent, DriverError>,
)
    requires
        s0.wf(),
        s0.can_start(),
        start_step(s0, s1, first),
        if with_task {
            claim_step(s1, s2, granted)
        } else {
            s2 == s1
        },
        start_step(s2, s3, second),
    ensures
        is_configuration_error(second, "Acquisition already running"@),
        s3 == s2,
{
}

/// A driver without a configuration refuses to start with `NotConfigured`
/// and stays as it was.
pub proof fn lemma_start_needs_config(
    pre: DriverState,
    post: DriverState,
    r: Result<DriverEvent, DriverError>,
)
    requires
        pre.wf(),
        pre.config is None,
        start_step(pre, post, r),
    ensures
        r matches Err(DriverError::NotConfigured),
        post == pre,
{
}

/// A driver never answers for two sampling tasks: leave to start one is
/// given only where none is attached, and not again until sampling has
/// been called off.
pub proof fn lemma_single_task(
    s0: DriverState,
    s1: DriverState,
    first: bool,
    s2: DriverState,
    second: bool,
)
    requires
        s0.wf(),
        claim_step(s0, s1, first),
        claim_step(s1, s2, second),
    ensures
        first ==> !s0.task_attached,
        first ==> !second,
        s2 == s1,
{
}

/// Shutting down a driver on which sampling is not running announces
/// `NotInitialized` and leaves a driver that has to be configured again
/// before it starts.
pub proof fn lemma_shutdown_when_idle(pre: DriverState, post: DriverState, step: ShutdownStep)
    requires
        pre.wf(),
        !pre.running,
        shutdown_step(pre, post, step),
    ensures
        step matches ShutdownStep::Closed(DriverEvent::StatusChange(s)) && s
            == DriverStatus::NotInitialized,
        post.status == DriverStatus::NotInitialized,
        post.config is None,
        !post.can_start(),
        post.wf(),
{
}

/// A driver that is given up is left with sampling not running and no
/// task attached, so that a task that still runs ends at its next look.
pub proof fn lemma_discard_stops_sampling(
    pre: DriverState,
    post: DriverState,
    report: DiscardReport,
)
    requires
        pre.wf(),
        discard_step(pre, post, report),
    ensures
        !post.running,
        !post.task_attached,
        post.status == DriverStatus::NotInitialized,
        report.orphaned_task == pre.task_attached,
        report.reset == (pre.status != DriverStatus::NotInitialized),
        post.wf(),
{
}

} // verus!
