//! The driver that produces synthetic samples: its state and the
//! transitions of its lifecycle.
//!
//! Every transition is a short synchronous step on the state. Where the
//! lifecycle asks for suspending work (an event to put on the queue, a
//! sampling task to start or to await), the step returns what is to be done
//! and the caller does it before taking the next step.
use crate::config::{rejection, validate_config, MAX_BUFFER_SIZE};
use crate::lifecycle::{
    claim_step, discard_step, finish_stop_step, reconfigure_step, shutdown_step, start_step,
    stop_step, DiscardReport, DriverState, ShutdownStep, StopStep,
};
use crate::stream::{open_stream, receiver_bound, sender_bound, share_sender};
use crate::types::{AdcConfig, DriverError, DriverEvent, DriverStatus};
use tokio::sync::mpsc::{Receiver, Sender};
use vstd::prelude::*;
use vstd::string::*;

verus! {

/// A driver that reads no hardware and hands out synthetic samples.
pub struct MockDriver {
    config: Option<AdcConfig>,
    running: bool,
    status: DriverStatus,
    task_attached: bool,
    tx: Sender<DriverEvent>,
    additional_channel_buffering: usize,
}

impl View for MockDriver {
    type V = DriverState;

    closed spec fn view(&self) -> DriverState {
        DriverState {
            config: match self.config {
                Some(c) => Some(c@),
                None => None,
            },
            running: self.running,
            status: self.status,
            task_attached: self.task_attached,
            queue_bound: sender_bound(self.tx),
            additional_buffering: self.additional_channel_buffering as nat,
        }
    }
}

impl MockDriver {
    #[verifier::type_invariant]
    spec fn inv(self) -> bool {
        self@.wf()
    }

    /// Makes a driver for `config` and the queue that carries its events,
    /// and returns the driver with the receiving end of the queue.
    ///
    /// The queue holds one batch and `additional_channel_buffering` events
    /// more. With no headroom the consumer sees each batch as early as
    /// possible, and the sampling task waits whenever the consumer falls
    /// behind.
    pub fn new(config: AdcConfig, additional_channel_buffering: usize) -> (r: Result<
        (MockDriver, Receiver<DriverEvent>),
        DriverError,
    >)
        ensures
            match rejection(config@, additional_channel_buffering as nat) {
                Some(text) => r matches Err(DriverError::ConfigurationError(t)) && t@ == text,
                None => r matches Ok((driver, rx)) && driver@ == DriverState::created(
                    config@,
                    additional_channel_buffering as nat,
                ) && driver@.wf() && receiver_bound(rx) == config@.batch_size
                    + additional_channel_buffering,
            },
            config@.batch_size + additional_channel_buffering > MAX_BUFFER_SIZE ==> r matches Err(
                DriverError::ConfigurationError(_),
            ),
    {
        match validate_config(&config, additional_channel_buffering) {
            Err(e) => Err(e),
            Ok(()) => {
                let channel_buffer_size: usize = config.batch_size + additional_channel_buffering;
                let (tx, rx) = open_stream(channel_buffer_size);
                let driver = MockDriver {
                    config: Some(config),
                    running: false,
                    status: DriverStatus::Ready,
                    task_attached: false,
                    tx,
                    additional_channel_buffering,
                };
                Ok((driver, rx))
            },
        }
    }

    /// The stored configuration.
    pub fn get_config(&self) -> (r: Result<AdcConfig, DriverError>)
        ensures
            match self@.config {
                Some(c) => r matches Ok(found) && found@ == c,
                None => r matches Err(DriverError::NotConfigured),
            },
    {
        match &self.config {
            Some(c) => Ok(c.clone()),
            None => Err(DriverError::NotConfigured),
        }
    }

    /// Validates `config`, stores it in place of the present one and sets
    /// the status to `Ready`. Returns the event that announces the status.
    ///
    /// A sampling task that is running at that moment goes on with the new
    /// configuration from its next batch.
    pub fn reconfigure(&mut self, config: AdcConfig) -> (r: Result<DriverEvent, DriverError>)
        ensures
            final(self)@.wf(),
            reconfigure_step(old(self)@, config@, final(self)@, r),
    {
        proof {
            use_type_invariant(&*self);
        }
        match validate_config(&config, self.additional_channel_buffering) {
            Err(e) => Err(e),
            Ok(()) => {
                self.status = DriverStatus::Ready;
                self.config = Some(config);
                Ok(self.status_change())
            },
        }
    }

    /// Marks sampling as running and returns the event that announces it.
    ///
    /// Once the event is on the queue, the caller asks `claim_task_slot`
    /// for leave to start the sampling task.
    pub fn start_acquisition(&mut self) -> (r: Result<DriverEvent, DriverError>)
        ensures
            final(self)@.wf(),
            start_step(old(self)@, final(self)@, r),
    {
        proof {
            use_type_invariant(&*self);
        }
        if self.running {
            return Err(
                DriverError::ConfigurationError(String::from_str("Acquisition already running")),
            );
        }
        if self.config.is_none() {
            return Err(DriverError::NotConfigured);
        }
        self.running = true;
        self.status = DriverStatus::Running;
        Ok(self.status_change())
    }

    /// Decides whether the caller may start a sampling task now, and if so
    /// attaches that task to the driver.
    ///
    /// Leave is given only while sampling is running and no task is
    /// attached, so a driver never answers for two tasks.
    pub fn claim_task_slot(&mut self) -> (granted: bool)
        ensures
            final(self)@.wf(),
            claim_step(old(self)@, final(self)@, granted),
    {
        proof {
            use_type_invariant(&*self);
        }
        if self.running && !self.task_attached {
            self.task_attached = true;
            true
        } else {
            false
        }
    }

    /// Calls sampling off, and says whether a sampling task is to be
    /// awaited. The task sees the change before its next batch.
    pub fn stop_acquisition(&mut self) -> (step: StopStep)
        ensures
            final(self)@.wf(),
            stop_step(old(self)@, final(self)@, step),
    {
        proof {
            use_type_invariant(&*self);
        }
        if !self.running {
            return StopStep::Idle;
        }
        let join = self.task_attached;
        self.task_attached = false;
        self.running = false;
        StopStep::Signalled { join }
    }

    /// Sets the status to `Stopped`, once the sampling task has ended, and
    /// returns the event that announces it.
    pub fn finish_stop(&mut self) -> (event: DriverEvent)
        ensures
            final(self)@.wf(),
            finish_stop_step(old(self)@, final(self)@, event),
    {
        proof {
            use_type_invariant(&*self);
        }
        self.status = DriverStatus::Stopped;
        self.status_change()
    }

    /// Forgets the configuration and sets the status to `NotInitialized`,
    /// unless sampling is still running.
    pub fn shutdown(&mut self) -> (step: ShutdownStep)
        ensures
            final(self)@.wf(),
            shutdown_step(old(self)@, final(self)@, step),
    {
        proof {
            use_type_invariant(&*self);
        }
        if self.running {
            return ShutdownStep::StopFirst;
        }
        self.config = None;
        self.status = DriverStatus::NotInitialized;
        ShutdownStep::Closed(self.status_change())
    }

    /// Resets a driver that is given up without having been shut down.
    ///
    /// Nothing is awaited: a sampling task that is attached is let go, and
    /// ends by itself when it next looks at the driver. The report tells the
    /// caller what to warn about.
    pub fn discard(&mut self) -> (report: DiscardReport)
        ensures
            final(self)@.wf(),
            discard_step(old(self)@, final(self)@, report),
    {
        proof {
            use_type_invariant(&*self);
        }
        if self.status == DriverStatus::NotInitialized {
            return DiscardReport { reset: false, orphaned_task: false };
        }
        let orphaned_task = self.task_attached;
        self.task_attached = false;
        self.running = false;
        self.config = None;
        self.status = DriverStatus::NotInitialized;
        DiscardReport { reset: true, orphaned_task }
    }

    /// What the sampling task reads before each batch: the configuration to
    /// sample with, or `None` where the task has to end.
    pub fn sampling_config(&self) -> (r: Option<AdcConfig>)
        ensures
            self@.wf(),
            match r {
                Some(config) => self@.running && self@.config == Some(config@),
                None => !self@.running,
            },
    {
        proof {
            use_type_invariant(self);
        }
        if !self.running {
            return None;
        }
        match &self.config {
            Some(c) => Some(c.clone()),
            None => None,
        }
    }

    /// The event that announces the present status.
    pub fn status_change(&self) -> (event: DriverEvent)
        ensures
            event matches DriverEvent::StatusChange(status) && status == self@.status,
    {
        DriverEvent::StatusChange(self.status)
    }

    /// What the caller reports once it has tried to put a status event on
    /// the queue: success where the event was taken, and otherwise an error
    /// that carries the queue's own words.
    pub fn notify_status_change(sent: Result<(), String>) -> (r: Result<(), DriverError>)
        ensures
            match sent {
                Ok(()) => r is Ok,
                Err(cause) => r matches Err(DriverError::Other(text)) && text@
                    == "Failed to send status change: "@ + cause@,
            },
    {
        match sent {
            Ok(()) => Ok(()),
            Err(cause) => Err(
                DriverError::Other(
                    String::from_str("Failed to send status change: ").concat(cause.as_str()),
                ),
            ),
        }
    }

    /// The status to report for a driver that may be out of reach: its own
    /// where it is at hand, and `NotInitialized` where it is not.
    pub fn observed_status(driver: Option<&MockDriver>) -> (status: DriverStatus)
        ensures
            status == match driver {
                Some(d) => d@.status,
                None => DriverStatus::NotInitialized,
            },
    {
        match driver {
            Some(d) => d.get_status(),
            None => DriverStatus::NotInitialized,
        }
    }

    pub fn is_running(&self) -> (running: bool)
        ensures
            running == self@.running,
    {
        self.running
    }

    /// Whether the driver answers for a sampling task.
    pub fn has_task(&self) -> (attached: bool)
        ensures
            attached == self@.task_attached,
    {
        self.task_attached
    }

    /// The headroom that the queue was given beyond one batch.
    pub fn additional_channel_buffering(&self) -> (additional: usize)
        ensures
            additional == self@.additional_buffering,
    {
        self.additional_channel_buffering
    }

    /// Another sending end of the driver's queue.
    pub fn event_sender(&self) -> (tx: Sender<DriverEvent>)
        ensures
            sender_bound(tx) == self@.queue_bound,
    {
        share_sender(&self.tx)
    }

    pub fn get_status(&self) -> (status: DriverStatus)
        ensures
            status == self@.status,
            self@.wf(),
    {
        proof {
            use_type_invariant(self);
        }
        self.status
    }
}

} // verus!
