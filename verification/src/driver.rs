//! The operations that every acquisition backend offers, and the factory
//! that builds a backend.
use crate::config::rejection;
use crate::lifecycle::{
    claim_step, discard_step, finish_stop_step, is_configuration_error, reconfigure_step,
    shutdown_step, start_step, stop_step, DiscardReport, DriverState, ShutdownStep, StopStep,
};
use crate::mock_driver::MockDriver;
use crate::stream::receiver_bound;
use crate::types::{AdcConfig, DriverError, DriverEvent, DriverStatus, DriverType};
use tokio::sync::mpsc::Receiver;
use vstd::prelude::*;

verus! {

/// What a caller can ask of an acquisition backend, whichever it is.
///
/// Each operation is one step of the lifecycle in `crate::lifecycle`, on the
/// state that `state` gives for the backend.
pub trait AdcDriver: Send + Sync + 'static {
    /// The backend's place in the lifecycle.
    spec fn state(&self) -> DriverState;

    fn reconfigure(&mut self, config: AdcConfig) -> (r: Result<DriverEvent, DriverError>)
        ensures
            reconfigure_step(old(self).state(), config@, final(self).state(), r),
            old(self).state().wf() ==> final(self).state().wf(),
    ;

    fn start_acquisition(&mut self) -> (r: Result<DriverEvent, DriverError>)
        ensures
            start_step(old(self).state(), final(self).state(), r),
            old(self).state().wf() ==> final(self).state().wf(),
    ;

    fn claim_task_slot(&mut self) -> (granted: bool)
        ensures
            claim_step(old(self).state(), final(self).state(), granted),
            old(self).state().wf() ==> final(self).state().wf(),
    ;

    fn stop_acquisition(&mut self) -> (step: StopStep)
        ensures
            stop_step(old(self).state(), final(self).state(), step),
            old(self).state().wf() ==> final(self).state().wf(),
    ;

    fn finish_stop(&mut self) -> (event: DriverEvent)
        ensures
            finish_stop_step(old(self).state(), final(self).state(), event),
            old(self).state().wf() ==> final(self).state().wf(),
    ;

    fn shutdown(&mut self) -> (step: ShutdownStep)
        ensures
            shutdown_step(old(self).state(), final(self).state(), step),
            old(self).state().wf() ==> final(self).state().wf(),
    ;

    fn discard(&mut self) -> (report: DiscardReport)
        ensures
            discard_step(old(self).state(), final(self).state(), report),
            old(self).state().wf() ==> final(self).state().wf(),
    ;

    fn get_status(&self) -> (status: DriverStatus)
        ensures
            status == self.state().status,
    ;

    fn get_config(&self) -> (r: Result<AdcConfig, DriverError>)
        ensures
            match self.state().config {
                Some(c) => r matches Ok(found) && found@ == c,
                None => r matches Err(DriverError::NotConfigured),
            },
    ;
}

impl AdcDriver for MockDriver {
    open spec fn state(&self) -> DriverState {
        self@
    }

    fn reconfigure(&mut self, config: AdcConfig) -> (r: Result<DriverEvent, DriverError>) {
        MockDriver::reconfigure(self, config)
    }

    fn start_acquisition(&mut self) -> (r: Result<DriverEvent, DriverError>) {
        MockDriver::start_acquisition(self)
    }

    fn claim_task_slot(&mut self) -> (granted: bool) {
        MockDriver::claim_task_slot(self)
    }

    fn stop_acquisition(&mut self) -> (step: StopStep) {
        MockDriver::stop_acquisition(self)
    }

    fn finish_stop(&mut self) -> (event: DriverEvent) {
        MockDriver::finish_stop(self)
    }

    fn shutdown(&mut self) -> (step: ShutdownStep) {
        MockDriver::shutdown(self)
    }

    fn discard(&mut self) -> (report: DiscardReport) {
        MockDriver::discard(self)
    }

    fn get_status(&self) -> (status: DriverStatus) {
        MockDriver::get_status(self)
    }

    fn get_config(&self) -> (r: Result<AdcConfig, DriverError>) {
        MockDriver::get_config(self)
    }
}

/// A backend that the factory built.
pub enum DriverHandle {
    Mock(MockDriver),
}

impl AdcDriver for DriverHandle {
    open spec fn state(&self) -> DriverState {
        match self {
            DriverHandle::Mock(driver) => driver@,
        }
    }

    fn reconfigure(&mut self, config: AdcConfig) -> (r: Result<DriverEvent, DriverError>) {
        match self {
            DriverHandle::Mock(driver) => driver.reconfigure(config),
        }
    }

    fn start_acquisition(&mut self) -> (r: Result<DriverEvent, DriverError>) {
        match self {
            DriverHandle::Mock(driver) => driver.start_acquisition(),
        }
    }

    fn claim_task_slot(&mut self) -> (granted: bool) {
        match self {
            DriverHandle::Mock(driver) => driver.claim_task_slot(),
        }
    }

    fn stop_acquisition(&mut self) -> (step: StopStep) {
        match self {
            DriverHandle::Mock(driver) => driver.stop_acquisition(),
        }
    }

    fn finish_stop(&mut self) -> (event: DriverEvent) {
        match self {
            DriverHandle::Mock(driver) => driver.finish_stop(),
        }
    }

    fn shutdown(&mut self) -> (step: ShutdownStep) {
        match self {
            DriverHandle::Mock(driver) => driver.shutdown(),
        }
    }

    fn discard(&mut self) -> (report: DiscardReport) {
        match self {
            DriverHandle::Mock(driver) => driver.discard(),
        }
    }

    fn get_status(&self) -> (status: DriverStatus) {
        match self {
            DriverHandle::Mock(driver) => driver.get_status(),
        }
    }

    fn get_config(&self) -> (r: Result<AdcConfig, DriverError>) {
        match self {
            DriverHandle::Mock(driver) => driver.get_config(),
        }
    }
}

/// Builds the backend that `driver_type` names for `config`, with a queue
/// of one batch and no headroom, and returns it with the receiving end of
/// the queue.
pub fn create_driver(driver_type: DriverType, config: AdcConfig) -> (r: Result<
    (DriverHandle, Receiver<DriverEvent>),
    DriverError,
>)
    ensures
        match rejection(config@, 0) {
            Some(text) => is_configuration_error(r, text),
            None => r matches Ok((driver, rx)) && driver.state() == DriverState::created(
                config@,
                0,
            ) && driver.state().wf() && receiver_bound(rx) == config@.batch_size,
        },
{
    match driver_type {
        DriverType::Mock => {
            match MockDriver::new(config, 0) {
                Ok((driver, events)) => Ok((DriverHandle::Mock(driver), events)),
                Err(e) => Err(e),
            }
        },
    }
}

} // verus!
