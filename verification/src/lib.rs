//! Lifecycle, timing and event planning for a multi-channel acquisition
//! driver whose samples come from a synthetic generator.
//!
//! The crate holds the decisions of the driver: which configurations are
//! accepted, how the lifecycle moves between its states, which event follows
//! each transition, and how a batch of sample points is laid out in time.
//! Suspending work (sending on the event stream, joining the sampling task,
//! sleeping) is left to the caller, who performs what a transition returns.
pub mod clock;
pub mod config;
pub mod driver;
pub mod lifecycle;
pub mod mock_driver;
pub mod signal;
pub mod stream;
pub mod text;
pub mod types;
