//! Lifecycle rules for one supervised backend process.
//!
//! The library decides; the program around it acts. Each operation is a step
//! function from the supervisor's state and an event to the next state and the
//! action that the caller has to perform: spawning and killing the process,
//! publishing on the event bus, waiting and the health request itself are the
//! caller's work, and their outcomes come back as the next event.

pub mod bus;
pub mod health;
pub mod laws;
pub mod relay;
pub mod supervisor;

pub use bus::{log_line, startup_notice, BusEvent};
pub use health::{check_backend_health, health_request, HealthRequest, ProbeOutcome};
pub use relay::{relay, ChildEvent};
pub use supervisor::{
    get_backend_status, shutdown, start_backend, stop_backend, BackendState, StartAction,
    StartEvent, StopAction, StopEvent,
};
