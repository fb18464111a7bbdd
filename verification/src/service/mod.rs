//! The solve service's configuration, errors and its create/poll state
//! machine.

pub mod config;
pub mod errors;
pub mod poll;

pub use config::{CaptchaSolverServiceConfig, CaptchaSolverServiceConfigBuilder};
pub use errors::ServiceError;
pub use poll::{PollAction, PollState, SolveStart};
