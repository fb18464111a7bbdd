//! Provider-agnostic captcha solving: shared task types, provider payload
//! conversions, response classification and the solve/poll state machine.

pub mod errors;
pub mod providers;
pub mod proxy;
pub mod serde_helpers;
pub mod service;
pub mod solutions;
pub mod tasks;
pub mod text;
pub mod types;
pub mod utils;

pub use types::TaskId;
