//! CapMonster Cloud: payloads, validation, errors and responses.

pub mod errors;
pub mod response;
pub mod types;

pub use errors::{CapmonsterApiError, CapmonsterError, CapmonsterErrorCode};
pub use response::CapmonsterResponse;
pub use types::{validate_task, CapmonsterSolution, CapmonsterTask};
