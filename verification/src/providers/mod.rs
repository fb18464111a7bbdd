//! Provider payloads, error classification and response handling.

pub mod capmonster;
pub mod capsolver;
pub mod http;
pub mod rucaptcha;
pub mod traits;

pub use traits::TaskCreationOutcome;
