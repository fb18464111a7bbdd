//! Capsolver: payloads, errors and responses.

pub mod errors;
pub mod response;
pub mod types;

pub use errors::{CapsolverApiError, CapsolverError, CapsolverErrorCode};
pub use response::CapsolverResponse;
pub use types::{
    CapsolverSolution, CapsolverTask, CloudflareChallengeSolution, ReCaptchaSolution,
    TurnstileMetadata, TurnstileSolution,
};
