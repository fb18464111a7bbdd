//! RuCaptcha: payloads, errors and responses.

pub mod errors;
pub mod response;
pub mod types;

pub use errors::{RucaptchaApiError, RucaptchaError, RucaptchaErrorCode};
pub use response::RucaptchaResponse;
pub use types::{
    ReCaptchaSolution, RucaptchaSolution, RucaptchaTask, TurnstileMetadata, TurnstileSolution,
};
