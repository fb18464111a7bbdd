//! The HTTP client's error types, which provider errors carry.

use vstd::prelude::*;

verus! {

/// `reqwest::Error`, carried opaquely.
#[verifier::external_type_specification]
#[verifier::external_body]
pub struct ExReqwestError(reqwest::Error);

/// `reqwest_middleware::Error`, carried opaquely.
#[verifier::external_type_specification]
#[verifier::external_body]
pub struct ExMiddlewareError(reqwest_middleware::Error);

} // verus!
