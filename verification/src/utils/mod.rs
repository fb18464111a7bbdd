//! Helpers shared by the providers.

pub mod response;
