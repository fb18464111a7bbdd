//! Decisions behind the payload (de)serialization helpers.

use vstd::prelude::*;
use crate::text::{parse_u64, parse_u64_spec};

verus! {

/// Whether a `false` flag is left out of a payload.
pub fn skip_if_false(value: &bool) -> (skip: bool)
    ensures
        skip == !*value,
{
    !*value
}

/// Whether an absent value is left out of a payload.
pub fn skip_if_none<T>(value: &Option<T>) -> (skip: bool)
    ensures
        skip == (*value is None),
{
    value.is_none()
}

/// How a task id is sent: as a number when it reads as a `u64` (the form
/// the APIs expect), otherwise as the string itself.
pub fn task_id_as_number(value: &str) -> (n: Option<u64>)
    ensures
        n == parse_u64_spec(value@),
{
    parse_u64(value)
}

} // verus!
