//! Task identifiers.

use vstd::prelude::*;

verus! {

/// Unique identifier for a captcha solving task.
#[derive(Debug)]
pub struct TaskId(pub String);

impl View for TaskId {
    type V = Seq<char>;

    open spec fn view(&self) -> Seq<char> {
        self.0@
    }
}

impl TaskId {
    /// Builds an identifier holding a copy of `id`.
    pub fn from_str(id: &str) -> (r: TaskId)
        ensures
            r@ == id@,
    {
        TaskId(id.to_string())
    }

    /// The identifier as a string slice.
    pub fn as_str(&self) -> (s: &str)
        ensures
            s@ == self@,
    {
        self.0.as_str()
    }

    /// The identifier as a string slice, for callers that expect `as_ref`.
    pub fn as_ref(&self) -> (s: &str)
        ensures
            s@ == self@,
    {
        self.0.as_str()
    }

    /// The identifier rendered as text.
    pub fn to_string(&self) -> (s: String)
        ensures
            s@ == self@,
    {
        self.0.clone()
    }
}

impl Clone for TaskId {
    fn clone(&self) -> (r: Self)
        ensures
            r == *self,
    {
        TaskId(self.0.clone())
    }
}

impl PartialEq for TaskId {
    fn eq(&self, other: &Self) -> (r: bool) {
        self.0 == other.0
    }
}

impl vstd::std_specs::cmp::PartialEqSpecImpl for TaskId {
    open spec fn obeys_eq_spec() -> bool {
        true
    }

    open spec fn eq_spec(&self, other: &TaskId) -> bool {
        self@ == other@
    }
}

impl Eq for TaskId {}

impl From<String> for TaskId {
    fn from(id: String) -> (r: Self) {
        TaskId(id)
    }
}

impl vstd::std_specs::convert::FromSpecImpl<String> for TaskId {
    open spec fn obeys_from_spec() -> bool {
        true
    }

    open spec fn from_spec(id: String) -> TaskId {
        TaskId(id)
    }
}

impl<'a> From<&'a str> for TaskId {
    fn from(id: &'a str) -> (r: Self)
        ensures
            r@ == id@,
    {
        TaskId::from_str(id)
    }
}

impl<'a> vstd::std_specs::convert::FromSpecImpl<&'a str> for TaskId {
    open spec fn obeys_from_spec() -> bool {
        false
    }

    open spec fn from_spec(id: &'a str) -> TaskId {
        arbitrary()
    }
}

} // verus!
