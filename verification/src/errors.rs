//! Shared error types and the retryability classification.

use vstd::prelude::*;
use crate::text::{decimal, push_decimal};

verus! {

/// Error for task types, or task fields, that a provider does not support.
#[derive(Debug, Clone)]
pub struct UnsupportedTaskError {
    /// The task type that is not supported.
    pub task_type: &'static str,
    /// The provider that does not support it.
    pub provider: &'static str,
    /// Fields of the task that the provider cannot express (empty when the
    /// whole task type is unsupported).
    pub unsupported_fields: Vec<&'static str>,
}

/// The comma-separated list of `fields`.
pub open spec fn joined_fields(fields: Seq<&'static str>) -> Seq<char>
    decreases fields.len(),
{
    if fields.len() == 0 {
        Seq::empty()
    } else if fields.len() == 1 {
        fields[0]@
    } else {
        joined_fields(fields.drop_last()) + ", "@ + fields.last()@
    }
}

impl UnsupportedTaskError {
    /// An error for a task type that `provider` does not support at all.
    pub fn new(task_type: &'static str, provider: &'static str) -> (e: Self)
        ensures
            e.task_type == task_type,
            e.provider == provider,
            e.unsupported_fields@ == Seq::<&'static str>::empty(),
    {
        UnsupportedTaskError { task_type, provider, unsupported_fields: Vec::new() }
    }

    /// An error for a task whose listed fields `provider` cannot express.
    pub fn unsupported_fields(
        task_type: &'static str,
        provider: &'static str,
        fields: Vec<&'static str>,
    ) -> (e: Self)
        ensures
            e.task_type == task_type,
            e.provider == provider,
            e.unsupported_fields@ == fields@,
    {
        UnsupportedTaskError { task_type, provider, unsupported_fields: fields }
    }

    /// Whether this error says that `provider` does not support the task
    /// type `task_type` at all.
    pub open spec fn whole_task_unsupported(&self, task_type: Seq<char>, provider: Seq<char>) -> bool {
        &&& self.task_type@ == task_type
        &&& self.provider@ == provider
        &&& self.unsupported_fields@.len() == 0
    }

    /// The text of the error message.
    pub open spec fn message_spec(&self) -> Seq<char> {
        let head = "Task type '"@ + self.task_type@ + "' is not supported by "@ + self.provider@;
        if self.unsupported_fields@.len() == 0 {
            head + ". This"@
                + " task type is only available with other providers."@
        } else {
            head + ". Unsupported fields: "@ + joined_fields(self.unsupported_fields@)
        }
    }

    /// The error message.
    pub fn message(&self) -> (m: String)
        ensures
            m@ == self.message_spec(),
    {
        let mut m = String::new();
        m.append("Task type '");
        m.append(self.task_type);
        m.append("' is not supported by ");
        m.append(self.provider);
        if self.unsupported_fields.len() == 0 {
            m.append(". This");
            m.append(" task type is only available with other providers.");
        } else {
            m.append(". Unsupported fields: ");
            let n = self.unsupported_fields.len();
            let ghost prefix = m@;
            let mut i: usize = 0;
            while i < n
                invariant
                    n == self.unsupported_fields@.len(),
                    0 <= i <= n,
                    n > 0,
                    m@ == prefix + joined_fields(self.unsupported_fields@.subrange(0, i as int)),
                decreases n - i,
            {
                let ghost fs = self.unsupported_fields@.subrange(0, i + 1);
                proof {
                    assert(fs.drop_last() =~= self.unsupported_fields@.subrange(0, i as int));
                }
                if i > 0 {
                    m.append(", ");
                }
                m.append(self.unsupported_fields[i]);
                proof {
                    if i == 0 {
                        assert(joined_fields(self.unsupported_fields@.subrange(0, 0))
                            =~= Seq::<char>::empty());
                    }
                }
                i = i + 1;
            }
            proof {
                assert(self.unsupported_fields@.subrange(0, n as int) =~= self.unsupported_fields@);
            }
        }
        m
    }
}

/// The message of a provider API error:
/// "`provider` Error [`id`]: `code` - `description`", where a missing
/// description reads "No description".
pub open spec fn api_error_text(
    provider: Seq<char>,
    id: u32,
    code: Seq<char>,
    description: Option<Seq<char>>,
) -> Seq<char> {
    provider + " Error ["@ + decimal(id as nat) + "]: "@ + code + " - "@ + match description {
        Some(d) => d,
        None => "No description"@,
    }
}

/// Renders `api_error_text`.
pub fn api_error_message(provider: &str, id: u32, code: &str, description: Option<&str>) -> (m:
    String)
    ensures
        m@ == api_error_text(
            provider@,
            id,
            code@,
            match description {
                Some(d) => Some(d@),
                None => None,
            },
        ),
{
    let mut m = provider.to_string();
    m.append(" Error [");
    push_decimal(&mut m, id as u64);
    m.append("]: ");
    m.append(code);
    m.append(" - ");
    match description {
        Some(d) => m.append(d),
        None => m.append("No description"),
    }
    m
}

/// Appends `name` to `v` when `set`.
pub(crate) fn push_if(v: &mut Vec<&'static str>, set: bool, name: &'static str)
    ensures
        final(v)@ == old(v)@ + (if set { seq![name] } else { Seq::<&'static str>::empty() }),
{
    if set {
        v.push(name);
    } else {
        assert(old(v)@ + Seq::<&'static str>::empty() =~= old(v)@);
    }
}

/// Errors that can be classified as retryable or permanent.
///
/// Two levels of retryability:
/// - `is_retryable`: whether the same task id can be polled or submitted again
///   (network timeouts, rate limits);
/// - `should_retry_operation`: whether a fresh solve attempt (a new task)
///   might succeed (for example after an unsolvable captcha).
pub trait RetryableError {
    /// Whether the same operation may be retried.
    spec fn retryable(&self) -> bool;

    /// Whether a fresh operation may succeed.
    spec fn operation_retryable(&self) -> bool;

    /// Returns true if this error is a transient failure that might succeed
    /// when retried with the same task id.
    fn is_retryable(&self) -> (r: bool)
        ensures
            r == self.retryable(),
    ;

    /// Returns true if a fresh solve operation (a new task) might succeed.
    fn should_retry_operation(&self) -> (r: bool)
        ensures
            r == self.operation_retryable(),
    ;
}

} // verus!
