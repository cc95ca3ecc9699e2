use vstd::prelude::*;
use vstd::string::StringExecFns;

use crate::numfmt::dec_nat;
use crate::numfmt::usize_to_dec;

verus! {

/// Why a call failed. Every failure names its stage: an unknown worker name,
/// the operating system refusing to start the process, the event channel
/// failing mid-read, or the accumulated stdout not matching the expected
/// schema. A decode failure reports the byte length of the stdout buffer and
/// the full stderr text for postmortem.
#[derive(Debug)]
pub enum TaskError {
    WorkerNotFound { name: String },
    SpawnFailed { cause: String },
    StreamError { cause: String, stderr: String },
    DecodeFailed { cause: String, stdout_len: usize, stderr: String },
}

/// The single caller-facing message of a failure.
pub open spec fn message_of(e: TaskError) -> Seq<char> {
    match e {
        TaskError::WorkerNotFound { name } => "Failed to create sidecar command: unknown worker "@
            + name@,
        TaskError::SpawnFailed { cause } => "Failed to spawn sidecar: "@ + cause@,
        TaskError::StreamError { cause, stderr } => "Worker stream failed: "@ + cause@
            + " (stderr: "@ + stderr@ + ")"@,
        TaskError::DecodeFailed { cause, stdout_len, stderr } => "Failed to parse JSON: "@ + cause@
            + " (output length: "@ + dec_nat(stdout_len as nat) + ", stderr: "@ + stderr@ + ")"@,
    }
}

impl TaskError {
    /// Render the failure as the single descriptive string the caller sees.
    pub fn message(&self) -> (r: String)
        ensures
            r@ == message_of(*self),
    {
        match self {
            TaskError::WorkerNotFound { name } => {
                let mut s = "Failed to create sidecar command: unknown worker ".to_owned();
                s.append(name.as_str());
                assert(s@ =~= message_of(*self));
                s
            },
            TaskError::SpawnFailed { cause } => {
                let mut s = "Failed to spawn sidecar: ".to_owned();
                s.append(cause.as_str());
                assert(s@ =~= message_of(*self));
                s
            },
            TaskError::StreamError { cause, stderr } => {
                let mut s = "Worker stream failed: ".to_owned();
                s.append(cause.as_str());
                s.append(" (stderr: ");
                s.append(stderr.as_str());
                s.append(")");
                assert(s@ =~= message_of(*self));
                s
            },
            TaskError::DecodeFailed { cause, stdout_len, stderr } => {
                let mut s = "Failed to parse JSON: ".to_owned();
                s.append(cause.as_str());
                s.append(" (output length: ");
                let len_text = usize_to_dec(*stdout_len);
                s.append(len_text.as_str());
                s.append(", stderr: ");
                s.append(stderr.as_str());
                s.append(")");
                assert(s@ =~= message_of(*self));
                s
            },
        }
    }
}

} // verus!
