use vstd::prelude::*;
use vstd::string::StringExecFns;
use crate::sync::{ConfigError, FailReason};

verus! {

/// The text that explains a failure.
pub open spec fn reason_message(r: FailReason) -> Seq<char> {
    match r {
        FailReason::CreateDir(d) => d@,
        FailReason::MissingLocally => "missing locally"@,
        FailReason::LocalMismatch => "local file does not match remote"@,
        FailReason::Remote(d) => d@,
        FailReason::Write(d) => d@,
        FailReason::SizeMismatch => "file sizes do not match"@,
        FailReason::NoContent => "Could not retrieve the object's content"@,
        FailReason::NoLength => "remote object reported no length"@,
        FailReason::OutOfOrder => "Event out of order"@,
    }
}

impl FailReason {
    /// The text that explains this failure.
    pub fn message(&self) -> (r: String)
        ensures
            r@ == reason_message(*self),
    {
        match self {
            FailReason::CreateDir(d) => d.clone(),
            FailReason::MissingLocally => {
                proof {
                    reveal_strlit("missing locally");
                }
                String::from_str("missing locally")
            },
            FailReason::LocalMismatch => {
                proof {
                    reveal_strlit("local file does not match remote");
                }
                String::from_str("local file does not match remote")
            },
            FailReason::Remote(d) => d.clone(),
            FailReason::Write(d) => d.clone(),
            FailReason::SizeMismatch => {
                proof {
                    reveal_strlit("file sizes do not match");
                }
                String::from_str("file sizes do not match")
            },
            FailReason::NoContent => {
                proof {
                    reveal_strlit("Could not retrieve the object's content");
                }
                String::from_str("Could not retrieve the object's content")
            },
            FailReason::NoLength => {
                proof {
                    reveal_strlit("remote object reported no length");
                }
                String::from_str("remote object reported no length")
            },
            FailReason::OutOfOrder => {
                proof {
                    reveal_strlit("Event out of order");
                }
                String::from_str("Event out of order")
            },
        }
    }
}

/// The diagnostic line reported for an object that failed.
pub open spec fn failure_line_spec(raw: Seq<char>, reason: FailReason) -> Seq<char> {
    "ERROR "@ + raw + ": "@ + reason_message(reason)
}

/// Formats the diagnostic line for the object read from `raw`.
pub fn failure_line(raw: &str, reason: &FailReason) -> (r: String)
    ensures
        r@ == failure_line_spec(raw@, *reason),
{
    proof {
        reveal_strlit("ERROR ");
        reveal_strlit(": ");
    }
    let mut r = String::from_str("ERROR ");
    r.append(raw);
    r.append(": ");
    let m = reason.message();
    r.append(m.as_str());
    r
}

impl ConfigError {
    /// The text that explains the configuration error.
    pub fn message(&self) -> (r: String)
        ensures
            r@ == "Cannot provide verify-only and delete flags together"@,
    {
        proof {
            reveal_strlit("Cannot provide verify-only and delete flags together");
        }
        String::from_str("Cannot provide verify-only and delete flags together")
    }
}

} // verus!
