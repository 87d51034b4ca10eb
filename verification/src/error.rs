//! Error mapping at the caller-visible boundary.
//!
//! Internal failures are a small tagged enumeration; before one crosses the
//! call boundary it is wrapped with a short context naming the failed
//! operation and converted into the single caller-visible representation: a
//! fixed service-specific classification code plus the formatted message.

use vstd::prelude::*;
use vstd::string::StringExecFns;

verus! {

/// The classification code every service-specific failure carries.
pub const SERVICE_SPECIFIC_ERROR: i32 = 1;

/// An internal failure of a collaborator.
#[derive(Clone, Copy, PartialEq, Eq, Structural, Debug)]
pub enum SvcError {
    /// Periodic collection was asked for while one is active.
    AlreadyScheduled,
    /// Termination was asked for while no periodic collection is active.
    NotScheduled,
    /// A one-off trace was asked for under a tag that is still pending.
    DuplicateTraceTag,
    /// A report was asked for while no profiles are available.
    NoProfiles,
}

impl SvcError {
    /// The human-readable detail of this failure.
    pub open spec fn spec_message(self) -> Seq<char> {
        match self {
            SvcError::AlreadyScheduled => "periodic collection is already scheduled"@,
            SvcError::NotScheduled => "no periodic collection is scheduled"@,
            SvcError::DuplicateTraceTag => "a trace with this tag is already pending"@,
            SvcError::NoProfiles => "no profiles are available to pack"@,
        }
    }

    /// Renders the detail text of this failure.
    pub fn message(&self) -> (r: String)
        ensures
            r@ == self.spec_message(),
    {
        match self {
            SvcError::AlreadyScheduled => "periodic collection is already scheduled".to_owned(),
            SvcError::NotScheduled => "no periodic collection is scheduled".to_owned(),
            SvcError::DuplicateTraceTag => "a trace with this tag is already pending".to_owned(),
            SvcError::NoProfiles => "no profiles are available to pack".to_owned(),
        }
    }
}

/// The caller-visible error: a fixed classification code and a formatted
/// message. No internal detail beyond the message crosses the boundary.
#[derive(Debug)]
pub struct BinderStatus {
    pub code: i32,
    pub message: String,
}

/// The message an operation failure is reported with: the operation's context
/// text, a separator, and the internal failure's detail.
pub open spec fn spec_status_message(context: Seq<char>, err: SvcError) -> Seq<char> {
    context + ": "@ + err.spec_message()
}

/// Wraps an internal failure with the failed operation's context and converts
/// it to the caller-visible representation.
pub fn err_to_binder_status(context: &str, err: SvcError) -> (s: BinderStatus)
    ensures
        s.code == SERVICE_SPECIFIC_ERROR,
        s.message@ == spec_status_message(context@, err),
{
    let mut message = context.to_owned();
    message.append(": ");
    let detail = err.message();
    message.append(detail.as_str());
    BinderStatus { code: SERVICE_SPECIFIC_ERROR, message }
}

} // verus!
