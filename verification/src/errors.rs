use vstd::prelude::*;
use vstd::string::StringExecFns;

verus! {

/// Failure taxonomy of the privilege-bracketing routine. Every outcome is
/// terminal: callers report the error and stop, nothing is retried.
#[derive(Debug)]
pub enum GrpError {
    /// A native call failed; the message is an operation-specific prefix
    /// followed by the platform's rendered error text.
    CError(String),
    /// The group exists but the current identity is not a member of it.
    NotAGroupMember,
    /// The named group has no directory record, or the name cannot be
    /// represented as a native string.
    NoSuchGroup,
}

/// The native operations whose failure surfaces as `CError`, each with its
/// own static message prefix so callers can tell which step failed.
#[derive(Clone, Copy, Debug, PartialEq, Eq, Structural)]
pub enum NativeOp {
    /// The directory lookup that resolves a group name.
    GroupLookup,
    /// Reading the supplementary group list.
    GroupList,
    /// Applying the target group identity.
    SetGroup,
    /// Lowering the effective user identity to the real user.
    DropUser,
}

/// Static description of the operation that failed.
pub open spec fn op_prefix(op: NativeOp) -> Seq<char> {
    match op {
        NativeOp::GroupLookup => "failed to get GID by name"@,
        NativeOp::GroupList => "failed to fetch list of groups"@,
        NativeOp::SetGroup => "failed to set new GID"@,
        NativeOp::DropUser => "failed to drop privileges"@,
    }
}

/// Message carried by a `CError`: operation prefix, separator, platform detail.
pub open spec fn cerror_message(op: NativeOp, detail: Seq<char>) -> Seq<char> {
    op_prefix(op) + ": "@ + detail
}

/// Builds the `CError` for a failed native call from the failing operation
/// and the platform's rendered error text.
pub fn native_error(op: NativeOp, detail: &str) -> (e: GrpError)
    ensures
        e matches GrpError::CError(m) && m@ == cerror_message(op, detail@),
{
    let mut m = String::from_str(match op {
        NativeOp::GroupLookup => "failed to get GID by name",
        NativeOp::GroupList => "failed to fetch list of groups",
        NativeOp::SetGroup => "failed to set new GID",
        NativeOp::DropUser => "failed to drop privileges",
    });
    m.append(": ");
    m.append(detail);
    GrpError::CError(m)
}

impl GrpError {
    /// Human-readable rendering, as the launcher prints it.
    pub fn describe(&self) -> (s: String)
        ensures
            (self matches GrpError::CError(m) ==> s@ == m@),
            (self is NotAGroupMember ==> s@ == "not a member of group"@),
            (self is NoSuchGroup ==> s@ == "no such group"@),
    {
        match self {
            GrpError::CError(m) => m.clone(),
            GrpError::NotAGroupMember => String::from_str("not a member of group"),
            GrpError::NoSuchGroup => String::from_str("no such group"),
        }
    }
}

} // verus!
