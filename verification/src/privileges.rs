use vstd::prelude::*;

verus! {

use crate::errors::{GrpError, NativeOp, cerror_message, native_error};
use crate::identity::{Gid, ProcessIdentity};

/// Applies the confirmed target group to the identity, then lowers the
/// effective user to the real user — in that order, because once the
/// effective user is lowered the authority to change groups may be gone.
/// `set_group_failure` and `drop_user_failure` stand for the respective
/// native call failing. There is no rollback: a group change followed by a
/// failed user drop leaves the identity partially changed, and the caller
/// is expected to terminate.
pub fn apply_privilege_drop(
    ident: &mut ProcessIdentity,
    target: Gid,
    set_group_failure: &Option<String>,
    drop_user_failure: &Option<String>,
) -> (r: Result<(), GrpError>)
    ensures
        final(ident).uid == old(ident).uid,
        final(ident).groups@ == old(ident).groups@,
        (set_group_failure is Some ==> (r matches Err(e) && e matches GrpError::CError(m) && m@
            == cerror_message(NativeOp::SetGroup, (set_group_failure->Some_0)@) && *final(ident)
            == *old(ident))),
        (set_group_failure is None ==> final(ident).gid == target.0),
        (set_group_failure is None && drop_user_failure is Some ==> (r matches Err(e)
            && e matches GrpError::CError(m) && m@ == cerror_message(
            NativeOp::DropUser,
            (drop_user_failure->Some_0)@,
        ) && final(ident).euid == old(ident).euid)),
        (set_group_failure is None && drop_user_failure is None ==> (r is Ok && final(ident).euid
            == old(ident).uid)),
{
    if let Some(d) = set_group_failure {
        return Err(native_error(NativeOp::SetGroup, d.as_str()));
    }
    ident.gid = target.0;
    if let Some(d) = drop_user_failure {
        return Err(native_error(NativeOp::DropUser, d.as_str()));
    }
    ident.euid = ident.uid;
    Ok(())
}

} // verus!
