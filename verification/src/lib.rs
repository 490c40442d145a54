use vstd::prelude::*;

pub mod errors;
pub mod identity;
pub use crate::errors::GrpError;
pub mod membership;
pub mod privileges;
pub mod resolver;

verus! {

use crate::errors::{NativeOp, cerror_message};
use crate::identity::{Gid, ProcessIdentity};
use crate::membership::check_membership;
use crate::privileges::apply_privilege_drop;
use crate::resolver::{Directory, find_record, resolve_group, valid_group_name};

/// The ambient state the routine works against: the group directory and
/// the process identity, with the native calls that can fail represented
/// by injectable failure texts. The real launcher reads this state from
/// the operating system; a substitute model exercises every path.
#[derive(Debug)]
pub struct SystemModel {
    /// The system's group directory.
    pub directory: Directory,
    /// The process's ambient identity, the one thing this routine mutates.
    pub identity: ProcessIdentity,
    /// Set when reading the supplementary group list fails.
    pub list_failure: Option<String>,
    /// Set when applying the group identity fails.
    pub set_group_failure: Option<String>,
    /// Set when lowering the effective user fails.
    pub drop_user_failure: Option<String>,
}

/// The name resolves: it is representable, the lookup works, and a record
/// matches.
pub open spec fn resolves(sys: SystemModel, name: Seq<char>) -> bool {
    &&& valid_group_name(name)
    &&& sys.directory.lookup_failure is None
    &&& find_record(sys.directory.records@, name) is Some
}

/// The identifier the name resolves to.
pub open spec fn resolved_gid(sys: SystemModel, name: Seq<char>) -> u32 {
    (find_record(sys.directory.records@, name)->Some_0).gid
}

/// The identity is confirmed a member of the resolved group: by its
/// primary group, or by a readable supplementary list that contains it.
pub open spec fn confirmed_member(sys: SystemModel, name: Seq<char>) -> bool {
    &&& resolves(sys, name)
    &&& (sys.identity.gid == resolved_gid(sys, name) || (sys.list_failure is None
        && sys.identity.groups@.contains(resolved_gid(sys, name))))
}

/// Change group, then drop privileges.
///
/// Resolves `group` to an identifier, checks that the current identity is
/// a member (primary or supplementary), applies the group identity, and
/// then lowers the effective user to the real user — in that order. The
/// first failure ends the run with that step's error and nothing later is
/// attempted; a failed group change leaves the user identity untouched.
pub fn drop_privileges_with_group(group: &str, sys: &mut SystemModel) -> (r: Result<(), GrpError>)
    ensures
        final(sys).directory == old(sys).directory,
        final(sys).list_failure == old(sys).list_failure,
        final(sys).set_group_failure == old(sys).set_group_failure,
        final(sys).drop_user_failure == old(sys).drop_user_failure,
        final(sys).identity.uid == old(sys).identity.uid,
        final(sys).identity.groups@ == old(sys).identity.groups@,
        (!valid_group_name(group@) ==> (r matches Err(e) && e is NoSuchGroup
            && final(sys).identity == old(sys).identity)),
        (valid_group_name(group@) && old(sys).directory.lookup_failure is Some
            ==> (r matches Err(e) && e matches GrpError::CError(m)
            && m@ == cerror_message(
                NativeOp::GroupLookup,
                (old(sys).directory.lookup_failure->Some_0)@,
            )
            && final(sys).identity == old(sys).identity)),
        (valid_group_name(group@) && old(sys).directory.lookup_failure is None
            && find_record(old(sys).directory.records@, group@) is None
            ==> (r matches Err(e) && e is NoSuchGroup
            && final(sys).identity == old(sys).identity)),
        (resolves(*old(sys), group@) && old(sys).identity.gid != resolved_gid(*old(sys), group@)
            && old(sys).list_failure is Some
            ==> (r matches Err(e) && e matches GrpError::CError(m)
            && m@ == cerror_message(NativeOp::GroupList, (old(sys).list_failure->Some_0)@)
            && final(sys).identity == old(sys).identity)),
        (resolves(*old(sys), group@) && old(sys).identity.gid != resolved_gid(*old(sys), group@)
            && old(sys).list_failure is None
            && !old(sys).identity.groups@.contains(resolved_gid(*old(sys), group@))
            ==> (r matches Err(e) && e is NotAGroupMember
            && final(sys).identity == old(sys).identity)),
        (confirmed_member(*old(sys), group@) && old(sys).set_group_failure is Some
            ==> (r matches Err(e) && e matches GrpError::CError(m)
            && m@ == cerror_message(NativeOp::SetGroup, (old(sys).set_group_failure->Some_0)@)
            && final(sys).identity == old(sys).identity)),
        (confirmed_member(*old(sys), group@) && old(sys).set_group_failure is None
            ==> final(sys).identity.gid == resolved_gid(*old(sys), group@)),
        (confirmed_member(*old(sys), group@) && old(sys).set_group_failure is None
            && old(sys).drop_user_failure is Some
            ==> (r matches Err(e) && e matches GrpError::CError(m)
            && m@ == cerror_message(NativeOp::DropUser, (old(sys).drop_user_failure->Some_0)@)
            && final(sys).identity.euid == old(sys).identity.euid)),
        (confirmed_member(*old(sys), group@) && old(sys).set_group_failure is None
            && old(sys).drop_user_failure is None
            ==> (r is Ok && final(sys).identity.euid == old(sys).identity.uid)),
{
    let gid = match resolve_group(&sys.directory, group) {
        Ok(g) => g,
        Err(e) => {
            return Err(e);
        },
    };
    let member = match check_membership(&sys.identity, &sys.list_failure, gid) {
        Ok(m) => m,
        Err(e) => {
            return Err(e);
        },
    };
    if !member {
        return Err(GrpError::NotAGroupMember);
    }
    apply_privilege_drop(&mut sys.identity, gid, &sys.set_group_failure, &sys.drop_user_failure)
}

} // verus!
