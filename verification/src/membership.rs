use vstd::prelude::*;

verus! {

use crate::errors::{GrpError, NativeOp, cerror_message, native_error};
use crate::identity::{Gid, ProcessIdentity};

/// The fast-path decision: whether the primary group already settles
/// membership, or the supplementary list must be consulted.
#[derive(Clone, Copy, Debug, PartialEq, Eq, Structural)]
pub enum MembershipProbe {
    /// The primary group equals the target: member, nothing more to read.
    Member,
    /// The primary group differs: the supplementary list decides.
    NeedSupplementary,
}

/// Decides whether the primary group alone settles membership.
pub fn check_primary(primary: u32, target: Gid) -> (p: MembershipProbe)
    ensures
        p is Member <==> primary == target.0,
{
    if primary == target.0 {
        MembershipProbe::Member
    } else {
        MembershipProbe::NeedSupplementary
    }
}

/// Membership according to a supplementary list of which the native read
/// filled only the first `returned` entries. The list can shrink between
/// the sizing probe and the read, so a shorter answer truncates the
/// working list instead of failing.
pub open spec fn member_of_list(list: Seq<u32>, returned: int, target: u32) -> bool {
    let n = if returned <= list.len() {
        returned
    } else {
        list.len() as int
    };
    exists|j: int| 0 <= j < n && list[j] == target
}

/// Decides membership over a fetched supplementary list, honouring how
/// many entries the native read actually returned.
pub fn membership_from_list(target: Gid, list: &Vec<u32>, returned: usize) -> (m: bool)
    ensures
        m == member_of_list(list@, returned as int, target.0),
{
    let n = if returned < list.len() {
        returned
    } else {
        list.len()
    };
    let mut i: usize = 0;
    while i < n
        invariant
            n <= list@.len(),
            n <= returned,
            (returned < list@.len() ==> n == returned),
            (returned >= list@.len() ==> n == list@.len()),
            0 <= i <= n,
            forall|j: int| 0 <= j < i ==> list@[j] != target.0,
        decreases n - i,
    {
        if list[i] == target.0 {
            return true;
        }
        i = i + 1;
    }
    false
}

/// Whether the modelled identity holds the target group at all, primary or
/// supplementary.
pub open spec fn is_member(ident: ProcessIdentity, target: Gid) -> bool {
    ident.gid == target.0 || ident.groups@.contains(target.0)
}

/// Membership check over the modelled identity: the primary group is the
/// fast path, the supplementary list decides otherwise. `list_failure`
/// stands for the native list read failing; the fast path never performs
/// that read, so a matching primary group succeeds even then.
pub fn check_membership(ident: &ProcessIdentity, list_failure: &Option<String>, target: Gid) -> (r:
    Result<bool, GrpError>)
    ensures
        (ident.gid == target.0 ==> (r matches Ok(m) && m == true)),
        (ident.gid != target.0 && list_failure is Some ==> (r matches Err(e)
            && e matches GrpError::CError(msg) && msg@ == cerror_message(
            NativeOp::GroupList,
            (list_failure->Some_0)@,
        ))),
        (ident.gid != target.0 && list_failure is None ==> (r matches Ok(m) && m
            == ident.groups@.contains(target.0))),
        (r matches Ok(m) ==> m == is_member(*ident, target)),
{
    match check_primary(ident.gid, target) {
        MembershipProbe::Member => Ok(true),
        MembershipProbe::NeedSupplementary => match list_failure {
            Some(d) => Err(native_error(NativeOp::GroupList, d.as_str())),
            None => Ok(membership_from_list(target, &ident.groups, ident.groups.len())),
        },
    }
}

} // verus!
