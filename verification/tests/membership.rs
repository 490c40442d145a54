use grpexec::errors::GrpError;
use grpexec::identity::{Gid, ProcessIdentity};
use grpexec::membership::{
    check_membership, check_primary, membership_from_list, MembershipProbe,
};

fn identity(gid: u32, groups: Vec<u32>) -> ProcessIdentity {
    ProcessIdentity { uid: 1000, euid: 0, gid, groups }
}

#[test]
fn primary_match_is_membership() {
    assert_eq!(check_primary(500, Gid(500)), MembershipProbe::Member);
    assert_eq!(check_primary(100, Gid(500)), MembershipProbe::NeedSupplementary);
}

#[test]
fn primary_match_skips_the_supplementary_list() {
    // A failing list read would surface as CError if the list were
    // consulted; a matching primary group must decide first.
    let ident = identity(500, vec![]);
    let r = check_membership(&ident, &Some("list unreadable".to_string()), Gid(500));
    assert_eq!(r.unwrap(), true);
}

#[test]
fn supplementary_list_decides_membership() {
    let ident = identity(100, vec![7, 42]);
    assert_eq!(check_membership(&ident, &None, Gid(42)).unwrap(), true);
    assert_eq!(check_membership(&ident, &None, Gid(99)).unwrap(), false);
}

#[test]
fn absent_from_both_is_not_membership() {
    let ident = identity(100, vec![20, 30]);
    assert_eq!(check_membership(&ident, &None, Gid(10)).unwrap(), false);
}

#[test]
fn list_read_failure_maps_to_cerror() {
    let ident = identity(100, vec![7, 42]);
    let r = check_membership(&ident, &Some("interrupted".to_string()), Gid(42));
    match r {
        Err(GrpError::CError(m)) => {
            assert_eq!(m, "failed to fetch list of groups: interrupted");
        }
        other => panic!("expected CError, got {:?}", other),
    }
}

#[test]
fn shrunken_list_is_truncated_not_an_error() {
    // Only the first two entries were actually returned: the target in the
    // stale tail must not count.
    let list = vec![1, 2, 5];
    assert_eq!(membership_from_list(Gid(5), &list, 2), false);
    assert_eq!(membership_from_list(Gid(2), &list, 2), true);
}

#[test]
fn full_list_is_searched_whole() {
    let list = vec![1, 2, 5];
    assert_eq!(membership_from_list(Gid(5), &list, 3), true);
    assert_eq!(membership_from_list(Gid(9), &list, 3), false);
}

#[test]
fn oversized_return_count_is_capped_at_the_list() {
    let list = vec![1, 2, 5];
    assert_eq!(membership_from_list(Gid(5), &list, 10), true);
}

#[test]
fn empty_list_has_no_members() {
    let list: Vec<u32> = vec![];
    assert_eq!(membership_from_list(Gid(5), &list, 0), false);
}
