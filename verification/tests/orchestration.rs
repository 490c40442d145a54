use grpexec::errors::{native_error, NativeOp};
use grpexec::GrpError;
use grpexec::identity::{Gid, ProcessIdentity};
use grpexec::resolver::{Directory, GroupRecord};
use grpexec::{drop_privileges_with_group, SystemModel};

fn record(name: &str, gid: u32, record_size: usize) -> GroupRecord {
    GroupRecord { name: name.to_string(), gid, record_size }
}

fn system(records: Vec<GroupRecord>, identity: ProcessIdentity) -> SystemModel {
    SystemModel {
        directory: Directory { records, lookup_failure: None },
        identity,
        list_failure: None,
        set_group_failure: None,
        drop_user_failure: None,
    }
}

#[test]
fn member_by_supplementary_list_succeeds() {
    let ident = ProcessIdentity { uid: 1000, euid: 0, gid: 100, groups: vec![500, 1000] };
    let mut sys = system(vec![record("ops", 500, 64)], ident);
    let r = drop_privileges_with_group("ops", &mut sys);
    assert!(r.is_ok());
    assert_eq!(sys.identity.gid, 500);
    assert_eq!(sys.identity.euid, 1000);
    assert_eq!(sys.identity.uid, 1000);
}

#[test]
fn unknown_group_yields_no_such_group() {
    let ident = ProcessIdentity { uid: 1000, euid: 0, gid: 100, groups: vec![500] };
    let mut sys = system(vec![record("ops", 500, 64)], ident);
    let r = drop_privileges_with_group("ghost", &mut sys);
    assert!(matches!(r, Err(GrpError::NoSuchGroup)));
    assert_eq!(sys.identity.gid, 100);
    assert_eq!(sys.identity.euid, 0);
}

#[test]
fn non_member_is_rejected_without_mutation() {
    let ident = ProcessIdentity { uid: 1000, euid: 0, gid: 100, groups: vec![20, 30] };
    let mut sys = system(vec![record("admin", 10, 64)], ident);
    let r = drop_privileges_with_group("admin", &mut sys);
    assert!(matches!(r, Err(GrpError::NotAGroupMember)));
    assert_eq!(sys.identity.gid, 100);
    assert_eq!(sys.identity.euid, 0);
    assert_eq!(sys.identity.groups, vec![20, 30]);
}

#[test]
fn failed_group_change_reports_that_step_and_keeps_the_user() {
    let ident = ProcessIdentity { uid: 1000, euid: 0, gid: 100, groups: vec![500] };
    let mut sys = system(vec![record("ops", 500, 64)], ident);
    sys.set_group_failure = Some("Operation not permitted".to_string());
    let r = drop_privileges_with_group("ops", &mut sys);
    match r {
        Err(GrpError::CError(m)) => {
            assert_eq!(m, "failed to set new GID: Operation not permitted");
        }
        other => panic!("expected CError, got {:?}", other),
    }
    // The elevated effective user remains the prior value.
    assert_eq!(sys.identity.euid, 0);
    assert_eq!(sys.identity.gid, 100);
}

#[test]
fn nul_name_yields_no_such_group() {
    let ident = ProcessIdentity { uid: 1000, euid: 0, gid: 100, groups: vec![500] };
    let mut sys = system(vec![record("ops", 500, 64)], ident);
    let r = drop_privileges_with_group("op\0s", &mut sys);
    assert!(matches!(r, Err(GrpError::NoSuchGroup)));
}

#[test]
fn member_by_primary_group_succeeds() {
    let ident = ProcessIdentity { uid: 1000, euid: 0, gid: 500, groups: vec![] };
    let mut sys = system(vec![record("ops", 500, 64)], ident);
    // A failing list read must not matter: the primary group decides.
    sys.list_failure = Some("list unreadable".to_string());
    let r = drop_privileges_with_group("ops", &mut sys);
    assert!(r.is_ok());
    assert_eq!(sys.identity.gid, 500);
    assert_eq!(sys.identity.euid, 1000);
}

#[test]
fn list_read_failure_surfaces_as_cerror() {
    let ident = ProcessIdentity { uid: 1000, euid: 0, gid: 100, groups: vec![500] };
    let mut sys = system(vec![record("ops", 500, 64)], ident);
    sys.list_failure = Some("interrupted".to_string());
    let r = drop_privileges_with_group("ops", &mut sys);
    match r {
        Err(GrpError::CError(m)) => {
            assert_eq!(m, "failed to fetch list of groups: interrupted");
        }
        other => panic!("expected CError, got {:?}", other),
    }
    assert_eq!(sys.identity.euid, 0);
}

#[test]
fn failed_user_drop_reports_that_step() {
    let ident = ProcessIdentity { uid: 1000, euid: 0, gid: 100, groups: vec![500] };
    let mut sys = system(vec![record("ops", 500, 64)], ident);
    sys.drop_user_failure = Some("EPERM".to_string());
    let r = drop_privileges_with_group("ops", &mut sys);
    match r {
        Err(GrpError::CError(m)) => {
            assert_eq!(m, "failed to drop privileges: EPERM");
        }
        other => panic!("expected CError, got {:?}", other),
    }
    // The group was already changed; the effective user remains elevated.
    assert_eq!(sys.identity.gid, 500);
    assert_eq!(sys.identity.euid, 0);
}

#[test]
fn oversized_record_resolves_through_the_whole_pipeline() {
    let ident = ProcessIdentity { uid: 1000, euid: 0, gid: 100, groups: vec![500] };
    let mut sys = system(vec![record("ops", 500, 8192)], ident);
    let r = drop_privileges_with_group("ops", &mut sys);
    assert!(r.is_ok());
    assert_eq!(sys.identity.gid, 500);
}

#[test]
fn error_descriptions() {
    assert_eq!(GrpError::NoSuchGroup.describe(), "no such group");
    assert_eq!(GrpError::NotAGroupMember.describe(), "not a member of group");
    let e = native_error(NativeOp::DropUser, "denied");
    assert_eq!(e.describe(), "failed to drop privileges: denied");
}

#[test]
fn native_error_prefixes_are_distinct_per_step() {
    let gid = Gid(5);
    assert_eq!(gid.0, 5);
    let lookup = native_error(NativeOp::GroupLookup, "x");
    let list = native_error(NativeOp::GroupList, "x");
    let set = native_error(NativeOp::SetGroup, "x");
    let drop = native_error(NativeOp::DropUser, "x");
    assert_eq!(lookup.describe(), "failed to get GID by name: x");
    assert_eq!(list.describe(), "failed to fetch list of groups: x");
    assert_eq!(set.describe(), "failed to set new GID: x");
    assert_eq!(drop.describe(), "failed to drop privileges: x");
}
