use presage::error::Error;
use presage::groups::{
    active_group_from_snapshot, build_leave_group_actions, confirmed_group_after_leave,
    group_avatar_path, group_candidate_keys, group_has_member, is_expected_leave_change,
    needs_group_refresh, remove_member, stale_group_keys, upsert_group, Group, GroupChange,
    GroupChanges, GroupFetch, GroupLeaveConfirmationError, Member, Role, ServiceGroup, UpsertEvent,
    UpsertTask,
};
use presage::http::GROUPS_V2_ENDPOINT;

fn service_group(members: &[u128]) -> ServiceGroup<()> {
    ServiceGroup {
        title: "test group".to_string(),
        avatar: String::new(),
        version: 4,
        members: members
            .iter()
            .copied()
            .map(|aci| Member {
                aci,
                role: Role::Default,
                profile_key: [3; 32],
                joined_at_version: 1,
                label: None,
                label_emoji: None,
            })
            .collect(),
        details: (),
    }
}

#[test]
fn filters_snapshots_to_active_self_membership() {
    let own = 1;
    assert!(group_has_member(&service_group(&[own, 2]), own));
    assert!(!group_has_member(&service_group(&[2]), own));
    assert!(!group_has_member(&service_group(&[]), own));
}

#[test]
fn confirms_leave_when_authoritative_group_is_inaccessible() {
    let own = 1;

    assert!(confirmed_group_after_leave::<()>(None, own)
        .unwrap()
        .is_none());
}

#[test]
fn confirms_leave_from_authoritative_nonmembership() {
    let own = 1;
    let other = 2;
    let confirmed = confirmed_group_after_leave(Some(service_group(&[other])), own)
        .unwrap()
        .unwrap();

    assert_eq!(confirmed.members.len(), 1);
    assert_eq!(confirmed.members[0].aci, other);
}

#[test]
fn rejects_leave_confirmation_while_account_is_still_a_member() {
    let own = 1;

    assert!(matches!(
        confirmed_group_after_leave(Some(service_group(&[own])), own),
        Err(GroupLeaveConfirmationError::StillMember)
    ));
}

#[test]
fn identifies_only_stale_stored_group_keys() {
    let active = [[1; 32], [3; 32]];
    assert_eq!(
        stale_group_keys(&[[1; 32], [2; 32], [3; 32]], &active),
        vec![[2; 32]]
    );
}

#[test]
fn keeps_cached_manifest_absent_group_when_still_active() {
    let manifest_key = [1; 32];
    let cached_key = [2; 32];
    let candidates = group_candidate_keys(&[manifest_key], &[cached_key]);
    assert_eq!(candidates, vec![manifest_key, cached_key]);

    let own = 1;
    let active = active_group_from_snapshot(cached_key, service_group(&[own]), own).unwrap();
    let active_keys = [active.0];
    assert!(stale_group_keys(&[cached_key], &active_keys).is_empty());
}

#[test]
fn prunes_cached_manifest_absent_group_after_authoritative_nonmembership() {
    let cached_key = [2; 32];
    let candidates = group_candidate_keys(&[], &[cached_key]);
    assert_eq!(candidates, vec![cached_key]);

    let own = 1;
    assert!(active_group_from_snapshot(cached_key, service_group(&[2]), own).is_none());
    assert_eq!(stale_group_keys(&[cached_key], &[]), vec![cached_key]);
}

#[test]
fn candidates_are_listed_once() {
    assert_eq!(
        group_candidate_keys(&[[1; 32], [2; 32]], &[[2; 32], [3; 32], [1; 32]]),
        vec![[1; 32], [2; 32], [3; 32]]
    );
}

#[test]
fn builds_and_decodes_a_leave_change() {
    assert_eq!(GROUPS_V2_ENDPOINT, "/v2/groups/");
    let own = 1u128;
    let encrypted_own = vec![42; 65];
    let request = build_leave_group_actions(encrypted_own.clone(), own, 8);

    assert_eq!(request.source_user_id.len(), 16);
    assert_eq!(request.source_user_id, own.to_be_bytes());
    assert!(request.group_id.is_empty());
    assert_eq!(request.version, 8);
    assert_eq!(request.delete_members.len(), 1);
    assert_eq!(request.delete_members[0], encrypted_own);

    let group_id = [6; 32];
    let decoded = GroupChanges {
        group_id,
        editor: own,
        version: 8,
        changes: vec![GroupChange::Other, GroupChange::DeleteMember(own)],
    };
    assert!(is_expected_leave_change(&decoded, &group_id, own, 8));
    assert!(!is_expected_leave_change(&decoded, &group_id, own, 9));
}

#[test]
fn leave_change_must_be_the_departure_of_the_account() {
    let change = |editor: u128, removed: u128| GroupChanges {
        group_id: [6; 32],
        editor,
        version: 8,
        changes: vec![GroupChange::DeleteMember(removed)],
    };
    assert!(is_expected_leave_change(&change(1, 1), &[6; 32], 1, 8));
    assert!(!is_expected_leave_change(&change(1, 1), &[7; 32], 1, 8));
    assert!(!is_expected_leave_change(&change(2, 1), &[6; 32], 1, 8));
    assert!(!is_expected_leave_change(&change(1, 2), &[6; 32], 1, 8));
}

#[test]
fn removing_a_member_keeps_the_others_in_order() {
    let rest = remove_member(service_group(&[3, 1, 2, 1]).members, 1);
    let acis: Vec<u128> = rest.iter().map(|member| member.aci).collect();
    assert_eq!(acis, vec![3, 2]);
}

#[test]
fn group_is_fetched_only_when_it_is_behind() {
    assert!(needs_group_refresh(None, 0));
    assert!(needs_group_refresh(Some(3), 4));
    assert!(!needs_group_refresh(Some(4), 4));
    assert!(matches!(
        upsert_group::<(), ()>(&[5; 31], 4),
        Err(Error::InvalidKeyLength)
    ));
}

fn loaded(stored: Result<Option<u32>, &'static str>) -> UpsertTask<(), &'static str> {
    let task = upsert_group(&[5; 32], 4).unwrap();
    assert!(matches!(&task, UpsertTask::LoadGroup { master_key, revision: 4 } if *master_key == [5; 32]));
    task.step(UpsertEvent::Loaded(stored))
}

#[test]
fn group_that_is_not_behind_is_only_read() {
    let task = loaded(Ok(Some(4)));
    assert!(matches!(task, UpsertTask::ReadGroup { .. }));
    let stored = Group::from_service(service_group(&[1]));
    match task.step(UpsertEvent::Read(Ok(Some(stored)))) {
        UpsertTask::Finished(Some(group)) => assert_eq!(group.revision, 4),
        _ => unreachable!(),
    }
}

#[test]
fn failed_fetch_or_save_leaves_the_stored_group() {
    for stored in [Ok(None), Ok(Some(3)), Err("unreadable")] {
        let task = loaded(stored);
        assert!(matches!(task, UpsertTask::FetchGroup { .. }));
        assert!(matches!(
            task.step(UpsertEvent::Fetch(GroupFetch::Unavailable)),
            UpsertTask::ReadGroup { .. }
        ));
    }
    let task = loaded(Ok(None)).step(UpsertEvent::Fetch(GroupFetch::Fetched(service_group(&[1]))));
    assert!(matches!(&task, UpsertTask::SaveGroup { group, .. } if group.revision == 4));
    let task = task.step(UpsertEvent::Saved(Err("full")));
    assert!(matches!(task, UpsertTask::ReadGroup { .. }));
    assert!(matches!(
        task.step(UpsertEvent::Read(Ok(None))),
        UpsertTask::Finished(None)
    ));
}

#[test]
fn undecryptable_group_is_an_error() {
    assert!(matches!(
        loaded(Ok(None)).step(UpsertEvent::Fetch(GroupFetch::Undecryptable("key"))),
        UpsertTask::Failed("key")
    ));
    assert!(matches!(
        loaded(Ok(Some(9))).step(UpsertEvent::Read(Err("unreadable"))),
        UpsertTask::Failed("unreadable")
    ));
}

#[test]
fn group_without_a_picture_has_no_path() {
    let mut group = Group::from_service(service_group(&[1]));
    assert_eq!(group.revision, 4);
    assert_eq!(group_avatar_path(Some(&group)), None);
    group.avatar = "groups/path".to_string();
    assert_eq!(group_avatar_path(Some(&group)), Some("groups/path"));
    assert_eq!(group_avatar_path::<()>(None), None);
}
