use presage::error::{Error, ServiceError};
use presage::groups::{Group, GroupChange, GroupChanges, Member, Role, ServiceGroup};
use presage::leave::{
    Departure, FinishEvent, FinishTask, LeaveEvent, LeaveTask, SignedChange, GROUP_LEAVE_REVISION_ATTEMPTS,
};
use presage::registration::{
    Manager, ProfileKey, Registered, RegistrationData, ServiceIds, SignalServers,
};

fn manager() -> Manager<(), Registered> {
    let data = RegistrationData {
        signal_servers: SignalServers::Production,
        device_name: None,
        phone_number: "+12025550123".to_string(),
        service_ids: ServiceIds { aci: 1, pni: 2 },
        password: "password".to_string(),
        device_id: None,
        registration_id: 3,
        pni_registration_id: Some(4),
        profile_key: ProfileKey::create([5; 32]),
    };
    Manager::load_registered((), Some(data), None).unwrap()
}

fn group(members: &[u128], version: u32) -> ServiceGroup<()> {
    ServiceGroup {
        title: "group".to_string(),
        avatar: String::new(),
        version,
        members: members
            .iter()
            .map(|aci| Member {
                aci: *aci,
                role: Role::Default,
                profile_key: [3; 32],
                joined_at_version: 1,
                label: None,
                label_emoji: None,
            })
            .collect(),
        details: (),
    }
}

fn start() -> (Departure, LeaveTask<()>) {
    manager().leave_group([6; 32])
}

fn response(status: u16) -> LeaveEvent<()> {
    LeaveEvent::Response {
        status,
        timestamp: Some(100),
        local_time: 200,
    }
}

fn signed(version: u32) -> LeaveEvent<()> {
    LeaveEvent::Change(Some(SignedChange {
        changes: GroupChanges {
            group_id: [6; 32],
            editor: 1,
            version,
            changes: vec![GroupChange::DeleteMember(1)],
        },
        encoded: vec![9, 9],
    }))
}

#[test]
fn signed_change_proves_the_departure() {
    let (departure, task) = start();
    let task = task.step(&departure, LeaveEvent::Group(Some(group(&[2, 1], 4))));
    let request = task.request(&departure, vec![42]).unwrap();
    assert_eq!(request.version, 5);
    assert_eq!(request.source_user_id, 1u128.to_be_bytes());
    assert_eq!(request.delete_members, vec![vec![42]]);
    let task = task.step(&departure, response(200));
    assert!(task.request(&departure, vec![42]).is_none());
    match task.step(&departure, signed(5)) {
        LeaveTask::Accepted {
            updated,
            revision,
            timestamp,
            signed_change,
        } => {
            assert_eq!(updated.members.len(), 1);
            assert_eq!(updated.members[0].aci, 2);
            assert_eq!(updated.revision, 5);
            assert_eq!(revision, 5);
            assert_eq!(timestamp, 100);
            assert_eq!(signed_change, Some(vec![9, 9]));
        }
        _ => unreachable!(),
    }
}

#[test]
fn unproven_departure_is_confirmed_by_another_read() {
    for (change, confirmation, members) in [
        (LeaveEvent::Change(None), None, 2),
        (signed(6), Some(group(&[2], 9)), 1),
    ] {
        let (departure, task) = start();
        let task = task.step(&departure, LeaveEvent::Group(Some(group(&[2, 3, 1], 4))));
        let task = task.step(
            &departure,
            LeaveEvent::Response {
                status: 204,
                timestamp: None,
                local_time: 200,
            },
        );
        let task = task.step(&departure, change);
        assert!(matches!(task, LeaveTask::Confirm { .. }));
        match task.step(&departure, LeaveEvent::Group(confirmation)) {
            LeaveTask::Accepted {
                updated,
                timestamp,
                signed_change,
                ..
            } => {
                assert_eq!(updated.members.len(), members);
                assert_eq!(timestamp, 200);
                assert_eq!(signed_change, None);
            }
            _ => unreachable!(),
        }
    }
}

#[test]
fn continued_membership_refutes_the_departure() {
    let (departure, task) = start();
    let task = task.step(&departure, LeaveEvent::Group(Some(group(&[1], 4))));
    let task = task.step(&departure, response(200));
    let task = task.step(&departure, LeaveEvent::Change(None));
    assert!(matches!(
        task.step(&departure, LeaveEvent::Group(Some(group(&[1], 5)))),
        LeaveTask::Failed(Error::InvalidGroupLeaveChange)
    ));
}

#[test]
fn conflicts_are_retried_a_bounded_number_of_times() {
    let (departure, mut task) = start();
    let mut submitted = 0;
    loop {
        task = match task {
            LeaveTask::FetchGroup { .. } => {
                task.step(&departure, LeaveEvent::Group(Some(group(&[1], 4))))
            }
            LeaveTask::Submit { .. } => {
                submitted += 1;
                task.step(&departure, response(409))
            }
            _ => break,
        };
    }
    assert_eq!(submitted, GROUP_LEAVE_REVISION_ATTEMPTS);
    assert!(matches!(
        task,
        LeaveTask::Failed(Error::GroupRevisionConflict)
    ));
}

#[test]
fn nonmember_has_left_already() {
    let (departure, task) = start();
    assert!(matches!(
        task.step(&departure, LeaveEvent::Group(None)),
        LeaveTask::AlreadyLeft
    ));
    let (departure, task) = start();
    assert!(matches!(
        task.step(&departure, LeaveEvent::Group(Some(group(&[2], 4)))),
        LeaveTask::AlreadyLeft
    ));
}

#[test]
fn last_revision_cannot_be_left() {
    let (departure, task) = start();
    assert!(matches!(
        task.step(&departure, LeaveEvent::Group(Some(group(&[1], u32::MAX)))),
        LeaveTask::Failed(Error::InvalidGroupLeaveChange)
    ));
}

#[test]
fn refused_change_is_reported() {
    let (departure, task) = start();
    let task = task.step(&departure, LeaveEvent::Group(Some(group(&[1], 4))));
    let task = task.step(&departure, response(500));
    assert!(matches!(task, LeaveTask::ReadError { status: 500 }));
    match task.step(&departure, LeaveEvent::Body("broken".to_string())) {
        LeaveTask::Failed(Error::Service(ServiceError::UnhandledResponseCode { status, body })) => {
            assert_eq!(status, 500);
            assert_eq!(body, "broken");
        }
        _ => unreachable!(),
    }
}

fn updated() -> Group<()> {
    let group = group(&[2], 4);
    Group {
        title: group.title,
        avatar: group.avatar,
        revision: group.version,
        members: group.members,
        details: (),
    }
}

fn finish(signed_change: Option<Vec<u8>>) -> FinishTask<()> {
    manager().finish_accepted_group_leave(&[4; 32], updated(), 5, 100, signed_change)
}

fn outcome(task: FinishTask<()>) -> (bool, bool) {
    match task {
        FinishTask::Finished(outcome) => {
            (outcome.peer_notification_sent, outcome.local_group_removed)
        }
        _ => unreachable!(),
    }
}

#[test]
fn members_are_notified_of_a_saved_and_signed_departure() {
    let task = finish(Some(vec![9, 9]));
    assert!(matches!(
        &task,
        FinishTask::SaveGroup { master_key, updated_group, .. }
            if *master_key == [4; 32] && updated_group.revision == 4
    ));
    match task.step(FinishEvent::Saved(true)) {
        FinishTask::Notify {
            master_key,
            message,
            timestamp,
        } => {
            assert_eq!(master_key, [4; 32]);
            assert_eq!(timestamp, 100);
            assert_eq!(message.timestamp, Some(100));
            assert_eq!(message.profile_key, None);
            let context = message.group_v2.unwrap();
            assert_eq!(context.master_key, Some(vec![4; 32]));
            assert_eq!(context.revision, Some(5));
            assert_eq!(context.group_change, Some(vec![9, 9]));
        }
        _ => unreachable!(),
    }
    for task in [
        finish(Some(vec![9, 9])).step(FinishEvent::Saved(false)),
        finish(None).step(FinishEvent::Saved(true)),
    ] {
        assert!(matches!(
            task,
            FinishTask::RemoveGroup {
                master_key,
                peer_notification_sent: false,
            } if master_key == [4; 32]
        ));
    }
}

#[test]
fn outcome_tells_what_could_be_cleaned_up() {
    let already = manager().finish_already_left_group(&[4; 32]);
    assert_eq!(outcome(already.step(FinishEvent::Removed(false))), (true, false));
    for sent in [true, false] {
        let task = finish(Some(vec![9]))
            .step(FinishEvent::Saved(true))
            .step(FinishEvent::Notified(sent))
            .step(FinishEvent::Removed(true));
        assert_eq!(outcome(task), (sent, true));
    }
    let unnotified = finish(None)
        .step(FinishEvent::Saved(true))
        .step(FinishEvent::Removed(true));
    assert_eq!(outcome(unnotified), (false, true));
}
