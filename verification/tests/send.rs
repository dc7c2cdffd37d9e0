use presage::content::{
    ensure_data_message_timestamp, restore_thread_timer, Content, ContentBody, DataMessage,
    EditMessage, Metadata, RequestType, Sent, ServiceId, StickerPackAction, StickerPackOperation,
    SyncMessage, Thread,
};
use presage::error::Error;
use presage::groups::{Group, Member, Role};
use presage::registration::{
    Manager, ProfileKey, Registered, RegistrationData, ServiceIds, SignalServers,
};
use presage::save::{save_message, StorageStep, TimerUpdate};
use presage::send::{
    first_failure, message_time, request_message, sticker_pack_message, unidentified_access,
    SendFailure, MAX_UTC_MILLIS, MIN_UTC_MILLIS,
};

fn manager() -> Manager<(), Registered> {
    let data = RegistrationData {
        signal_servers: SignalServers::Production,
        device_name: None,
        phone_number: "+12025550123".to_string(),
        service_ids: ServiceIds { aci: 1, pni: 2 },
        password: "password".to_string(),
        device_id: None,
        registration_id: 3,
        pni_registration_id: Some(4),
        profile_key: ProfileKey::create([5; 32]),
    };
    Manager::load_registered((), Some(data), None).unwrap()
}

fn data_message() -> DataMessage {
    DataMessage {
        timestamp: None,
        group_v2: None,
        profile_key: None,
        expire_timer: None,
        expire_timer_version: None,
        required_protocol_version: None,
        delete: None,
    }
}

fn sync_message() -> SyncMessage {
    request_message(RequestType::Other)
}

fn data_of(body: ContentBody) -> DataMessage {
    match body {
        ContentBody::DataMessage(message) => message,
        _ => unreachable!(),
    }
}

#[test]
fn message_to_a_contact_is_completed() {
    let outgoing = manager().send_message(
        ServiceId::Aci(9),
        ContentBody::DataMessage(data_message()),
        Some((60, 3)),
        1000,
    );
    assert!(matches!(
        outgoing.thread,
        Thread::Contact(ServiceId::Aci(9))
    ));
    assert!(!outgoing.include_pni_signature);
    assert!(!outgoing.online_only);
    let content: Content = manager()
        .finish_send(outgoing, Ok::<(), ()>(()), 7)
        .unwrap();
    assert_eq!(
        content.metadata,
        Metadata {
            sender: ServiceId::Aci(1),
            sender_device: 7,
            destination: ServiceId::Aci(9),
            server_guid: None,
            timestamp: 1000,
            server_timestamp: 1000,
            needs_receipt: false,
            unidentified_sender: false,
            was_plaintext: false,
        }
    );
    let message = data_of(content.body);
    assert_eq!(message.timestamp, Some(1000));
    assert_eq!(message.profile_key, Some(vec![5; 32]));
    assert_eq!(message.required_protocol_version, Some(0));
    assert_eq!(message.expire_timer, Some(60));
    assert_eq!(message.expire_timer_version, Some(3));
}

#[test]
fn message_that_was_not_sent_is_not_stored() {
    let outgoing = manager().send_message(
        ServiceId::Aci(9),
        ContentBody::NullMessage,
        None,
        1000,
    );
    assert_eq!(manager().finish_send(outgoing, Err("refused"), 7).unwrap_err(), "refused");
}

#[test]
fn profile_key_of_the_message_stays() {
    let mut message = data_message();
    message.profile_key = Some(vec![6; 32]);
    let outgoing = manager().send_message(
        ServiceId::Pni(9),
        ContentBody::DataMessage(message),
        None,
        1000,
    );
    assert_eq!(data_of(outgoing.body).profile_key, Some(vec![6; 32]));
}

#[test]
fn sending_keeps_or_renews_the_timer_of_the_thread() {
    let stored_timer = |message: DataMessage| {
        let outgoing = manager().send_message(
            ServiceId::Aci(9),
            ContentBody::DataMessage(message),
            Some((60, 3)),
            1000,
        );
        let thread = outgoing.thread;
        let content = manager().finish_send(outgoing, Ok::<(), ()>(()), 1).unwrap();
        let plan = save_message(content, Some(thread), Some(thread), false, 1000).unwrap();
        assert!(matches!(plan.storage, StorageStep::Save(_)));
        plan.timer.unwrap()
    };
    assert_eq!(
        stored_timer(data_message()),
        TimerUpdate {
            contact: 9,
            expire_timer: 60,
            expire_timer_version: 3
        }
    );
    let mut timed = data_message();
    timed.expire_timer = Some(120);
    assert_eq!(
        stored_timer(timed),
        TimerUpdate {
            contact: 9,
            expire_timer: 120,
            expire_timer_version: 4
        }
    );
}

#[test]
fn timers_are_restored_in_messages_with_data_only() {
    let mut body = ContentBody::DataMessage(data_message());
    restore_thread_timer(&mut body, Some((0, 9)));
    let message = data_of(body);
    assert_eq!(message.expire_timer, None);
    assert_eq!(message.expire_timer_version, Some(9));
    let mut body = ContentBody::DataMessage(data_message());
    restore_thread_timer(&mut body, None);
    assert_eq!(data_of(body).expire_timer_version, Some(0));
    let mut body = ContentBody::EditMessage(EditMessage {
        target_sent_timestamp: Some(1),
        data_message: Some(data_message()),
    });
    restore_thread_timer(&mut body, Some((60, 9)));
    match body {
        ContentBody::EditMessage(edit) => {
            assert_eq!(edit.data_message.unwrap().expire_timer, None)
        }
        _ => unreachable!(),
    }
}

#[test]
fn every_message_with_data_gets_the_time() {
    let mut edit = ContentBody::EditMessage(EditMessage {
        target_sent_timestamp: Some(1),
        data_message: Some(data_message()),
    });
    ensure_data_message_timestamp(&mut edit, 50);
    let mut sync = sync_message();
    sync.sent = Some(Sent {
        message: Some(data_message()),
        edit_message: None,
    });
    let mut sync = ContentBody::SynchronizeMessage(sync);
    ensure_data_message_timestamp(&mut sync, 50);
    let mut sent_edit = sync_message();
    sent_edit.sent = Some(Sent {
        message: None,
        edit_message: Some(EditMessage {
            target_sent_timestamp: Some(5),
            data_message: Some(data_message()),
        }),
    });
    let mut sent_edit = ContentBody::SynchronizeMessage(sent_edit);
    ensure_data_message_timestamp(&mut sent_edit, 7);
    match sent_edit {
        ContentBody::SynchronizeMessage(sync) => {
            let edit = sync.sent.unwrap().edit_message.unwrap();
            assert_eq!(edit.target_sent_timestamp, Some(5));
            assert_eq!(edit.data_message.unwrap().timestamp, Some(7));
        }
        _ => unreachable!(),
    }
    match (edit, sync) {
        (ContentBody::EditMessage(edit), ContentBody::SynchronizeMessage(sync)) => {
            assert_eq!(edit.data_message.unwrap().timestamp, Some(50));
            assert_eq!(edit.target_sent_timestamp, Some(1));
            assert_eq!(sync.sent.unwrap().message.unwrap().timestamp, Some(50));
        }
        _ => unreachable!(),
    }
}

#[test]
fn message_to_a_group_is_stored_as_sent_to_oneself() {
    let outgoing = manager().send_message_to_group(
        &[4; 32],
        ContentBody::DataMessage(data_message()),
        Some((60, 3)),
        1000,
    );
    assert!(matches!(outgoing.thread, Thread::Group(key) if key == [4; 32]));
    let content = manager().finish_send(outgoing, Ok::<(), ()>(()), 1).unwrap();
    assert_eq!(content.metadata.destination, ServiceId::Aci(1));
    let message = data_of(content.body);
    assert_eq!(message.profile_key, None);
    assert_eq!(message.timestamp, Some(1000));
    assert_eq!(message.expire_timer, Some(60));
}

#[test]
fn group_message_goes_to_every_other_member() {
    let member = |aci: u128| Member {
        aci,
        role: Role::Default,
        profile_key: [3; 32],
        joined_at_version: 1,
        label: None,
        label_emoji: None,
    };
    let group = Group {
        title: "group".to_string(),
        avatar: String::new(),
        revision: 1,
        members: vec![member(3), member(1), member(2)],
        details: (),
    };
    assert_eq!(
        manager().group_recipients(Some(&group)).unwrap(),
        vec![3, 2]
    );
    assert!(matches!(
        manager().group_recipients::<()>(None),
        Err(Error::UnknownGroup)
    ));
}

#[test]
fn vanished_recipients_are_no_failure() {
    assert_eq!(
        first_failure(vec![Ok(()), Err(SendFailure::NotFound)]),
        Ok::<(), u8>(())
    );
    assert_eq!(
        first_failure(vec![
            Ok(()),
            Err(SendFailure::NotFound),
            Err(SendFailure::Other(5)),
            Err(SendFailure::Other(6)),
        ]),
        Err(5)
    );
}

#[test]
fn times_outside_the_calendar_cannot_be_told() {
    assert_eq!(message_time(0), Some(0));
    assert_eq!(
        message_time(MAX_UTC_MILLIS as u64),
        Some(8_210_266_876_799_999)
    );
    assert_eq!(message_time(MAX_UTC_MILLIS as u64 + 1), None);
    assert_eq!(message_time(u64::MAX), Some(-1));
    assert_eq!(message_time(MIN_UTC_MILLIS as u64), Some(MIN_UTC_MILLIS));
    assert_eq!(message_time((MIN_UTC_MILLIS - 1) as u64), None);
    assert_eq!(message_time(u64::MAX / 2), None);
}

#[test]
fn access_needs_a_key() {
    assert!(unidentified_access(None, "certificate").is_none());
    let access = unidentified_access(Some(vec![1, 2]), "certificate").unwrap();
    assert_eq!(access.key, vec![1, 2]);
    assert_eq!(access.certificate, "certificate");
}

#[test]
fn requests_go_to_the_other_devices() {
    let (recipient, message) = manager().request_contacts();
    assert_eq!(recipient, ServiceId::Aci(1));
    assert_eq!(message.request, Some(RequestType::Contacts));
    assert!(message.sticker_pack_operation.is_empty());
    let message = sticker_pack_message(StickerPackOperation {
        pack_id: Some(vec![1]),
        pack_key: Some(vec![2]),
        action: StickerPackAction::Remove,
    });
    assert_eq!(message.request, None);
    assert_eq!(message.sticker_pack_operation.len(), 1);
    assert_eq!(
        message.sticker_pack_operation[0].action,
        StickerPackAction::Remove
    );
}

#[test]
fn session_reset_covers_the_main_device() {
    assert_eq!(
        manager().send_session_reset(&ServiceId::Aci(9), vec![2, 5], 1),
        (9, vec![2, 5, 1])
    );
}
