use presage::content::{
    AddressableMessage, Content, ContentBody, DataMessage, Delete, EditMessage, MessageDeletes,
    Metadata, Sent, ServiceId, SyncMessage, Thread,
};
use presage::error::Error;
use presage::save::{
    emptied_message, save_message, SaveEvent, SavePlan, SaveTask, StorageStep, TimerUpdate,
};

fn data_message() -> DataMessage {
    DataMessage {
        timestamp: Some(5),
        group_v2: None,
        profile_key: Some(vec![7; 32]),
        expire_timer: Some(60),
        expire_timer_version: None,
        required_protocol_version: None,
        delete: None,
    }
}

fn sync_message() -> SyncMessage {
    SyncMessage {
        sent: None,
        request: None,
        contacts: false,
        sticker_pack_operation: Vec::new(),
        keys: None,
        delete_for_me: None,
        call_event: false,
    }
}

fn content(body: ContentBody) -> Content {
    Content {
        metadata: Metadata {
            sender: ServiceId::Aci(9),
            sender_device: 1,
            destination: ServiceId::Aci(1),
            server_guid: None,
            timestamp: 5,
            server_timestamp: 6,
            needs_receipt: true,
            unidentified_sender: false,
            was_plaintext: false,
        },
        body,
    }
}

fn plan(body: ContentBody) -> SavePlan {
    save_message(
        content(body),
        Some(Thread::Contact(ServiceId::Aci(9))),
        None,
        true,
        5,
    )
    .unwrap()
}

fn is_saved(body: ContentBody) -> bool {
    match plan(body).storage {
        StorageStep::Save(_) => true,
        StorageStep::Nothing => false,
        _ => unreachable!(),
    }
}

#[test]
fn received_message_is_stored_with_timer_and_profile() {
    let plan = plan(ContentBody::DataMessage(data_message()));
    assert_eq!(
        plan.timer,
        Some(TimerUpdate {
            contact: 9,
            expire_timer: 60,
            expire_timer_version: 1
        })
    );
    assert!(matches!(plan.storage, StorageStep::Save(_)));
    let (uuid, update) = plan.profile_update.unwrap();
    assert_eq!(uuid, 9);
    assert_eq!(update.sender, ServiceId::Aci(9));
    assert_eq!(update.profile_key.bytes, [7; 32]);
    assert_eq!(update.observation_timestamp, 5);
    assert_eq!(update.expire_timer, 60);
    assert_eq!(update.expire_timer_version, 1);
}

#[test]
fn group_message_leaves_timers_alone() {
    let plan = save_message(
        content(ContentBody::DataMessage(data_message())),
        Some(Thread::Group([4; 32])),
        None,
        true,
        5,
    )
    .unwrap();
    assert_eq!(plan.timer, None);
    assert!(plan.profile_update.is_some());
}

#[test]
fn sent_message_updates_no_profile_and_goes_where_it_is_told() {
    let plan = save_message(
        content(ContentBody::DataMessage(data_message())),
        Some(Thread::Contact(ServiceId::Aci(9))),
        Some(Thread::Contact(ServiceId::Pni(3))),
        true,
        5,
    )
    .unwrap();
    assert!(matches!(plan.thread, Thread::Contact(ServiceId::Pni(3))));
    assert_eq!(plan.timer.unwrap().contact, 3);
    assert!(plan.profile_update.is_none());
}

#[test]
fn message_without_a_thread_goes_where_it_is_told() {
    let plan = save_message(
        content(ContentBody::NullMessage),
        None,
        Some(Thread::Group([4; 32])),
        true,
        5,
    )
    .unwrap();
    assert!(matches!(plan.thread, Thread::Group(key) if key == [4; 32]));
    assert!(matches!(plan.storage, StorageStep::Save(_)));
    assert!(matches!(
        save_message(content(ContentBody::NullMessage), None, None, true, 5),
        Err(Error::UnknownThread)
    ));
}

#[test]
fn timer_is_changed_before_the_message_is_stored() {
    let task: SaveTask<&str> = SaveTask::begin(plan(ContentBody::DataMessage(data_message())));
    assert!(matches!(
        &task,
        SaveTask::UpdateTimer { timer, .. } if timer.expire_timer == 60
    ));
    let task = task.step(SaveEvent::Done(Ok(())));
    assert!(matches!(
        &task,
        SaveTask::SaveMessage { thread: Thread::Contact(ServiceId::Aci(9)), .. }
    ));
    assert!(matches!(
        task.step(SaveEvent::Done(Ok(()))),
        SaveTask::Finished { profile_update: Some((9, _)) }
    ));
}

#[test]
fn failures_end_the_storing() {
    let task: SaveTask<&str> = SaveTask::begin(plan(ContentBody::DataMessage(data_message())));
    assert!(matches!(
        task.step(SaveEvent::Done(Err("timer"))),
        SaveTask::Failed("timer")
    ));
    let task: SaveTask<&str> = SaveTask::begin(plan(ContentBody::NullMessage));
    assert!(matches!(task, SaveTask::SaveMessage { .. }));
    assert!(matches!(
        task.step(SaveEvent::Done(Err("full"))),
        SaveTask::Failed("full")
    ));
}

#[test]
fn deletion_is_carried_out_on_the_stored_message() {
    let mut deletion = data_message();
    deletion.delete = Some(Delete {
        target_sent_timestamp: Some(77),
    });
    let load = |deletion: DataMessage| {
        let task: SaveTask<&str> = SaveTask::begin(plan(ContentBody::DataMessage(deletion)));
        task.step(SaveEvent::Done(Ok(())))
    };
    let task = load(deletion.clone());
    assert!(matches!(
        task,
        SaveTask::LoadMessage { target_sent_timestamp: 77, .. }
    ));
    let existing = content(ContentBody::DataMessage(data_message()));
    match task.step(SaveEvent::Loaded(Ok(Some(existing)))) {
        SaveTask::SaveEmptied { content, .. } => {
            assert_eq!(content.metadata.sender, ServiceId::Aci(0));
            assert!(matches!(content.body, ContentBody::NullMessage));
        }
        _ => unreachable!(),
    }
    assert!(matches!(
        load(deletion.clone()).step(SaveEvent::Loaded(Ok(None))),
        SaveTask::Finished { .. }
    ));
    assert!(matches!(
        load(deletion).step(SaveEvent::Loaded(Err("unreadable"))),
        SaveTask::Failed("unreadable")
    ));
    let mut sync = sync_message();
    sync.delete_for_me = Some(Vec::new());
    let task: SaveTask<&str> = SaveTask::begin(plan(ContentBody::SynchronizeMessage(sync)));
    assert!(matches!(
        task.step(SaveEvent::Done(Err("ignored"))),
        SaveTask::Finished { .. }
    ));
}

#[test]
fn profile_is_updated_only_by_accounts_with_a_valid_key() {
    let mut from_number = content(ContentBody::DataMessage(data_message()));
    from_number.metadata.sender = ServiceId::Pni(9);
    let thread = Some(Thread::Contact(ServiceId::Aci(9)));
    let unheeded = save_message(from_number, thread, None, true, 5).unwrap();
    assert!(unheeded.profile_update.is_none());
    let mut short = data_message();
    short.profile_key = Some(vec![7; 31]);
    assert!(plan(ContentBody::DataMessage(short)).profile_update.is_none());
    let idle = save_message(
        content(ContentBody::DataMessage(data_message())),
        thread,
        None,
        false,
        5,
    )
    .unwrap();
    assert!(idle.profile_update.is_none());
}

#[test]
fn deletion_empties_its_target() {
    let mut deletion = data_message();
    deletion.delete = Some(Delete {
        target_sent_timestamp: Some(77),
    });
    let mut sync = sync_message();
    sync.sent = Some(Sent {
        message: Some(deletion.clone()),
        edit_message: None,
    });
    assert!(matches!(
        plan(ContentBody::DataMessage(deletion)).storage,
        StorageStep::Empty {
            target_sent_timestamp: 77
        }
    ));
    assert!(matches!(
        plan(ContentBody::SynchronizeMessage(sync)).storage,
        StorageStep::Empty {
            target_sent_timestamp: 77
        }
    ));
    let mut aimless = data_message();
    aimless.delete = Some(Delete {
        target_sent_timestamp: None,
    });
    assert!(is_saved(ContentBody::DataMessage(aimless)));

    let existing = content(ContentBody::DataMessage(data_message()));
    let emptied = emptied_message(existing.clone());
    assert!(matches!(emptied.body, ContentBody::NullMessage));
    assert_eq!(
        emptied.metadata,
        Metadata {
            sender: ServiceId::Aci(0),
            ..existing.metadata
        }
    );
}

#[test]
fn deletions_on_this_account_name_author_and_time() {
    let message = |author: Option<ServiceId>, sent_timestamp: Option<u64>| AddressableMessage {
        author,
        sent_timestamp,
    };
    let mut sync = sync_message();
    sync.delete_for_me = Some(vec![
        MessageDeletes {
            messages: vec![
                message(Some(ServiceId::Aci(1)), Some(10)),
                message(None, Some(11)),
            ],
        },
        MessageDeletes {
            messages: vec![
                message(Some(ServiceId::Pni(2)), None),
                message(Some(ServiceId::Pni(2)), Some(12)),
            ],
        },
    ]);
    match plan(ContentBody::SynchronizeMessage(sync)).storage {
        StorageStep::Delete(targets) => assert_eq!(
            targets,
            vec![(ServiceId::Aci(1), 10), (ServiceId::Pni(2), 12)]
        ),
        _ => unreachable!(),
    }
}

#[test]
fn only_bodies_with_content_are_stored() {
    let complete = EditMessage {
        target_sent_timestamp: Some(3),
        data_message: Some(data_message()),
    };
    let incomplete = EditMessage {
        target_sent_timestamp: None,
        data_message: Some(data_message()),
    };
    let mut sent_edit = sync_message();
    sent_edit.sent = Some(Sent {
        message: None,
        edit_message: Some(complete.clone()),
    });
    let mut call = sync_message();
    call.call_event = true;
    assert!(is_saved(ContentBody::NullMessage));
    assert!(is_saved(ContentBody::CallMessage));
    assert!(is_saved(ContentBody::ReceiptMessage));
    assert!(is_saved(ContentBody::EditMessage(complete)));
    assert!(is_saved(ContentBody::SynchronizeMessage(sent_edit)));
    assert!(is_saved(ContentBody::SynchronizeMessage(call)));
    assert!(!is_saved(ContentBody::EditMessage(incomplete)));
    assert!(!is_saved(ContentBody::SynchronizeMessage(sync_message())));
    assert!(!is_saved(ContentBody::TypingMessage));
    assert!(!is_saved(ContentBody::StoryMessage));
    assert!(!is_saved(ContentBody::PniSignatureMessage));
    assert!(!is_saved(ContentBody::DecryptionErrorMessage));
}
