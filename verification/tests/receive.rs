use presage::content::{
    Content, ContentBody, DataMessage, GroupContextV2, Metadata, RequestType, ServiceId,
    StickerPackAction, StickerPackOperation, SyncKeys, SyncMessage,
};
use presage::coordinator::{ContactProfileUpdate, ContactUpdateCoordinator};
use presage::receive::{
    Incoming, IncomingAction, QueueEmptyPlan, ReceivePoll, ReceiveState, ReceiveStep,
};
use presage::registration::{
    Manager, ProfileKey, RegistrationData, RegistrationType, ServiceIds, SignalServers,
};

fn state(device_name: Option<&str>, pool: Option<&str>) -> ReceiveState {
    let data = RegistrationData {
        signal_servers: SignalServers::Production,
        device_name: device_name.map(|name| name.to_string()),
        phone_number: "+12025550123".to_string(),
        service_ids: ServiceIds { aci: 1, pni: 2 },
        password: "password".to_string(),
        device_id: None,
        registration_id: 3,
        pni_registration_id: Some(4),
        profile_key: ProfileKey::create([5; 32]),
    };
    let manager = Manager::load_registered((), Some(data), None).unwrap();
    manager.receive_messages(pool.map(|pool| pool.to_string()), Some(vec![8; 32]))
}

fn content(body: ContentBody) -> Content {
    Content {
        metadata: Metadata {
            sender: ServiceId::Aci(9),
            sender_device: 1,
            destination: ServiceId::Aci(1),
            server_guid: None,
            timestamp: 5,
            server_timestamp: 6,
            needs_receipt: true,
            unidentified_sender: false,
            was_plaintext: false,
        },
        body,
    }
}

fn sync_message() -> SyncMessage {
    SyncMessage {
        sent: None,
        request: None,
        contacts: false,
        sticker_pack_operation: Vec::new(),
        keys: None,
        delete_for_me: None,
        call_event: false,
    }
}

fn data_message(group_v2: Option<GroupContextV2>) -> DataMessage {
    DataMessage {
        timestamp: Some(5),
        group_v2,
        profile_key: None,
        expire_timer: None,
        expire_timer_version: None,
        required_protocol_version: None,
        delete: None,
    }
}

fn names(steps: &[ReceiveStep]) -> Vec<&'static str> {
    steps
        .iter()
        .map(|step| match step {
            ReceiveStep::SendContacts => "send contacts",
            ReceiveStep::SendKeys(_) => "send keys",
            ReceiveStep::SendNobodyBlocked => "send nobody blocked",
            ReceiveStep::SaveContacts => "save contacts",
            ReceiveStep::InstallStickerPack(_) => "install",
            ReceiveStep::RemoveStickerPack(_) => "remove",
            ReceiveStep::TakeKeys => "take keys",
            ReceiveStep::UpsertGroup { .. } => "upsert group",
            ReceiveStep::SaveMessage => "save",
            ReceiveStep::EmitContent => "emit content",
            ReceiveStep::EmitContacts => "emit contacts",
        })
        .collect()
}

#[test]
fn empty_queue_is_reported_at_once_without_workers() {
    let mut state = state(None, Some("pool"));
    assert_eq!(state.poll(), ReceivePoll::Message);
    assert_eq!(
        state.incoming(Incoming::QueueEmpty),
        IncomingAction::QueueEmpty(QueueEmptyPlan {
            request_keys: false,
            emit: true
        })
    );
    assert_eq!(state.poll(), ReceivePoll::Message);
}

#[test]
fn empty_queue_is_reported_when_the_last_worker_ended() {
    let mut coordinator = ContactUpdateCoordinator::new();
    let mut state = state(Some("tablet"), None);
    state.profile_workers.start(9);
    assert_eq!(
        state.queue_empty(),
        QueueEmptyPlan {
            request_keys: true,
            emit: false
        }
    );
    assert_eq!(
        state.queue_empty(),
        QueueEmptyPlan {
            request_keys: false,
            emit: false
        }
    );
    assert_eq!(state.poll(), ReceivePoll::WorkerOrMessage);
    coordinator.enqueue_profile_update(
        9,
        ContactProfileUpdate {
            sender: ServiceId::Aci(9),
            profile_key: ProfileKey::create([7; 32]),
            observation_timestamp: 1,
            expire_timer: 0,
            expire_timer_version: 1,
        },
    );
    assert!(state.worker_completed(&coordinator, 9));
    assert_eq!(state.poll(), ReceivePoll::WorkerOrMessage);
    coordinator.take_profile_update(9);
    assert!(!state.worker_completed(&coordinator, 9));
    assert_eq!(state.poll(), ReceivePoll::EmitQueueEmpty);
    assert_eq!(state.poll(), ReceivePoll::Message);
}

#[test]
fn envelopes_are_opened_with_the_addressed_identity() {
    let mut state = state(None, None);
    let mut act = |destination: Option<ServiceId>, has_source: bool| {
        state.incoming(Incoming::Envelope {
            destination,
            has_source,
        })
    };
    assert_eq!(act(None, false), IncomingAction::OpenWithAci);
    assert_eq!(act(Some(ServiceId::Aci(7)), false), IncomingAction::OpenWithAci);
    assert_eq!(act(Some(ServiceId::Pni(2)), false), IncomingAction::Poll);
    assert_eq!(act(Some(ServiceId::Pni(2)), true), IncomingAction::OpenWithPni);
    assert_eq!(act(Some(ServiceId::Pni(3)), false), IncomingAction::OpenWithPni);
    assert_eq!(state.incoming(Incoming::Failed), IncomingAction::Poll);
    assert_eq!(state.incoming(Incoming::Closed), IncomingAction::Stop);
}

#[test]
fn undecryptable_message_leads_to_nothing() {
    let state = state(None, None);
    assert!(state
        .content_received(&content(ContentBody::DecryptionErrorMessage))
        .is_empty());
}

#[test]
fn message_is_saved_and_handed_over() {
    let state = state(None, None);
    assert_eq!(
        names(&state.content_received(&content(ContentBody::ReceiptMessage))),
        vec!["save", "emit content"]
    );
    let context = GroupContextV2 {
        master_key: Some(vec![4; 32]),
        revision: Some(6),
        group_change: None,
    };
    let steps = state.content_received(&content(ContentBody::DataMessage(data_message(Some(
        context.clone(),
    )))));
    assert_eq!(names(&steps), vec!["upsert group", "save", "emit content"]);
    match &steps[0] {
        ReceiveStep::UpsertGroup {
            master_key,
            revision,
        } => {
            assert_eq!(master_key, &vec![4; 32]);
            assert_eq!(*revision, 6);
        }
        _ => unreachable!(),
    }
    let unrevised = GroupContextV2 {
        revision: None,
        ..context
    };
    assert_eq!(
        names(&state.content_received(&content(ContentBody::DataMessage(data_message(Some(
            unrevised
        )))))),
        vec!["save", "emit content"]
    );
}

#[test]
fn requests_of_other_devices_are_answered() {
    let state = state(None, Some("pool"));
    let steps = |request: RequestType| {
        let mut sync = sync_message();
        sync.request = Some(request);
        state.content_received(&content(ContentBody::SynchronizeMessage(sync)))
    };
    assert_eq!(
        names(&steps(RequestType::Contacts)),
        vec!["send contacts", "save", "emit content"]
    );
    assert_eq!(
        names(&steps(RequestType::Blocked)),
        vec!["send nobody blocked", "save", "emit content"]
    );
    assert_eq!(
        names(&steps(RequestType::Other)),
        vec!["save", "emit content"]
    );
    match &steps(RequestType::Keys)[0] {
        ReceiveStep::SendKeys(keys) => {
            assert_eq!(keys.account_entropy_pool.as_deref(), Some("pool"));
            assert_eq!(keys.master, Some(vec![8; 32]));
        }
        _ => unreachable!(),
    }
}

#[test]
fn announced_contacts_are_saved_and_reported() {
    let state = state(None, None);
    let mut sync = sync_message();
    sync.contacts = true;
    sync.request = Some(RequestType::Contacts);
    sync.keys = Some(SyncKeys {
        account_entropy_pool: None,
        master: None,
    });
    assert_eq!(
        names(&state.content_received(&content(ContentBody::SynchronizeMessage(sync)))),
        vec!["send contacts", "save contacts", "emit contacts"]
    );
}

#[test]
fn sticker_packs_and_keys_come_before_the_message() {
    let state = state(None, None);
    let mut sync = sync_message();
    sync.sticker_pack_operation = vec![
        StickerPackOperation {
            pack_id: Some(vec![1]),
            pack_key: Some(vec![2]),
            action: StickerPackAction::Install,
        },
        StickerPackOperation {
            pack_id: None,
            pack_key: None,
            action: StickerPackAction::Remove,
        },
    ];
    sync.keys = Some(SyncKeys {
        account_entropy_pool: None,
        master: None,
    });
    let steps = state.content_received(&content(ContentBody::SynchronizeMessage(sync)));
    assert_eq!(
        names(&steps),
        vec!["install", "remove", "take keys", "save", "emit content"]
    );
    match (&steps[0], &steps[1]) {
        (ReceiveStep::InstallStickerPack(operation), ReceiveStep::RemoveStickerPack(pack_id)) => {
            assert_eq!(operation.pack_id, Some(vec![1]));
            assert_eq!(operation.pack_key, Some(vec![2]));
            assert!(pack_id.is_empty());
        }
        _ => unreachable!(),
    }
}

#[test]
fn linked_device_takes_over_keys() {
    let mut state = state(Some("tablet"), None);
    assert_eq!(state.registration_type, RegistrationType::Secondary);
    assert!(!state.pool_received(None));
    assert!(!state.pool_received(Some(None)));
    assert_eq!(state.account_entropy_pool, None);
    assert!(state.pool_received(Some(Some("pool".to_string()))));
    assert_eq!(state.account_entropy_pool.as_deref(), Some("pool"));
    assert!(state.master_received(Some(Some(vec![1; 32])), Some(vec![2; 32])));
    assert_eq!(state.master_key, Some(vec![1; 32]));
    assert!(!state.master_received(None, None));
    assert_eq!(state.master_key, Some(vec![1; 32]));
    assert!(!state.master_received(Some(None), Some(vec![2; 32])));
    assert_eq!(state.master_key, Some(vec![2; 32]));
}

#[test]
fn primary_device_keeps_its_keys() {
    let mut state = state(None, Some("pool"));
    assert!(!state.pool_received(Some(Some("other".to_string()))));
    assert!(!state.master_received(Some(Some(vec![1; 32])), Some(vec![2; 32])));
    assert_eq!(state.account_entropy_pool.as_deref(), Some("pool"));
    assert_eq!(state.master_key, Some(vec![8; 32]));
}
