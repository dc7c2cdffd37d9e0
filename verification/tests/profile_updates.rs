use presage::contacts::{Contact, Profile, Verified};
use presage::content::ServiceId;
use presage::coordinator::{ContactProfileUpdate, ContactUpdateCoordinator};
use presage::profile_updates::{ProfileEvent, ProfileTask, CONTACT_PROFILE_FETCH_TIMEOUT};
use presage::registration::ProfileKey;

fn update(key: u8, timer: u32) -> ContactProfileUpdate {
    ContactProfileUpdate {
        sender: ServiceId::Aci(1),
        profile_key: ProfileKey::create([key; 32]),
        observation_timestamp: 5,
        expire_timer: timer,
        expire_timer_version: 2,
    }
}

fn contact(name: &str, key: u8) -> Contact {
    Contact {
        uuid: 1,
        phone_number: None,
        name: name.to_string(),
        verified: Verified::default(),
        profile_key: vec![key; 32],
        expire_timer: 10,
        expire_timer_version: 2,
        inbox_position: 3,
        avatar: None,
    }
}

fn profile(name: &str) -> Profile {
    Profile {
        name: Some(name.to_string()),
        avatar: None,
    }
}

fn start(coordinator: &mut ContactUpdateCoordinator, update: ContactProfileUpdate) -> ProfileTask {
    coordinator.enqueue_profile_update(1, update);
    let queued = coordinator.take_profile_update(1).unwrap();
    ProfileTask::begin(coordinator, 1, queued)
}

fn loaded(
    task: ProfileTask,
    coordinator: &mut ContactUpdateCoordinator,
    existing: Option<Contact>,
    key: Option<u8>,
) -> ProfileTask {
    task.step(
        coordinator,
        1,
        ProfileEvent::ContactLoaded {
            existing,
            stored_key: key.map(|key| ProfileKey::create([key; 32])),
        },
    )
}

#[test]
fn fetched_profile_is_saved_and_merged() {
    assert_eq!(CONTACT_PROFILE_FETCH_TIMEOUT, 30);
    let mut coordinator = ContactUpdateCoordinator::new();
    let task = start(&mut coordinator, update(7, 30));
    let task = loaded(task, &mut coordinator, None, None);
    assert!(matches!(
        task,
        ProfileTask::LoadPrevious {
            stored_key: None,
            ..
        }
    ));
    let task = task.step(
        &mut coordinator,
        1,
        ProfileEvent::PreviousLoaded {
            previous: None,
            latest: None,
        },
    );
    assert!(matches!(task, ProfileTask::Fetch { aci: 1, .. }));
    let task = task.step(
        &mut coordinator,
        1,
        ProfileEvent::Fetched {
            profile: Some(profile("Name")),
        },
    );
    assert!(matches!(task, ProfileTask::LoadStored { .. }));
    let task = task.step(
        &mut coordinator,
        1,
        ProfileEvent::StoredLoaded { previous: None },
    );
    match &task {
        ProfileTask::SaveProfile { queued, profile, .. } => {
            assert_eq!(queued.update.profile_key.bytes, [7; 32]);
            assert_eq!(profile.name.as_deref(), Some("Name"));
        }
        _ => unreachable!(),
    }
    let task = task.step(
        &mut coordinator,
        1,
        ProfileEvent::ProfileSaved { latest: None },
    );
    match &task {
        ProfileTask::SaveContact { contact } => {
            assert_eq!(contact.name, "Name");
            assert_eq!(contact.profile_key, vec![7; 32]);
            assert_eq!(contact.expire_timer, 30);
        }
        _ => unreachable!(),
    }
    assert!(matches!(
        task.step(&mut coordinator, 1, ProfileEvent::ContactSaved),
        ProfileTask::Done
    ));
}

#[test]
fn up_to_date_contact_is_left_alone() {
    let mut coordinator = ContactUpdateCoordinator::new();
    let task = start(&mut coordinator, update(7, 30));
    assert!(matches!(
        loaded(task, &mut coordinator, Some(contact("Name", 7)), Some(7)),
        ProfileTask::Done
    ));
}

#[test]
fn stored_profile_of_the_key_is_merged_without_a_fetch() {
    let mut coordinator = ContactUpdateCoordinator::new();
    let task = start(&mut coordinator, update(7, 30));
    let task = loaded(task, &mut coordinator, Some(contact("", 7)), Some(7));
    let task = task.step(
        &mut coordinator,
        1,
        ProfileEvent::PreviousLoaded {
            previous: Some(profile("Cached")),
            latest: Some(contact("", 7)),
        },
    );
    match task {
        ProfileTask::SaveContact { contact } => assert_eq!(contact.name, "Cached"),
        _ => unreachable!(),
    }
}

#[test]
fn nameless_profile_of_the_key_ends_the_task() {
    let mut coordinator = ContactUpdateCoordinator::new();
    let task = start(&mut coordinator, update(7, 30));
    let task = loaded(task, &mut coordinator, Some(contact("", 7)), Some(7));
    assert!(matches!(
        task.step(
            &mut coordinator,
            1,
            ProfileEvent::PreviousLoaded {
                previous: Some(profile("")),
                latest: Some(contact("", 7)),
            },
        ),
        ProfileTask::Done
    ));
}

#[test]
fn named_contact_without_a_cached_profile_only_gets_the_key() {
    let mut coordinator = ContactUpdateCoordinator::new();
    let task = start(&mut coordinator, update(7, 30));
    let task = loaded(task, &mut coordinator, Some(contact("Name", 8)), Some(7));
    let task = task.step(
        &mut coordinator,
        1,
        ProfileEvent::PreviousLoaded {
            previous: None,
            latest: Some(contact("Name", 8)),
        },
    );
    match task {
        ProfileTask::SaveContact { contact } => {
            assert_eq!(contact.name, "Name");
            assert_eq!(contact.profile_key, vec![7; 32]);
        }
        _ => unreachable!(),
    }
}

#[test]
fn superseded_response_is_discarded() {
    let mut coordinator = ContactUpdateCoordinator::new();
    let task = start(&mut coordinator, update(7, 30));
    let task = loaded(task, &mut coordinator, None, None);
    let task = task.step(
        &mut coordinator,
        1,
        ProfileEvent::PreviousLoaded {
            previous: None,
            latest: None,
        },
    );
    coordinator.enqueue_profile_update(1, update(8, 30));
    assert!(matches!(
        task.step(
            &mut coordinator,
            1,
            ProfileEvent::Fetched {
                profile: Some(profile("Old"))
            },
        ),
        ProfileTask::Done
    ));
    assert!(coordinator.has_pending_profile_update(1));
}

#[test]
fn newer_update_with_the_same_key_takes_over() {
    let mut coordinator = ContactUpdateCoordinator::new();
    let task = start(&mut coordinator, update(7, 30));
    let task = loaded(task, &mut coordinator, None, None);
    let task = task.step(
        &mut coordinator,
        1,
        ProfileEvent::PreviousLoaded {
            previous: None,
            latest: None,
        },
    );
    coordinator.enqueue_profile_update(1, update(7, 60));
    let task = task.step(
        &mut coordinator,
        1,
        ProfileEvent::Fetched {
            profile: Some(profile("Name")),
        },
    );
    match task {
        ProfileTask::LoadStored { queued, .. } => assert_eq!(queued.update.expire_timer, 60),
        _ => unreachable!(),
    }
    assert!(!coordinator.has_pending_profile_update(1));
}

#[test]
fn timeouts_and_failures_end_the_task() {
    let mut coordinator = ContactUpdateCoordinator::new();
    let task = start(&mut coordinator, update(7, 30));
    assert!(matches!(
        task.step(&mut coordinator, 1, ProfileEvent::Failed),
        ProfileTask::Done
    ));
    let task = start(&mut coordinator, update(7, 30));
    let task = loaded(task, &mut coordinator, None, None);
    let task = task.step(
        &mut coordinator,
        1,
        ProfileEvent::PreviousLoaded {
            previous: None,
            latest: None,
        },
    );
    assert!(matches!(
        task.step(&mut coordinator, 1, ProfileEvent::Fetched { profile: None }),
        ProfileTask::Done
    ));
    let queued = {
        coordinator.enqueue_profile_update(1, update(7, 30));
        coordinator.take_profile_update(1).unwrap()
    };
    coordinator.enqueue_profile_update(1, update(9, 30));
    assert!(matches!(
        ProfileTask::begin(&mut coordinator, 1, queued),
        ProfileTask::Done
    ));
}
