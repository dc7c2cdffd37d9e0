use std::collections::HashMap;
use std::sync::Arc;

use presage::content::ServiceId;
use presage::coordinator::{ContactProfileUpdate, ContactUpdateCoordinator};
use presage::registration::ProfileKey;
use presage::workers::{observe_profile_update, ContactProfileWorkerQueue};
use tokio::sync::Mutex;

fn contact_profile_update(
    uuid: u128,
    observation_timestamp: u64,
    profile_key: ProfileKey,
) -> ContactProfileUpdate {
    ContactProfileUpdate {
        sender: ServiceId::Aci(uuid),
        profile_key,
        observation_timestamp,
        expire_timer: 10,
        expire_timer_version: 2,
    }
}

#[test]
fn profile_update_order_uses_observation_sequence_not_content_timestamp() {
    let mut coordinator = ContactUpdateCoordinator::default();
    let uuid = 1;
    let first = contact_profile_update(uuid, u64::MAX, ProfileKey::create([7; 32]));
    let later = contact_profile_update(uuid, 1, ProfileKey::create([8; 32]));

    coordinator.enqueue_profile_update(uuid, first);
    coordinator.enqueue_profile_update(uuid, later);
    let queued = coordinator.take_profile_update(uuid).unwrap();

    assert_eq!(queued.update.observation_timestamp, 1);
    assert_eq!(queued.update.profile_key.bytes, [8; 32]);
    assert_eq!(queued.observation.sequence, 2);
}

#[test]
fn same_key_profile_updates_coalesce_to_the_latest_payload() {
    let mut coordinator = ContactUpdateCoordinator::default();
    let uuid = 1;
    let profile_key = ProfileKey::create([7; 32]);
    let first = contact_profile_update(uuid, 20, profile_key);
    let mut latest = contact_profile_update(uuid, 21, profile_key);
    latest.expire_timer = 30;
    latest.expire_timer_version = 4;

    coordinator.enqueue_profile_update(uuid, first);
    let first_queued = coordinator.take_profile_update(uuid).unwrap();
    coordinator.enqueue_profile_update(uuid, latest);
    let coalesced = coordinator
        .coalesce_current_profile_update(uuid, first_queued)
        .unwrap();

    assert_eq!(coalesced.update.observation_timestamp, 21);
    assert_eq!(coalesced.update.expire_timer, 30);
    assert_eq!(coalesced.update.expire_timer_version, 4);
    assert_eq!(coalesced.observation.sequence, 2);
    assert!(coordinator.take_profile_update(uuid).is_none());
}

#[test]
fn queue_empty_waits_for_profile_workers_and_restart_has_no_active_flag() {
    let mut workers = ContactProfileWorkerQueue::default();
    assert!(workers.is_empty());

    assert!(workers.start(1));
    assert!(!workers.is_empty());

    drop(workers);
    assert!(ContactProfileWorkerQueue::default().is_empty());
}

#[test]
fn contact_updates_share_a_lock_and_supersede_inflight_profiles() {
    let mut coordinator = ContactUpdateCoordinator::default();
    let mut locks: HashMap<u64, Arc<Mutex<()>>> = HashMap::new();
    let uuid = 1;
    let old = contact_profile_update(uuid, 20, ProfileKey::create([7; 32]));
    let new = contact_profile_update(uuid, 21, ProfileKey::create([8; 32]));
    coordinator.enqueue_profile_update(uuid, old);
    let old_queued = coordinator.take_profile_update(uuid).unwrap();
    let old_lock = locks
        .entry(coordinator.contact_lock(uuid))
        .or_default()
        .clone();
    let new_lock = locks
        .entry(coordinator.contact_lock(uuid))
        .or_default()
        .clone();
    let old_guard = old_lock.try_lock().unwrap();

    assert!(Arc::ptr_eq(&old_lock, &new_lock));
    assert!(new_lock.try_lock().is_err());

    drop(old_guard);
    {
        let _new_guard = new_lock.try_lock().unwrap();
        coordinator.enqueue_profile_update(uuid, new);
    }
    assert!(coordinator
        .coalesce_current_profile_update(uuid, old_queued)
        .is_none());
    let new_queued = coordinator.take_profile_update(uuid).unwrap();
    assert_eq!(new_queued.update.profile_key.bytes, [8; 32]);
    assert!(new_lock.try_lock().is_ok());
}

#[test]
fn contacts_have_locks_of_their_own() {
    let mut coordinator = ContactUpdateCoordinator::new();
    let first = coordinator.contact_lock(1);
    let second = coordinator.contact_lock(2);
    assert_ne!(first, second);
    assert_eq!(coordinator.contact_lock(1), first);
    assert_eq!(coordinator.contact_lock(2), second);
}

#[test]
fn contacts_do_not_disturb_each_other() {
    let mut coordinator = ContactUpdateCoordinator::new();
    let update = |uuid: u128, key: u8| {
        contact_profile_update(uuid, 5, ProfileKey::create([key; 32]))
    };
    coordinator.enqueue_profile_update(1, update(1, 7));
    coordinator.enqueue_profile_update(2, update(2, 7));
    assert!(coordinator.has_pending_profile_update(1));
    let taken = coordinator.take_profile_update(1).unwrap();
    assert!(!coordinator.has_pending_profile_update(1));
    assert!(coordinator.has_pending_profile_update(2));
    coordinator.enqueue_profile_update(2, update(2, 9));
    let current = coordinator
        .coalesce_current_profile_update(1, taken)
        .unwrap();
    assert_eq!(current.observation.sequence, 1);
    assert_eq!(
        coordinator.take_profile_update(2).unwrap().observation.sequence,
        3
    );
}

#[test]
fn same_key_taken_by_another_supersedes() {
    let mut coordinator = ContactUpdateCoordinator::new();
    let key = ProfileKey::create([7; 32]);
    coordinator.enqueue_profile_update(1, contact_profile_update(1, 5, key));
    let first = coordinator.take_profile_update(1).unwrap();
    coordinator.enqueue_profile_update(1, contact_profile_update(1, 6, key));
    let second = coordinator.take_profile_update(1).unwrap();
    assert!(coordinator
        .coalesce_current_profile_update(1, first)
        .is_none());
    assert!(coordinator
        .coalesce_current_profile_update(1, second)
        .is_some());
    assert!(coordinator
        .coalesce_current_profile_update(2, second)
        .is_none());
}

#[test]
fn one_worker_runs_for_a_contact_until_nothing_waits() {
    let mut coordinator = ContactUpdateCoordinator::new();
    let mut workers = ContactProfileWorkerQueue::new();
    let update = contact_profile_update(1, 5, ProfileKey::create([7; 32]));
    assert!(observe_profile_update(
        &mut coordinator,
        &mut workers,
        1,
        update
    ));
    assert!(!observe_profile_update(
        &mut coordinator,
        &mut workers,
        1,
        update
    ));
    assert!(workers.finish(&coordinator, 1));
    assert!(!workers.is_empty());
    coordinator.take_profile_update(1).unwrap();
    assert!(!workers.finish(&coordinator, 1));
    assert!(workers.is_empty());
    workers.start(1);
    workers.complete(1);
    assert!(workers.is_empty());
}
