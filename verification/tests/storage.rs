use presage::error::Error;
use presage::groups::{Member, Role, ServiceGroup};
use presage::registration::{
    Manager, ProfileKey, Registered, RegistrationData, ServiceIds, SignalServers,
};
use presage::storage::{
    manifest_group_keys, match_storage_group_records, record_key_material, requested_group_items,
    require_master_key, snapshot_group_keys, storage_group_item_keys, Identifier, IdentifierType,
    ManifestRecord, StorageGroupSnapshotError, StorageRecord,
};

fn storage_group_record(value: u8) -> StorageRecord {
    StorageRecord::GroupV2 {
        master_key: vec![value; 32],
    }
}

fn manifest(identifiers: Vec<(Vec<u8>, IdentifierType)>) -> ManifestRecord {
    ManifestRecord {
        identifiers: identifiers
            .into_iter()
            .map(|(raw, kind)| Identifier { raw, item_type: kind })
            .collect(),
        record_ikm: Vec::new(),
    }
}

#[test]
fn selects_only_group_v2_storage_items() {
    let manifest = manifest(vec![
        (vec![1], IdentifierType::Contact),
        (vec![2], IdentifierType::GroupV2),
        (vec![3], IdentifierType::GroupV1),
    ]);

    assert_eq!(storage_group_item_keys(&manifest).unwrap(), vec![vec![2]]);
}

#[test]
fn rejects_duplicate_group_keys_in_manifest() {
    let manifest = manifest(vec![
        (vec![2], IdentifierType::GroupV2),
        (vec![2], IdentifierType::GroupV2),
    ]);

    assert_eq!(
        storage_group_item_keys(&manifest),
        Err(StorageGroupSnapshotError::DuplicateManifestKey)
    );
    assert!(matches!(
        requested_group_items(&manifest),
        Err(Error::InvalidStorageGroupRecord)
    ));
}

#[test]
fn accepts_reordered_exact_storage_response_keys() {
    let requested = vec![vec![1], vec![2]];
    let records = match_storage_group_records(
        &requested,
        vec![
            (vec![2], storage_group_record(2)),
            (vec![1], storage_group_record(1)),
        ],
    )
    .unwrap();

    let master_keys = records
        .into_iter()
        .map(|record| match record {
            StorageRecord::GroupV2 { master_key } => master_key,
            _ => unreachable!(),
        })
        .collect::<Vec<_>>();
    assert_eq!(master_keys, vec![vec![1; 32], vec![2; 32]]);
}

#[test]
fn rejects_incomplete_or_unrequested_storage_response_keys() {
    let requested = vec![vec![1], vec![2]];

    assert_eq!(
        match_storage_group_records(&requested, vec![(vec![1], storage_group_record(1))]),
        Err(StorageGroupSnapshotError::ResponseKeySetMismatch)
    );
    assert_eq!(
        match_storage_group_records(
            &requested,
            vec![
                (vec![1], storage_group_record(1)),
                (vec![2], storage_group_record(2)),
                (vec![3], storage_group_record(3)),
            ]
        ),
        Err(StorageGroupSnapshotError::ResponseKeySetMismatch)
    );
    assert_eq!(
        match_storage_group_records(
            &requested,
            vec![
                (vec![1], storage_group_record(1)),
                (vec![1], storage_group_record(1)),
            ]
        ),
        Err(StorageGroupSnapshotError::ResponseKeySetMismatch)
    );
    assert!(matches!(
        match_storage_group_records::<StorageRecord>(&[vec![1], vec![1]], Vec::new()),
        Err(StorageGroupSnapshotError::DuplicateManifestKey)
    ));
}

#[test]
fn group_records_must_be_distinct_and_well_formed() {
    assert_eq!(
        manifest_group_keys(&[storage_group_record(1), storage_group_record(2)]).unwrap(),
        vec![[1; 32], [2; 32]]
    );
    assert!(matches!(
        manifest_group_keys(&[storage_group_record(1), storage_group_record(1)]),
        Err(Error::InvalidStorageGroupRecord)
    ));
    assert!(matches!(
        manifest_group_keys(&[StorageRecord::Other]),
        Err(Error::InvalidStorageGroupRecord)
    ));
    assert!(matches!(
        manifest_group_keys(&[StorageRecord::GroupV2 {
            master_key: vec![1; 31]
        }]),
        Err(Error::InvalidStorageGroupRecord)
    ));
}

#[test]
fn snapshot_needs_exactly_the_requested_records() {
    let requested = vec![vec![1], vec![2]];
    assert_eq!(
        snapshot_group_keys(
            &requested,
            vec![
                (vec![2], storage_group_record(20)),
                (vec![1], storage_group_record(10)),
            ]
        )
        .unwrap(),
        vec![[10; 32], [20; 32]]
    );
    assert!(matches!(
        snapshot_group_keys(&requested, vec![(vec![1], storage_group_record(10))]),
        Err(Error::IncompleteStorageGroupSnapshot)
    ));
    assert!(matches!(
        snapshot_group_keys(
            &requested,
            vec![
                (vec![1], storage_group_record(10)),
                (vec![2], StorageRecord::Other),
            ]
        ),
        Err(Error::InvalidStorageGroupRecord)
    ));
}

#[test]
fn storage_keys_are_used_when_they_are_there() {
    assert!(matches!(
        require_master_key::<()>(None),
        Err(Error::MissingKeyError("master key"))
    ));
    assert_eq!(require_master_key(Some(5)).unwrap(), 5);
    let mut record = manifest(Vec::new());
    assert_eq!(record_key_material(&record), None);
    record.record_ikm = vec![1, 2];
    assert_eq!(record_key_material(&record), Some(&[1u8, 2][..]));
}

fn manager() -> Manager<(), Registered> {
    let data = RegistrationData {
        signal_servers: SignalServers::Production,
        device_name: None,
        phone_number: "+12025550123".to_string(),
        service_ids: ServiceIds { aci: 1, pni: 2 },
        password: "password".to_string(),
        device_id: None,
        registration_id: 3,
        pni_registration_id: Some(4),
        profile_key: ProfileKey::create([5; 32]),
    };
    Manager::load_registered((), Some(data), None).unwrap()
}

fn group(members: &[u128]) -> ServiceGroup<()> {
    ServiceGroup {
        title: "group".to_string(),
        avatar: String::new(),
        version: 4,
        members: members
            .iter()
            .map(|aci| Member {
                aci: *aci,
                role: Role::Default,
                profile_key: [3; 32],
                joined_at_version: 1,
                label: None,
                label_emoji: None,
            })
            .collect(),
        details: (),
    }
}

#[test]
fn synchronization_stores_active_groups_and_prunes_departures() {
    let mut sync = manager()
        .synchronize_storage_groups(&[[1; 32], [2; 32]], vec![[2; 32], [3; 32], [4; 32]]);
    let mut asked = Vec::new();
    while let Some(key) = sync.next_candidate() {
        asked.push(key[0]);
        let state = match key[0] {
            1 => Some(group(&[1, 7])),
            2 => Some(group(&[7])),
            3 => None,
            _ => Some(group(&[1])),
        };
        sync.observe(state);
    }
    assert_eq!(asked, vec![1, 2, 3, 4]);
    let plan = sync.finish();
    let active: Vec<u8> = plan.active_groups.iter().map(|(key, _)| key[0]).collect();
    assert_eq!(active, vec![1, 4]);
    assert_eq!(plan.stale_keys, vec![[2; 32], [3; 32]]);
    assert_eq!(plan.synchronized, 2);
}
