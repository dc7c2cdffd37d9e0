use presage::contacts::{
    all_contact_details, contact_details, merge_profile_contact, merge_synchronized_contact,
    needs_profile_contact_upsert, profile_display_name, save_synchronized_contact, Attachment,
    Contact, Profile, SynchronizedContactStep, Verified,
};
use presage::registration::ProfileKey;
use presage::text::uuid_text;

fn contact(name: &str, profile_key: Vec<u8>) -> Contact {
    Contact {
        uuid: 1,
        phone_number: None,
        name: name.to_string(),
        verified: Verified::default(),
        profile_key,
        expire_timer: 10,
        expire_timer_version: 2,
        inbox_position: 3,
        avatar: None,
    }
}

fn profile(name: Option<(&str, Option<&str>)>) -> Profile {
    Profile {
        name: name.map(|(given_name, family_name)| match family_name {
            Some(family_name) => format!("{given_name} {family_name}"),
            None => given_name.to_string(),
        }),
        avatar: None,
    }
}

#[test]
fn empty_sync_uses_cached_profile_name_and_canonical_key() {
    let profile_key = ProfileKey::create([7; 32]);
    let cached_profile = profile(Some(("Profile", Some("Name"))));
    let phone_number = "+12025550123".to_string();
    let mut synchronized = contact("", Vec::new());
    synchronized.phone_number = Some(phone_number.clone());
    synchronized.expire_timer = 20;
    synchronized.expire_timer_version = 4;
    synchronized.inbox_position = 9;
    let mut existing = contact("Legacy Profile", profile_key.bytes.to_vec());
    existing.verified = Verified {
        identity_key: Some(vec![5; 33]),
        ..Verified::default()
    };
    let expected_verified = existing.verified.clone();

    let merged = merge_synchronized_contact(
        synchronized,
        Some(existing),
        Some(profile_key),
        Some(&cached_profile),
    );

    assert_eq!(merged.name, "Profile Name");
    assert_eq!(merged.profile_key, profile_key.bytes);
    assert_eq!(merged.phone_number, Some(phone_number));
    assert_eq!(merged.expire_timer, 20);
    assert_eq!(merged.expire_timer_version, 4);
    assert_eq!(merged.inbox_position, 9);
    assert_eq!(merged.verified, expected_verified);
}

#[test]
fn nonempty_synchronized_name_wins_over_profile() {
    let profile_key = ProfileKey::create([7; 32]);
    let cached_profile = profile(Some(("Profile", None)));
    let synchronized = contact("Address Book", Vec::new());

    let merged = merge_synchronized_contact(
        synchronized,
        Some(contact("Old Profile", profile_key.bytes.to_vec())),
        Some(profile_key),
        Some(&cached_profile),
    );

    assert_eq!(merged.name, "Address Book");
    assert_eq!(merged.profile_key, profile_key.bytes);
}

#[test]
fn legacy_empty_sync_keeps_a_profile_fallback_without_a_cached_profile() {
    let profile_key = ProfileKey::create([7; 32]);

    let merged = merge_synchronized_contact(
        contact("", Vec::new()),
        Some(contact("Legacy Profile", profile_key.bytes.to_vec())),
        Some(profile_key),
        None,
    );

    assert_eq!(merged.name, "Legacy Profile");
    assert_eq!(merged.profile_key, profile_key.bytes);
}

#[test]
fn synchronized_contact_prefers_canonical_key_and_drops_a_malformed_orphan() {
    let profile_key = ProfileKey::create([7; 32]);
    let canonical = merge_synchronized_contact(
        contact("Synced", Vec::new()),
        Some(contact("Existing", vec![8; 32])),
        Some(profile_key),
        None,
    );
    let malformed_orphan = merge_synchronized_contact(
        contact("Synced", Vec::new()),
        Some(contact("Existing", vec![8; 31])),
        None,
        None,
    );

    assert_eq!(canonical.profile_key, profile_key.bytes);
    assert!(malformed_orphan.profile_key.is_empty());
}

#[test]
fn profile_refresh_updates_a_known_profile_name() {
    let old_profile = profile(Some(("Old", Some("Profile"))));
    let new_profile = profile(Some(("New", Some("Profile"))));
    let new_profile_key = ProfileKey::create([8; 32]);

    let merged = merge_profile_contact(
        1,
        Some(contact("Old Profile", vec![7; 32])),
        Some(&old_profile),
        &new_profile,
        new_profile_key,
        30,
        4,
    );

    assert_eq!(merged.name, "New Profile");
    assert_eq!(merged.profile_key, new_profile_key.bytes);
    assert_eq!(merged.expire_timer, 10);
    assert_eq!(merged.expire_timer_version, 2);
}

#[test]
fn profile_refresh_preserves_synchronized_contact_fields() {
    let old_profile = profile(Some(("Address", Some("Book"))));
    let new_profile = profile(Some(("New", Some("Profile"))));
    let new_profile_key = ProfileKey::create([8; 32]);
    let phone_number = "+12025550123".to_string();
    let mut existing = contact("Address Book", vec![7; 32]);
    existing.phone_number = Some(phone_number.clone());
    existing.expire_timer = 60;
    existing.expire_timer_version = 6;
    existing.inbox_position = 12;
    existing.avatar = Some(Attachment {
        content_type: "image/png".to_string(),
        reader: b"avatar".to_vec(),
    });
    existing.verified = Verified {
        identity_key: Some(vec![6; 33]),
        ..Verified::default()
    };
    let expected_verified = existing.verified.clone();

    let merged = merge_profile_contact(
        1,
        Some(existing),
        Some(&old_profile),
        &new_profile,
        new_profile_key,
        30,
        4,
    );

    assert_eq!(merged.name, "Address Book");
    assert_eq!(merged.phone_number, Some(phone_number));
    assert_eq!(merged.profile_key, new_profile_key.bytes);
    assert_eq!(merged.expire_timer, 60);
    assert_eq!(merged.expire_timer_version, 6);
    assert_eq!(merged.inbox_position, 12);
    assert_eq!(merged.verified, expected_verified);
    let avatar = merged.avatar.unwrap();
    assert_eq!(avatar.content_type, "image/png");
    assert_eq!(avatar.reader, b"avatar");
}

#[test]
fn profile_contact_upsert_detects_empty_names_and_key_drift() {
    let profile_key = ProfileKey::create([7; 32]);
    let other_profile_key = ProfileKey::create([8; 32]);
    let complete = contact("Profile", profile_key.bytes.to_vec());
    let empty = contact("", profile_key.bytes.to_vec());
    let stale_duplicate = contact("Profile", other_profile_key.bytes.to_vec());

    assert!(needs_profile_contact_upsert(
        None,
        Some(&profile_key),
        &profile_key
    ));
    assert!(needs_profile_contact_upsert(
        Some(&empty),
        Some(&profile_key),
        &profile_key
    ));
    assert!(needs_profile_contact_upsert(
        Some(&stale_duplicate),
        Some(&profile_key),
        &profile_key
    ));
    assert!(needs_profile_contact_upsert(
        Some(&complete),
        None,
        &profile_key
    ));
    assert!(needs_profile_contact_upsert(
        Some(&complete),
        Some(&other_profile_key),
        &profile_key
    ));
    assert!(!needs_profile_contact_upsert(
        Some(&complete),
        Some(&profile_key),
        &profile_key
    ));
}

#[test]
fn profile_contact_creation_uses_profile_name_and_message_timer() {
    let profile = profile(Some(("New", Some("Contact"))));
    let profile_key = ProfileKey::create([7; 32]);

    let merged = merge_profile_contact(1, None, None, &profile, profile_key, 30, 4);

    assert_eq!(merged.name, "New Contact");
    assert_eq!(merged.profile_key, profile_key.bytes);
    assert_eq!(merged.expire_timer, 30);
    assert_eq!(merged.expire_timer_version, 4);
}

#[test]
fn merged_contact_needs_no_further_update() {
    let profile = profile(Some(("New", None)));
    let profile_key = ProfileKey::create([7; 32]);
    let merged = merge_profile_contact(
        1,
        Some(contact("", vec![1; 32])),
        None,
        &profile,
        profile_key,
        30,
        4,
    );
    assert!(!needs_profile_contact_upsert(
        Some(&merged),
        Some(&profile_key),
        &profile_key
    ));
}

#[test]
fn address_book_name_stays_when_the_profile_changes() {
    let merged = merge_profile_contact(
        1,
        Some(contact("Nickname", vec![7; 32])),
        Some(&profile(Some(("Old", None)))),
        &profile(Some(("New", None))),
        ProfileKey::create([8; 32]),
        0,
        1,
    );
    assert_eq!(merged.name, "Nickname");
}

#[test]
fn profile_without_a_name_displays_nothing() {
    assert_eq!(profile_display_name(&profile(None)), "");
    assert_eq!(profile_display_name(&profile(Some(("A", Some("B"))))), "A B");
}

#[test]
fn cached_profile_without_a_name_hides_the_legacy_name() {
    let profile_key = ProfileKey::create([7; 32]);
    let merged = merge_synchronized_contact(
        contact("", Vec::new()),
        Some(contact("Legacy", vec![7; 32])),
        Some(profile_key),
        Some(&profile(None)),
    );
    assert_eq!(merged.name, "");
    let unknown_key = merge_synchronized_contact(
        contact("", Vec::new()),
        Some(contact("Legacy", vec![8; 32])),
        Some(profile_key),
        None,
    );
    assert_eq!(unknown_key.name, "");
    let orphan = merge_synchronized_contact(
        contact("Synced", Vec::new()),
        Some(contact("Legacy", vec![8; 32])),
        None,
        None,
    );
    assert_eq!(orphan.profile_key, vec![8; 32]);
}

#[test]
fn profile_is_read_only_for_a_nameless_contact_with_a_key() {
    let profile_key = ProfileKey::create([7; 32]);
    assert!(matches!(
        save_synchronized_contact(contact("", Vec::new()), None, Some(profile_key)),
        SynchronizedContactStep::LoadProfile { profile_key, .. } if profile_key.bytes == [7; 32]
    ));
    match save_synchronized_contact(contact("Synced", Vec::new()), None, Some(profile_key)) {
        SynchronizedContactStep::Save(merged) => {
            assert_eq!(merged.name, "Synced");
            assert_eq!(merged.profile_key, vec![7; 32]);
        }
        _ => unreachable!(),
    }
    match save_synchronized_contact(contact("", Vec::new()), None, None) {
        SynchronizedContactStep::Save(merged) => {
            assert_eq!(merged.name, "");
            assert!(merged.profile_key.is_empty());
        }
        _ => unreachable!(),
    }
}

#[test]
fn identities_are_written_as_hyphenated_text() {
    assert_eq!(
        uuid_text(0x0123_4567_89ab_cdef_0123_4567_89ab_cdef),
        "01234567-89ab-cdef-0123-456789abcdef"
    );
    assert_eq!(uuid_text(0), "00000000-0000-0000-0000-000000000000");
}

#[test]
fn contact_details_describe_the_contact() {
    let mut described = contact("Name", vec![7; 32]);
    described.uuid = 0xff;
    described.phone_number = Some("+12025550123".to_string());
    described.avatar = Some(Attachment {
        content_type: "image/png".to_string(),
        reader: vec![1, 2, 3],
    });
    let details = contact_details(described.clone());
    assert_eq!(details.number.as_deref(), Some("+12025550123"));
    assert_eq!(
        details.aci.as_deref(),
        Some("00000000-0000-0000-0000-0000000000ff")
    );
    let mut bytes = vec![0; 15];
    bytes.push(0xff);
    assert_eq!(details.aci_binary, Some(bytes));
    assert_eq!(details.name.as_deref(), Some("Name"));
    let avatar = details.avatar.unwrap();
    assert_eq!(avatar.content_type.as_deref(), Some("image/png"));
    assert_eq!(avatar.length, Some(3));
    assert_eq!(details.expire_timer, Some(10));
    assert_eq!(details.expire_timer_version, Some(2));
    assert_eq!(details.inbox_position, None);
    assert_eq!(all_contact_details(vec![described, contact("B", Vec::new())]).len(), 2);
}
