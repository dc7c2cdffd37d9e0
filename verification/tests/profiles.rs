use presage::contacts::{Contact, Profile, Verified};
use presage::content::GroupContextV2;
use presage::groups::Group;
use presage::profiles::{GroupAvatarSource, ProfileAvatarSource, ProfileSource, StoredThread};
use presage::registration::{
    Manager, ProfileKey, Registered, RegistrationData, ServiceIds, SignalServers,
};

fn manager() -> Manager<(), Registered> {
    let data = RegistrationData {
        signal_servers: SignalServers::Production,
        device_name: None,
        phone_number: "+12025550123".to_string(),
        service_ids: ServiceIds { aci: 1, pni: 2 },
        password: "password".to_string(),
        device_id: None,
        registration_id: 3,
        pni_registration_id: Some(4),
        profile_key: ProfileKey::create([5; 32]),
    };
    Manager::load_registered((), Some(data), None).unwrap()
}

#[test]
fn stored_profiles_are_not_fetched() {
    let manager = manager();
    let (aci, key) = manager.retrieve_profile();
    assert_eq!(aci, 1);
    assert_eq!(key.bytes, [5; 32]);
    assert!(matches!(
        manager.retrieve_profile_by_uuid(Some("profile")),
        ProfileSource::Stored("profile")
    ));
    assert!(matches!(
        manager.retrieve_profile_by_uuid::<()>(None),
        ProfileSource::Fetch
    ));
}

#[test]
fn pictures_are_stored_or_found_through_their_owner() {
    let manager = manager();
    let context = GroupContextV2 {
        master_key: Some(vec![4; 32]),
        revision: None,
        group_change: None,
    };
    assert!(matches!(
        manager.retrieve_group_avatar(&context, Some(vec![1])),
        GroupAvatarSource::Stored(picture) if picture == vec![1]
    ));
    assert!(matches!(
        manager.retrieve_group_avatar(&context, None),
        GroupAvatarSource::Upsert { master_key, revision: 0 } if master_key == [4; 32]
    ));
    let profile = |avatar: Option<&str>| Profile {
        name: None,
        avatar: avatar.map(|path| path.to_string()),
    };
    assert!(matches!(
        manager.retrieve_profile_avatar_by_uuid(Some(vec![1]), None),
        ProfileAvatarSource::Stored(picture) if picture == vec![1]
    ));
    assert!(matches!(
        manager.retrieve_profile_avatar_by_uuid(None, None),
        ProfileAvatarSource::FetchProfile
    ));
    assert!(matches!(
        manager.retrieve_profile_avatar_by_uuid(None, Some(profile(None))),
        ProfileAvatarSource::NoAvatar
    ));
    assert!(matches!(
        manager.retrieve_profile_avatar_by_uuid(None, Some(profile(Some("path")))),
        ProfileAvatarSource::Download(path) if path == "path"
    ));
}

#[test]
fn titles_fall_back_to_the_identity() {
    let manager = manager();
    let contact = Contact {
        uuid: 9,
        phone_number: None,
        name: "Name".to_string(),
        verified: Verified::default(),
        profile_key: Vec::new(),
        expire_timer: 0,
        expire_timer_version: 1,
        inbox_position: 0,
        avatar: None,
    };
    let title = |contact: Option<Contact>| {
        manager.thread_title(StoredThread::<()>::Contact {
            contact,
            service_id: "identity".to_string(),
        })
    };
    assert_eq!(title(Some(contact)), "Name");
    assert_eq!(title(None), "identity");
    let group = Group {
        title: "Group".to_string(),
        avatar: String::new(),
        revision: 1,
        members: Vec::new(),
        details: (),
    };
    assert_eq!(manager.thread_title(StoredThread::Group(Some(group))), "Group");
    assert_eq!(manager.thread_title(StoredThread::<()>::Group(None)), "");
}

#[test]
fn only_valid_numbers_are_looked_up() {
    assert_eq!(
        manager().discover_contacts_by_phone_number(vec![
            Some("+1".to_string()),
            None,
            Some("+2".to_string()),
        ]),
        vec!["+1".to_string(), "+2".to_string()]
    );
}
