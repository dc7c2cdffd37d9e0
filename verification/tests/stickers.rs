use presage::content::{StickerPackAction, StickerPackOperation};
use presage::registration::{
    Manager, ProfileKey, Registered, RegistrationData, ServiceIds, SignalServers,
};
use presage::stickers::{
    download_sticker_pack, sticker_ids, sticker_pack_name, Sticker, StickerPack,
    StickerPackManifest,
};

fn manager() -> Manager<(), Registered> {
    let data = RegistrationData {
        signal_servers: SignalServers::Production,
        device_name: None,
        phone_number: "+12025550123".to_string(),
        service_ids: ServiceIds { aci: 1, pni: 2 },
        password: "password".to_string(),
        device_id: None,
        registration_id: 3,
        pni_registration_id: Some(4),
        profile_key: ProfileKey::create([5; 32]),
    };
    Manager::load_registered((), Some(data), None).unwrap()
}

fn sticker(id: u32, emoji: &str) -> Sticker {
    Sticker {
        id,
        emoji: Some(emoji.to_string()),
        content_type: None,
        bytes: None,
    }
}

fn manifest() -> StickerPackManifest {
    StickerPackManifest {
        title: "title".to_string(),
        author: "author".to_string(),
        cover: None,
        stickers: vec![sticker(4, "a"), sticker(5, "b"), sticker(5, "c")],
    }
}

#[test]
fn pack_is_found_by_its_hexadecimal_name() {
    let operation = manager().install_sticker_pack(&[0x00, 0x1f, 0xa9, 0xff], &[1]);
    assert_eq!(operation.action, StickerPackAction::Install);
    assert_eq!(operation.pack_key, Some(vec![1]));
    assert_eq!(sticker_pack_name(&operation), "001fa9ff");
    assert_eq!(
        sticker_pack_name(&StickerPackOperation {
            pack_id: None,
            pack_key: None,
            action: StickerPackAction::Install
        }),
        ""
    );
    assert_eq!(
        manager().remove_sticker_pack(&[2], &[3]).action,
        StickerPackAction::Remove
    );
}

#[test]
fn pack_keeps_stickers_that_could_not_be_downloaded() {
    let operation = manager().install_sticker_pack(&[7], &[8]);
    assert_eq!(sticker_ids(&manifest()), vec![4, 5, 5]);
    let pack = download_sticker_pack(
        &operation,
        manifest(),
        vec![Some(vec![1]), None, Some(vec![3])],
    );
    assert_eq!(pack.id, vec![7]);
    assert_eq!(pack.key, vec![8]);
    assert_eq!(pack.manifest.title, "title");
    let bytes: Vec<Option<Vec<u8>>> = pack
        .manifest
        .stickers
        .iter()
        .map(|sticker| sticker.bytes.clone())
        .collect();
    assert_eq!(bytes, vec![Some(vec![1]), None, Some(vec![3])]);
}

#[test]
fn metadata_is_that_of_the_first_sticker_with_the_identifier() {
    let pack = StickerPack {
        id: vec![7],
        key: vec![8],
        manifest: manifest(),
    };
    let found = manager();
    assert_eq!(
        found.sticker_metadata(Some(&pack), 5).unwrap().emoji.as_deref(),
        Some("b")
    );
    assert!(found.sticker_metadata(Some(&pack), 6).is_none());
    assert!(found.sticker_metadata(None, 5).is_none());
}
