use presage::error::Error;
use presage::registration::{
    account_entropy_pool, master_key, name_to_encrypt, needs_renewal, reuses_websocket,
    sender_certificate, set_account_attributes, CertificateEvent, CertificateExpiration,
    CertificateTask, EntropyPoolSource, Manager, MasterKeySource, ProfileKey, RegistrationData,
    RegistrationType, SenderCertificate, ServiceIds, SignalServers, WebsocketState,
};

fn data(device_name: Option<&str>) -> RegistrationData {
    RegistrationData {
        signal_servers: SignalServers::Staging,
        device_name: device_name.map(|name| name.to_string()),
        phone_number: "+12025550123".to_string(),
        service_ids: ServiceIds { aci: 1, pni: 2 },
        password: "password".to_string(),
        device_id: Some(7),
        registration_id: 3,
        pni_registration_id: Some(4),
        profile_key: ProfileKey::create([5; 32]),
    }
}

fn certificate(byte: u8) -> SenderCertificate {
    SenderCertificate {
        serialized: vec![byte],
        expiration: Some(10_000_000),
    }
}

#[test]
fn renewed_certificate_is_saved_before_it_is_cached() {
    let mut cached = None;
    let task: CertificateTask<&str> = sender_certificate(&cached, 1000);
    assert!(matches!(task, CertificateTask::Fetch));
    let task = task.step(&mut cached, CertificateEvent::Fetched(Ok(certificate(1))));
    assert!(matches!(&task, CertificateTask::Save { certificate } if certificate.serialized == [1]));
    assert!(cached.is_none());
    let task = task.step(&mut cached, CertificateEvent::Saved(Ok(())));
    assert!(matches!(task, CertificateTask::Ready));
    assert_eq!(cached.as_ref().unwrap().serialized, vec![1]);
    assert!(matches!(
        sender_certificate::<()>(&cached, 9_399),
        CertificateTask::Ready
    ));
    assert!(matches!(
        sender_certificate::<()>(&cached, 9_400),
        CertificateTask::Fetch
    ));
}

#[test]
fn failed_renewal_leaves_the_cached_certificate() {
    let mut cached = Some(certificate(1));
    let task: CertificateTask<&str> = sender_certificate(&cached, 20_000);
    assert!(matches!(
        task.step(&mut cached, CertificateEvent::Fetched(Err("offline"))),
        CertificateTask::Failed("offline")
    ));
    let task = CertificateTask::Save {
        certificate: certificate(2),
    };
    assert!(matches!(
        task.step(&mut cached, CertificateEvent::Saved(Err("full"))),
        CertificateTask::Failed("full")
    ));
    assert_eq!(cached.unwrap().serialized, vec![1]);
    let unreadable = Some(SenderCertificate {
        serialized: Vec::new(),
        expiration: None,
    });
    assert!(matches!(
        sender_certificate::<()>(&unreadable, 0),
        CertificateTask::Fetch
    ));
}

#[test]
fn account_must_be_registered() {
    assert!(matches!(
        Manager::load_registered((), None, None),
        Err(Error::NotYetRegisteredError)
    ));
    let manager = Manager::load_registered("store", Some(data(None)), Some(certificate(9))).unwrap();
    assert_eq!(*manager.store(), "store");
    assert_eq!(
        manager.state.sender_certificate.as_ref().unwrap().serialized,
        vec![9]
    );
    assert_eq!(manager.registration_data().registration_id, 3);
    assert_eq!(manager.registration_data().profile_key().bytes, [5; 32]);
    assert_eq!(manager.registration_data().device_name(), None);
    assert_eq!(manager.state.servers(), SignalServers::Staging);
}

#[test]
fn only_a_linked_device_has_a_name() {
    let primary = Manager::load_registered((), Some(data(None)), None).unwrap();
    let secondary = Manager::load_registered((), Some(data(Some("tablet"))), None).unwrap();
    assert_eq!(primary.registration_type(), RegistrationType::Primary);
    assert_eq!(secondary.registration_type(), RegistrationType::Secondary);
    assert_eq!(secondary.registration_data().device_name(), Some("tablet"));
    assert!(primary.link_secondary().is_ok());
    assert!(matches!(
        secondary.link_secondary(),
        Err(Error::NotPrimaryDevice)
    ));
    assert_eq!(primary.unlink_secondary(Some(5)).unwrap(), 5);
    assert!(matches!(
        primary.unlink_secondary::<u8>(None),
        Err(Error::InvalidDeviceId)
    ));
    assert!(matches!(
        secondary.unlink_secondary::<u8>(None),
        Err(Error::NotPrimaryDevice)
    ));
}

#[test]
fn credentials_are_those_of_the_account() {
    let manager = Manager::load_registered((), Some(data(None)), None).unwrap();
    assert_eq!(manager.device_id(Some(7), 1), 7);
    assert_eq!(manager.device_id(None, 1), 1);
    let credentials = manager
        .state
        .credentials("+12025550123".to_string(), Some(7));
    assert_eq!(credentials.aci, Some(1));
    assert_eq!(credentials.pni, Some(2));
    assert_eq!(credentials.phone_number, "+12025550123");
    assert_eq!(credentials.password.as_deref(), Some("password"));
    assert_eq!(credentials.device_id, Some(7));
    let secrets = manager.provisioning_secrets(credentials, "pool", Some([1; 32]));
    assert_eq!(secrets.account_entropy_pool, "pool");
    assert_eq!(secrets.master_key, Some([1; 32]));
    assert_eq!(secrets.ephemeral_backup_key, None);
    assert_eq!(secrets.media_root_backup_key, None);
}

#[test]
fn certificate_is_renewed_ten_minutes_early() {
    assert!(needs_renewal(CertificateExpiration::NoCertificate, 0));
    assert!(needs_renewal(CertificateExpiration::Unreadable, 0));
    assert!(needs_renewal(CertificateExpiration::At(1_600_999), 1000));
    assert!(!needs_renewal(CertificateExpiration::At(1_601_000), 1000));
    assert!(needs_renewal(CertificateExpiration::At(1_601_000), 1001));
}

#[test]
fn open_connections_are_shared() {
    let state = |closed: bool, used: bool| Some(WebsocketState { closed, used });
    assert!(!reuses_websocket(None, false));
    assert!(reuses_websocket(state(false, true), false));
    assert!(!reuses_websocket(state(false, true), true));
    assert!(reuses_websocket(state(false, false), true));
    assert!(!reuses_websocket(state(true, false), false));
}

#[test]
fn keys_are_stored_generated_or_missing() {
    assert!(matches!(
        account_entropy_pool(Some("pool"), RegistrationType::Secondary),
        EntropyPoolSource::Stored("pool")
    ));
    assert!(matches!(
        account_entropy_pool::<()>(None, RegistrationType::Primary),
        EntropyPoolSource::Generate
    ));
    assert!(matches!(
        account_entropy_pool::<()>(None, RegistrationType::Secondary),
        EntropyPoolSource::Unavailable
    ));
    assert!(matches!(
        master_key(Some(1), Some("pool")),
        MasterKeySource::Stored(1)
    ));
    assert!(matches!(
        master_key::<u8, _>(None, Some("pool")),
        MasterKeySource::Derive("pool")
    ));
    assert!(matches!(
        master_key::<u8, &str>(None, None),
        MasterKeySource::Missing
    ));
}

#[test]
fn attributes_need_a_phone_number_registration() {
    let attributes = set_account_attributes(&data(None), Some(vec![1]), vec![2]).unwrap();
    assert!(attributes.fetches_messages);
    assert_eq!(attributes.registration_id, 3);
    assert_eq!(attributes.pni_registration_id, 4);
    assert_eq!(attributes.name, Some(vec![1]));
    assert_eq!(attributes.unidentified_access_key, Some(vec![2]));
    assert!(attributes.capabilities.storage);
    assert!(attributes.capabilities.spqr);
    assert!(!attributes.capabilities.transfer);
    assert_eq!(name_to_encrypt(&data(None)).unwrap(), None);
    assert_eq!(
        name_to_encrypt(&data(Some("tablet"))).unwrap(),
        Some("tablet")
    );
    let mut old = data(Some("tablet"));
    old.pni_registration_id = None;
    assert!(matches!(
        name_to_encrypt(&old),
        Err(Error::RelinkNecessary)
    ));
    assert!(matches!(
        set_account_attributes(&old, None, Vec::new()),
        Err(Error::RelinkNecessary)
    ));
}
