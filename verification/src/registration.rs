//! The registered account and what its registration allows.

use vstd::prelude::*;

use crate::error::Error;

verus! {

/// A sender certificate is renewed this many seconds before it expires.
pub const CERTIFICATE_RENEWAL_MARGIN: u64 = 600;

/// The key with which an account's profile is encrypted.
#[derive(Clone, Copy, Debug)]
pub struct ProfileKey {
    pub bytes: [u8; 32],
}

impl ProfileKey {
    pub fn create(bytes: [u8; 32]) -> (key: Self)
        ensures
            key.bytes == bytes,
    {
        ProfileKey { bytes }
    }
}

/// The servers that an account is registered with.
#[derive(Clone, Copy, Debug, PartialEq, Eq, Structural)]
pub enum SignalServers {
    Staging,
    Production,
}

/// The two identities of an account.
#[derive(Clone, Copy, Debug, PartialEq, Eq, Structural)]
pub struct ServiceIds {
    pub aci: u128,
    pub pni: u128,
}

/// How a client was registered.
#[derive(Clone, Copy, Debug, PartialEq, Eq, Structural)]
pub enum RegistrationType {
    Primary,
    Secondary,
}

/// Registration data like device name, and credentials to connect to Signal
#[derive(Clone, Debug)]
pub struct RegistrationData {
    pub signal_servers: SignalServers,
    pub device_name: Option<String>,
    pub phone_number: String,
    pub service_ids: ServiceIds,
    pub password: String,
    pub device_id: Option<u32>,
    pub registration_id: u32,
    pub pni_registration_id: Option<u32>,
    pub profile_key: ProfileKey,
}

impl RegistrationData {
    /// Our own profile key
    pub fn profile_key(&self) -> (key: ProfileKey)
        ensures
            key == self.profile_key,
    {
        self.profile_key
    }

    /// The name of the device (if linked as secondary)
    pub fn device_name(&self) -> (name: Option<&str>)
        ensures
            name is Some <==> self.device_name is Some,
            name matches Some(n) ==> n@ == self.device_name->0@,
    {
        match &self.device_name {
            Some(name) => Some(name.as_str()),
            None => None,
        }
    }
}

/// What a request to the service is authenticated with.
#[derive(Clone, Debug)]
pub struct ServiceCredentials {
    pub aci: Option<u128>,
    pub pni: Option<u128>,
    pub phone_number: String,
    pub password: Option<String>,
    pub device_id: Option<u32>,
}

/// Manager state when the client is registered and can send and receive messages from Signal
#[derive(Clone, Debug)]
pub struct Registered {
    pub data: RegistrationData,
    /// The certificate with which messages are sent, as far as it is known.
    pub sender_certificate: Option<SenderCertificate>,
}

/// A certificate that vouches for the sender of a message that does not tell the service who sends
/// it.
#[derive(Clone, Debug)]
pub struct SenderCertificate {
    pub serialized: Vec<u8>,
    /// When it expires, in milliseconds since the epoch, if it tells.
    pub expiration: Option<u64>,
}

/// What a connection that was opened earlier is like now.
#[derive(Clone, Copy, Debug, PartialEq, Eq, Structural)]
pub struct WebsocketState {
    pub closed: bool,
    pub used: bool,
}

impl Registered {
    pub fn with_data(data: RegistrationData) -> (registered: Self)
        ensures
            registered.data == data,
            registered.sender_certificate is None,
    {
        Registered { data, sender_certificate: None }
    }

    /// The servers of the account.
    pub fn servers(&self) -> (servers: SignalServers)
        ensures
            servers == self.data.signal_servers,
    {
        self.data.signal_servers
    }

    /// The number of this device. `valid` is the registered number, if there is one and it is a
    /// device number; a primary device has the default number.
    pub fn device_id<I>(&self, valid: Option<I>, default: I) -> (device: I)
        ensures
            device == match valid {
                Some(id) => id,
                None => default,
            },
    {
        match valid {
            Some(id) => id,
            None => default,
        }
    }

    /// The credentials of the account. `phone_number` is its number in international form and
    /// `device_id` the registered device number, if it is a valid one.
    pub fn credentials(&self, phone_number: String, device_id: Option<u32>) -> (credentials:
        ServiceCredentials)
        ensures
            credentials.aci == Some(self.data.service_ids.aci),
            credentials.pni == Some(self.data.service_ids.pni),
            credentials.phone_number == phone_number,
            credentials.password matches Some(password) && password@ == self.data.password@,
            credentials.device_id == device_id,
    {
        ServiceCredentials {
            aci: Some(self.data.service_ids.aci),
            pni: Some(self.data.service_ids.pni),
            phone_number,
            password: Some(self.data.password.clone()),
            device_id,
        }
    }

    /// How this client was registered: only a linked device has a name.
    pub open spec fn registered_as(self) -> RegistrationType {
        if self.data.device_name is Some {
            RegistrationType::Secondary
        } else {
            RegistrationType::Primary
        }
    }
}

/// Whether a connection can be used again. One that must not have been used before cannot be
/// shared with an earlier user.
pub fn reuses_websocket(current: Option<WebsocketState>, require_unused: bool) -> (reuse: bool)
    ensures
        reuse <==> (current matches Some(state) && !state.closed && !(require_unused
            && state.used)),
{
    match current {
        Some(state) => !state.closed && !(require_unused && state.used),
        None => false,
    }
}

/// What is known of the expiration of a sender certificate.
#[derive(Clone, Copy, Debug, PartialEq, Eq, Structural)]
pub enum CertificateExpiration {
    /// There is no certificate.
    NoCertificate,
    /// The certificate does not tell.
    Unreadable,
    /// The certificate expires at this time, in milliseconds since the epoch.
    At(u64),
}

/// Whether a sender certificate must be renewed: ten minutes before it expires, or when its
/// expiration is not known.
pub fn needs_renewal(expiration: CertificateExpiration, now_seconds: u64) -> (renew: bool)
    requires
        now_seconds <= u64::MAX - 600,
    ensures
        renew == match expiration {
            CertificateExpiration::At(millis) => millis / 1000 <= now_seconds + 600,
            _ => true,
        },
{
    match expiration {
        CertificateExpiration::At(millis) => millis / 1000 <= now_seconds
            + CERTIFICATE_RENEWAL_MARGIN,
        _ => true,
    }
}

/// A sender certificate that must be renewed does not become usable again by waiting, and one that
/// need not be renewed has not expired for ten minutes yet.
pub proof fn law_renewal_is_due_in_time(
    expiration: CertificateExpiration,
    now: u64,
    later: u64,
    renew_now: bool,
    renew_later: bool,
)
    requires
        now <= later <= u64::MAX - 600,
        call_ensures(needs_renewal, (expiration, now), renew_now),
        call_ensures(needs_renewal, (expiration, later), renew_later),
    ensures
        renew_now ==> renew_later,
        !renew_now ==> (expiration matches CertificateExpiration::At(millis) && (now + 600) * 1000
            < millis),
{
}

/// What is known of the expiration of a cached certificate.
pub open spec fn expiration_of(cached: Option<SenderCertificate>) -> CertificateExpiration {
    match cached {
        None => CertificateExpiration::NoCertificate,
        Some(certificate) => match certificate.expiration {
            Some(millis) => CertificateExpiration::At(millis),
            None => CertificateExpiration::Unreadable,
        },
    }
}

/// Whether a cached certificate must be renewed.
pub open spec fn is_renewal_due(cached: Option<SenderCertificate>, now_seconds: u64) -> bool {
    match expiration_of(cached) {
        CertificateExpiration::At(millis) => millis / 1000 <= now_seconds + 600,
        _ => true,
    }
}

/// What is to be done next to have a certificate.
#[derive(Debug)]
pub enum CertificateTask<E> {
    /// Request a new certificate from the service.
    Fetch,
    /// Save the new certificate in the store.
    Save { certificate: SenderCertificate },
    /// Use the cached certificate.
    Ready,
    /// There is none that could be used.
    Failed(E),
}

/// What came of a task.
#[derive(Debug)]
pub enum CertificateEvent<E> {
    Fetched(Result<SenderCertificate, E>),
    Saved(Result<(), E>),
}

/// Begins to come by the certificate with which messages are sent: the cached one, unless it must
/// be renewed.
pub fn sender_certificate<E>(cached: &Option<SenderCertificate>, now_seconds: u64) -> (task:
    CertificateTask<E>)
    requires
        now_seconds <= u64::MAX - 600,
    ensures
        task == if is_renewal_due(*cached, now_seconds) {
            CertificateTask::<E>::Fetch
        } else {
            CertificateTask::Ready
        },
{
    let expiration = match cached {
        None => CertificateExpiration::NoCertificate,
        Some(certificate) => match certificate.expiration {
            Some(millis) => CertificateExpiration::At(millis),
            None => CertificateExpiration::Unreadable,
        },
    };
    if needs_renewal(expiration, now_seconds) {
        CertificateTask::Fetch
    } else {
        CertificateTask::Ready
    }
}

impl<E> CertificateTask<E> {
    /// Whether an event is one that can come of it.
    pub open spec fn expects(self, event: CertificateEvent<E>) -> bool {
        match (self, event) {
            (CertificateTask::Fetch, CertificateEvent::Fetched(_)) => true,
            (CertificateTask::Save { .. }, CertificateEvent::Saved(_)) => true,
            _ => false,
        }
    }

    /// The task that follows from an event.
    pub open spec fn after(self, event: CertificateEvent<E>) -> Self {
        match (self, event) {
            (CertificateTask::Fetch, CertificateEvent::Fetched(Ok(certificate))) => {
                CertificateTask::Save { certificate }
            },
            (CertificateTask::Save { .. }, CertificateEvent::Saved(Ok(_))) => {
                CertificateTask::Ready
            },
            (_, CertificateEvent::Fetched(Err(error))) => CertificateTask::Failed(error),
            (_, CertificateEvent::Saved(Err(error))) => CertificateTask::Failed(error),
            _ => self,
        }
    }

    /// The cached certificate after an event: the new one, once it is saved.
    pub open spec fn cached_after(
        self,
        cached: Option<SenderCertificate>,
        event: CertificateEvent<E>,
    ) -> Option<SenderCertificate> {
        match (self, event) {
            (CertificateTask::Save { certificate }, CertificateEvent::Saved(Ok(_))) => Some(
                certificate,
            ),
            _ => cached,
        }
    }

    /// Goes on after what came of a task.
    pub fn step(
        self,
        cached: &mut Option<SenderCertificate>,
        event: CertificateEvent<E>,
    ) -> (next: Self)
        requires
            self.expects(event),
        ensures
            next == self.after(event),
            *final(cached) == self.cached_after(*old(cached), event),
    {
        match (self, event) {
            (CertificateTask::Fetch, CertificateEvent::Fetched(Ok(certificate))) => {
                CertificateTask::Save { certificate }
            },
            (CertificateTask::Save { certificate }, CertificateEvent::Saved(Ok(_))) => {
                *cached = Some(certificate);
                CertificateTask::Ready
            },
            (_, CertificateEvent::Fetched(Err(error))) => CertificateTask::Failed(error),
            (_, CertificateEvent::Saved(Err(error))) => CertificateTask::Failed(error),
            (task, _) => task,
        }
    }
}

/// Whether tasks and cached certificates follow from one another by events, from the start on.
pub open spec fn is_certificate_run<E>(
    now_seconds: u64,
    tasks: Seq<CertificateTask<E>>,
    cached: Seq<Option<SenderCertificate>>,
    events: Seq<CertificateEvent<E>>,
) -> bool {
    &&& tasks.len() == events.len() + 1
    &&& cached.len() == tasks.len()
    &&& tasks[0] == if is_renewal_due(cached[0], now_seconds) {
        CertificateTask::<E>::Fetch
    } else {
        CertificateTask::Ready
    }
    &&& forall|i: int|
        0 <= i < events.len() ==> {
            &&& (#[trigger] tasks[i]).expects(events[i])
            &&& tasks[i + 1] == tasks[i].after(events[i])
            &&& cached[i + 1] == tasks[i].cached_after(cached[i], events[i])
        }
}

/// A certificate is requested exactly when the cached one must be renewed. The new one is saved,
/// and then cached and used, so that it is used without another request as long as it need not be
/// renewed. A cached one that need not be renewed is used as it is. On an error the cached one stays
/// what it was.
pub proof fn law_certificate_is_renewed_saved_and_cached<E>(
    now_seconds: u64,
    tasks: Seq<CertificateTask<E>>,
    cached: Seq<Option<SenderCertificate>>,
    events: Seq<CertificateEvent<E>>,
    later_seconds: u64,
    next: CertificateTask<E>,
)
    requires
        is_certificate_run(now_seconds, tasks, cached, events),
        later_seconds <= u64::MAX - 600,
        call_ensures(sender_certificate::<E>, (&cached.last(), later_seconds), next),
    ensures
        tasks[0] is Fetch <==> is_renewal_due(cached[0], now_seconds),
        !is_renewal_due(cached[0], now_seconds) ==> events.len() == 0 && tasks.last() is Ready,
        tasks.last() is Ready ==> cached.last() is Some,
        tasks.last() is Ready && is_renewal_due(cached[0], now_seconds) ==> {
            &&& events.len() == 2
            &&& events[0] matches CertificateEvent::Fetched(Ok(certificate)) && {
                &&& tasks[1] == (CertificateTask::<E>::Save { certificate })
                &&& cached.last() == Some(certificate)
            }
            &&& events[1] matches CertificateEvent::Saved(Ok(_))
        },
        !(tasks.last() is Ready) ==> cached.last() == cached[0],
        tasks.last() is Failed ==> events.last() matches CertificateEvent::Fetched(Err(_))
            || events.last() matches CertificateEvent::Saved(Err(_)),
        next is Ready <==> !is_renewal_due(cached.last(), later_seconds),
{
    if events.len() > 0 {
        assert(tasks[0].expects(events[0]) && tasks[0int + 1] == tasks[0].after(events[0]));
        if events.len() > 1 {
            assert(tasks[1].expects(events[1]) && tasks[1int + 1] == tasks[1].after(events[1]));
            if events.len() > 2 {
                assert(tasks[2].expects(events[2]));
            }
        }
    }
}

/// Where an account entropy pool comes from.
#[derive(Clone, Debug)]
pub enum EntropyPoolSource<P> {
    /// It is stored.
    Stored(P),
    /// It is to be generated and stored.
    Generate,
    /// Only the primary device can tell it.
    Unavailable,
}

/// Where the account's entropy pool comes from.
pub fn account_entropy_pool<P>(stored: Option<P>, registration: RegistrationType) -> (source:
    EntropyPoolSource<P>)
    ensures
        source == match (stored, registration) {
            (Some(pool), _) => EntropyPoolSource::Stored(pool),
            (None, RegistrationType::Primary) => EntropyPoolSource::Generate,
            (None, RegistrationType::Secondary) => EntropyPoolSource::Unavailable,
        },
{
    match stored {
        Some(pool) => EntropyPoolSource::Stored(pool),
        None => match registration {
            RegistrationType::Primary => EntropyPoolSource::Generate,
            RegistrationType::Secondary => EntropyPoolSource::Unavailable,
        },
    }
}

/// Where a master key comes from.
#[derive(Clone, Debug)]
pub enum MasterKeySource<M, P> {
    /// It is stored.
    Stored(M),
    /// It is derived from the account's entropy pool.
    Derive(P),
    /// It is not known.
    Missing,
}

/// Where the account's master key comes from, given the account's entropy pool.
pub fn master_key<M, P>(stored: Option<M>, pool: Option<P>) -> (source: MasterKeySource<M, P>)
    ensures
        source == match (stored, pool) {
            (Some(key), _) => MasterKeySource::Stored(key),
            (None, Some(pool)) => MasterKeySource::Derive(pool),
            (None, None) => MasterKeySource::Missing,
        },
{
    match stored {
        Some(key) => MasterKeySource::Stored(key),
        None => match pool {
            Some(pool) => MasterKeySource::Derive(pool),
            None => MasterKeySource::Missing,
        },
    }
}

/// What a device says it can do.
#[derive(Clone, Copy, Debug, PartialEq, Eq, Structural)]
pub struct DeviceCapabilities {
    pub storage: bool,
    pub transfer: bool,
    pub attachment_backfill: bool,
    pub spqr: bool,
    pub profiles_v2: bool,
    pub username_change_sync_message: bool,
}

/// What the service knows of a device.
#[derive(Clone, Debug)]
pub struct AccountAttributes {
    pub fetches_messages: bool,
    pub registration_id: u32,
    pub pni_registration_id: u32,
    /// The encrypted name of a linked device.
    pub name: Option<Vec<u8>>,
    pub registration_lock: Option<String>,
    pub unidentified_access_key: Option<Vec<u8>>,
    pub unrestricted_unidentified_access: bool,
    pub capabilities: DeviceCapabilities,
    pub discoverable_by_phone_number: bool,
    pub pin: Option<String>,
    pub recovery_password: Option<Vec<u8>>,
}

/// The name that is encrypted for the attributes of a device: that of a linked one. A device that
/// must be linked again sets no attributes.
pub fn name_to_encrypt(data: &RegistrationData) -> (name: Result<Option<&str>, Error>)
    ensures
        match name {
            Ok(n) => {
                &&& data.pni_registration_id is Some
                &&& n is Some <==> data.device_name is Some
                &&& n matches Some(text) ==> text@ == data.device_name->0@
            },
            Err(error) => error is RelinkNecessary && data.pni_registration_id is None,
        },
{
    match data.pni_registration_id {
        Some(_) => Ok(data.device_name()),
        None => Err(Error::RelinkNecessary),
    }
}

/// The attributes to set for a device. `encrypted_name` is the encrypted name of a linked device
/// and `access_key` the key that its profile key leads to.
///
/// A device that was linked before phone number identities existed must be linked again.
pub fn set_account_attributes(
    data: &RegistrationData,
    encrypted_name: Option<Vec<u8>>,
    access_key: Vec<u8>,
) -> (attributes: Result<AccountAttributes, Error>)
    ensures
        match attributes {
            Ok(a) => {
                &&& data.pni_registration_id == Some(a.pni_registration_id)
                &&& a == (AccountAttributes {
                    fetches_messages: true,
                    registration_id: data.registration_id,
                    pni_registration_id: a.pni_registration_id,
                    name: encrypted_name,
                    registration_lock: None,
                    unidentified_access_key: Some(access_key),
                    unrestricted_unidentified_access: false,
                    capabilities: DeviceCapabilities {
                        storage: true,
                        transfer: false,
                        attachment_backfill: false,
                        spqr: true,
                        profiles_v2: false,
                        username_change_sync_message: true,
                    },
                    discoverable_by_phone_number: true,
                    pin: None,
                    recovery_password: None,
                })
            },
            Err(error) => error is RelinkNecessary && data.pni_registration_id is None,
        },
{
    let pni_registration_id = match data.pni_registration_id {
        Some(id) => id,
        None => {
            return Err(Error::RelinkNecessary);
        },
    };
    Ok(
        AccountAttributes {
            fetches_messages: true,
            registration_id: data.registration_id,
            pni_registration_id,
            name: encrypted_name,
            registration_lock: None,
            unidentified_access_key: Some(access_key),
            unrestricted_unidentified_access: false,
            capabilities: DeviceCapabilities {
                storage: true,
                transfer: false,
                attachment_backfill: false,
                spqr: true,
                profiles_v2: false,
                username_change_sync_message: true,
            },
            discoverable_by_phone_number: true,
            pin: None,
            recovery_password: None,
        },
    )
}

/// What a device that is linked is told.
#[derive(Clone, Debug)]
pub struct ProvisioningSecrets<P, M> {
    pub credentials: ServiceCredentials,
    pub account_entropy_pool: P,
    pub master_key: Option<M>,
    pub ephemeral_backup_key: Option<Vec<u8>>,
    pub media_root_backup_key: Option<Vec<u8>>,
}

/// A client: its store and the state of its registration.
#[derive(Clone, Debug)]
pub struct Manager<S, State> {
    pub store: S,
    pub state: State,
}

impl<S> Manager<S, Registered> {
    /// Loads a previously registered account from what the store holds: its registration, and the
    /// certificate with which messages are sent.
    pub fn load_registered(
        store: S,
        data: Option<RegistrationData>,
        sender_certificate: Option<SenderCertificate>,
    ) -> (manager: Result<Self, Error>)
        ensures
            match manager {
                Ok(m) => {
                    &&& m.store == store
                    &&& data == Some(m.state.data)
                    &&& m.state.sender_certificate == sender_certificate
                },
                Err(error) => error is NotYetRegisteredError && data is None,
            },
    {
        match data {
            Some(data) => {
                let mut registered = Registered::with_data(data);
                registered.sender_certificate = sender_certificate;
                Ok(Manager { store, state: registered })
            },
            None => Err(Error::NotYetRegisteredError),
        }
    }

    /// Returns a handle to the store.
    pub fn store(&self) -> (store: &S)
        ensures
            *store == self.store,
    {
        &self.store
    }

    /// Returns a handle on the [RegistrationData].
    pub fn registration_data(&self) -> (data: &RegistrationData)
        ensures
            *data == self.state.data,
    {
        &self.state.data
    }

    /// The number of this device. `valid` is the registered number, if there is one and it is a
    /// device number; a primary device has the default number.
    pub fn device_id<I>(&self, valid: Option<I>, default: I) -> (device: I)
        ensures
            device == match valid {
                Some(id) => id,
                None => default,
            },
    {
        self.state.device_id(valid, default)
    }

    /// Returns how this client was registered, either as a primary or secondary device.
    pub fn registration_type(&self) -> (registration: RegistrationType)
        ensures
            registration == self.state.registered_as(),
    {
        if self.state.data.device_name.is_some() {
            RegistrationType::Secondary
        } else {
            RegistrationType::Primary
        }
    }

    /// Allows what only a primary device may do: linking a device.
    pub fn link_secondary(&self) -> (allowed: Result<(), Error>)
        ensures
            match allowed {
                Ok(()) => self.state.registered_as() == RegistrationType::Primary,
                Err(error) => {
                    &&& error is NotPrimaryDevice
                    &&& self.state.registered_as() == RegistrationType::Secondary
                },
            },
    {
        match self.registration_type() {
            RegistrationType::Primary => Ok(()),
            RegistrationType::Secondary => Err(Error::NotPrimaryDevice),
        }
    }

    /// What a device that is linked is told. A primary device always has an account entropy pool.
    pub fn provisioning_secrets<P, M>(
        &self,
        credentials: ServiceCredentials,
        account_entropy_pool: P,
        master_key: Option<M>,
    ) -> (secrets: ProvisioningSecrets<P, M>)
        ensures
            secrets.credentials == credentials,
            secrets.account_entropy_pool == account_entropy_pool,
            secrets.master_key == master_key,
            secrets.ephemeral_backup_key is None,
            secrets.media_root_backup_key is None,
    {
        ProvisioningSecrets {
            credentials,
            account_entropy_pool,
            master_key,
            ephemeral_backup_key: None,
            media_root_backup_key: None,
        }
    }

    /// The device to unlink, which only a primary device may do. `device` is the number that was
    /// given, if it is a device number.
    pub fn unlink_secondary<I>(&self, device: Option<I>) -> (unlinked: Result<I, Error>)
        ensures
            match unlinked {
                Ok(id) => {
                    &&& self.state.registered_as() == RegistrationType::Primary
                    &&& device == Some(id)
                },
                Err(Error::NotPrimaryDevice) => self.state.registered_as()
                    == RegistrationType::Secondary,
                Err(Error::InvalidDeviceId) => {
                    &&& self.state.registered_as() == RegistrationType::Primary
                    &&& device is None
                },
                Err(_) => false,
            },
    {
        match self.registration_type() {
            RegistrationType::Secondary => Err(Error::NotPrimaryDevice),
            RegistrationType::Primary => match device {
                Some(id) => Ok(id),
                None => Err(Error::InvalidDeviceId),
            },
        }
    }
}

/// A certificate is requested exactly if there is none, it does not tell when it expires, or it expires
/// within ten minutes, to the second.
pub proof fn law_certificate_is_used_until_shortly_before_it_expires<E>(
    cached: Option<SenderCertificate>,
    now_seconds: u64,
    task: CertificateTask<E>,
)
    requires
        now_seconds <= u64::MAX - 600,
        call_ensures(sender_certificate::<E>, (&cached, now_seconds), task),
    ensures
        task is Fetch || task is Ready,
        task is Ready <==> (cached is Some && cached->0.expiration is Some && cached->0.expiration->0
            >= (now_seconds + 601) * 1000),
{
}

/// A certificate that was fetched is saved as it came; once it is saved it is the cached one. An error
/// ends the task, and the cached certificate then stays what it was.
pub proof fn law_fetched_certificate_is_saved_and_cached<E>(
    certificate: SenderCertificate,
    error: E,
    at_fetch: &mut Option<SenderCertificate>,
    at_save: &mut Option<SenderCertificate>,
    at_error: &mut Option<SenderCertificate>,
    at_late_error: &mut Option<SenderCertificate>,
    fetched: CertificateTask<E>,
    saved: CertificateTask<E>,
    failed: CertificateTask<E>,
    failed_late: CertificateTask<E>,
)
    requires
        call_ensures(
            CertificateTask::<E>::step,
            (
                CertificateTask::<E>::Fetch,
                at_fetch,
                CertificateEvent::<E>::Fetched(Ok(certificate)),
            ),
            fetched,
        ),
        call_ensures(
            CertificateTask::<E>::step,
            (
                CertificateTask::<E>::Save { certificate },
                at_save,
                CertificateEvent::<E>::Saved(Ok(())),
            ),
            saved,
        ),
        call_ensures(
            CertificateTask::<E>::step,
            (CertificateTask::<E>::Fetch, at_error, CertificateEvent::Fetched(Err(error))),
            failed,
        ),
        call_ensures(
            CertificateTask::<E>::step,
            (
                CertificateTask::<E>::Save { certificate },
                at_late_error,
                CertificateEvent::Saved(Err(error)),
            ),
            failed_late,
        ),
    ensures
        fetched == (CertificateTask::<E>::Save { certificate }),
        *final(at_fetch) == *old(at_fetch),
        saved is Ready,
        *final(at_save) == Some(certificate),
        failed == CertificateTask::Failed(error),
        failed_late == CertificateTask::Failed(error),
        *final(at_error) == *old(at_error),
        *final(at_late_error) == *old(at_late_error),
{
}

/// A device with a name is a linked one, and may neither link nor unlink others; any other may link,
/// and unlink what is a device.
pub proof fn law_linked_devices_link_no_others<S, I>(
    manager: &Manager<S, Registered>,
    device: Option<I>,
    registration: RegistrationType,
    linking: Result<(), Error>,
    unlinking: Result<I, Error>,
)
    requires
        call_ensures(Manager::<S, Registered>::registration_type, (manager,), registration),
        call_ensures(Manager::<S, Registered>::link_secondary, (manager,), linking),
        call_ensures(Manager::<S, Registered>::unlink_secondary::<I>, (manager, device), unlinking),
    ensures
        registration is Secondary <==> manager.state.data.device_name is Some,
        linking is Ok <==> manager.state.data.device_name is None,
        manager.state.data.device_name is Some ==> (linking matches Err(Error::NotPrimaryDevice)) && (
        unlinking matches Err(Error::NotPrimaryDevice)),
        manager.state.data.device_name is None ==> match device {
            Some(id) => unlinking == Ok::<I, Error>(id),
            None => unlinking matches Err(Error::InvalidDeviceId),
        },
{
}

/// The account that is loaded is the stored one, with the stored certificate; without a registration
/// there is none. Its credentials are those of its registration.
pub proof fn law_stored_account_is_loaded<S>(
    store: S,
    data: Option<RegistrationData>,
    certificate: Option<SenderCertificate>,
    manager: Result<Manager<S, Registered>, Error>,
    phone_number: String,
    device_id: Option<u32>,
    credentials: ServiceCredentials,
)
    requires
        call_ensures(
            Manager::<S, Registered>::load_registered,
            (store, data, certificate),
            manager,
        ),
        manager matches Ok(m) ==> call_ensures(
            Registered::credentials,
            (&m.state, phone_number, device_id),
            credentials,
        ),
    ensures
        manager is Ok <==> data is Some,
        manager matches Err(error) ==> error is NotYetRegisteredError,
        data matches Some(registration) ==> {
            let loaded = manager->Ok_0;
            &&& loaded.store == store
            &&& loaded.state.data == registration
            &&& loaded.state.sender_certificate == certificate
            &&& credentials.aci == Some(registration.service_ids.aci)
            &&& credentials.pni == Some(registration.service_ids.pni)
            &&& credentials.password matches Some(password) && password@ == registration.password@
            &&& credentials.phone_number == phone_number
            &&& credentials.device_id == device_id
        },
{
}

/// A connection is used again exactly if it is open, and unused where that is asked.
pub proof fn law_open_connections_are_used_again(
    closed: bool,
    used: bool,
    require_unused: bool,
    reuse: bool,
    without: bool,
)
    requires
        call_ensures(
            reuses_websocket,
            (Some(WebsocketState { closed, used }), require_unused),
            reuse,
        ),
        call_ensures(reuses_websocket, (None::<WebsocketState>, require_unused), without),
    ensures
        !without,
        reuse <==> !closed && (!require_unused || !used),
{
}

/// What is stored of the account's keys is used. Without it only a primary device makes a pool, and a
/// master key is derived from a pool that is known.
pub proof fn law_stored_keys_are_used<M, P>(
    stored_pool: Option<P>,
    registration: RegistrationType,
    stored_master: Option<M>,
    pool: Option<P>,
    pool_source: EntropyPoolSource<P>,
    master_source: MasterKeySource<M, P>,
)
    requires
        call_ensures(account_entropy_pool::<P>, (stored_pool, registration), pool_source),
        call_ensures(master_key::<M, P>, (stored_master, pool), master_source),
    ensures
        stored_pool matches Some(p) ==> pool_source == EntropyPoolSource::Stored(p),
        stored_pool is None ==> (pool_source is Generate <==> registration is Primary),
        stored_pool is None ==> (pool_source is Unavailable <==> registration is Secondary),
        stored_master matches Some(key) ==> master_source == MasterKeySource::<M, P>::Stored(key),
        stored_master is None && pool is Some ==> master_source == MasterKeySource::<
            M,
            P,
        >::Derive(pool->0),
        stored_master is None && pool is None ==> master_source is Missing,
{
}

/// The attributes of a device are set exactly if it has a number for its phone number identity; they
/// hold the numbers of the registration, the encrypted name and the access key as they were given.
pub proof fn law_attributes_are_those_of_the_device(
    data: &RegistrationData,
    encrypted_name: Option<Vec<u8>>,
    access_key: Vec<u8>,
    attributes: Result<AccountAttributes, Error>,
    name: Result<Option<&str>, Error>,
)
    requires
        call_ensures(set_account_attributes, (data, encrypted_name, access_key), attributes),
        call_ensures(name_to_encrypt, (data,), name),
    ensures
        attributes is Ok <==> data.pni_registration_id is Some,
        name is Ok <==> data.pni_registration_id is Some,
        attributes matches Err(error) ==> error is RelinkNecessary,
        name matches Err(error) ==> error is RelinkNecessary,
        name matches Ok(told) ==> match (told, data.device_name) {
            (Some(text), Some(device)) => text@ == device@,
            (None, None) => true,
            _ => false,
        },
        attributes matches Ok(set) ==> {
            &&& set.registration_id == data.registration_id
            &&& data.pni_registration_id == Some(set.pni_registration_id)
            &&& set.name == encrypted_name
            &&& set.unidentified_access_key == Some(access_key)
            &&& set.fetches_messages
            &&& set.discoverable_by_phone_number
            &&& !set.unrestricted_unidentified_access
            &&& set.registration_lock is None
            &&& set.pin is None
            &&& set.recovery_password is None
            &&& set.capabilities.storage
            &&& set.capabilities.spqr
            &&& set.capabilities.username_change_sync_message
            &&& !set.capabilities.transfer
            &&& !set.capabilities.attachment_backfill
            &&& !set.capabilities.profiles_v2
        },
{
}

/// What the account is asked of itself it tells as it is registered, and a device that is linked is
/// told what was given for it, and no backup keys.
pub proof fn law_account_tells_what_is_registered<S, I, P, M>(
    manager: &Manager<S, Registered>,
    valid: Option<I>,
    default: I,
    credentials: ServiceCredentials,
    pool: P,
    master: Option<M>,
    store: &S,
    data: &RegistrationData,
    device: I,
    servers: SignalServers,
    key: ProfileKey,
    name: Option<&str>,
    secrets: ProvisioningSecrets<P, M>,
)
    requires
        call_ensures(Manager::<S, Registered>::store, (manager,), store),
        call_ensures(Manager::<S, Registered>::registration_data, (manager,), data),
        call_ensures(
            Manager::<S, Registered>::device_id::<I>,
            (manager, valid, default),
            device,
        ),
        call_ensures(Registered::servers, (&manager.state,), servers),
        call_ensures(RegistrationData::profile_key, (&manager.state.data,), key),
        call_ensures(RegistrationData::device_name, (&manager.state.data,), name),
        call_ensures(
            Manager::<S, Registered>::provisioning_secrets::<P, M>,
            (manager, credentials, pool, master),
            secrets,
        ),
    ensures
        *store == manager.store,
        *data == manager.state.data,
        valid matches Some(id) ==> device == id,
        valid is None ==> device == default,
        servers == manager.state.data.signal_servers,
        key == manager.state.data.profile_key,
        match (name, manager.state.data.device_name) {
            (Some(told), Some(text)) => told@ == text@,
            (None, None) => true,
            _ => false,
        },
        secrets.credentials == credentials,
        secrets.account_entropy_pool == pool,
        secrets.master_key == master,
        secrets.ephemeral_backup_key is None,
        secrets.media_root_backup_key is None,
{
}

} // verus!
