//! Sending messages.

use vstd::prelude::*;

use crate::bytes::{copy_bytes, key_from_bytes};
use crate::content::{
    ensure_data_message_timestamp,
    restore_thread_timer,
    timer_version,
    with_data_timestamp,
    with_thread_timer,
    Content,
    ContentBody,
    DataMessage,
    Metadata,
    RequestType,
    ServiceId,
    StickerPackOperation,
    SyncMessage,
    Thread,
};
use crate::error::Error;
use crate::groups::{is_member, members_without, Group, Member};
use crate::receive::{
    law_messages_are_kept_and_handed_over_once,
    law_requests_are_answered,
    law_sticker_packs_follow_other_devices,
    step_views,
    ReceiveState,
    ReceiveStep,
};
use crate::registration::{Manager, ProfileKey, Registered};
use crate::save::{save_message, SavePlan, StorageStep, TimerUpdate};
use crate::seqs::lemma_filter_places;

verus! {

/// The earliest time that can be told, in milliseconds since the epoch.
pub const MIN_UTC_MILLIS: i64 = -8334601228800000;

/// The latest time that can be told, in milliseconds since the epoch.
pub const MAX_UTC_MILLIS: i64 = 8210266876799999;

/// The protocol version that a message with data requires.
pub const REQUIRED_PROTOCOL_VERSION: u32 = 0;

/// Calls `chrono::TimeZone::timestamp_millis_opt` for `Utc`: the time that a number of milliseconds
/// since the epoch is, told again as such a number. There is none outside the years that `chrono`
/// knows, from -262143 to 262142.
#[verifier::external_body]
fn utc_millis(millis: i64) -> (time: Option<i64>)
    ensures
        time == if MIN_UTC_MILLIS <= millis <= MAX_UTC_MILLIS {
            Some(millis)
        } else {
            None
        },
{
    chrono::TimeZone::timestamp_millis_opt(&chrono::Utc, millis).single().map(
        |time| time.timestamp_millis(),
    )
}

/// The time of a message, if it can be told.
pub open spec fn message_time_of(timestamp: u64) -> Option<i64> {
    let millis = timestamp as i64;
    if MIN_UTC_MILLIS <= millis <= MAX_UTC_MILLIS {
        Some(millis)
    } else {
        None
    }
}

/// The time of a message, if it can be told.
pub fn message_time(timestamp: u64) -> (time: Option<i64>)
    ensures
        time == message_time_of(timestamp),
{
    utc_millis(#[verifier::truncate] (timestamp as i64))
}

/// What allows a message to be sent without telling the service who sends it.
#[derive(Clone, Debug)]
pub struct UnidentifiedAccess<C> {
    pub key: Vec<u8>,
    pub certificate: C,
}

/// The access to a recipient whose profile key is known. `access_key` is what the profile key leads
/// to.
pub fn unidentified_access<C>(access_key: Option<Vec<u8>>, certificate: C) -> (access: Option<
    UnidentifiedAccess<C>,
>)
    ensures
        match access_key {
            Some(key) => access == Some(UnidentifiedAccess { key, certificate }),
            None => access is None,
        },
{
    match access_key {
        Some(key) => Some(UnidentifiedAccess { key, certificate }),
        None => None,
    }
}

/// A message that is ready to be sent.
#[derive(Debug)]
pub struct OutgoingMessage {
    /// Where the message is stored once it is sent.
    pub thread: Thread,
    /// Whom the stored message names as its recipient.
    pub destination: ServiceId,
    pub body: ContentBody,
    pub timestamp: u64,
    pub include_pni_signature: bool,
    pub online_only: bool,
}

/// Whether a message with data was completed by the sender's profile key: the key that it names
/// already, or else the account's own.
pub open spec fn carries_profile_key(
    message: DataMessage,
    from: DataMessage,
    own_key: ProfileKey,
) -> bool {
    &&& match from.profile_key {
        Some(_) => message.profile_key == from.profile_key,
        None => message.profile_key matches Some(bytes) && bytes@ == own_key.bytes@,
    }
    &&& message.required_protocol_version == Some(REQUIRED_PROTOCOL_VERSION)
    &&& message == (DataMessage {
        profile_key: message.profile_key,
        required_protocol_version: message.required_protocol_version,
        ..from
    })
}

/// Whether a body is another one with the timer, the profile key and the time that a message to a
/// contact carries.
pub open spec fn is_completed_body(
    body: ContentBody,
    from: ContentBody,
    stored_timer: Option<(u32, u32)>,
    own_key: ProfileKey,
    timestamp: u64,
) -> bool {
    let timed = with_data_timestamp(with_thread_timer(from, stored_timer), timestamp);
    match timed {
        ContentBody::DataMessage(message) => body matches ContentBody::DataMessage(completed)
            && carries_profile_key(completed, message, own_key),
        _ => body == timed,
    }
}

/// Whether the timer of a thread leaves room for a version, which a message with a timer uses.
pub open spec fn timer_can_change(body: ContentBody, stored_timer: Option<(u32, u32)>) -> bool {
    body matches ContentBody::DataMessage(message) && message.expire_timer is Some
        ==> timer_version(stored_timer) < u32::MAX
}

/// Fills in the profile key of a message with data.
fn set_profile_key(body: &mut ContentBody, own_key: ProfileKey)
    ensures
        match *old(body) {
            ContentBody::DataMessage(message) => {
                *final(body) matches ContentBody::DataMessage(completed) && carries_profile_key(
                    completed,
                    message,
                    own_key,
                )
            },
            _ => *final(body) == *old(body),
        },
{
    if let ContentBody::DataMessage(message) = body {
        if message.profile_key.is_none() {
            message.profile_key = Some(copy_bytes(&own_key.bytes));
        }
        message.required_protocol_version = Some(REQUIRED_PROTOCOL_VERSION);
    }
}

/// Why a message did not reach one recipient.
#[derive(Clone, Debug)]
pub enum SendFailure<E> {
    /// There is no such account any more.
    NotFound,
    Other(E),
}

/// Whether sending to one recipient counts as failed. An account that is gone does not.
pub open spec fn is_failure<E>(result: Result<(), SendFailure<E>>) -> bool {
    result matches Err(SendFailure::Other(_))
}

/// What came of sending to several recipients: the first failure, if there is one.
pub fn first_failure<E>(results: Vec<Result<(), SendFailure<E>>>) -> (result: Result<(), E>)
    ensures
        match result {
            Ok(()) => forall|i: int|
                0 <= i < results@.len() ==> !is_failure(#[trigger] results@[i]),
            Err(error) => exists|i: int|
                #![trigger results@[i]]
                {
                    &&& 0 <= i < results@.len()
                    &&& results@[i] == Err::<(), _>(SendFailure::Other(error))
                    &&& forall|j: int| 0 <= j < i ==> !is_failure(#[trigger] results@[j])
                },
        },
{
    let ghost all = results@;
    for result in iter: results
        invariant
            iter.seq() == all,
            all == results@,
            forall|j: int| 0 <= j < iter.index() ==> !is_failure(#[trigger] all[j]),
    {
        assert(result == all[iter.index() as int]);
        match result {
            Ok(()) => {},
            Err(SendFailure::NotFound) => {},
            Err(SendFailure::Other(error)) => {
                assert(all[iter.index() as int] == Err::<(), _>(SendFailure::Other(error)));
                return Err(error);
            },
        }
    }
    Ok(())
}

/// A message to the account's other devices that says nothing.
fn empty_sync_message() -> (message: SyncMessage)
    ensures
        message.sent is None,
        message.request is None,
        !message.contacts,
        message.sticker_pack_operation@.len() == 0,
        message.keys is None,
        message.delete_for_me is None,
        !message.call_event,
{
    SyncMessage {
        sent: None,
        request: None,
        contacts: false,
        sticker_pack_operation: Vec::new(),
        keys: None,
        delete_for_me: None,
        call_event: false,
    }
}

/// Whether a message to the account's other devices says nothing but what it asks for and what was
/// done to sticker packs.
pub open spec fn says_nothing_else(message: SyncMessage) -> bool {
    &&& message.sent is None
    &&& !message.contacts
    &&& message.keys is None
    &&& message.delete_for_me is None
    &&& !message.call_event
}

/// The message that asks the account's other devices for something.
pub fn request_message(request: RequestType) -> (message: SyncMessage)
    ensures
        message.request == Some(request),
        message.sticker_pack_operation@.len() == 0,
        says_nothing_else(message),
{
    let mut message = empty_sync_message();
    message.request = Some(request);
    message
}

/// The message that tells the account's other devices what was done to a sticker pack.
pub fn sticker_pack_message(operation: StickerPackOperation) -> (message: SyncMessage)
    ensures
        message.request is None,
        message.sticker_pack_operation@ == seq![operation],
        says_nothing_else(message),
{
    let mut message = empty_sync_message();
    let mut operations: Vec<StickerPackOperation> = Vec::new();
    operations.push(operation);
    assert(operations@ =~= seq![operation]);
    message.sticker_pack_operation = operations;
    message
}

/// Whether what is stored of a message is what follows from sending it: the message under the
/// account that sent it, or the failure.
pub open spec fn is_stored_after<E>(
    stored: Result<Content, E>,
    sent: Result<(), E>,
    message: OutgoingMessage,
    own_aci: u128,
    own_device: u32,
) -> bool {
    match (sent, stored) {
        (Ok(()), Ok(content)) => {
            &&& content.body == message.body
            &&& content.metadata == (Metadata {
                sender: ServiceId::Aci(own_aci),
                sender_device: own_device,
                destination: message.destination,
                server_guid: None,
                timestamp: message_time_of(message.timestamp)->0,
                server_timestamp: message_time_of(message.timestamp)->0,
                needs_receipt: false,
                unidentified_sender: false,
                was_plaintext: false,
            })
        },
        (Err(failure), Err(error)) => error == failure,
        _ => false,
    }
}

impl OutgoingMessage {
    /// What is stored of a message once it was sent; nothing is if it could not be. There is no way
    /// to tell when the service received it, so that its own time stands for that.
    pub fn finish<E>(self, sent: Result<(), E>, own_aci: u128, own_device: u32) -> (stored: Result<
        Content,
        E,
    >)
        requires
            sent is Ok ==> message_time_of(self.timestamp) is Some,
        ensures
            is_stored_after(stored, sent, self, own_aci, own_device),
    {
        match sent {
            Err(error) => Err(error),
            Ok(()) => {
                let time: i64 = message_time(self.timestamp).unwrap();
                Ok(
                    Content {
                        metadata: Metadata {
                            sender: ServiceId::Aci(own_aci),
                            sender_device: own_device,
                            destination: self.destination,
                            server_guid: None,
                            timestamp: time,
                            server_timestamp: time,
                            needs_receipt: false,
                            unidentified_sender: false,
                            was_plaintext: false,
                        },
                        body: self.body,
                    },
                )
            },
        }
    }
}

impl<S> Manager<S, Registered> {
    /// Sends a message to the provided [ServiceId].
    /// The timestamp should be set to now and is used by Signal mobile apps
    /// to order messages later, and apply reactions.
    ///
    /// This method will automatically update the [DataMessage::expire_timer] if it is set to
    /// [None] such that the chat will keep the current expire timer. If the expire timer is set,
    /// it will be used as is, and the expire timer version will be incremented.
    ///
    /// `stored_timer` is the timer of the thread and its version, if it is stored.
    pub fn send_message(
        &self,
        recipient: ServiceId,
        message: ContentBody,
        stored_timer: Option<(u32, u32)>,
        timestamp: u64,
    ) -> (outgoing: OutgoingMessage)
        requires
            timer_can_change(message, stored_timer),
        ensures
            outgoing.thread == Thread::Contact(recipient),
            outgoing.destination == recipient,
            is_completed_body(
                outgoing.body,
                message,
                stored_timer,
                self.state.data.profile_key,
                timestamp,
            ),
            outgoing.timestamp == timestamp,
            !outgoing.include_pni_signature,
            !outgoing.online_only,
    {
        let mut body = message;
        restore_thread_timer(&mut body, stored_timer);
        set_profile_key(&mut body, self.state.data.profile_key);
        ensure_data_message_timestamp(&mut body, timestamp);
        OutgoingMessage {
            thread: Thread::Contact(recipient),
            destination: recipient,
            body,
            timestamp,
            include_pni_signature: false,
            online_only: false,
        }
    }

    /// Sends one message in a group (v2). The `master_key_bytes` is required to have 32 elements.
    ///
    /// This method will automatically update the [DataMessage::expire_timer] if it is set to
    /// [None] such that the chat will keep the current expire timer.
    ///
    /// `stored_timer` is the timer of the thread and its version, if it is stored.
    pub fn send_message_to_group(
        &self,
        master_key_bytes: &[u8],
        message: ContentBody,
        stored_timer: Option<(u32, u32)>,
        timestamp: u64,
    ) -> (outgoing: OutgoingMessage)
        requires
            master_key_bytes@.len() == 32,
            timer_can_change(message, stored_timer),
        ensures
            outgoing.thread matches Thread::Group(key) && key@ == master_key_bytes@,
            outgoing.destination == ServiceId::Aci(self.state.data.service_ids.aci),
            outgoing.body == with_data_timestamp(
                with_thread_timer(message, stored_timer),
                timestamp,
            ),
            outgoing.timestamp == timestamp,
            !outgoing.include_pni_signature,
            !outgoing.online_only,
    {
        let master_key = key_from_bytes(master_key_bytes).unwrap();
        let mut body = message;
        restore_thread_timer(&mut body, stored_timer);
        ensure_data_message_timestamp(&mut body, timestamp);
        OutgoingMessage {
            thread: Thread::Group(master_key),
            destination: ServiceId::Aci(self.state.data.service_ids.aci),
            body,
            timestamp,
            include_pni_signature: false,
            online_only: false,
        }
    }

    /// What is stored of a message once this account sent it from a device; nothing is if it could
    /// not be.
    pub fn finish_send<E>(
        &self,
        outgoing: OutgoingMessage,
        sent: Result<(), E>,
        own_device: u32,
    ) -> (stored: Result<Content, E>)
        requires
            sent is Ok ==> message_time_of(outgoing.timestamp) is Some,
        ensures
            is_stored_after(stored, sent, outgoing, self.state.data.service_ids.aci, own_device),
            stored matches Ok(content) ==> content.metadata.sender == ServiceId::Aci(
                self.state.data.service_ids.aci,
            ),
    {
        outgoing.finish(sent, self.state.data.service_ids.aci, own_device)
    }

    /// The accounts to which a message in a group is sent: every member but this account.
    pub fn group_recipients<D>(&self, group: Option<&Group<D>>) -> (recipients: Result<
        Vec<u128>,
        Error,
    >)
        ensures
            match (group, recipients) {
                (Some(g), Ok(acis)) => acis@ == members_without(
                    g.members@,
                    self.state.data.service_ids.aci,
                ).map_values(|member: Member| member.aci),
                (Some(_), Err(_)) => false,
                (None, r) => r matches Err(Error::UnknownGroup),
            },
    {
        let own = self.state.data.service_ids.aci;
        let group = match group {
            Some(group) => group,
            None => {
                return Err(Error::UnknownGroup);
            },
        };
        let ghost keep = |member: Member| member.aci != own;
        let ghost to_aci = |member: Member| member.aci;
        let mut recipients: Vec<u128> = Vec::new();
        let mut index: usize = 0;
        while index < group.members.len()
            invariant
                index <= group.members@.len(),
                keep == (|member: Member| member.aci != own),
                to_aci == (|member: Member| member.aci),
                recipients@ == group.members@.take(index as int).filter(keep).map_values(to_aci),
            decreases group.members@.len() - index,
        {
            proof {
                let taken = group.members@.take(index + 1);
                assert(taken.drop_last() =~= group.members@.take(index as int));
                reveal(Seq::filter);
                if keep(taken.last()) {
                    assert(taken.filter(keep).map_values(to_aci) =~= taken.drop_last().filter(
                        keep,
                    ).map_values(to_aci).push(taken.last().aci));
                }
            }
            let aci: u128 = group.members[index].aci;
            if aci != own {
                recipients.push(aci);
            }
            index += 1;
        }
        proof {
            assert(group.members@.take(index as int) =~= group.members@);
        }
        Ok(recipients)
    }

    /// Request the primary device to encrypt & send all of its contacts.
    ///
    /// **Note**: If successful, the contacts are not yet received and stored, but will only be
    /// processed when they're received.
    pub fn request_contacts(&self) -> (request: (ServiceId, SyncMessage))
        ensures
            request.0 == ServiceId::Aci(self.state.data.service_ids.aci),
            request.1.request == Some(RequestType::Contacts),
            request.1.sticker_pack_operation@.len() == 0,
            says_nothing_else(request.1),
    {
        (
            ServiceId::Aci(self.state.data.service_ids.aci),
            request_message(RequestType::Contacts),
        )
    }

    /// The devices with which sessions are archived before a new one is made. The main device is
    /// not among those with a stored session, and is added.
    pub fn send_session_reset(
        &self,
        recipient: &ServiceId,
        sub_devices: Vec<u32>,
        default_device: u32,
    ) -> (addresses: (u128, Vec<u32>))
        requires
            recipient is Aci,
        ensures
            *recipient == ServiceId::Aci(addresses.0),
            addresses.1@ == sub_devices@.push(default_device),
    {
        let mut devices = sub_devices;
        devices.push(default_device);
        (recipient.raw_uuid(), devices)
    }
}

/// The members of a group that a message reaches are all of them but the sender.
pub proof fn law_group_message_reaches_all_others(members: Seq<Member>, own: u128, aci: u128)
    ensures
        members_without(members, own).map_values(|member: Member| member.aci).contains(aci)
            <==> aci != own && is_member(members, aci),
{
    crate::groups::law_departure_removes_only_the_account(members, own, aci);
    crate::groups::law_departure_removes_only_the_account(members, own, own);
    let others = members_without(members, own);
    let acis = others.map_values(|member: Member| member.aci);
    if acis.contains(aci) {
        let i = choose|i: int| 0 <= i < acis.len() && acis[i] == aci;
        assert(others[i].aci == aci);
        assert(is_member(others, aci));
    }
    if is_member(others, aci) {
        let i = choose|i: int| 0 <= i < others.len() && (#[trigger] others[i]).aci == aci;
        assert(acis[i] == aci);
    }
}

/// What is stored of a message that was sent to a contact: the message itself, in the contact's
/// thread, and the timer that it carries. So a message without a timer leaves the thread's timer
/// and its version as they were, and one with a timer sets it under the next version.
pub proof fn law_sent_message_sets_the_thread_timer<S, E>(
    manager: Manager<S, Registered>,
    recipient: ServiceId,
    message: DataMessage,
    timer: u32,
    version: u32,
    timestamp: u64,
    own_device: u32,
    derived: Thread,
    outgoing: OutgoingMessage,
    content: Content,
    plan: Result<SavePlan, Error>,
)
    requires
        version < u32::MAX,
        message.delete is None,
        call_ensures(
            Manager::<S, Registered>::send_message,
            (
                &manager,
                recipient,
                ContentBody::DataMessage(message),
                Some((timer, version)),
                timestamp,
            ),
            outgoing,
        ),
        call_ensures(
            Manager::<S, Registered>::finish_send::<E>,
            (&manager, outgoing, Ok(()), own_device),
            Ok(content),
        ),
        call_ensures(
            save_message,
            (content, Some(derived), Some(outgoing.thread), false, timestamp),
            plan,
        ),
    ensures
        plan matches Ok(p) && {
            &&& p.thread == Thread::Contact(recipient)
            &&& p.storage == StorageStep::Save(content)
            &&& content.metadata.sender == ServiceId::Aci(manager.state.data.service_ids.aci)
            &&& p.profile_update is None
            &&& p.timer == Some(
                TimerUpdate {
                    contact: recipient.uuid(),
                    expire_timer: match message.expire_timer {
                        Some(new_timer) => new_timer,
                        None => timer,
                    },
                    expire_timer_version: if message.expire_timer is Some {
                        (version + 1) as u32
                    } else {
                        version
                    },
                },
            )
        },
{
}

/// A message without a timer keeps that of its thread; one with a timer keeps its own, under a
/// version that is newer than the thread's.
pub proof fn law_timer_is_kept_or_renewed(
    message: DataMessage,
    stored_timer: Option<(u32, u32)>,
    timestamp: u64,
)
    requires
        timer_can_change(ContentBody::DataMessage(message), stored_timer),
    ensures
        with_data_timestamp(
            with_thread_timer(ContentBody::DataMessage(message), stored_timer),
            timestamp,
        ) matches ContentBody::DataMessage(sent) && {
            &&& sent.timestamp == Some(timestamp)
            &&& match message.expire_timer {
                Some(timer) => {
                    &&& sent.expire_timer == Some(timer)
                    &&& sent.expire_timer_version matches Some(version) && version > timer_version(
                        stored_timer,
                    )
                },
                None => {
                    &&& sent.expire_timer.unwrap_or(0) == match stored_timer {
                        Some((timer, _)) => timer,
                        None => 0,
                    }
                    &&& sent.expire_timer_version == Some(timer_version(stored_timer))
                },
            }
        },
{
}

/// What is sent to a contact is the given message. A message with data gets its time, the protocol
/// version, the account's profile key unless it names one, and the timer of the thread unless it
/// brings its own; it speaks of the same group and of the same deletion, and of everything else as it
/// was given. Other messages get their time, wherever they hold data.
pub proof fn law_contact_gets_the_given_message<S>(
    manager: &Manager<S, Registered>,
    recipient: ServiceId,
    message: ContentBody,
    stored_timer: Option<(u32, u32)>,
    timestamp: u64,
    outgoing: OutgoingMessage,
)
    requires
        call_ensures(
            Manager::<S, Registered>::send_message,
            (manager, recipient, message, stored_timer, timestamp),
            outgoing,
        ),
        message matches ContentBody::DataMessage(data) && data.expire_timer is Some ==> (
        stored_timer matches Some((_, version)) ==> version < u32::MAX),
    ensures
        outgoing.thread == Thread::Contact(recipient),
        outgoing.destination == recipient,
        outgoing.timestamp == timestamp,
        !outgoing.include_pni_signature,
        !outgoing.online_only,
        match message {
            ContentBody::DataMessage(given) => outgoing.body matches ContentBody::DataMessage(sent)
                && {
                &&& sent.timestamp == Some(timestamp)
                &&& sent.group_v2 == given.group_v2
                &&& sent.delete == given.delete
                &&& sent.required_protocol_version == Some(0u32)
                &&& given.profile_key is Some ==> sent.profile_key == given.profile_key
                &&& given.profile_key is None ==> (sent.profile_key matches Some(key) && key@
                    == manager.state.data.profile_key.bytes@)
                &&& match (given.expire_timer, stored_timer) {
                    (Some(timer), Some((_, version))) => sent.expire_timer == Some(timer)
                        && sent.expire_timer_version == Some((version + 1) as u32),
                    (Some(timer), None) => sent.expire_timer == Some(timer)
                        && sent.expire_timer_version == Some(1u32),
                    (None, Some((timer, version))) => sent.expire_timer == (if timer == 0 {
                        None
                    } else {
                        Some(timer)
                    }) && sent.expire_timer_version == Some(version),
                    (None, None) => sent.expire_timer is None && sent.expire_timer_version == Some(
                        0u32,
                    ),
                }
            },
            ContentBody::EditMessage(given) => outgoing.body matches ContentBody::EditMessage(sent)
                && {
                &&& sent.target_sent_timestamp == given.target_sent_timestamp
                &&& sent.data_message is Some <==> given.data_message is Some
                &&& given.data_message matches Some(data) ==> sent.data_message == Some(
                    DataMessage { timestamp: Some(timestamp), ..data },
                )
            },
            ContentBody::SynchronizeMessage(given) => {
                outgoing.body matches ContentBody::SynchronizeMessage(sent) && {
                    &&& sent == (SyncMessage { sent: sent.sent, ..given })
                    &&& sent.sent is Some <==> given.sent is Some
                    &&& given.sent matches Some(from) ==> {
                        let to = sent.sent->0;
                        &&& to.message is Some <==> from.message is Some
                        &&& from.message matches Some(data) ==> to.message == Some(
                            DataMessage { timestamp: Some(timestamp), ..data },
                        )
                        &&& to.edit_message is Some <==> from.edit_message is Some
                        &&& from.edit_message matches Some(edit) ==> {
                            let changed = to.edit_message->0;
                            &&& changed.target_sent_timestamp == edit.target_sent_timestamp
                            &&& changed.data_message is Some <==> edit.data_message is Some
                            &&& edit.data_message matches Some(data) ==> changed.data_message
                                == Some(DataMessage { timestamp: Some(timestamp), ..data })
                        }
                    }
                }
            },
            given => outgoing.body == given,
        },
{
}

/// What is sent in a group is the given message, in that group's thread. A message with data gets its
/// time and the timer of the thread unless it brings its own; it speaks of the same group and of the
/// same deletion, and of everything else as it was given. Other messages get their time, wherever
/// they hold data.
pub proof fn law_group_gets_the_given_message<S>(
    manager: &Manager<S, Registered>,
    master_key_bytes: &[u8],
    message: ContentBody,
    stored_timer: Option<(u32, u32)>,
    timestamp: u64,
    outgoing: OutgoingMessage,
)
    requires
        call_ensures(
            Manager::<S, Registered>::send_message_to_group,
            (manager, master_key_bytes, message, stored_timer, timestamp),
            outgoing,
        ),
        master_key_bytes@.len() == 32,
        message matches ContentBody::DataMessage(data) && data.expire_timer is Some ==> (
        stored_timer matches Some((_, version)) ==> version < u32::MAX),
    ensures
        outgoing.thread matches Thread::Group(key) && key@ == master_key_bytes@,
        outgoing.destination == ServiceId::Aci(manager.state.data.service_ids.aci),
        outgoing.timestamp == timestamp,
        !outgoing.include_pni_signature,
        !outgoing.online_only,
        match message {
            ContentBody::DataMessage(given) => outgoing.body matches ContentBody::DataMessage(sent)
                && {
                &&& sent.timestamp == Some(timestamp)
                &&& sent.group_v2 == given.group_v2
                &&& sent.delete == given.delete
                &&& sent.profile_key == given.profile_key
                &&& sent.required_protocol_version == given.required_protocol_version
                &&& match (given.expire_timer, stored_timer) {
                    (Some(timer), Some((_, version))) => sent.expire_timer == Some(timer)
                        && sent.expire_timer_version == Some((version + 1) as u32),
                    (Some(timer), None) => sent.expire_timer == Some(timer)
                        && sent.expire_timer_version == Some(1u32),
                    (None, Some((timer, version))) => sent.expire_timer == (if timer == 0 {
                        None
                    } else {
                        Some(timer)
                    }) && sent.expire_timer_version == Some(version),
                    (None, None) => sent.expire_timer is None && sent.expire_timer_version == Some(
                        0u32,
                    ),
                }
            },
            ContentBody::EditMessage(given) => outgoing.body matches ContentBody::EditMessage(sent)
                && {
                &&& sent.target_sent_timestamp == given.target_sent_timestamp
                &&& sent.data_message is Some <==> given.data_message is Some
                &&& given.data_message matches Some(data) ==> sent.data_message == Some(
                    DataMessage { timestamp: Some(timestamp), ..data },
                )
            },
            ContentBody::SynchronizeMessage(given) => {
                outgoing.body matches ContentBody::SynchronizeMessage(sent) && {
                    &&& sent == (SyncMessage { sent: sent.sent, ..given })
                    &&& sent.sent is Some <==> given.sent is Some
                    &&& given.sent matches Some(from) ==> {
                        let to = sent.sent->0;
                        &&& to.message is Some <==> from.message is Some
                        &&& from.message matches Some(data) ==> to.message == Some(
                            DataMessage { timestamp: Some(timestamp), ..data },
                        )
                        &&& to.edit_message is Some <==> from.edit_message is Some
                        &&& from.edit_message matches Some(edit) ==> {
                            let changed = to.edit_message->0;
                            &&& changed.target_sent_timestamp == edit.target_sent_timestamp
                            &&& changed.data_message is Some <==> edit.data_message is Some
                            &&& edit.data_message matches Some(data) ==> changed.data_message
                                == Some(DataMessage { timestamp: Some(timestamp), ..data })
                        }
                    }
                }
            },
            given => outgoing.body == given,
        },
{
}

/// A message that was sent is stored as it went out, as one of this account and device to its
/// destination, at the time that it was given. One that could not be sent is not stored, and the
/// failure is told.
pub proof fn law_sent_message_is_stored_as_it_went_out<S, E>(
    manager: &Manager<S, Registered>,
    outgoing: OutgoingMessage,
    sent: Result<(), E>,
    own_device: u32,
    stored: Result<Content, E>,
)
    requires
        call_ensures(
            Manager::<S, Registered>::finish_send::<E>,
            (manager, outgoing, sent, own_device),
            stored,
        ),
        outgoing.timestamp <= 8210266876799999,
    ensures
        sent is Ok <==> stored is Ok,
        sent matches Err(failure) ==> stored == Err::<Content, E>(failure),
        stored matches Ok(content) ==> {
            &&& content.body == outgoing.body
            &&& content.metadata.sender == ServiceId::Aci(manager.state.data.service_ids.aci)
            &&& content.metadata.sender_device == own_device
            &&& content.metadata.destination == outgoing.destination
            &&& content.metadata.timestamp == outgoing.timestamp
            &&& content.metadata.server_timestamp == outgoing.timestamp
            &&& content.metadata.server_guid is None
            &&& !content.metadata.needs_receipt
            &&& !content.metadata.unidentified_sender
            &&& !content.metadata.was_plaintext
        },
{
}

/// A message in a group goes to everyone who is a member, but not to this account, and to nobody
/// else, in the order and as often as the group lists them: the `k`-th recipient is the member at the
/// `k`-th of the places, which rise and leave out nobody but this account. Without the group there is
/// an error.
pub proof fn law_group_recipients_are_the_other_members<S, D>(
    manager: &Manager<S, Registered>,
    group: Option<&Group<D>>,
    recipients: Result<Vec<u128>, Error>,
) -> (places: Seq<int>)
    requires
        call_ensures(Manager::<S, Registered>::group_recipients::<D>, (manager, group), recipients),
    ensures
        group is None ==> recipients matches Err(Error::UnknownGroup),
        group is Some ==> recipients is Ok,
        group matches Some(g) ==> {
            let own = manager.state.data.service_ids.aci;
            let acis = recipients->Ok_0@;
            &&& places.len() == acis.len()
            &&& forall|k: int|
                #![trigger places[k]]
                #![trigger acis[k]]
                0 <= k < places.len() ==> 0 <= places[k] < g.members@.len() && acis[k]
                    == g.members@[places[k]].aci && acis[k] != own
            &&& forall|j: int, k: int|
                #![trigger places[j], places[k]]
                0 <= j < k < places.len() ==> places[j] < places[k]
            &&& forall|i: int|
                0 <= i < g.members@.len() && (#[trigger] g.members@[i]).aci != own
                    ==> places.contains(i)
        },
{
    if let Some(g) = group {
        let own = manager.state.data.service_ids.aci;
        let members = g.members@;
        let keep = |member: Member| member.aci != own;
        let places = lemma_filter_places(members, keep);
        assert forall|i: int| 0 <= i < members.len() && (#[trigger] members[i]).aci != own implies
            places.contains(i) by {
            assert(keep(members[i]));
        }
        places
    } else {
        Seq::empty()
    }
}

/// Sending to several recipients fails exactly if it failed for one of them for another reason than
/// that the account is gone, and the first such reason is told.
pub proof fn law_only_real_failures_count<E>(
    results: Vec<Result<(), SendFailure<E>>>,
    result: Result<(), E>,
)
    requires
        call_ensures(first_failure::<E>, (results,), result),
    ensures
        result is Err <==> exists|i: int|
            0 <= i < results@.len() && (#[trigger] results@[i] matches Err(SendFailure::Other(_))),
        result matches Err(error) ==> exists|i: int|
            {
                &&& 0 <= i < results@.len()
                &&& #[trigger] results@[i] == Err::<(), _>(SendFailure::Other(error))
                &&& forall|j: int|
                    0 <= j < i ==> !(#[trigger] results@[j] matches Err(SendFailure::Other(_)))
            },
{
    if let Ok(()) = result {
        assert forall|i: int| 0 <= i < results@.len() implies !(
        #[trigger] results@[i] matches Err(SendFailure::Other(_))) by {
            assert(!is_failure(results@[i]));
        }
    }
    if let Err(error) = result {
        let i = choose|i: int|
            #![trigger results@[i]]
            {
                &&& 0 <= i < results@.len()
                &&& results@[i] == Err::<(), _>(SendFailure::Other(error))
                &&& forall|j: int| 0 <= j < i ==> !is_failure(#[trigger] results@[j])
            };
        assert forall|j: int| 0 <= j < i implies !(
        #[trigger] results@[j] matches Err(SendFailure::Other(_))) by {
            assert(!is_failure(results@[j]));
        }
    }
}

/// What this device asks of the account's others, they answer; and what it did to a sticker pack,
/// they do as well: the messages that it sends them lead to that, and to nothing else but that they
/// are stored and handed over.
pub proof fn law_other_devices_follow(
    request: RequestType,
    operation: StickerPackOperation,
    asking: SyncMessage,
    telling: SyncMessage,
    receiver: &ReceiveState,
    asked: &Content,
    told: &Content,
    answer: Vec<ReceiveStep>,
    followed: Vec<ReceiveStep>,
)
    requires
        call_ensures(request_message, (request,), asking),
        call_ensures(sticker_pack_message, (operation,), telling),
        asked.body == ContentBody::SynchronizeMessage(asking),
        told.body == ContentBody::SynchronizeMessage(telling),
        call_ensures(ReceiveState::content_received, (receiver, asked), answer),
        call_ensures(ReceiveState::content_received, (receiver, told), followed),
    ensures
        request is Other ==> answer@.len() == 2,
        !(request is Other) ==> answer@.len() == 3,
        request is Contacts ==> answer@[0] is SendContacts,
        request is Keys ==> answer@[0] is SendKeys,
        request is Blocked ==> answer@[0] is SendNobodyBlocked,
        answer@[answer@.len() - 2] is SaveMessage,
        answer@.last() is EmitContent,
        followed@.len() == 3,
        operation.action is Install ==> (
        followed@[0] matches ReceiveStep::InstallStickerPack(installed) && {
            &&& match (installed.pack_id, operation.pack_id) {
                (Some(id), Some(given)) => id@ == given@,
                (None, None) => true,
                _ => false,
            }
            &&& match (installed.pack_key, operation.pack_key) {
                (Some(key), Some(given)) => key@ == given@,
                (None, None) => true,
                _ => false,
            }
        }),
        operation.action is Remove ==> (followed@[0] matches ReceiveStep::RemoveStickerPack(pack_id)
            && (operation.pack_id matches Some(id) ==> pack_id@ == id@)),
        followed@[1] is SaveMessage,
        followed@[2] is EmitContent,
{
    law_requests_are_answered(receiver, asked, answer);
    law_messages_are_kept_and_handed_over_once(receiver, asked, answer);
    law_messages_are_kept_and_handed_over_once(receiver, told, followed);
    let first = law_sticker_packs_follow_other_devices(receiver, told, followed);
    assert(step_views(answer@).len() == answer@.len());
    assert(step_views(followed@).len() == followed@.len());
    let operations = telling.sticker_pack_operation@;
    assert(operations[0] == operation);
    assert(followed@[first] is InstallStickerPack || followed@[first] is RemoveStickerPack);
    assert(first == 0);
}

/// A request to the account's other devices is sent to this account, and asks for the contacts.
pub proof fn law_contacts_are_requested_of_the_account<S>(
    manager: &Manager<S, Registered>,
    request: (ServiceId, SyncMessage),
)
    requires
        call_ensures(Manager::<S, Registered>::request_contacts, (manager,), request),
    ensures
        request.0 == ServiceId::Aci(manager.state.data.service_ids.aci),
        request.1.request == Some(RequestType::Contacts),
        request.1.sent is None,
        !request.1.contacts,
        request.1.sticker_pack_operation@.len() == 0,
        request.1.keys is None,
        request.1.delete_for_me is None,
        !request.1.call_event,
{
}

/// The time of a message is the one that it was given, up to the end of the times that can be told. A
/// number beyond 63 bits is a time before the epoch, as far as such times can be told.
pub proof fn law_time_of_a_message_is_kept(timestamp: u64, time: Option<i64>)
    requires
        call_ensures(message_time, (timestamp,), time),
    ensures
        timestamp <= 8210266876799999 ==> (time matches Some(t) && t == timestamp),
        8210266876799999 < timestamp <= i64::MAX ==> time is None,
        timestamp > i64::MAX ==> match time {
            Some(t) => t == timestamp - 0x1_0000_0000_0000_0000 && t >= -8334601228800000,
            None => timestamp - 0x1_0000_0000_0000_0000 < -8334601228800000,
        },
{
    assert(timestamp >= 0x8000_0000_0000_0000 ==> (timestamp as i64) as int == timestamp
        - 0x1_0000_0000_0000_0000) by (bit_vector);
}

/// Messages can be sent without telling the service who sends them exactly to those whose key is known,
/// with that key and the given certificate.
pub proof fn law_known_keys_give_access<C>(
    key: Vec<u8>,
    certificate: C,
    access: Option<UnidentifiedAccess<C>>,
    without: Option<UnidentifiedAccess<C>>,
)
    requires
        call_ensures(unidentified_access::<C>, (Some(key), certificate), access),
        call_ensures(unidentified_access::<C>, (None::<Vec<u8>>, certificate), without),
    ensures
        access matches Some(a) && a.key == key && a.certificate == certificate,
        without is None,
{
}

/// The sessions that a reset archives are those with every device that is given, and that with the
/// main device, of the given account.
pub proof fn law_reset_reaches_every_device<S>(
    manager: &Manager<S, Registered>,
    aci: u128,
    sub_devices: Vec<u32>,
    default_device: u32,
    addresses: (u128, Vec<u32>),
    device: u32,
)
    requires
        call_ensures(
            Manager::<S, Registered>::send_session_reset,
            (manager, &ServiceId::Aci(aci), sub_devices, default_device),
            addresses,
        ),
    ensures
        addresses.0 == aci,
        (exists|i: int| 0 <= i < addresses.1@.len() && #[trigger] addresses.1@[i] == device) <==> (
        device == default_device || exists|i: int|
            0 <= i < sub_devices@.len() && #[trigger] sub_devices@[i] == device),
        addresses.1@.len() == sub_devices@.len() + 1,
{
    let devices = addresses.1@;
    assert(devices[sub_devices@.len() as int] == default_device);
    assert forall|i: int| 0 <= i < sub_devices@.len() implies devices[i]
        == #[trigger] sub_devices@[i] by {
    }
    assert forall|i: int| 0 <= i < devices.len() implies (#[trigger] devices[i] == default_device || (
    i < sub_devices@.len() && devices[i] == sub_devices@[i])) by {
    }
}

} // verus!
