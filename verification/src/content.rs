//! Messages, and what is filled in before they are sent.

use vstd::prelude::*;

verus! {

/// The identity of an account or of a phone number.
#[derive(Clone, Copy, Debug, PartialEq, Eq, Structural)]
pub enum ServiceId {
    Aci(u128),
    Pni(u128),
}

impl ServiceId {
    /// The identity as an account identity, if it is one.
    pub open spec fn as_aci(self) -> Option<u128> {
        match self {
            ServiceId::Aci(uuid) => Some(uuid),
            ServiceId::Pni(_) => None,
        }
    }

    /// The UUID of the identity, whatever its kind.
    pub open spec fn uuid(self) -> u128 {
        match self {
            ServiceId::Aci(uuid) => uuid,
            ServiceId::Pni(uuid) => uuid,
        }
    }

    /// The identity as an account identity, if it is one.
    pub fn aci(self) -> (aci: Option<u128>)
        ensures
            aci == self.as_aci(),
    {
        match self {
            ServiceId::Aci(uuid) => Some(uuid),
            ServiceId::Pni(_) => None,
        }
    }

    /// The UUID of the identity, whatever its kind.
    pub fn raw_uuid(self) -> (uuid: u128)
        ensures
            uuid == self.uuid(),
    {
        match self {
            ServiceId::Aci(uuid) => uuid,
            ServiceId::Pni(uuid) => uuid,
        }
    }
}

/// Where a message belongs.
#[derive(Clone, Copy, Debug)]
pub enum Thread {
    Contact(ServiceId),
    Group([u8; 32]),
}

/// The group in which a message was sent.
#[derive(Clone, Debug)]
pub struct GroupContextV2 {
    pub master_key: Option<Vec<u8>>,
    pub revision: Option<u32>,
    pub group_change: Option<Vec<u8>>,
}

/// A request to delete a message for everyone.
#[derive(Clone, Copy, Debug, PartialEq, Eq, Structural)]
pub struct Delete {
    pub target_sent_timestamp: Option<u64>,
}

/// What the decisions read and change of a message with data.
#[derive(Clone, Debug)]
pub struct DataMessage {
    pub timestamp: Option<u64>,
    pub group_v2: Option<GroupContextV2>,
    pub profile_key: Option<Vec<u8>>,
    pub expire_timer: Option<u32>,
    pub expire_timer_version: Option<u32>,
    pub required_protocol_version: Option<u32>,
    pub delete: Option<Delete>,
}

/// A change of a message that was sent before.
#[derive(Clone, Debug)]
pub struct EditMessage {
    pub target_sent_timestamp: Option<u64>,
    pub data_message: Option<DataMessage>,
}

/// What another device of the account sent.
#[derive(Clone, Debug)]
pub struct Sent {
    pub message: Option<DataMessage>,
    pub edit_message: Option<EditMessage>,
}

/// What another device of the account asks for.
#[derive(Clone, Copy, Debug, PartialEq, Eq, Structural)]
pub enum RequestType {
    Contacts,
    Keys,
    Blocked,
    Other,
}

/// What is done to a sticker pack.
#[derive(Clone, Copy, Debug, PartialEq, Eq, Structural)]
pub enum StickerPackAction {
    Install,
    Remove,
}

/// Something done to a sticker pack on another device.
#[derive(Clone, Debug)]
pub struct StickerPackOperation {
    pub pack_id: Option<Vec<u8>>,
    pub pack_key: Option<Vec<u8>>,
    pub action: StickerPackAction,
}

/// Keys that the primary device shares.
#[derive(Clone, Debug)]
pub struct SyncKeys {
    pub account_entropy_pool: Option<String>,
    pub master: Option<Vec<u8>>,
}

/// A message to be deleted on this device only. The author is known when it could be read as an
/// identity.
#[derive(Clone, Copy, Debug, PartialEq, Eq, Structural)]
pub struct AddressableMessage {
    pub author: Option<ServiceId>,
    pub sent_timestamp: Option<u64>,
}

/// The messages to delete in one conversation.
#[derive(Clone, Debug)]
pub struct MessageDeletes {
    pub messages: Vec<AddressableMessage>,
}

/// What the decisions read of a message between devices of the account.
#[derive(Clone, Debug)]
pub struct SyncMessage {
    pub sent: Option<Sent>,
    pub request: Option<RequestType>,
    /// Whether the message carries the account's contacts.
    pub contacts: bool,
    pub sticker_pack_operation: Vec<StickerPackOperation>,
    pub keys: Option<SyncKeys>,
    pub delete_for_me: Option<Vec<MessageDeletes>>,
    /// Whether the message tells of a call.
    pub call_event: bool,
}

/// What the decisions read and change of a message's body.
#[derive(Clone, Debug)]
pub enum ContentBody {
    NullMessage,
    DataMessage(DataMessage),
    SynchronizeMessage(SyncMessage),
    CallMessage,
    ReceiptMessage,
    TypingMessage,
    StoryMessage,
    PniSignatureMessage,
    EditMessage(EditMessage),
    DecryptionErrorMessage,
}

/// Who sent a message to whom, and when. Times are in milliseconds since the epoch.
#[derive(Clone, Copy, Debug, PartialEq, Eq, Structural)]
pub struct Metadata {
    pub sender: ServiceId,
    pub sender_device: u32,
    pub destination: ServiceId,
    pub server_guid: Option<u128>,
    pub timestamp: i64,
    pub server_timestamp: i64,
    pub needs_receipt: bool,
    pub unidentified_sender: bool,
    pub was_plaintext: bool,
}

/// A message.
#[derive(Clone, Debug)]
pub struct Content {
    pub metadata: Metadata,
    pub body: ContentBody,
}

/// A message with data that has the given time.
pub open spec fn timestamped(message: DataMessage, timestamp: u64) -> DataMessage {
    DataMessage { timestamp: Some(timestamp), ..message }
}

/// A change of a message whose data message, if it has one, has the given time.
pub open spec fn timestamped_edit(edit: EditMessage, timestamp: u64) -> EditMessage {
    EditMessage {
        data_message: match edit.data_message {
            Some(message) => Some(timestamped(message, timestamp)),
            None => None,
        },
        ..edit
    }
}

/// A message body in which every data message has the given time.
pub open spec fn with_data_timestamp(body: ContentBody, timestamp: u64) -> ContentBody {
    match body {
        ContentBody::DataMessage(message) => ContentBody::DataMessage(
            timestamped(message, timestamp),
        ),
        ContentBody::EditMessage(edit) => ContentBody::EditMessage(
            timestamped_edit(edit, timestamp),
        ),
        ContentBody::SynchronizeMessage(sync) => ContentBody::SynchronizeMessage(
            SyncMessage {
                sent: match sync.sent {
                    Some(sent) => Some(
                        Sent {
                            message: match sent.message {
                                Some(message) => Some(timestamped(message, timestamp)),
                                None => None,
                            },
                            edit_message: match sent.edit_message {
                                Some(edit) => Some(timestamped_edit(edit, timestamp)),
                                None => None,
                            },
                        },
                    ),
                    None => None,
                },
                ..sync
            },
        ),
        _ => body,
    }
}

/// Set the timestamp in any DataMessage so it matches its envelope's
pub fn ensure_data_message_timestamp(content_body: &mut ContentBody, timestamp: u64)
    ensures
        *final(content_body) == with_data_timestamp(*old(content_body), timestamp),
{
    match content_body {
        ContentBody::DataMessage(message) => {
            message.timestamp = Some(timestamp);
        },
        ContentBody::EditMessage(edit) => {
            if let Some(message) = &mut edit.data_message {
                message.timestamp = Some(timestamp);
            }
        },
        ContentBody::SynchronizeMessage(sync) => {
            if let Some(sent) = &mut sync.sent {
                if let Some(message) = &mut sent.message {
                    message.timestamp = Some(timestamp);
                }
                if let Some(edit) = &mut sent.edit_message {
                    if let Some(message) = &mut edit.data_message {
                        message.timestamp = Some(timestamp);
                    }
                }
            }
        },
        _ => {},
    }
}

/// The version that a stored timer has; a thread without one is at version zero.
pub open spec fn timer_version(stored: Option<(u32, u32)>) -> u32 {
    match stored {
        Some((_, version)) => version,
        None => 0,
    }
}

/// A message body with the thread's timer filled in.
pub open spec fn with_thread_timer(body: ContentBody, stored: Option<(u32, u32)>) -> ContentBody {
    match body {
        ContentBody::DataMessage(message) => ContentBody::DataMessage(
            if message.expire_timer is None {
                DataMessage {
                    expire_timer: match stored {
                        Some((timer, _)) if timer != 0 => Some(timer),
                        _ => None,
                    },
                    expire_timer_version: Some(timer_version(stored)),
                    ..message
                }
            } else {
                DataMessage {
                    expire_timer_version: Some((timer_version(stored) + 1) as u32),
                    ..message
                }
            },
        ),
        _ => body,
    }
}

/// Fills in the timer of a thread. `stored` is the thread's timer in seconds and its version.
///
/// A message without a timer keeps the thread's; one with a timer replaces it, which makes a new
/// version.
pub fn restore_thread_timer(content_body: &mut ContentBody, stored: Option<(u32, u32)>)
    requires
        *old(content_body) matches ContentBody::DataMessage(message) && message.expire_timer is Some
            ==> timer_version(stored) < u32::MAX,
    ensures
        *final(content_body) == with_thread_timer(*old(content_body), stored),
{
    let version: u32 = match stored {
        Some((_, version)) => version,
        None => 0,
    };
    if let ContentBody::DataMessage(message) = content_body {
        if message.expire_timer.is_none() {
            message.expire_timer =
            match stored {
                Some((timer, _)) => if timer == 0 {
                    None
                } else {
                    Some(timer)
                },
                None => None,
            };
            message.expire_timer_version = Some(version);
        } else {
            message.expire_timer_version = Some(version + 1);
        }
    }
}

/// A message gets its time wherever it holds data, and is otherwise sent as it was given: whatever
/// else the data message, the change or the message between devices says stays as it is.
pub proof fn law_only_the_time_of_data_is_set(body: &mut ContentBody, timestamp: u64)
    requires
        call_ensures(ensure_data_message_timestamp, (body, timestamp), ()),
    ensures
        match (*old(body), *final(body)) {
            (ContentBody::DataMessage(given), ContentBody::DataMessage(sent)) => sent == (
            DataMessage { timestamp: Some(timestamp), ..given }),
            (ContentBody::EditMessage(given), ContentBody::EditMessage(sent)) => {
                &&& sent.target_sent_timestamp == given.target_sent_timestamp
                &&& match (given.data_message, sent.data_message) {
                    (Some(from), Some(to)) => to == (DataMessage {
                        timestamp: Some(timestamp),
                        ..from
                    }),
                    (None, None) => true,
                    _ => false,
                }
            },
            (ContentBody::SynchronizeMessage(given), ContentBody::SynchronizeMessage(sent)) => {
                &&& sent == (SyncMessage { sent: sent.sent, ..given })
                &&& given.sent is Some <==> sent.sent is Some
                &&& given.sent is Some ==> match (given.sent->0.message, sent.sent->0.message) {
                    (Some(from), Some(to)) => to == (DataMessage {
                        timestamp: Some(timestamp),
                        ..from
                    }),
                    (None, None) => true,
                    _ => false,
                }
                &&& given.sent is Some ==> match (
                    given.sent->0.edit_message,
                    sent.sent->0.edit_message,
                ) {
                    (Some(from), Some(to)) => {
                        &&& to.target_sent_timestamp == from.target_sent_timestamp
                        &&& match (from.data_message, to.data_message) {
                            (Some(from), Some(to)) => to == (DataMessage {
                                timestamp: Some(timestamp),
                                ..from
                            }),
                            (None, None) => true,
                            _ => false,
                        }
                    },
                    (None, None) => true,
                    _ => false,
                }
            },
            (given, sent) => {
                &&& sent == given
                &&& !(given is DataMessage)
                &&& !(given is EditMessage)
                &&& !(given is SynchronizeMessage)
            },
        },
{
}

/// A message with data takes on the timer of its thread under the thread's version, unless it brings
/// its own, which then has the next version. A timer of zero is none. Nothing else of it changes, and
/// nothing of any other message.
pub proof fn law_message_takes_on_the_timer_of_its_thread(
    body: &mut ContentBody,
    stored: Option<(u32, u32)>,
)
    requires
        call_ensures(restore_thread_timer, (body, stored), ()),
        *old(body) matches ContentBody::DataMessage(message) && message.expire_timer is Some ==> (
        stored matches Some((_, version)) ==> version < u32::MAX),
    ensures
        match *old(body) {
            ContentBody::DataMessage(given) => *final(body) matches ContentBody::DataMessage(timed)
                && {
                &&& timed == (DataMessage {
                    expire_timer: timed.expire_timer,
                    expire_timer_version: timed.expire_timer_version,
                    ..given
                })
                &&& timed.expire_timer != Some(0u32) || given.expire_timer == Some(0u32)
                &&& match (given.expire_timer, stored) {
                    (Some(timer), Some((_, version))) => timed.expire_timer == Some(timer)
                        && timed.expire_timer_version == Some((version + 1) as u32),
                    (Some(timer), None) => timed.expire_timer == Some(timer)
                        && timed.expire_timer_version == Some(1u32),
                    (None, Some((timer, version))) => (timed.expire_timer is None <==> timer == 0)
                        && (timer != 0 ==> timed.expire_timer == Some(timer))
                        && timed.expire_timer_version == Some(version),
                    (None, None) => timed.expire_timer is None && timed.expire_timer_version
                        == Some(0u32),
                }
            },
            given => *final(body) == given,
        },
{
}

/// An identity is read as the account's exactly if it is that of an account, and has one UUID
/// whatever its kind.
pub proof fn law_identities_keep_their_uuid(id: u128, kind_is_aci: bool, aci: Option<u128>, uuid: u128)
    requires
        ({
            let identity = if kind_is_aci {
                ServiceId::Aci(id)
            } else {
                ServiceId::Pni(id)
            };
            &&& call_ensures(ServiceId::aci, (identity,), aci)
            &&& call_ensures(ServiceId::raw_uuid, (identity,), uuid)
        }),
    ensures
        uuid == id,
        kind_is_aci ==> aci == Some(id),
        !kind_is_aci ==> aci is None,
{
}

} // verus!
