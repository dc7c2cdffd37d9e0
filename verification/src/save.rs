//! What is stored of a message.

use vstd::prelude::*;

use crate::bytes::key_from_bytes;
use crate::content::{
    AddressableMessage,
    Content,
    ContentBody,
    DataMessage,
    Delete,
    EditMessage,
    MessageDeletes,
    Metadata,
    ServiceId,
    SyncMessage,
    Thread,
};
use crate::coordinator::ContactProfileUpdate;
use crate::error::Error;
use crate::registration::ProfileKey;

verus! {

/// The version of a timer in a message that does not tell one.
pub const DEFAULT_TIMER_VERSION: u32 = 1;

/// The account identity that no account has.
pub const NIL_UUID: u128 = 0;

/// The message with data in a body: one that was received, or one that another device sent.
pub open spec fn data_message_of(body: ContentBody) -> Option<DataMessage> {
    match body {
        ContentBody::DataMessage(message) => Some(message),
        ContentBody::SynchronizeMessage(sync) => match sync.sent {
            Some(sent) => sent.message,
            None => None,
        },
        _ => None,
    }
}

/// The message with data in a body: one that was received, or one that another device sent.
pub fn data_message(body: &ContentBody) -> (message: Option<&DataMessage>)
    ensures
        match message {
            Some(m) => data_message_of(*body) == Some(*m),
            None => data_message_of(*body) is None,
        },
{
    match body {
        ContentBody::DataMessage(message) => Some(message),
        ContentBody::SynchronizeMessage(sync) => match &sync.sent {
            Some(sent) => match &sent.message {
                Some(message) => Some(message),
                None => None,
            },
            None => None,
        },
        _ => None,
    }
}

/// Whether a change of an earlier message tells which message and what it becomes.
pub open spec fn is_complete_edit(edit: EditMessage) -> bool {
    edit.target_sent_timestamp is Some && edit.data_message is Some
}

/// Whether a body is stored as it is, if it holds no message with data and no deletions.
pub open spec fn is_stored_as_is(body: ContentBody) -> bool {
    match body {
        ContentBody::NullMessage => true,
        ContentBody::CallMessage => true,
        ContentBody::ReceiptMessage => true,
        ContentBody::EditMessage(edit) => is_complete_edit(edit),
        ContentBody::SynchronizeMessage(sync) => {
            ||| sync.call_event
            ||| sync.sent matches Some(sent) && sent.edit_message matches Some(edit)
                && is_complete_edit(edit)
        },
        _ => false,
    }
}

/// Whether a body is stored as it is, if it holds no message with data and no deletions.
fn stored_as_is(body: &ContentBody) -> (stored: bool)
    ensures
        stored == is_stored_as_is(*body),
{
    match body {
        ContentBody::NullMessage => true,
        ContentBody::CallMessage => true,
        ContentBody::ReceiptMessage => true,
        ContentBody::EditMessage(edit) => edit.target_sent_timestamp.is_some()
            && edit.data_message.is_some(),
        ContentBody::SynchronizeMessage(sync) => {
            if sync.call_event {
                return true;
            }
            match &sync.sent {
                Some(sent) => match &sent.edit_message {
                    Some(edit) => edit.target_sent_timestamp.is_some()
                        && edit.data_message.is_some(),
                    None => false,
                },
                None => false,
            }
        },
        _ => false,
    }
}

/// The messages that one conversation's deletions name by author and time, in their order.
pub open spec fn named_deletions(messages: Seq<AddressableMessage>) -> Seq<(ServiceId, u64)>
    decreases messages.len(),
{
    if messages.len() == 0 {
        Seq::empty()
    } else {
        let before = named_deletions(messages.drop_last());
        match (messages.last().author, messages.last().sent_timestamp) {
            (Some(author), Some(timestamp)) => before.push((author, timestamp)),
            _ => before,
        }
    }
}

/// The messages that the deletions of all conversations name, in their order.
pub open spec fn all_named_deletions(deletes: Seq<MessageDeletes>) -> Seq<(ServiceId, u64)>
    decreases deletes.len(),
{
    if deletes.len() == 0 {
        Seq::empty()
    } else {
        all_named_deletions(deletes.drop_last()) + named_deletions(deletes.last().messages@)
    }
}

/// The messages to delete on this device: those of which author and time are known.
pub fn deletions_for_me(deletes: &Vec<MessageDeletes>) -> (targets: Vec<(ServiceId, u64)>)
    ensures
        targets@ == all_named_deletions(deletes@),
{
    let mut targets: Vec<(ServiceId, u64)> = Vec::new();
    let mut conversation: usize = 0;
    while conversation < deletes.len()
        invariant
            conversation <= deletes@.len(),
            targets@ == all_named_deletions(deletes@.take(conversation as int)),
        decreases deletes@.len() - conversation,
    {
        let messages = &deletes[conversation].messages;
        let ghost before = targets@;
        let mut index: usize = 0;
        proof {
            assert(before + named_deletions(messages@.take(0)) =~= before);
        }
        while index < messages.len()
            invariant
                index <= messages@.len(),
                targets@ == before + named_deletions(messages@.take(index as int)),
            decreases messages@.len() - index,
        {
            proof {
                assert(messages@.take(index + 1).drop_last() =~= messages@.take(index as int));
            }
            if let Some(author) = messages[index].author {
                if let Some(timestamp) = messages[index].sent_timestamp {
                    targets.push((author, timestamp));
                }
            }
            index += 1;
            assert(targets@ =~= before + named_deletions(messages@.take(index as int)));
        }
        proof {
            assert(messages@.take(index as int) =~= messages@);
            assert(deletes@.take(conversation + 1).drop_last() =~= deletes@.take(
                conversation as int,
            ));
        }
        conversation += 1;
    }
    proof {
        assert(deletes@.take(conversation as int) =~= deletes@);
    }
    targets
}

/// A change of a contact's timer, to be made under the contact's lock.
#[derive(Clone, Copy, Debug, PartialEq, Eq, Structural)]
pub struct TimerUpdate {
    pub contact: u128,
    pub expire_timer: u32,
    pub expire_timer_version: u32,
}

/// What happens to the stored messages.
#[derive(Debug)]
pub enum StorageStep {
    /// The message is stored in its thread.
    Save(Content),
    /// The message of the thread that was sent at this time is emptied, if it is stored.
    Empty { target_sent_timestamp: u64 },
    /// These messages are deleted, each where it is stored.
    Delete(Vec<(ServiceId, u64)>),
    /// Nothing is stored.
    Nothing,
}

/// What follows from a message. [`SaveTask`] carries it out: first the timer, then the stored
/// messages, and last the profile of the sender.
#[derive(Debug)]
pub struct SavePlan {
    pub thread: Thread,
    pub timer: Option<TimerUpdate>,
    pub storage: StorageStep,
    /// The account whose profile may have changed, and what the message tells of it.
    pub profile_update: Option<(u128, ContactProfileUpdate)>,
}

/// The timer that a message with data sets; only a message of a contact does.
pub open spec fn timer_update_of(body: ContentBody, thread: Thread) -> Option<TimerUpdate> {
    match (data_message_of(body), thread) {
        (Some(message), Thread::Contact(contact)) => Some(
            TimerUpdate {
                contact: contact.uuid(),
                expire_timer: message.expire_timer.unwrap_or(0),
                expire_timer_version: message.expire_timer_version.unwrap_or(1),
            },
        ),
        _ => None,
    }
}

/// Whether a step is what a message does to the stored messages.
pub open spec fn is_storage_step(step: StorageStep, message: Content) -> bool {
    match data_message_of(message.body) {
        Some(data) => match data.delete {
            Some(Delete { target_sent_timestamp: Some(timestamp) }) => step
                == StorageStep::Empty { target_sent_timestamp: timestamp },
            _ => step == StorageStep::Save(message),
        },
        None => match message.body {
            ContentBody::SynchronizeMessage(
                SyncMessage { delete_for_me: Some(deletes), .. },
            ) => step matches StorageStep::Delete(targets) && targets@ == all_named_deletions(
                deletes@,
            ),
            _ => step == if is_stored_as_is(message.body) {
                StorageStep::Save(message)
            } else {
                StorageStep::Nothing
            },
        },
    }
}

/// Whether a message tells a profile key of the account that sent it.
pub open spec fn tells_profile_key(message: Content) -> bool {
    &&& message.metadata.sender is Aci
    &&& data_message_of(message.body) matches Some(data) && data.profile_key matches Some(bytes)
        && bytes@.len() == 32
}

/// Whether an update is what a message tells of its sender.
pub open spec fn is_told_update(
    update: ContactProfileUpdate,
    message: Content,
    message_timestamp: u64,
) -> bool {
    let data = data_message_of(message.body)->0;
    &&& update.sender == message.metadata.sender
    &&& update.profile_key.bytes@ == data.profile_key->0@
    &&& update.observation_timestamp == message_timestamp
    &&& update.expire_timer == data.expire_timer.unwrap_or(0)
    &&& update.expire_timer_version == data.expire_timer_version.unwrap_or(1)
}

/// The update that a message with data tells of its sender.
fn told_update(sender: ServiceId, message: &DataMessage, message_timestamp: u64) -> (update: Option<
    (u128, ContactProfileUpdate),
>)
    ensures
        match update {
            Some((uuid, u)) => {
                &&& sender == ServiceId::Aci(uuid)
                &&& message.profile_key matches Some(bytes) && bytes@.len() == 32
                &&& u.sender == sender
                &&& u.profile_key.bytes@ == message.profile_key->0@
                &&& u.observation_timestamp == message_timestamp
                &&& u.expire_timer == message.expire_timer.unwrap_or(0)
                &&& u.expire_timer_version == message.expire_timer_version.unwrap_or(1)
            },
            None => {
                ||| sender is Pni
                ||| message.profile_key is None
                ||| message.profile_key->0@.len() != 32
            },
        },
{
    let uuid = match sender.aci() {
        Some(uuid) => uuid,
        None => {
            return None;
        },
    };
    match &message.profile_key {
        Some(bytes) => match key_from_bytes(bytes.as_slice()) {
            Some(bytes) => Some(
                (
                    uuid,
                    ContactProfileUpdate {
                        sender,
                        profile_key: ProfileKey::create(bytes),
                        observation_timestamp: message_timestamp,
                        expire_timer: message.expire_timer.unwrap_or(0),
                        expire_timer_version: message.expire_timer_version.unwrap_or(
                            DEFAULT_TIMER_VERSION,
                        ),
                    },
                ),
            ),
            None => None,
        },
        None => None,
    }
}

/// Save a message into the store.
///
/// Note that `override_thread` can be used to specify the thread the message will be stored in.
/// This is required when storing outgoing messages, as in this case the appropriate storage place
/// cannot be derived from the message itself. `derived_thread` is the thread that the message
/// itself tells, if it tells one. `profile_workers` tells whether there are workers to update
/// profiles, and `message_timestamp` is the time that the message claims.
pub fn save_message(
    message: Content,
    derived_thread: Option<Thread>,
    override_thread: Option<Thread>,
    profile_workers: bool,
    message_timestamp: u64,
) -> (plan: Result<SavePlan, Error>)
    ensures
        match plan {
            Ok(p) => {
                &&& derived_thread is Some || override_thread is Some
                &&& p.thread == match override_thread {
                    Some(thread) => thread,
                    None => derived_thread->0,
                }
                &&& p.timer == timer_update_of(message.body, p.thread)
                &&& is_storage_step(p.storage, message)
                &&& p.profile_update is Some <==> override_thread is None && profile_workers
                    && tells_profile_key(message)
                &&& p.profile_update matches Some((uuid, update)) ==> message.metadata.sender
                    == ServiceId::Aci(uuid) && is_told_update(update, message, message_timestamp)
            },
            Err(error) => {
                &&& error is UnknownThread
                &&& derived_thread is None
                &&& override_thread is None
            },
        },
{
    let updates_profile = override_thread.is_none() && profile_workers;
    let thread = match override_thread {
        Some(thread) => thread,
        None => match derived_thread {
            Some(thread) => thread,
            None => {
                return Err(Error::UnknownThread);
            },
        },
    };
    let mut timer: Option<TimerUpdate> = None;
    let mut profile_update: Option<(u128, ContactProfileUpdate)> = None;
    if let Some(data) = data_message(&message.body) {
        if updates_profile {
            profile_update = told_update(message.metadata.sender, data, message_timestamp);
        }
        if let Thread::Contact(contact) = &thread {
            timer =
            Some(
                TimerUpdate {
                    contact: contact.raw_uuid(),
                    expire_timer: data.expire_timer.unwrap_or(0),
                    expire_timer_version: data.expire_timer_version.unwrap_or(
                        DEFAULT_TIMER_VERSION,
                    ),
                },
            );
        }
        if let Some(delete) = data.delete {
            if let Some(target_sent_timestamp) = delete.target_sent_timestamp {
                return Ok(
                    SavePlan {
                        thread,
                        timer,
                        storage: StorageStep::Empty { target_sent_timestamp },
                        profile_update,
                    },
                );
            }
        }
        return Ok(SavePlan { thread, timer, storage: StorageStep::Save(message), profile_update });
    }
    if let ContentBody::SynchronizeMessage(sync) = &message.body {
        if let Some(deletes) = &sync.delete_for_me {
            let targets = deletions_for_me(deletes);
            return Ok(
                SavePlan { thread, timer, storage: StorageStep::Delete(targets), profile_update },
            );
        }
    }
    let storage = if stored_as_is(&message.body) {
        StorageStep::Save(message)
    } else {
        StorageStep::Nothing
    };
    Ok(SavePlan { thread, timer, storage, profile_update })
}

/// What is stored in place of a message that was deleted for everyone: the rest of its metadata,
/// but no sender and no content.
pub fn emptied_message(existing: Content) -> (emptied: Content)
    ensures
        is_emptied(emptied, existing),
{
    let mut metadata = existing.metadata;
    metadata.sender = ServiceId::Aci(NIL_UUID);
    Content { metadata, body: ContentBody::NullMessage }
}

/// A message that this device sent is stored in the thread that it is given, whatever thread it
/// would tell itself, and changes nobody's profile.
pub proof fn law_sent_messages_update_no_profile(
    message: Content,
    derived_thread: Option<Thread>,
    thread: Thread,
    profile_workers: bool,
    message_timestamp: u64,
    plan: Result<SavePlan, Error>,
)
    requires
        call_ensures(
            save_message,
            (message, derived_thread, Some(thread), profile_workers, message_timestamp),
            plan,
        ),
    ensures
        plan matches Ok(p) && p.profile_update is None && p.thread == thread,
{
}

/// A deletion for everyone is itself never stored, and neither is one for this account's devices,
/// unless it comes along with a message.
pub proof fn law_deletions_are_not_stored(
    message: Content,
    derived_thread: Option<Thread>,
    override_thread: Option<Thread>,
    profile_workers: bool,
    message_timestamp: u64,
    plan: Result<SavePlan, Error>,
)
    requires
        call_ensures(
            save_message,
            (message, derived_thread, override_thread, profile_workers, message_timestamp),
            plan,
        ),
    ensures
        plan matches Ok(p) ==> p.storage matches StorageStep::Save(stored) ==> {
            &&& stored == message
            &&& data_message_of(message.body) matches Some(data) ==> data.delete matches Some(
                delete,
            ) ==> delete.target_sent_timestamp is None
            &&& message.body matches ContentBody::SynchronizeMessage(sync)
                ==> sync.delete_for_me is Some ==> data_message_of(message.body) is Some
        },
{
}

/// Only a message with data in a contact's thread changes a timer, and it changes that contact's.
pub proof fn law_timers_belong_to_contacts(body: ContentBody, thread: Thread)
    ensures
        timer_update_of(body, thread) is Some <==> data_message_of(body) is Some
            && thread is Contact,
        timer_update_of(body, thread) matches Some(update) ==> thread matches Thread::Contact(contact)
            && update.contact == contact.uuid(),
{
}

/// What is to be done next for a message.
#[derive(Debug)]
pub enum SaveTask<E> {
    /// Under the contact's lock, change the timer of the plan's thread.
    UpdateTimer { timer: TimerUpdate, plan: SavePlan },
    /// Store the message in the thread.
    SaveMessage {
        thread: Thread,
        content: Content,
        profile_update: Option<(u128, ContactProfileUpdate)>,
    },
    /// Read the message of the thread that was sent at a time.
    LoadMessage {
        thread: Thread,
        target_sent_timestamp: u64,
        profile_update: Option<(u128, ContactProfileUpdate)>,
    },
    /// Store the emptied message in the thread.
    SaveEmptied {
        thread: Thread,
        content: Content,
        profile_update: Option<(u128, ContactProfileUpdate)>,
    },
    /// Delete these messages, each where it is stored. That one is not found, or cannot be deleted,
    /// is no failure.
    DeleteMessages {
        targets: Vec<(ServiceId, u64)>,
        profile_update: Option<(u128, ContactProfileUpdate)>,
    },
    /// The message is dealt with; what it tells of its sender is to be queued.
    Finished { profile_update: Option<(u128, ContactProfileUpdate)> },
    /// Something failed, and nothing more is done.
    Failed(E),
}

/// What came of a task.
#[derive(Debug)]
pub enum SaveEvent<E> {
    /// The task is done, or failed.
    Done(Result<(), E>),
    /// The message that was read, if it is stored.
    Loaded(Result<Option<Content>, E>),
}

/// Whether a task is the one for what a plan does to the stored messages.
pub open spec fn is_storage_task<E>(plan: SavePlan, task: SaveTask<E>) -> bool {
    task == match plan.storage {
        StorageStep::Save(content) => SaveTask::<E>::SaveMessage {
            thread: plan.thread,
            content,
            profile_update: plan.profile_update,
        },
        StorageStep::Empty { target_sent_timestamp } => SaveTask::LoadMessage {
            thread: plan.thread,
            target_sent_timestamp,
            profile_update: plan.profile_update,
        },
        StorageStep::Delete(targets) => SaveTask::DeleteMessages {
            targets,
            profile_update: plan.profile_update,
        },
        StorageStep::Nothing => SaveTask::Finished { profile_update: plan.profile_update },
    }
}

/// The task for what a plan does to the stored messages.
fn storage_task<E>(plan: SavePlan) -> (task: SaveTask<E>)
    ensures
        is_storage_task(plan, task),
{
    let thread = plan.thread;
    let profile_update = plan.profile_update;
    match plan.storage {
        StorageStep::Save(content) => SaveTask::SaveMessage { thread, content, profile_update },
        StorageStep::Empty { target_sent_timestamp } => SaveTask::LoadMessage {
            thread,
            target_sent_timestamp,
            profile_update,
        },
        StorageStep::Delete(targets) => SaveTask::DeleteMessages { targets, profile_update },
        StorageStep::Nothing => SaveTask::Finished { profile_update },
    }
}

/// Whether a message is another one emptied.
pub open spec fn is_emptied(emptied: Content, existing: Content) -> bool {
    &&& emptied.body is NullMessage
    &&& emptied.metadata == (Metadata { sender: ServiceId::Aci(NIL_UUID), ..existing.metadata })
}

impl<E> SaveTask<E> {
    /// Whether a task is the first one of a plan: the timer, if there is one to change.
    pub open spec fn starts(self, plan: SavePlan) -> bool {
        match plan.timer {
            Some(timer) => self == (SaveTask::<E>::UpdateTimer { timer, plan }),
            None => is_storage_task(plan, self),
        }
    }

    /// Whether an event is one that can come of it.
    pub open spec fn expects(self, event: SaveEvent<E>) -> bool {
        match (self, event) {
            (SaveTask::UpdateTimer { .. }, SaveEvent::Done(_)) => true,
            (SaveTask::SaveMessage { .. }, SaveEvent::Done(_)) => true,
            (SaveTask::LoadMessage { .. }, SaveEvent::Loaded(_)) => true,
            (SaveTask::SaveEmptied { .. }, SaveEvent::Done(_)) => true,
            (SaveTask::DeleteMessages { .. }, SaveEvent::Done(_)) => true,
            _ => false,
        }
    }

    /// Whether a task is what follows from an event.
    pub open spec fn leads_to(self, event: SaveEvent<E>, next: Self) -> bool {
        match (self, event) {
            (SaveTask::DeleteMessages { profile_update, .. }, SaveEvent::Done(_)) => next
                == SaveTask::<E>::Finished { profile_update },
            (_, SaveEvent::Done(Err(error))) => next == SaveTask::Failed(error),
            (_, SaveEvent::Loaded(Err(error))) => next == SaveTask::Failed(error),
            (SaveTask::UpdateTimer { plan, .. }, SaveEvent::Done(Ok(()))) => is_storage_task(
                plan,
                next,
            ),
            (SaveTask::SaveMessage { profile_update, .. }, SaveEvent::Done(Ok(()))) => next
                == SaveTask::<E>::Finished { profile_update },
            (SaveTask::SaveEmptied { profile_update, .. }, SaveEvent::Done(Ok(()))) => next
                == SaveTask::<E>::Finished { profile_update },
            (
                SaveTask::LoadMessage { thread, profile_update, .. },
                SaveEvent::Loaded(Ok(existing)),
            ) => match existing {
                Some(existing) => next matches SaveTask::SaveEmptied {
                    thread: t,
                    content,
                    profile_update: p,
                } && t == thread && is_emptied(content, existing) && p == profile_update,
                None => next == SaveTask::<E>::Finished { profile_update },
            },
            _ => false,
        }
    }

    /// How many steps a task can take at most.
    pub open spec fn steps_left(self) -> nat {
        match self {
            SaveTask::UpdateTimer { .. } => 3,
            SaveTask::LoadMessage { .. } => 2,
            SaveTask::SaveMessage { .. } => 1,
            SaveTask::SaveEmptied { .. } => 1,
            SaveTask::DeleteMessages { .. } => 1,
            SaveTask::Finished { .. } => 0,
            SaveTask::Failed(_) => 0,
        }
    }

    /// Begins to carry out a plan.
    pub fn begin(plan: SavePlan) -> (task: Self)
        ensures
            task.starts(plan),
    {
        match plan.timer {
            Some(timer) => SaveTask::UpdateTimer { timer, plan },
            None => storage_task(plan),
        }
    }

    /// Goes on after what came of a task.
    pub fn step(self, event: SaveEvent<E>) -> (next: Self)
        requires
            self.expects(event),
        ensures
            self.leads_to(event, next),
            next.steps_left() < self.steps_left(),
    {
        match (self, event) {
            (SaveTask::DeleteMessages { profile_update, .. }, _) => SaveTask::Finished {
                profile_update,
            },
            (_, SaveEvent::Done(Err(error))) => SaveTask::Failed(error),
            (_, SaveEvent::Loaded(Err(error))) => SaveTask::Failed(error),
            (SaveTask::UpdateTimer { plan, .. }, _) => storage_task(plan),
            (SaveTask::SaveMessage { profile_update, .. }, _) => SaveTask::Finished {
                profile_update,
            },
            (SaveTask::SaveEmptied { profile_update, .. }, _) => SaveTask::Finished {
                profile_update,
            },
            (
                SaveTask::LoadMessage { thread, profile_update, .. },
                SaveEvent::Loaded(Ok(existing)),
            ) => match existing {
                Some(existing) => SaveTask::SaveEmptied {
                    thread,
                    content: emptied_message(existing),
                    profile_update,
                },
                None => SaveTask::Finished { profile_update },
            },
            (task, _) => task,
        }
    }
}

/// Whether a task was done.
pub open spec fn is_done<E>(event: SaveEvent<E>) -> bool {
    event matches SaveEvent::Done(Ok(_))
}

/// Whether a task changes the stored messages.
pub open spec fn changes_messages<E>(task: SaveTask<E>) -> bool {
    task is SaveMessage || task is SaveEmptied || task is DeleteMessages
}

/// Whether tasks follow from one another by events, from the first one of a plan on.
pub open spec fn is_save_run<E>(
    plan: SavePlan,
    tasks: Seq<SaveTask<E>>,
    events: Seq<SaveEvent<E>>,
) -> bool {
    &&& tasks.len() == events.len() + 1
    &&& tasks[0].starts(plan)
    &&& forall|i: int|
        0 <= i < events.len() ==> (#[trigger] tasks[i]).expects(events[i]) && tasks[i].leads_to(
            events[i],
            tasks[i + 1],
        )
}

/// Where a task of a run can come from: it is the first one, or the one after the timer was
/// changed, or, when it stores an emptied message, the one after reading the message; or the run is
/// over with it.
proof fn lemma_save_run_task<E>(
    plan: SavePlan,
    tasks: Seq<SaveTask<E>>,
    events: Seq<SaveEvent<E>>,
    at: int,
)
    requires
        is_save_run(plan, tasks, events),
        0 <= at < tasks.len(),
    ensures
        tasks[at] is UpdateTimer ==> at == 0,
        changes_messages(tasks[at]) || tasks[at] is LoadMessage ==> (plan.timer is Some ==> at > 0
            && is_done(events[0])),
        tasks[at] is SaveMessage || tasks[at] is DeleteMessages || tasks[at] is LoadMessage ==> {
            &&& at == if plan.timer is Some {
                1int
            } else {
                0int
            }
            &&& is_storage_task(plan, tasks[at])
        },
        tasks[at] is SaveEmptied ==> at > 0 && tasks[at - 1] is LoadMessage,
    decreases at,
{
    if at > 0 {
        lemma_save_run_task(plan, tasks, events, at - 1);
        assert(tasks[at - 1].expects(events[at - 1]));
        assert(tasks[at - 1].leads_to(events[at - 1], tasks[at - 1 + 1]));
    }
}

/// The timer comes first: it is changed at most once and before anything is stored or deleted, and
/// if that fails nothing is, and its error is what is left.
pub proof fn law_timer_is_changed_before_anything_is_stored<E>(
    plan: SavePlan,
    tasks: Seq<SaveTask<E>>,
    events: Seq<SaveEvent<E>>,
)
    requires
        is_save_run(plan, tasks, events),
    ensures
        forall|i: int| 0 <= i < tasks.len() ==> ((#[trigger] tasks[i]) is UpdateTimer ==> i == 0),
        tasks[0] is UpdateTimer <==> plan.timer is Some,
        plan.timer matches Some(update) ==> tasks[0] == (SaveTask::<E>::UpdateTimer {
            timer: update,
            plan,
        }),
        plan.timer is Some && events.len() > 0 ==> (events[0] matches SaveEvent::Done(Err(error))
            ==> tasks.len() == 2 && tasks[1] == SaveTask::Failed(error)),
        forall|i: int|
            0 <= i < tasks.len() && changes_messages(#[trigger] tasks[i]) && plan.timer is Some
                ==> i > 0 && is_done(events[0]),
{
    assert forall|i: int| 0 <= i < tasks.len() implies ((#[trigger] tasks[i]) is UpdateTimer ==> i
        == 0) && (changes_messages(tasks[i]) && plan.timer is Some ==> i > 0 && is_done(events[0])) by {
        lemma_save_run_task(plan, tasks, events, i);
    }
    if plan.timer is Some && events.len() > 0 {
        assert(tasks[0].expects(events[0]) && tasks[0].leads_to(events[0], tasks[0int + 1]));
        if events.len() > 1 {
            assert(tasks[1].expects(events[1]));
        }
    }
}

/// A message that is stored as it is, is stored exactly once, in the plan's thread, and a run that
/// does not fail stores it.
pub proof fn law_message_is_stored_exactly_once<E>(
    plan: SavePlan,
    tasks: Seq<SaveTask<E>>,
    events: Seq<SaveEvent<E>>,
    message: Content,
)
    requires
        is_save_run(plan, tasks, events),
        plan.storage == StorageStep::Save(message),
    ensures
        forall|i: int, j: int|
            #![trigger tasks[i], tasks[j]]
            0 <= i < tasks.len() && 0 <= j < tasks.len() && changes_messages(tasks[i])
                && changes_messages(tasks[j]) ==> i == j,
        forall|i: int|
            0 <= i < tasks.len() && changes_messages(#[trigger] tasks[i]) ==> tasks[i]
                == (SaveTask::<E>::SaveMessage {
                thread: plan.thread,
                content: message,
                profile_update: plan.profile_update,
            }),
        tasks.last() is Finished ==> exists|i: int|
            0 <= i < tasks.len() && (#[trigger] tasks[i]) is SaveMessage && is_done(events[i]),
        tasks.last() matches SaveTask::Finished { profile_update } ==> profile_update
            == plan.profile_update,
{
    assert forall|i: int| 0 <= i < tasks.len() && changes_messages(#[trigger] tasks[i]) implies {
        &&& tasks[i] == (SaveTask::<E>::SaveMessage {
            thread: plan.thread,
            content: message,
            profile_update: plan.profile_update,
        })
        &&& i == if plan.timer is Some {
            1int
        } else {
            0int
        }
    } by {
        lemma_save_run_task(plan, tasks, events, i);
        if tasks[i] is SaveEmptied {
            lemma_save_run_task(plan, tasks, events, i - 1);
        }
    }
    if tasks.last() is Finished {
        let last = tasks.len() - 1;
        assert(last > 0);
        assert(tasks[last - 1].expects(events[last - 1]));
        assert(tasks[last - 1].leads_to(events[last - 1], tasks[last - 1 + 1]));
        lemma_save_run_task(plan, tasks, events, last - 1);
        if tasks[last - 1] is SaveEmptied {
            lemma_save_run_task(plan, tasks, events, last - 2);
        }
        assert(tasks[last - 1] is SaveMessage);
    }
}

/// Where the messages that one conversation's deletions name stand in its list.
proof fn lemma_named_places(messages: Seq<AddressableMessage>) -> (places: Seq<int>)
    ensures
        places.len() == named_deletions(messages).len(),
        forall|k: int|
            #![trigger places[k]]
            0 <= k < places.len() ==> {
                let message = messages[places[k]];
                &&& 0 <= places[k] < messages.len()
                &&& message.author is Some
                &&& message.sent_timestamp is Some
                &&& named_deletions(messages)[k] == (message.author->0, message.sent_timestamp->0)
            },
        forall|j: int, k: int|
            #![trigger places[j], places[k]]
            0 <= j < k < places.len() ==> places[j] < places[k],
        forall|m: int|
            0 <= m < messages.len() && (#[trigger] messages[m]).author is Some
                && messages[m].sent_timestamp is Some ==> places.contains(m),
    decreases messages.len(),
{
    if messages.len() == 0 {
        Seq::empty()
    } else {
        let start = messages.drop_last();
        let last = messages.len() - 1;
        let before = lemma_named_places(start);
        let message = messages.last();
        let places = if message.author is Some && message.sent_timestamp is Some {
            before.push(last)
        } else {
            before
        };
        assert forall|m: int|
            0 <= m < messages.len() && (#[trigger] messages[m]).author is Some
                && messages[m].sent_timestamp is Some implies places.contains(m) by {
            if m < last {
                assert(start[m] == messages[m]);
                let k = choose|k: int| 0 <= k < before.len() && before[k] == m;
                assert(places[k] == m);
            } else {
                assert(places[before.len() as int] == m);
            }
        }
        assert forall|k: int| #![trigger places[k]] 0 <= k < places.len() implies {
            let message = messages[places[k]];
            &&& 0 <= places[k] < messages.len()
            &&& message.author is Some
            &&& message.sent_timestamp is Some
            &&& named_deletions(messages)[k] == (message.author->0, message.sent_timestamp->0)
        } by {
            if k < before.len() {
                assert(places[k] == before[k]);
                assert(start[before[k]] == messages[before[k]]);
            }
        }
        places
    }
}

/// Where the messages that the deletions of all conversations name stand.
proof fn lemma_all_named_places(deletes: Seq<MessageDeletes>) -> (places: Seq<(int, int)>)
    ensures
        places.len() == all_named_deletions(deletes).len(),
        forall|k: int|
            #![trigger places[k]]
            0 <= k < places.len() ==> {
                let (c, m) = places[k];
                let message = deletes[c].messages@[m];
                &&& 0 <= c < deletes.len()
                &&& 0 <= m < deletes[c].messages@.len()
                &&& message.author is Some
                &&& message.sent_timestamp is Some
                &&& all_named_deletions(deletes)[k] == (
                    message.author->0,
                    message.sent_timestamp->0,
                )
            },
        forall|j: int, k: int|
            #![trigger places[j], places[k]]
            0 <= j < k < places.len() ==> places[j].0 < places[k].0 || (places[j].0 == places[k].0
                && places[j].1 < places[k].1),
        forall|c: int, m: int|
            #![trigger deletes[c].messages@[m]]
            0 <= c < deletes.len() && 0 <= m < deletes[c].messages@.len()
                && deletes[c].messages@[m].author is Some
                && deletes[c].messages@[m].sent_timestamp is Some ==> places.contains((c, m)),
    decreases deletes.len(),
{
    if deletes.len() == 0 {
        Seq::empty()
    } else {
        let start = deletes.drop_last();
        let last = deletes.len() - 1;
        let before = lemma_all_named_places(start);
        let inner = lemma_named_places(deletes.last().messages@);
        let more = inner.map_values(|m: int| (last as int, m));
        let places = before + more;
        assert forall|k: int| #![trigger places[k]] 0 <= k < places.len() implies {
            let (c, m) = places[k];
            let message = deletes[c].messages@[m];
            &&& 0 <= c < deletes.len()
            &&& 0 <= m < deletes[c].messages@.len()
            &&& message.author is Some
            &&& message.sent_timestamp is Some
            &&& all_named_deletions(deletes)[k] == (message.author->0, message.sent_timestamp->0)
        } by {
            if k < before.len() {
                assert(places[k] == before[k]);
                assert(start[before[k].0] == deletes[before[k].0]);
            } else {
                assert(places[k] == (last as int, inner[k - before.len()]));
            }
        }
        assert forall|j: int, k: int|
            #![trigger places[j], places[k]]
            0 <= j < k < places.len() implies places[j].0 < places[k].0 || (places[j].0
            == places[k].0 && places[j].1 < places[k].1) by {
            if k < before.len() {
                assert(places[j] == before[j] && places[k] == before[k]);
            } else if j < before.len() {
                assert(places[j] == before[j]);
                assert(before[j].0 < last);
                assert(places[k].0 == last);
            } else {
                assert(places[j] == (last as int, inner[j - before.len()]));
                assert(places[k] == (last as int, inner[k - before.len()]));
            }
        }
        assert forall|c: int, m: int|
            #![trigger deletes[c].messages@[m]]
            0 <= c < deletes.len() && 0 <= m < deletes[c].messages@.len()
                && deletes[c].messages@[m].author is Some
                && deletes[c].messages@[m].sent_timestamp is Some implies places.contains((c, m)) by {
            if c < last {
                assert(start[c].messages@[m] == deletes[c].messages@[m]);
                assert(before.contains((c, m)));
                let k = choose|k: int| 0 <= k < before.len() && before[k] == (c, m);
                assert(places[k] == (c, m));
            } else {
                assert(inner.contains(m));
                let k = choose|k: int| 0 <= k < inner.len() && inner[k] == m;
                assert(places[before.len() + k] == (c, m));
            }
        }
        places
    }
}

/// The messages to delete are exactly those of any conversation whose author and time are known, each
/// once and in their order: the `k`-th target is the message that stands at the `k`-th of the places,
/// which rise and leave out none with author and time. So there are as many targets as such messages.
pub proof fn law_every_named_message_is_deleted(
    deletes: &Vec<MessageDeletes>,
    targets: Vec<(ServiceId, u64)>,
) -> (places: Seq<(int, int)>)
    requires
        call_ensures(deletions_for_me, (deletes,), targets),
    ensures
        places.len() == targets@.len(),
        forall|k: int|
            #![trigger places[k]]
            #![trigger targets@[k]]
            0 <= k < places.len() ==> {
                let (c, m) = places[k];
                &&& 0 <= c < deletes@.len()
                &&& 0 <= m < deletes@[c].messages@.len()
                &&& deletes@[c].messages@[m].author == Some(targets@[k].0)
                &&& deletes@[c].messages@[m].sent_timestamp == Some(targets@[k].1)
            },
        forall|j: int, k: int|
            #![trigger places[j], places[k]]
            0 <= j < k < places.len() ==> places[j].0 < places[k].0 || (places[j].0 == places[k].0
                && places[j].1 < places[k].1),
        forall|c: int, m: int|
            #![trigger deletes@[c].messages@[m]]
            0 <= c < deletes@.len() && 0 <= m < deletes@[c].messages@.len() ==> (match (
                deletes@[c].messages@[m].author,
                deletes@[c].messages@[m].sent_timestamp,
            ) {
                (Some(author), Some(timestamp)) => places.contains((c, m)) && targets@.contains(
                    (author, timestamp),
                ),
                _ => !places.contains((c, m)),
            }),
{
    let places = lemma_all_named_places(deletes@);
    assert forall|c: int, m: int|
        #![trigger deletes@[c].messages@[m]]
        0 <= c < deletes@.len() && 0 <= m < deletes@[c].messages@.len() implies (match (
        deletes@[c].messages@[m].author,
        deletes@[c].messages@[m].sent_timestamp,
    ) {
        (Some(author), Some(timestamp)) => places.contains((c, m)) && targets@.contains(
            (author, timestamp),
        ),
        _ => !places.contains((c, m)),
    }) by {
        if places.contains((c, m)) {
            let k = choose|k: int| 0 <= k < places.len() && places[k] == (c, m);
            assert(places[k] == (c, m));
            assert(targets@[k] == (
                deletes@[c].messages@[m].author->0,
                deletes@[c].messages@[m].sent_timestamp->0,
            ));
        }
    }
    places
}

/// What another device deleted for the account is deleted here, unless the message comes along with
/// one that was sent: the plan's targets are those of the message's deletions.
pub proof fn law_deletions_for_this_account_are_carried_out(
    message: Content,
    derived_thread: Option<Thread>,
    override_thread: Option<Thread>,
    profile_workers: bool,
    message_timestamp: u64,
    plan: Result<SavePlan, Error>,
    sync: SyncMessage,
    deletes: Vec<MessageDeletes>,
) -> (places: Seq<(int, int)>)
    requires
        call_ensures(
            save_message,
            (message, derived_thread, override_thread, profile_workers, message_timestamp),
            plan,
        ),
        derived_thread is Some || override_thread is Some,
        message.body == ContentBody::SynchronizeMessage(sync),
        sync.delete_for_me == Some(deletes),
        sync.sent matches Some(sent) ==> sent.message is None,
    ensures
        plan matches Ok(p) && p.timer is None && p.profile_update is None,
        plan->Ok_0.storage matches StorageStep::Delete(targets) && {
            &&& places.len() == targets@.len()
            &&& forall|k: int|
                #![trigger places[k]]
                #![trigger targets@[k]]
                0 <= k < places.len() ==> {
                    let (c, m) = places[k];
                    &&& 0 <= c < deletes@.len()
                    &&& 0 <= m < deletes@[c].messages@.len()
                    &&& deletes@[c].messages@[m].author == Some(targets@[k].0)
                    &&& deletes@[c].messages@[m].sent_timestamp == Some(targets@[k].1)
                }
            &&& forall|j: int, k: int|
                #![trigger places[j], places[k]]
                0 <= j < k < places.len() ==> places[j].0 < places[k].0 || (places[j].0
                    == places[k].0 && places[j].1 < places[k].1)
            &&& forall|c: int, m: int|
                #![trigger deletes@[c].messages@[m]]
                0 <= c < deletes@.len() && 0 <= m < deletes@[c].messages@.len() ==> (match (
                    deletes@[c].messages@[m].author,
                    deletes@[c].messages@[m].sent_timestamp,
                ) {
                    (Some(author), Some(timestamp)) => places.contains((c, m))
                        && targets@.contains((author, timestamp)),
                    _ => !places.contains((c, m)),
                })
        },
{
    let places = lemma_all_named_places(deletes@);
    let targets = plan->Ok_0.storage->Delete_0;
    assert forall|c: int, m: int|
        #![trigger deletes@[c].messages@[m]]
        0 <= c < deletes@.len() && 0 <= m < deletes@[c].messages@.len() implies (match (
        deletes@[c].messages@[m].author,
        deletes@[c].messages@[m].sent_timestamp,
    ) {
        (Some(author), Some(timestamp)) => places.contains((c, m)) && targets@.contains(
            (author, timestamp),
        ),
        _ => !places.contains((c, m)),
    }) by {
        if places.contains((c, m)) {
            let k = choose|k: int| 0 <= k < places.len() && places[k] == (c, m);
            assert(places[k] == (c, m));
            assert(targets@[k] == (
                deletes@[c].messages@[m].author->0,
                deletes@[c].messages@[m].sent_timestamp->0,
            ));
        }
    }
    places
}

/// A message with data, be it received or sent from another device, is stored as it came, unless it
/// deletes another one for everyone, which is then emptied. Without data, a message that says nothing
/// else, one of a call or a receipt, and a change that tells which message becomes what are stored as
/// they came. Nothing else is stored.
pub proof fn law_messages_are_stored_as_they_came(
    message: Content,
    derived_thread: Option<Thread>,
    override_thread: Option<Thread>,
    profile_workers: bool,
    message_timestamp: u64,
    plan: Result<SavePlan, Error>,
)
    requires
        call_ensures(
            save_message,
            (message, derived_thread, override_thread, profile_workers, message_timestamp),
            plan,
        ),
    ensures
        plan is Ok <==> derived_thread is Some || override_thread is Some,
        plan matches Err(error) ==> error is UnknownThread,
        override_thread matches Some(thread) ==> plan->Ok_0.thread == thread,
        override_thread is None && derived_thread is Some ==> plan->Ok_0.thread == derived_thread->0,
        plan matches Ok(p) ==> match message.body {
            ContentBody::DataMessage(data) => match data.delete {
                Some(delete) if delete.target_sent_timestamp is Some => p.storage == (
                StorageStep::Empty { target_sent_timestamp: delete.target_sent_timestamp->0 }),
                _ => p.storage == StorageStep::Save(message),
            },
            ContentBody::SynchronizeMessage(sync) => match sync.sent {
                Some(sent) if sent.message is Some => match sent.message->0.delete {
                    Some(delete) if delete.target_sent_timestamp is Some => p.storage == (
                    StorageStep::Empty { target_sent_timestamp: delete.target_sent_timestamp->0 }),
                    _ => p.storage == StorageStep::Save(message),
                },
                sent => if sync.delete_for_me is Some {
                    p.storage is Delete
                } else if sync.call_event || (sent is Some && sent->0.edit_message is Some
                    && sent->0.edit_message->0.target_sent_timestamp is Some
                    && sent->0.edit_message->0.data_message is Some) {
                    p.storage == StorageStep::Save(message)
                } else {
                    p.storage is Nothing
                },
            },
            ContentBody::EditMessage(edit) => if edit.target_sent_timestamp is Some
                && edit.data_message is Some {
                p.storage == StorageStep::Save(message)
            } else {
                p.storage is Nothing
            },
            ContentBody::NullMessage => p.storage == StorageStep::Save(message),
            ContentBody::CallMessage => p.storage == StorageStep::Save(message),
            ContentBody::ReceiptMessage => p.storage == StorageStep::Save(message),
            _ => p.storage is Nothing,
        },
{
}

/// A message with data in a contact's thread sets the thread's timer to the one that it carries, or to
/// none if it carries none, under the version that it tells, or else the first one. No other message
/// changes a timer.
pub proof fn law_messages_of_contacts_set_the_timer(
    message: Content,
    derived_thread: Option<Thread>,
    override_thread: Option<Thread>,
    profile_workers: bool,
    message_timestamp: u64,
    plan: SavePlan,
)
    requires
        call_ensures(
            save_message,
            (message, derived_thread, override_thread, profile_workers, message_timestamp),
            Ok(plan),
        ),
    ensures
        ({
            let data = match message.body {
                ContentBody::DataMessage(data) => Some(data),
                ContentBody::SynchronizeMessage(SyncMessage { sent: Some(sent), .. }) => sent.message,
                _ => None,
            };
            match (data, plan.thread) {
                (Some(data), Thread::Contact(contact)) => plan.timer matches Some(timer) && {
                    &&& match contact {
                        ServiceId::Aci(uuid) => timer.contact == uuid,
                        ServiceId::Pni(uuid) => timer.contact == uuid,
                    }
                    &&& match data.expire_timer {
                        Some(seconds) => timer.expire_timer == seconds,
                        None => timer.expire_timer == 0,
                    }
                    &&& match data.expire_timer_version {
                        Some(version) => timer.expire_timer_version == version,
                        None => timer.expire_timer_version == 1,
                    }
                },
                _ => plan.timer is None,
            }
        }),
{
}

/// The profile key that a received message with data tells is the sender's, if the sender is an
/// account and the key is one. It is passed on with the timer of the message, unless nobody can deal
/// with it.
pub proof fn law_received_keys_are_those_of_the_sender(
    message: Content,
    derived_thread: Option<Thread>,
    override_thread: Option<Thread>,
    profile_workers: bool,
    message_timestamp: u64,
    plan: SavePlan,
)
    requires
        call_ensures(
            save_message,
            (message, derived_thread, override_thread, profile_workers, message_timestamp),
            Ok(plan),
        ),
    ensures
        ({
            let data = match message.body {
                ContentBody::DataMessage(data) => Some(data),
                ContentBody::SynchronizeMessage(SyncMessage { sent: Some(sent), .. }) => sent.message,
                _ => None,
            };
            match (message.metadata.sender, data) {
                (ServiceId::Aci(uuid), Some(data)) if override_thread is None && profile_workers
                    && data.profile_key is Some && data.profile_key->0@.len() == 32 => {
                    plan.profile_update matches Some((sender, update)) && {
                        &&& sender == uuid
                        &&& update.sender == ServiceId::Aci(uuid)
                        &&& update.profile_key.bytes@ == data.profile_key->0@
                        &&& update.observation_timestamp == message_timestamp
                        &&& match data.expire_timer {
                            Some(seconds) => update.expire_timer == seconds,
                            None => update.expire_timer == 0,
                        }
                        &&& match data.expire_timer_version {
                            Some(version) => update.expire_timer_version == version,
                            None => update.expire_timer_version == 1,
                        }
                    }
                },
                _ => plan.profile_update is None,
            }
        }),
{
}

/// The first thing done for a plan is to change the timer, if it has one to change, and else what it
/// does to the stored messages: that very message is stored, that one read, or those deleted, in the
/// plan's thread.
pub proof fn law_plan_is_begun_with_its_timer<E>(plan: SavePlan, task: SaveTask<E>)
    requires
        call_ensures(SaveTask::<E>::begin, (plan,), task),
    ensures
        match (plan.timer, task) {
            (Some(timer), SaveTask::UpdateTimer { timer: t, plan: p }) => t == timer && p == plan,
            (None, SaveTask::SaveMessage { thread, content, profile_update }) => {
                &&& plan.storage == StorageStep::Save(content)
                &&& thread == plan.thread
                &&& profile_update == plan.profile_update
            },
            (None, SaveTask::LoadMessage { thread, target_sent_timestamp, profile_update }) => {
                &&& plan.storage == (StorageStep::Empty { target_sent_timestamp })
                &&& thread == plan.thread
                &&& profile_update == plan.profile_update
            },
            (None, SaveTask::DeleteMessages { targets, profile_update }) => {
                &&& plan.storage == StorageStep::Delete(targets)
                &&& profile_update == plan.profile_update
            },
            (None, SaveTask::Finished { profile_update }) => {
                &&& plan.storage is Nothing
                &&& profile_update == plan.profile_update
            },
            _ => false,
        },
{
}

/// After the timer comes what the plan does to the stored messages. A message that was read is stored
/// again in the same thread, emptied: without content and sender, and otherwise as it was. One that is
/// not stored is left alone. What the plan tells of the sender is kept until the end. An error ends
/// all, except that messages which cannot be deleted are no error.
pub proof fn law_saving_goes_on_step_by_step<E>(
    task: SaveTask<E>,
    event: SaveEvent<E>,
    next: SaveTask<E>,
)
    requires
        call_ensures(SaveTask::<E>::step, (task, event), next),
    ensures
        match (task, event) {
            (SaveTask::DeleteMessages { profile_update, .. }, SaveEvent::Done(_)) => next == (
            SaveTask::<E>::Finished { profile_update }),
            (_, SaveEvent::Done(Err(error))) => next == SaveTask::Failed(error),
            (_, SaveEvent::Loaded(Err(error))) => next == SaveTask::Failed(error),
            (SaveTask::UpdateTimer { plan, .. }, _) => match next {
                SaveTask::SaveMessage { thread, content, profile_update } => {
                    &&& plan.storage == StorageStep::Save(content)
                    &&& thread == plan.thread
                    &&& profile_update == plan.profile_update
                },
                SaveTask::LoadMessage { thread, target_sent_timestamp, profile_update } => {
                    &&& plan.storage == (StorageStep::Empty { target_sent_timestamp })
                    &&& thread == plan.thread
                    &&& profile_update == plan.profile_update
                },
                SaveTask::DeleteMessages { targets, profile_update } => {
                    &&& plan.storage == StorageStep::Delete(targets)
                    &&& profile_update == plan.profile_update
                },
                SaveTask::Finished { profile_update } => {
                    &&& plan.storage is Nothing
                    &&& profile_update == plan.profile_update
                },
                _ => false,
            },
            (
                SaveTask::LoadMessage { thread, profile_update, .. },
                SaveEvent::Loaded(Ok(Some(existing))),
            ) => next matches SaveTask::SaveEmptied { thread: t, content, profile_update: p } && {
                &&& t == thread
                &&& p == profile_update
                &&& content.body is NullMessage
                &&& content.metadata == (Metadata {
                    sender: ServiceId::Aci(0),
                    ..existing.metadata
                })
            },
            (SaveTask::LoadMessage { profile_update, .. }, SaveEvent::Loaded(Ok(None))) => next == (
            SaveTask::<E>::Finished { profile_update }),
            (SaveTask::SaveMessage { profile_update, .. }, _) => next == (SaveTask::<
                E,
            >::Finished { profile_update }),
            (SaveTask::SaveEmptied { profile_update, .. }, _) => next == (SaveTask::<
                E,
            >::Finished { profile_update }),
            _ => true,
        },
{
}

} // verus!
