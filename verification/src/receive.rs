//! The loop that receives messages.

use vstd::prelude::*;

use crate::bytes::copy_bytes;
use crate::content::{
    Content,
    ContentBody,
    GroupContextV2,
    RequestType,
    ServiceId,
    StickerPackAction,
    StickerPackOperation,
    SyncKeys,
    SyncMessage,
};
use crate::coordinator::ContactUpdateCoordinator;
use crate::registration::{Manager, Registered, RegistrationType, ServiceIds};
use crate::save::{data_message, data_message_of};
use crate::workers::ContactProfileWorkerQueue;

verus! {

/// What the loop waits for next.
#[derive(Clone, Copy, Debug, PartialEq, Eq, Structural)]
pub enum ReceivePoll {
    /// Nothing: the queue is empty and every update that came with it is done.
    EmitQueueEmpty,
    /// The next message.
    Message,
    /// The end of a worker, or else the next message.
    WorkerOrMessage,
}

/// Which of the account's keys opens an envelope.
#[derive(Clone, Copy, Debug, PartialEq, Eq, Structural)]
pub enum EnvelopeRoute {
    /// Those of the account identity.
    Aci,
    /// Those of the phone number identity.
    Pni,
    /// None: the envelope is invalid.
    Ignore,
}

/// What came in.
#[derive(Clone, Copy, Debug, PartialEq, Eq, Structural)]
pub enum Incoming {
    /// An envelope, the identity to which it is addressed, if it tells one, and whether it tells
    /// its sender.
    Envelope { destination: Option<ServiceId>, has_source: bool },
    /// The service has no more messages.
    QueueEmpty,
    /// What came in could not be read.
    Failed,
    /// The connection is closed.
    Closed,
}

/// What to do for what came in.
#[derive(Clone, Copy, Debug, PartialEq, Eq, Structural)]
pub enum IncomingAction {
    /// Open the envelope with the keys of the account identity.
    OpenWithAci,
    /// Open the envelope with the keys of the phone number identity.
    OpenWithPni,
    /// Nothing: wait for what comes next.
    Poll,
    /// What happens when the service has no more messages.
    QueueEmpty(QueueEmptyPlan),
    /// Stop receiving.
    Stop,
}

/// What happens when the service has no more messages.
#[derive(Clone, Copy, Debug, PartialEq, Eq, Structural)]
pub struct QueueEmptyPlan {
    /// Whether to ask the primary device for the account's keys.
    pub request_keys: bool,
    /// Whether to tell the caller now.
    pub emit: bool,
}

/// One thing to do for a message.
#[derive(Debug)]
pub enum ReceiveStep {
    /// Send all contacts to the account's other devices.
    SendContacts,
    /// Send these keys to the account's other devices.
    SendKeys(SyncKeys),
    /// Tell the account's other devices that nobody is blocked.
    SendNobodyBlocked,
    /// Fetch and save the contacts that the message announces.
    SaveContacts,
    /// Download and save a sticker pack.
    InstallStickerPack(StickerPackOperation),
    /// Remove a sticker pack.
    RemoveStickerPack(Vec<u8>),
    /// Take over the keys that the message carries.
    TakeKeys,
    /// Bring a group up to a revision.
    UpsertGroup { master_key: Vec<u8>, revision: u32 },
    /// Store what the message says.
    SaveMessage,
    /// Hand the message to the caller.
    EmitContent,
    /// Tell the caller that contacts were received.
    EmitContacts,
}

/// What a step is.
pub enum ReceiveStepView {
    SendContacts,
    SendKeys { account_entropy_pool: Option<Seq<char>>, master: Option<Seq<u8>> },
    SendNobodyBlocked,
    SaveContacts,
    InstallStickerPack {
        pack_id: Option<Seq<u8>>,
        pack_key: Option<Seq<u8>>,
        action: StickerPackAction,
    },
    RemoveStickerPack { pack_id: Seq<u8> },
    TakeKeys,
    UpsertGroup { master_key: Seq<u8>, revision: u32 },
    SaveMessage,
    EmitContent,
    EmitContacts,
}

/// The bytes of a vector that may be absent.
pub open spec fn optional_bytes(bytes: Option<Vec<u8>>) -> Option<Seq<u8>> {
    match bytes {
        Some(b) => Some(b@),
        None => None,
    }
}

/// The characters of a text that may be absent.
pub open spec fn optional_text(text: Option<String>) -> Option<Seq<char>> {
    match text {
        Some(t) => Some(t@),
        None => None,
    }
}

/// The bytes that a field holds; none when it is absent.
pub open spec fn bytes_or_empty(bytes: Option<Vec<u8>>) -> Seq<u8> {
    match bytes {
        Some(b) => b@,
        None => Seq::empty(),
    }
}

impl View for ReceiveStep {
    type V = ReceiveStepView;

    open spec fn view(&self) -> ReceiveStepView {
        match *self {
            ReceiveStep::SendContacts => ReceiveStepView::SendContacts,
            ReceiveStep::SendKeys(keys) => ReceiveStepView::SendKeys {
                account_entropy_pool: optional_text(keys.account_entropy_pool),
                master: optional_bytes(keys.master),
            },
            ReceiveStep::SendNobodyBlocked => ReceiveStepView::SendNobodyBlocked,
            ReceiveStep::SaveContacts => ReceiveStepView::SaveContacts,
            ReceiveStep::InstallStickerPack(operation) => ReceiveStepView::InstallStickerPack {
                pack_id: optional_bytes(operation.pack_id),
                pack_key: optional_bytes(operation.pack_key),
                action: operation.action,
            },
            ReceiveStep::RemoveStickerPack(pack_id) => ReceiveStepView::RemoveStickerPack {
                pack_id: pack_id@,
            },
            ReceiveStep::TakeKeys => ReceiveStepView::TakeKeys,
            ReceiveStep::UpsertGroup { master_key, revision } => ReceiveStepView::UpsertGroup {
                master_key: master_key@,
                revision,
            },
            ReceiveStep::SaveMessage => ReceiveStepView::SaveMessage,
            ReceiveStep::EmitContent => ReceiveStepView::EmitContent,
            ReceiveStep::EmitContacts => ReceiveStepView::EmitContacts,
        }
    }
}

/// What steps are, in their order.
pub open spec fn step_views(steps: Seq<ReceiveStep>) -> Seq<ReceiveStepView> {
    steps.map_values(|step: ReceiveStep| step@)
}

/// The state of the loop. Keys are held as their text and their bytes.
#[derive(Debug)]
pub struct ReceiveState {
    pub profile_workers: ContactProfileWorkerQueue,
    /// Whether the caller is still to be told that the queue is empty.
    pub queue_empty_pending: bool,
    pub service_ids: ServiceIds,
    pub registration_type: RegistrationType,
    pub account_entropy_pool: Option<String>,
    pub master_key: Option<Vec<u8>>,
}

impl<S> Manager<S, Registered> {
    /// Starts receiving and storing messages.
    ///
    /// As a client, it is heavily recommended to process incoming messages and wait for the queue
    /// to be reported empty until giving the ability for users to send messages. That way, all
    /// possible updates (sessions, profile keys, sender keys) are processed _before_ trying to
    /// encrypt and send messages, which might get rejected by recipients otherwise.
    ///
    /// The keys are the account's, as far as they are known.
    pub fn receive_messages(
        &self,
        account_entropy_pool: Option<String>,
        master_key: Option<Vec<u8>>,
    ) -> (state: ReceiveState)
        ensures
            state@ == LoopView::reached(Seq::empty()),
            state.service_ids == self.state.data.service_ids,
            state.registration_type == self.state.registered_as(),
            state.account_entropy_pool == account_entropy_pool,
            state.master_key == master_key,
    {
        ReceiveState {
            profile_workers: ContactProfileWorkerQueue::new(),
            queue_empty_pending: false,
            service_ids: self.state.data.service_ids,
            registration_type: self.registration_type(),
            account_entropy_pool,
            master_key,
        }
    }
}

/// What is sent in answer to a request of another device.
pub open spec fn reply_steps(
    request: RequestType,
    account_entropy_pool: Option<String>,
    master_key: Option<Vec<u8>>,
) -> Seq<ReceiveStepView> {
    match request {
        RequestType::Contacts => seq![ReceiveStepView::SendContacts],
        RequestType::Keys => seq![
            ReceiveStepView::SendKeys {
                account_entropy_pool: optional_text(account_entropy_pool),
                master: optional_bytes(master_key),
            },
        ],
        RequestType::Blocked => seq![ReceiveStepView::SendNobodyBlocked],
        RequestType::Other => Seq::empty(),
    }
}

/// What is done for something that another device did to a sticker pack.
pub open spec fn sticker_step(operation: StickerPackOperation) -> ReceiveStepView {
    match operation.action {
        StickerPackAction::Install => ReceiveStepView::InstallStickerPack {
            pack_id: optional_bytes(operation.pack_id),
            pack_key: optional_bytes(operation.pack_key),
            action: StickerPackAction::Install,
        },
        StickerPackAction::Remove => ReceiveStepView::RemoveStickerPack {
            pack_id: bytes_or_empty(operation.pack_id),
        },
    }
}

/// The group and revision that a message with data speaks of.
pub open spec fn group_steps(body: ContentBody) -> Seq<ReceiveStepView> {
    match data_message_of(body) {
        Some(message) => match message.group_v2 {
            Some(GroupContextV2 { master_key: Some(key), revision: Some(revision), .. }) => seq![
                ReceiveStepView::UpsertGroup { master_key: key@, revision },
            ],
            _ => Seq::empty(),
        },
        None => Seq::empty(),
    }
}

/// What is done for a message, in order.
pub open spec fn content_steps(
    body: ContentBody,
    account_entropy_pool: Option<String>,
    master_key: Option<Vec<u8>>,
) -> Seq<ReceiveStepView> {
    match body {
        ContentBody::DecryptionErrorMessage => Seq::empty(),
        ContentBody::SynchronizeMessage(sync) => {
            let replies = match sync.request {
                Some(request) => reply_steps(request, account_entropy_pool, master_key),
                None => Seq::empty(),
            };
            if sync.contacts {
                replies + seq![ReceiveStepView::SaveContacts, ReceiveStepView::EmitContacts]
            } else {
                let keys = if sync.keys is Some {
                    seq![ReceiveStepView::TakeKeys]
                } else {
                    Seq::empty()
                };
                replies + sync.sticker_pack_operation@.map_values(
                    |operation: StickerPackOperation| sticker_step(operation),
                ) + keys + group_steps(body) + seq![
                    ReceiveStepView::SaveMessage,
                    ReceiveStepView::EmitContent,
                ]
            }
        },
        _ => group_steps(body) + seq![ReceiveStepView::SaveMessage, ReceiveStepView::EmitContent],
    }
}

/// Adds a step.
fn push_step(steps: &mut Vec<ReceiveStep>, step: ReceiveStep)
    ensures
        step_views(final(steps)@) == step_views(old(steps)@).push(step@),
{
    let ghost before = steps@;
    steps.push(step);
    assert(step_views(steps@) =~= step_views(before).push(step@));
}

/// Copies a byte string that may be absent.
fn copy_optional_bytes(bytes: &Option<Vec<u8>>) -> (copy: Option<Vec<u8>>)
    ensures
        optional_bytes(copy) == optional_bytes(*bytes),
{
    match bytes {
        Some(bytes) => Some(copy_bytes(bytes.as_slice())),
        None => None,
    }
}

/// Adds the steps for what another device did to sticker packs.
fn push_sticker_steps(steps: &mut Vec<ReceiveStep>, operations: &Vec<StickerPackOperation>)
    ensures
        step_views(final(steps)@) == step_views(old(steps)@) + operations@.map_values(
            |operation: StickerPackOperation| sticker_step(operation),
        ),
{
    let ghost to_step = |operation: StickerPackOperation| sticker_step(operation);
    let ghost before = step_views(steps@);
    let mut index: usize = 0;
    proof {
        assert(before + operations@.take(0).map_values(to_step) =~= before);
    }
    while index < operations.len()
        invariant
            index <= operations@.len(),
            to_step == (|operation: StickerPackOperation| sticker_step(operation)),
            step_views(steps@) == before + operations@.take(index as int).map_values(to_step),
        decreases operations@.len() - index,
    {
        let operation = &operations[index];
        let ghost steps_before = step_views(steps@);
        let step = match operation.action {
            StickerPackAction::Install => ReceiveStep::InstallStickerPack(
                StickerPackOperation {
                    pack_id: copy_optional_bytes(&operation.pack_id),
                    pack_key: copy_optional_bytes(&operation.pack_key),
                    action: StickerPackAction::Install,
                },
            ),
            StickerPackAction::Remove => ReceiveStep::RemoveStickerPack(
                match &operation.pack_id {
                    Some(pack_id) => copy_bytes(pack_id.as_slice()),
                    None => Vec::new(),
                },
            ),
        };
        proof {
            if operation.action is Remove {
                assert(step@ == sticker_step(*operation));
            }
        }
        push_step(steps, step);
        index += 1;
        proof {
            assert(step_views(steps@) == steps_before.push(sticker_step(*operation)));
            assert(operations@.take(index as int).map_values(to_step) =~= operations@.take(
                index - 1,
            ).map_values(to_step).push(sticker_step(*operation)));
            assert(step_views(steps@) =~= before + operations@.take(index as int).map_values(
                to_step,
            ));
        }
    }
    proof {
        assert(operations@.take(index as int) =~= operations@);
    }
}

/// Adds the step for the group that a message speaks of.
fn push_group_steps(steps: &mut Vec<ReceiveStep>, body: &ContentBody)
    ensures
        step_views(final(steps)@) == step_views(old(steps)@) + group_steps(*body),
{
    let ghost before = step_views(steps@);
    if let Some(message) = data_message(body) {
        if let Some(context) = &message.group_v2 {
            if let Some(master_key) = &context.master_key {
                if let Some(revision) = context.revision {
                    let step = ReceiveStep::UpsertGroup {
                        master_key: copy_bytes(master_key.as_slice()),
                        revision,
                    };
                    push_step(steps, step);
                    assert(step_views(steps@) =~= before + group_steps(*body));
                    return;
                }
            }
        }
    }
    assert(before + group_steps(*body) =~= before);
}

impl View for ReceiveState {
    type V = LoopView;

    open spec fn view(&self) -> LoopView {
        LoopView { pending: self.queue_empty_pending, active: self.profile_workers@ }
    }
}

impl ReceiveState {
    /// Decides what to wait for. Workers go before messages.
    pub fn poll(&mut self) -> (poll: ReceivePoll)
        ensures
            poll == old(self)@.awaited(),
            final(self)@ == old(self)@.after(LoopEvent::Poll),
            *final(self) == (ReceiveState {
                queue_empty_pending: final(self).queue_empty_pending,
                ..*old(self)
            }),
    {
        if self.queue_empty_pending && self.profile_workers.is_empty() {
            self.queue_empty_pending = false;
            return ReceivePoll::EmitQueueEmpty;
        }
        if self.profile_workers.is_empty() {
            ReceivePoll::Message
        } else {
            ReceivePoll::WorkerOrMessage
        }
    }

    /// Records that the worker of a contact ended, and tells whether to start another one.
    pub fn worker_completed(&mut self, updates: &ContactUpdateCoordinator, sender_uuid: u128) -> (
    restart: bool)
        ensures
            restart == updates@.pending.contains_key(sender_uuid),
            final(self)@ == old(self)@.after(
                if restart {
                    LoopEvent::WorkerStarted(sender_uuid)
                } else {
                    LoopEvent::WorkerEnded(sender_uuid)
                },
            ),
            *final(self) == (ReceiveState {
                profile_workers: final(self).profile_workers,
                ..*old(self)
            }),
    {
        self.profile_workers.finish(updates, sender_uuid)
    }

    /// Decides which keys open an envelope. `destination` is the identity to which it is
    /// addressed, if it tells one, and `has_source` whether it tells its sender.
    pub fn route_envelope(&self, destination: Option<ServiceId>, has_source: bool) -> (route:
        EnvelopeRoute)
        ensures
            route == match destination {
                Some(ServiceId::Pni(pni)) => if pni == self.service_ids.pni && !has_source {
                    EnvelopeRoute::Ignore
                } else {
                    EnvelopeRoute::Pni
                },
                _ => EnvelopeRoute::Aci,
            },
    {
        match destination {
            Some(ServiceId::Pni(pni)) => {
                if pni == self.service_ids.pni && !has_source {
                    EnvelopeRoute::Ignore
                } else {
                    EnvelopeRoute::Pni
                }
            },
            _ => EnvelopeRoute::Aci,
        }
    }

    /// Decides what to do for what came in.
    pub fn incoming(&mut self, incoming: Incoming) -> (action: IncomingAction)
        ensures
            match incoming {
                Incoming::Envelope { destination, has_source } => {
                    &&& *final(self) == *old(self)
                    &&& action == match destination {
                        Some(ServiceId::Pni(pni)) => if pni == old(self).service_ids.pni
                            && !has_source {
                            IncomingAction::Poll
                        } else {
                            IncomingAction::OpenWithPni
                        },
                        _ => IncomingAction::OpenWithAci,
                    }
                },
                Incoming::QueueEmpty => {
                    &&& final(self)@ == old(self)@.after(LoopEvent::QueueEmpty)
                    &&& *final(self) == (ReceiveState {
                        queue_empty_pending: final(self).queue_empty_pending,
                        ..*old(self)
                    })
                    &&& action matches IncomingAction::QueueEmpty(plan) && {
                        &&& plan.request_keys <==> !old(self).queue_empty_pending && old(
                            self,
                        ).account_entropy_pool is None
                        &&& plan.emit == old(self)@.reports_at(LoopEvent::QueueEmpty)
                    }
                },
                Incoming::Failed => action == IncomingAction::Poll && *final(self) == *old(self),
                Incoming::Closed => action == IncomingAction::Stop && *final(self) == *old(self),
            },
    {
        match incoming {
            Incoming::Envelope { destination, has_source } => match self.route_envelope(
                destination,
                has_source,
            ) {
                EnvelopeRoute::Aci => IncomingAction::OpenWithAci,
                EnvelopeRoute::Pni => IncomingAction::OpenWithPni,
                EnvelopeRoute::Ignore => IncomingAction::Poll,
            },
            Incoming::QueueEmpty => IncomingAction::QueueEmpty(self.queue_empty()),
            Incoming::Failed => IncomingAction::Poll,
            Incoming::Closed => IncomingAction::Stop,
        }
    }

    /// Decides what to do for a message, in order.
    pub fn content_received(&self, content: &Content) -> (steps: Vec<ReceiveStep>)
        ensures
            step_views(steps@) == content_steps(
                content.body,
                self.account_entropy_pool,
                self.master_key,
            ),
    {
        let mut steps: Vec<ReceiveStep> = Vec::new();
        let ghost start = step_views(steps@);
        assert(start =~= Seq::empty());
        if let ContentBody::DecryptionErrorMessage = &content.body {
            return steps;
        }
        if let ContentBody::SynchronizeMessage(sync) = &content.body {
            let ghost replies = match sync.request {
                Some(request) => reply_steps(request, self.account_entropy_pool, self.master_key),
                None => Seq::empty(),
            };
            if let Some(request) = sync.request {
                match request {
                    RequestType::Contacts => push_step(&mut steps, ReceiveStep::SendContacts),
                    RequestType::Keys => {
                        let account_entropy_pool = match &self.account_entropy_pool {
                            Some(pool) => Some(pool.clone()),
                            None => None,
                        };
                        let keys = SyncKeys {
                            account_entropy_pool,
                            master: copy_optional_bytes(&self.master_key),
                        };
                        push_step(&mut steps, ReceiveStep::SendKeys(keys));
                    },
                    RequestType::Blocked => push_step(&mut steps, ReceiveStep::SendNobodyBlocked),
                    RequestType::Other => {},
                }
            }
            assert(step_views(steps@) =~= replies);
            if sync.contacts {
                push_step(&mut steps, ReceiveStep::SaveContacts);
                push_step(&mut steps, ReceiveStep::EmitContacts);
                assert(step_views(steps@) =~= replies + seq![
                    ReceiveStepView::SaveContacts,
                    ReceiveStepView::EmitContacts,
                ]);
                return steps;
            }
            push_sticker_steps(&mut steps, &sync.sticker_pack_operation);
            let ghost stickers = step_views(steps@);
            let ghost keys = if sync.keys is Some {
                seq![ReceiveStepView::TakeKeys]
            } else {
                Seq::empty()
            };
            if sync.keys.is_some() {
                push_step(&mut steps, ReceiveStep::TakeKeys);
            }
            assert(step_views(steps@) =~= stickers + keys);
        }
        let ghost before = step_views(steps@);
        push_group_steps(&mut steps, &content.body);
        push_step(&mut steps, ReceiveStep::SaveMessage);
        push_step(&mut steps, ReceiveStep::EmitContent);
        assert(step_views(steps@) =~= before + group_steps(content.body) + seq![
            ReceiveStepView::SaveMessage,
            ReceiveStepView::EmitContent,
        ]);
        steps
    }

    /// Takes over an account entropy pool that the primary device shares, and tells whether to
    /// store it. `received` is the pool if the message carries one, and it if it is a valid one.
    pub fn pool_received(&mut self, received: Option<Option<String>>) -> (stored: bool)
        ensures
            stored <==> old(self).registration_type is Secondary && received matches Some(Some(_)),
            *final(self) == (ReceiveState {
                account_entropy_pool: if stored {
                    received->0
                } else {
                    old(self).account_entropy_pool
                },
                ..*old(self)
            }),
    {
        match self.registration_type {
            RegistrationType::Primary => false,
            RegistrationType::Secondary => match received {
                Some(Some(pool)) => {
                    self.account_entropy_pool = Some(pool);
                    true
                },
                _ => false,
            },
        }
    }

    /// Takes over a master key that the primary device shares, and tells whether to store it.
    /// `received` is the key if the message carries one, and it if it is a valid one; `derived` is
    /// the key that the account entropy pool leads to, if there is a pool. It stands in for a key
    /// that did not come, but is not stored.
    pub fn master_received(&mut self, received: Option<Option<Vec<u8>>>, derived: Option<Vec<u8>>)
        -> (stored: bool)
        ensures
            stored <==> old(self).registration_type is Secondary && received matches Some(Some(_)),
            *final(self) == (ReceiveState {
                master_key: if stored {
                    received->0
                } else if old(self).registration_type is Secondary && derived is Some {
                    derived
                } else {
                    old(self).master_key
                },
                ..*old(self)
            }),
    {
        match self.registration_type {
            RegistrationType::Primary => false,
            RegistrationType::Secondary => match received {
                Some(Some(key)) => {
                    self.master_key = Some(key);
                    true
                },
                _ => {
                    if let Some(key) = derived {
                        self.master_key = Some(key);
                    }
                    false
                },
            },
        }
    }

    /// Decides what to do when the service has no more messages. The caller is told at once, or
    /// when the last worker ends.
    pub fn queue_empty(&mut self) -> (plan: QueueEmptyPlan)
        ensures
            plan.request_keys <==> !old(self).queue_empty_pending && old(
                self,
            ).account_entropy_pool is None,
            plan.emit == old(self)@.reports_at(LoopEvent::QueueEmpty),
            final(self)@ == old(self)@.after(LoopEvent::QueueEmpty),
            *final(self) == (ReceiveState {
                queue_empty_pending: final(self).queue_empty_pending,
                ..*old(self)
            }),
    {
        let request_keys = !self.queue_empty_pending && self.account_entropy_pool.is_none();
        if !self.profile_workers.is_empty() {
            self.queue_empty_pending = true;
            return QueueEmptyPlan { request_keys, emit: false };
        }
        QueueEmptyPlan { request_keys, emit: true }
    }
}

/// A message that could not be decrypted leads to nothing; announced contacts are saved and
/// reported, and not stored as a message; any other message is stored before it is handed to the
/// caller, which is the last thing done for it.
pub proof fn law_messages_are_stored_before_they_are_handed_over(
    body: ContentBody,
    account_entropy_pool: Option<String>,
    master_key: Option<Vec<u8>>,
)
    ensures
        ({
            let steps = content_steps(body, account_entropy_pool, master_key);
            let last = steps.len() - 1;
            if body is DecryptionErrorMessage {
                steps.len() == 0
            } else if body matches ContentBody::SynchronizeMessage(sync) && sync.contacts {
                &&& last >= 1
                &&& steps[last] == ReceiveStepView::EmitContacts
                &&& steps[last - 1] == ReceiveStepView::SaveContacts
                &&& forall|i: int|
                    0 <= i < steps.len() ==> #[trigger] steps[i] != ReceiveStepView::SaveMessage
                        && steps[i] != ReceiveStepView::EmitContent
            } else {
                &&& last >= 1
                &&& steps[last] == ReceiveStepView::EmitContent
                &&& steps[last - 1] == ReceiveStepView::SaveMessage
                &&& forall|i: int|
                    0 <= i < last - 1 ==> #[trigger] steps[i] != ReceiveStepView::SaveMessage
                        && steps[i] != ReceiveStepView::EmitContent
            }
        }),
{
}

/// What can happen to the loop, as far as reports of an empty queue are concerned.
pub enum LoopEvent {
    /// The service has no more messages.
    QueueEmpty,
    /// A worker was started for a contact.
    WorkerStarted(u128),
    /// The worker of a contact ended and was not restarted.
    WorkerEnded(u128),
    /// The loop decides what to wait for.
    Poll,
}

/// The part of the loop's state on which reports of an empty queue depend.
pub struct LoopView {
    pub pending: bool,
    pub active: Set<u128>,
}

impl LoopView {
    /// What the loop waits for in this state.
    pub open spec fn awaited(self) -> ReceivePoll {
        if self.active != Set::<u128>::empty() {
            ReceivePoll::WorkerOrMessage
        } else if self.pending {
            ReceivePoll::EmitQueueEmpty
        } else {
            ReceivePoll::Message
        }
    }

    /// Whether the caller is told of an empty queue when something happens.
    pub open spec fn reports_at(self, event: LoopEvent) -> bool {
        match event {
            LoopEvent::QueueEmpty => self.active == Set::<u128>::empty(),
            LoopEvent::Poll => self.awaited() == ReceivePoll::EmitQueueEmpty,
            _ => false,
        }
    }

    /// The state after something happened.
    pub open spec fn after(self, event: LoopEvent) -> Self {
        match event {
            LoopEvent::QueueEmpty => LoopView {
                pending: self.pending || self.active != Set::<u128>::empty(),
                ..self
            },
            LoopEvent::WorkerStarted(uuid) => LoopView { active: self.active.insert(uuid), ..self },
            LoopEvent::WorkerEnded(uuid) => LoopView { active: self.active.remove(uuid), ..self },
            LoopEvent::Poll => LoopView {
                pending: self.pending && self.awaited() != ReceivePoll::EmitQueueEmpty,
                ..self
            },
        }
    }

    /// The state of a loop that starts, after some events.
    pub open spec fn reached(events: Seq<LoopEvent>) -> Self
        decreases events.len(),
    {
        if events.len() == 0 {
            LoopView { pending: false, active: Set::empty() }
        } else {
            LoopView::reached(events.drop_last()).after(events.last())
        }
    }

    /// How often the caller was told of an empty queue during some events.
    pub open spec fn reports(events: Seq<LoopEvent>) -> nat
        decreases events.len(),
    {
        if events.len() == 0 {
            0
        } else {
            LoopView::reports(events.drop_last()) + if LoopView::reached(
                events.drop_last(),
            ).reports_at(events.last()) {
                1nat
            } else {
                0nat
            }
        }
    }
}

/// How often the service had no more messages during some events.
pub open spec fn times_emptied(events: Seq<LoopEvent>) -> nat
    decreases events.len(),
{
    if events.len() == 0 {
        0
    } else {
        times_emptied(events.drop_last()) + if events.last() is QueueEmpty {
            1nat
        } else {
            0nat
        }
    }
}

/// Whatever happens, the caller is told of an empty queue only when no worker runs, at most as
/// often as the queue was empty, and not never: a report that was not made yet is pending, and is
/// what the loop does first when the last worker has ended.
pub proof fn law_empty_queue_is_reported_when_workers_ended(events: Seq<LoopEvent>, next: LoopEvent)
    ensures
        ({
            let state = LoopView::reached(events);
            let reports = LoopView::reports(events);
            &&& state.reports_at(next) ==> state.active == Set::<u128>::empty()
            &&& reports + (if state.pending {
                1int
            } else {
                0int
            }) <= times_emptied(events)
            &&& times_emptied(events) > 0 ==> reports > 0 || state.pending
            &&& state.pending && state.active == Set::<u128>::empty() ==> state.reports_at(
                LoopEvent::Poll,
            )
        }),
    decreases events.len(),
{
    if events.len() > 0 {
        law_empty_queue_is_reported_when_workers_ended(events.drop_last(), events.last());
    }
}

/// The steps stand in the order of what they are.
proof fn lemma_steps_are_viewed(steps: Seq<ReceiveStep>)
    ensures
        step_views(steps).len() == steps.len(),
        forall|i: int| 0 <= i < steps.len() ==> step_views(steps)[i] == (#[trigger] steps[i])@,
{
}

/// A message in a group, be it received or sent from another device of the account, that tells the
/// group's key and revision has the group brought up to that revision, once and before the message
/// is stored. No other message does.
pub proof fn law_group_of_a_message_is_brought_up_to_date(
    state: &ReceiveState,
    content: &Content,
    steps: Vec<ReceiveStep>,
)
    requires
        call_ensures(ReceiveState::content_received, (state, content), steps),
    ensures
        ({
            let context = match content.body {
                ContentBody::DataMessage(message) => message.group_v2,
                ContentBody::SynchronizeMessage(SyncMessage { sent: Some(sent), contacts, .. }) => {
                    match sent.message {
                        Some(message) if !contacts => message.group_v2,
                        _ => None,
                    }
                },
                _ => None,
            };
            match context {
                Some(
                    GroupContextV2 { master_key: Some(key), revision: Some(revision), .. },
                ) => exists|at: int|
                    {
                        &&& 0 <= at < steps@.len()
                        &&& #[trigger] steps@[at] matches ReceiveStep::UpsertGroup {
                            master_key,
                            revision: r,
                        } && master_key@ == key@ && r == revision
                        &&& forall|i: int|
                            0 <= i < steps@.len() && i != at ==> !(
                            #[trigger] steps@[i] is UpsertGroup)
                        &&& forall|i: int| 0 <= i <= at ==> !(#[trigger] steps@[i] is SaveMessage)
                        &&& exists|i: int|
                            at < i < steps@.len() && #[trigger] steps@[i] is SaveMessage
                    },
                _ => forall|i: int|
                    0 <= i < steps@.len() ==> !(#[trigger] steps@[i] is UpsertGroup),
            }
        }),
{
    lemma_steps_are_viewed(steps@);
    let at = steps@.len() - 3;
    if at >= 0 {
        assert(steps@[at]@ == step_views(steps@)[at]);
        assert(steps@[at + 1]@ == step_views(steps@)[at + 1]);
    }
}

/// Another device that asks for contacts, keys or the blocked is answered first and once, with the
/// keys that are known. Nothing is sent for any other message.
pub proof fn law_requests_are_answered(
    state: &ReceiveState,
    content: &Content,
    steps: Vec<ReceiveStep>,
)
    requires
        call_ensures(ReceiveState::content_received, (state, content), steps),
    ensures
        ({
            let request = match content.body {
                ContentBody::SynchronizeMessage(sync) => sync.request,
                _ => None,
            };
            &&& request == Some(RequestType::Contacts) ==> steps@.len() > 0
                && steps@[0] is SendContacts
            &&& request == Some(RequestType::Blocked) ==> steps@.len() > 0
                && steps@[0] is SendNobodyBlocked
            &&& request == Some(RequestType::Keys) ==> {
                &&& steps@.len() > 0
                &&& steps@[0] matches ReceiveStep::SendKeys(keys) && {
                    &&& match (keys.account_entropy_pool, state.account_entropy_pool) {
                        (Some(sent), Some(known)) => sent@ == known@,
                        (None, None) => true,
                        _ => false,
                    }
                    &&& match (keys.master, state.master_key) {
                        (Some(sent), Some(known)) => sent@ == known@,
                        (None, None) => true,
                        _ => false,
                    }
                }
            }
            &&& forall|i: int|
                0 <= i < steps@.len() && (#[trigger] steps@[i] is SendContacts
                    || steps@[i] is SendKeys || steps@[i] is SendNobodyBlocked) ==> i == 0 && (
                request matches Some(asked) && asked != RequestType::Other)
        }),
{
    lemma_steps_are_viewed(steps@);
    if steps@.len() > 0 {
        assert(steps@[0]@ == step_views(steps@)[0]);
    }
}

/// Every sticker pack that another device installed is installed, and every one that it removed is
/// removed, each once and in the order in which the message tells them, unless the message announces
/// contacts. No other message touches a pack.
pub proof fn law_sticker_packs_follow_other_devices(
    state: &ReceiveState,
    content: &Content,
    steps: Vec<ReceiveStep>,
) -> (first: int)
    requires
        call_ensures(ReceiveState::content_received, (state, content), steps),
    ensures
        ({
            let operations = match content.body {
                ContentBody::SynchronizeMessage(sync) if !sync.contacts => {
                    sync.sticker_pack_operation@
                },
                _ => Seq::empty(),
            };
            &&& 0 <= first
            &&& operations.len() > 0 ==> first + operations.len() < steps@.len()
            &&& forall|at: int|
                first <= at < first + operations.len() ==> match #[trigger] steps@[at] {
                    ReceiveStep::InstallStickerPack(done) => {
                        &&& operations[at - first].action is Install
                        &&& done.action is Install
                        &&& match (done.pack_id, operations[at - first].pack_id) {
                            (Some(id), Some(told)) => id@ == told@,
                            (None, None) => true,
                            _ => false,
                        }
                        &&& match (done.pack_key, operations[at - first].pack_key) {
                            (Some(key), Some(told)) => key@ == told@,
                            (None, None) => true,
                            _ => false,
                        }
                    },
                    ReceiveStep::RemoveStickerPack(pack_id) => {
                        &&& operations[at - first].action is Remove
                        &&& match operations[at - first].pack_id {
                            Some(id) => pack_id@ == id@,
                            None => pack_id@.len() == 0,
                        }
                    },
                    _ => false,
                }
            &&& forall|at: int|
                0 <= at < steps@.len() && (#[trigger] steps@[at] is InstallStickerPack
                    || steps@[at] is RemoveStickerPack) ==> first <= at < first
                    + operations.len()
        }),
{
    lemma_steps_are_viewed(steps@);
    match content.body {
        ContentBody::SynchronizeMessage(sync) if !sync.contacts => {
            let operations = sync.sticker_pack_operation@;
            let first = match sync.request {
                Some(RequestType::Other) => 0int,
                Some(_) => 1int,
                None => 0int,
            };
            assert forall|at: int| first <= at < first + operations.len() implies (
            #[trigger] steps@[at])@ == sticker_step(operations[at - first]) by {
            }
            first
        },
        _ => 0,
    }
}

/// What is kept of a message: nothing of one that could not be decrypted; of announced contacts only
/// these, and they are reported; any other message is stored once and then handed over once, as the
/// last two things done.
pub proof fn law_messages_are_kept_and_handed_over_once(
    state: &ReceiveState,
    content: &Content,
    steps: Vec<ReceiveStep>,
)
    requires
        call_ensures(ReceiveState::content_received, (state, content), steps),
    ensures
        content.body is DecryptionErrorMessage <==> steps@.len() == 0,
        ({
            let last = steps@.len() - 1;
            let announced = match content.body {
                ContentBody::SynchronizeMessage(sync) => sync.contacts,
                _ => false,
            };
            last >= 0 ==> last >= 1 && forall|i: int|
                #![trigger steps@[i]]
                0 <= i < steps@.len() ==> {
                    &&& steps@[i] is SaveContacts <==> announced && i == last - 1
                    &&& steps@[i] is EmitContacts <==> announced && i == last
                    &&& steps@[i] is SaveMessage <==> !announced && i == last - 1
                    &&& steps@[i] is EmitContent <==> !announced && i == last
                }
        }),
{
    lemma_steps_are_viewed(steps@);
}

/// Keys that a message carries are taken over once, before the message is stored, unless it
/// announces contacts.
pub proof fn law_keys_of_a_message_are_taken_over(
    state: &ReceiveState,
    content: &Content,
    steps: Vec<ReceiveStep>,
) -> (at: int)
    requires
        call_ensures(ReceiveState::content_received, (state, content), steps),
    ensures
        match content.body {
            ContentBody::SynchronizeMessage(sync) if sync.keys is Some && !sync.contacts => {
                &&& 0 <= at < steps@.len() - 2
                &&& steps@[at] is TakeKeys
                &&& forall|i: int|
                    0 <= i < steps@.len() && i != at ==> !(#[trigger] steps@[i] is TakeKeys)
            },
            _ => forall|i: int| 0 <= i < steps@.len() ==> !(#[trigger] steps@[i] is TakeKeys),
        },
{
    lemma_steps_are_viewed(steps@);
    match content.body {
        ContentBody::SynchronizeMessage(sync) if sync.keys is Some && !sync.contacts => {
            let replies = match sync.request {
                Some(RequestType::Other) => 0int,
                Some(_) => 1int,
                None => 0int,
            };
            let at = replies + sync.sticker_pack_operation@.len();
            assert(steps@[at]@ == step_views(steps@)[at]);
            at
        },
        _ => 0,
    }
}

/// The caller is told of an empty queue exactly when a report is pending and no worker runs, and is
/// then told once. Otherwise the loop waits for a message, and first for the end of a worker while
/// one runs. Nothing else changes.
pub proof fn law_pending_report_is_made_when_no_worker_runs(
    state: &mut ReceiveState,
    poll: ReceivePoll,
)
    requires
        call_ensures(ReceiveState::poll, (state,), poll),
    ensures
        ({
            let idle = forall|uuid: u128| !#[trigger] old(state).profile_workers@.contains(uuid);
            &&& poll is EmitQueueEmpty <==> old(state).queue_empty_pending && idle
            &&& poll is Message <==> !old(state).queue_empty_pending && idle
            &&& poll is WorkerOrMessage <==> !idle
            &&& final(state).queue_empty_pending <==> old(state).queue_empty_pending && !idle
        }),
        final(state).profile_workers == old(state).profile_workers,
        final(state).service_ids == old(state).service_ids,
        final(state).registration_type == old(state).registration_type,
        final(state).account_entropy_pool == old(state).account_entropy_pool,
        final(state).master_key == old(state).master_key,
{
    if old(state).profile_workers@ != Set::<u128>::empty() {
        assert(exists|uuid: u128| #[trigger] old(state).profile_workers@.contains(uuid)) by {
            if forall|uuid: u128| !#[trigger] old(state).profile_workers@.contains(uuid) {
                assert(old(state).profile_workers@ =~= Set::<u128>::empty());
            }
        }
    }
}

/// When the service has no more messages, the caller is told at once if no worker runs, and else the
/// report is pending. The keys are asked for unless they are known or were asked for by a report that
/// is still pending.
pub proof fn law_empty_queue_is_reported_or_pending(state: &mut ReceiveState, action: IncomingAction)
    requires
        call_ensures(ReceiveState::incoming, (state, Incoming::QueueEmpty), action),
    ensures
        ({
            let idle = forall|uuid: u128| !#[trigger] old(state).profile_workers@.contains(uuid);
            action matches IncomingAction::QueueEmpty(plan) && {
                &&& plan.emit <==> idle
                &&& plan.request_keys <==> old(state).account_entropy_pool is None && !old(
                    state,
                ).queue_empty_pending
                &&& final(state).queue_empty_pending <==> old(state).queue_empty_pending || !idle
            }
        }),
        final(state).profile_workers == old(state).profile_workers,
        final(state).service_ids == old(state).service_ids,
        final(state).registration_type == old(state).registration_type,
        final(state).account_entropy_pool == old(state).account_entropy_pool,
        final(state).master_key == old(state).master_key,
{
    if old(state).profile_workers@ != Set::<u128>::empty() {
        assert(exists|uuid: u128| #[trigger] old(state).profile_workers@.contains(uuid)) by {
            if forall|uuid: u128| !#[trigger] old(state).profile_workers@.contains(uuid) {
                assert(old(state).profile_workers@ =~= Set::<u128>::empty());
            }
        }
    }
}

/// Every envelope is opened with the keys of the identity to which it is addressed, with those of
/// the account if it tells none. The one exception is an envelope to this account's own phone number
/// identity that does not tell its sender. What cannot be read is skipped, the end of the connection
/// is the end, and none of these changes the state.
pub proof fn law_envelopes_are_opened_by_their_destination(
    state: &mut ReceiveState,
    incoming: Incoming,
    action: IncomingAction,
)
    requires
        call_ensures(ReceiveState::incoming, (state, incoming), action),
        !(incoming is QueueEmpty),
    ensures
        *final(state) == *old(state),
        incoming is Failed ==> action is Poll,
        incoming is Closed <==> action is Stop,
        incoming matches Incoming::Envelope { destination, has_source } ==> {
            let unsolicited = destination == Some(ServiceId::Pni(old(state).service_ids.pni))
                && !has_source;
            &&& action is OpenWithPni <==> (destination matches Some(ServiceId::Pni(_)))
                && !unsolicited
            &&& action is OpenWithAci <==> !(destination matches Some(ServiceId::Pni(_)))
            &&& action is Poll <==> unsolicited
        },
{
}

/// A worker that ended is started again exactly if an update of its contact waits; the others go on.
pub proof fn law_ended_worker_is_restarted_for_a_waiting_update(
    state: &mut ReceiveState,
    updates: &ContactUpdateCoordinator,
    sender_uuid: u128,
    other: u128,
    restart: bool,
)
    requires
        call_ensures(ReceiveState::worker_completed, (state, updates, sender_uuid), restart),
    ensures
        restart <==> updates@.pending.contains_key(sender_uuid),
        final(state).profile_workers@.contains(sender_uuid) <==> restart,
        other != sender_uuid ==> (final(state).profile_workers@.contains(other) <==> old(
            state,
        ).profile_workers@.contains(other)),
        final(state).queue_empty_pending == old(state).queue_empty_pending,
        final(state).account_entropy_pool == old(state).account_entropy_pool,
        final(state).master_key == old(state).master_key,
{
}

/// A primary device takes no keys from others. A linked one takes over and stores what is valid, and
/// a master key that its pool leads to stands in for one that did not come. Keys that it has are
/// never lost.
pub proof fn law_only_linked_devices_take_keys(
    for_pool: &mut ReceiveState,
    for_master: &mut ReceiveState,
    pool: Option<Option<String>>,
    master: Option<Option<Vec<u8>>>,
    derived: Option<Vec<u8>>,
    pool_stored: bool,
    master_stored: bool,
)
    requires
        call_ensures(ReceiveState::pool_received, (for_pool, pool), pool_stored),
        call_ensures(ReceiveState::master_received, (for_master, master, derived), master_stored),
    ensures
        old(for_pool).registration_type is Primary ==> !pool_stored && *final(for_pool) == *old(
            for_pool,
        ),
        old(for_master).registration_type is Primary ==> !master_stored && *final(for_master)
            == *old(for_master),
        old(for_pool).registration_type is Secondary ==> match pool {
            Some(Some(valid)) => pool_stored && final(for_pool).account_entropy_pool == Some(valid),
            _ => !pool_stored && *final(for_pool) == *old(for_pool),
        },
        old(for_master).registration_type is Secondary ==> match (master, derived) {
            (Some(Some(valid)), _) => master_stored && final(for_master).master_key == Some(valid),
            (_, Some(known)) => !master_stored && final(for_master).master_key == Some(known),
            _ => !master_stored && *final(for_master) == *old(for_master),
        },
        old(for_pool).account_entropy_pool is Some ==> final(for_pool).account_entropy_pool is Some,
        old(for_master).master_key is Some ==> final(for_master).master_key is Some,
        final(for_pool).master_key == old(for_pool).master_key,
        final(for_master).account_entropy_pool == old(for_master).account_entropy_pool,
        final(for_pool).profile_workers == old(for_pool).profile_workers,
        final(for_master).profile_workers == old(for_master).profile_workers,
        final(for_pool).queue_empty_pending == old(for_pool).queue_empty_pending,
        final(for_master).queue_empty_pending == old(for_master).queue_empty_pending,
{
}

/// Receiving starts without workers and without a pending report, for the identities of the account
/// and with the keys that are known. Only a device with a name is a linked one.
pub proof fn law_receiving_starts_idle<S>(
    manager: &Manager<S, Registered>,
    account_entropy_pool: Option<String>,
    master_key: Option<Vec<u8>>,
    state: ReceiveState,
    uuid: u128,
)
    requires
        call_ensures(
            Manager::<S, Registered>::receive_messages,
            (manager, account_entropy_pool, master_key),
            state,
        ),
    ensures
        !state.queue_empty_pending,
        !state.profile_workers@.contains(uuid),
        state.service_ids == manager.state.data.service_ids,
        state.registration_type is Secondary <==> manager.state.data.device_name is Some,
        state.account_entropy_pool == account_entropy_pool,
        state.master_key == master_key,
{
}

} // verus!
