//! Leaving a group.
//!
//! A task tells what to ask of the groups service next. The service's answer is handed back, and
//! the task goes on until the group is left, turns out to have been left before, or cannot be left.

use vstd::prelude::*;

use crate::bytes::copy_bytes;
use crate::content::{ContentBody, DataMessage, GroupContextV2, Thread};
use crate::error::{Error, ServiceError};
use crate::groups::{
    build_leave_group_actions,
    confirmed_group_after_leave,
    group_has_member,
    is_expected_leave_change,
    is_member,
    law_departure_removes_only_the_account,
    remove_member,
    Group,
    GroupChange,
    GroupChangeActions,
    GroupChanges,
    GroupMasterKeyBytes,
    LeaveGroupOutcome,
    Member,
    ServiceGroup,
};
use crate::http::{groups_v2_response_error, is_response_error, is_success, is_success_status};
use crate::registration::{Manager, Registered};
use crate::send::OutgoingMessage;

verus! {

/// How often leaving a group is tried when other changes to it come first.
pub const GROUP_LEAVE_REVISION_ATTEMPTS: usize = 3;

/// Who leaves which group. `group_id` is the identifier that the group's keys lead to.
#[derive(Clone, Copy, Debug)]
pub struct Departure {
    pub own_aci: u128,
    pub group_id: [u8; 32],
}

/// A change of a group that the service signed.
#[derive(Debug)]
pub struct SignedChange {
    /// What the change is, decrypted.
    pub changes: GroupChanges,
    /// The change as the service sent it.
    pub encoded: Vec<u8>,
}

/// What is to be done next.
#[derive(Debug)]
pub enum LeaveTask<D> {
    /// Fetch the group's current state.
    FetchGroup { attempt: usize },
    /// Ask for the change that leads to this revision of the group.
    Submit { attempt: usize, group: ServiceGroup<D>, revision: u32 },
    /// Read the body of a response with this status as text.
    ReadError { status: u16 },
    /// Read the signed change from the body of the response.
    ReadChange { updated: Group<D>, revision: u32, timestamp: u64 },
    /// Fetch the group's current state to see whether the account has left.
    Confirm { updated: Group<D>, revision: u32, timestamp: u64 },
    /// The account has left.
    Accepted { updated: Group<D>, revision: u32, timestamp: u64, signed_change: Option<Vec<u8>> },
    /// The account was no member of the group.
    AlreadyLeft,
    /// The account has not left, or it is not known whether it has.
    Failed(Error),
}

/// What came of a task.
#[derive(Debug)]
pub enum LeaveEvent<D> {
    /// The group's current state, or that the account may not see it.
    Group(Option<ServiceGroup<D>>),
    /// A response with this status, the time that it carries, and the time here.
    Response { status: u16, timestamp: Option<u64>, local_time: u64 },
    /// The body of a response.
    Body(String),
    /// The change in a response, if it could be read, its signature is the service's, and it could
    /// be decrypted.
    Change(Option<SignedChange>),
}

impl<D> LeaveTask<D> {
    /// Whether no more attempts are made than are allowed.
    pub open spec fn valid(self) -> bool {
        match self {
            LeaveTask::FetchGroup { attempt } => attempt < 3,
            LeaveTask::Submit { attempt, .. } => attempt < 3,
            _ => true,
        }
    }

    /// Whether an event is one that can come of it.
    pub open spec fn expects(self, event: LeaveEvent<D>) -> bool {
        match (self, event) {
            (LeaveTask::FetchGroup { .. }, LeaveEvent::Group(_)) => true,
            (LeaveTask::Submit { .. }, LeaveEvent::Response { .. }) => true,
            (LeaveTask::ReadError { .. }, LeaveEvent::Body(_)) => true,
            (LeaveTask::ReadChange { .. }, LeaveEvent::Change(_)) => true,
            (LeaveTask::Confirm { .. }, LeaveEvent::Group(_)) => true,
            _ => false,
        }
    }

    /// Whether a task is what follows from an event.
    pub open spec fn leads_to(self, departure: Departure, event: LeaveEvent<D>, next: Self) -> bool {
        match (self, event) {
            (LeaveTask::FetchGroup { attempt }, LeaveEvent::Group(group)) => match group {
                None => next is AlreadyLeft,
                Some(group) => if !is_member(group.members@, departure.own_aci) {
                    next is AlreadyLeft
                } else if group.version == u32::MAX {
                    next == LeaveTask::<D>::Failed(Error::InvalidGroupLeaveChange)
                } else {
                    next == LeaveTask::Submit {
                        attempt,
                        group,
                        revision: (group.version + 1) as u32,
                    }
                },
            },
            (
                LeaveTask::Submit { attempt, group, revision },
                LeaveEvent::Response { status, timestamp, local_time },
            ) => if status == 409 {
                next == if attempt + 1 < 3 {
                    LeaveTask::<D>::FetchGroup { attempt: (attempt + 1) as usize }
                } else {
                    LeaveTask::Failed(Error::GroupRevisionConflict)
                }
            } else if !is_success_status(status) {
                next == LeaveTask::<D>::ReadError { status }
            } else {
                next matches LeaveTask::ReadChange { updated, revision: r, timestamp: t } && {
                    &&& updated.is_departure_from(group, departure.own_aci, revision)
                    &&& r == revision
                    &&& t == match timestamp {
                        Some(time) => time,
                        None => local_time,
                    }
                }
            },
            (LeaveTask::ReadError { status }, LeaveEvent::Body(body)) => {
                next matches LeaveTask::Failed(Error::Service(error)) && is_response_error(
                    error,
                    status,
                    body@,
                )
            },
            (
                LeaveTask::ReadChange { updated, revision, timestamp },
                LeaveEvent::Change(change),
            ) => match change {
                Some(signed) => next == if signed.changes.is_departure(
                    departure.group_id,
                    departure.own_aci,
                    revision,
                ) {
                    LeaveTask::Accepted {
                        updated,
                        revision,
                        timestamp,
                        signed_change: Some(signed.encoded),
                    }
                } else {
                    LeaveTask::Confirm { updated, revision, timestamp }
                },
                None => next == LeaveTask::Confirm { updated, revision, timestamp },
            },
            (LeaveTask::Confirm { updated, revision, timestamp }, LeaveEvent::Group(group)) => {
                match group {
                    None => next == LeaveTask::Accepted {
                        updated,
                        revision,
                        timestamp,
                        signed_change: None,
                    },
                    Some(group) => if is_member(group.members@, departure.own_aci) {
                        next == LeaveTask::<D>::Failed(Error::InvalidGroupLeaveChange)
                    } else {
                        next matches LeaveTask::Accepted {
                            updated: u,
                            revision: r,
                            timestamp: t,
                            signed_change,
                        } && {
                            &&& u.describes(group)
                            &&& r == revision
                            &&& t == timestamp
                            &&& signed_change is None
                        }
                    },
                }
            },
            _ => false,
        }
    }

    /// How many steps a task can take at most.
    pub open spec fn steps_left(self) -> int {
        match self {
            LeaveTask::FetchGroup { attempt } => 10 - 2 * attempt,
            LeaveTask::Submit { attempt, .. } => 9 - 2 * attempt,
            LeaveTask::ReadChange { .. } => 2,
            LeaveTask::Confirm { .. } => 1,
            LeaveTask::ReadError { .. } => 1,
            _ => 0,
        }
    }

    /// Goes on with a task after what came of it.
    pub fn step(self, departure: &Departure, event: LeaveEvent<D>) -> (next: Self)
        requires
            self.valid(),
            self.expects(event),
        ensures
            next.valid(),
            self.leads_to(*departure, event, next),
            0 <= next.steps_left() < self.steps_left(),
    {
        match (self, event) {
            (LeaveTask::FetchGroup { attempt }, LeaveEvent::Group(group)) => match group {
                None => LeaveTask::AlreadyLeft,
                Some(group) => {
                    if !group_has_member(&group, departure.own_aci) {
                        return LeaveTask::AlreadyLeft;
                    }
                    match group.version.checked_add(1) {
                        Some(revision) => LeaveTask::Submit { attempt, group, revision },
                        None => LeaveTask::Failed(Error::InvalidGroupLeaveChange),
                    }
                },
            },
            (
                LeaveTask::Submit { attempt, group, revision },
                LeaveEvent::Response { status, timestamp, local_time },
            ) => {
                if status == 409 {
                    return if attempt + 1 < GROUP_LEAVE_REVISION_ATTEMPTS {
                        LeaveTask::FetchGroup { attempt: attempt + 1 }
                    } else {
                        LeaveTask::Failed(Error::GroupRevisionConflict)
                    };
                }
                if !is_success(status) {
                    return LeaveTask::ReadError { status };
                }
                let timestamp: u64 = match timestamp {
                    Some(timestamp) => timestamp,
                    None => local_time,
                };
                let updated = Group {
                    title: group.title,
                    avatar: group.avatar,
                    revision,
                    members: remove_member(group.members, departure.own_aci),
                    details: group.details,
                };
                LeaveTask::ReadChange { updated, revision, timestamp }
            },
            (LeaveTask::ReadError { status }, LeaveEvent::Body(body)) => LeaveTask::Failed(
                Error::Service(groups_v2_response_error(status, body.as_str())),
            ),
            (
                LeaveTask::ReadChange { updated, revision, timestamp },
                LeaveEvent::Change(change),
            ) => {
                if let Some(signed) = change {
                    if is_expected_leave_change(
                        &signed.changes,
                        &departure.group_id,
                        departure.own_aci,
                        revision,
                    ) {
                        return LeaveTask::Accepted {
                            updated,
                            revision,
                            timestamp,
                            signed_change: Some(signed.encoded),
                        };
                    }
                }
                LeaveTask::Confirm { updated, revision, timestamp }
            },
            (
                LeaveTask::Confirm { updated, revision, timestamp },
                LeaveEvent::Group(group),
            ) => match confirmed_group_after_leave(group, departure.own_aci) {
                Ok(confirmed) => {
                    let updated = match confirmed {
                        Some(confirmed) => confirmed,
                        None => updated,
                    };
                    LeaveTask::Accepted { updated, revision, timestamp, signed_change: None }
                },
                Err(_) => LeaveTask::Failed(Error::InvalidGroupLeaveChange),
            },
            (task, _) => task,
        }
    }

    /// The request that a task to submit a change makes. `removed_user_id` is the account's
    /// identity as the group's keys encrypt it.
    pub fn request(&self, departure: &Departure, removed_user_id: Vec<u8>) -> (request: Option<
        GroupChangeActions,
    >)
        ensures
            match (*self, request) {
                (LeaveTask::Submit { revision, .. }, Some(actions)) => {
                    &&& actions.source_user_id@ == crate::bytes::big_endian(
                        departure.own_aci as nat,
                        16,
                    )
                    &&& actions.group_id@ == Seq::<u8>::empty()
                    &&& actions.version == revision
                    &&& actions.delete_members@ == seq![removed_user_id]
                },
                (LeaveTask::Submit { .. }, None) => false,
                (_, r) => r is None,
            },
    {
        match self {
            LeaveTask::Submit { revision, .. } => Some(
                build_leave_group_actions(removed_user_id, departure.own_aci, *revision),
            ),
            _ => None,
        }
    }
}

impl<S> Manager<S, Registered> {
    /// Leave a GroupsV2 group and notify its remaining members.
    ///
    /// The current group state is fetched immediately before the authenticated mutation. Revision
    /// conflicts are refreshed and retried. A valid signed change proves success directly. If that
    /// proof is unavailable, a second authoritative read must confirm nonmembership before local
    /// state is changed. Notification and local cleanup failures after confirmed success are
    /// reflected in [`LeaveGroupOutcome`] because they cannot roll back the server-side membership
    /// change.
    pub fn leave_group<D>(&self, group_id: [u8; 32]) -> (start: (Departure, LeaveTask<D>))
        ensures
            start.0 == (Departure { own_aci: self.state.data.service_ids.aci, group_id }),
            start.1 == (LeaveTask::<D>::FetchGroup { attempt: 0 }),
            start.1.valid(),
    {
        (
            Departure { own_aci: self.registration_data().service_ids.aci, group_id },
            LeaveTask::FetchGroup { attempt: 0 },
        )
    }

    /// Begins to finish leaving a group that the account was no member of: only the stored group is
    /// left to remove. Its members need not be notified.
    pub fn finish_already_left_group<D>(&self, master_key: &GroupMasterKeyBytes) -> (task:
        FinishTask<D>)
        ensures
            task == (FinishTask::<D>::RemoveGroup {
                master_key: *master_key,
                peer_notification_sent: true,
            }),
    {
        FinishTask::RemoveGroup { master_key: *master_key, peer_notification_sent: true }
    }

    /// Begins to finish leaving a group that the account has left: the updated group is saved, so
    /// that the remaining members alone are notified, and the stored group is removed in the end.
    pub fn finish_accepted_group_leave<D>(
        &self,
        master_key: &GroupMasterKeyBytes,
        updated_group: Group<D>,
        revision: u32,
        timestamp: u64,
        signed_change: Option<Vec<u8>>,
    ) -> (task: FinishTask<D>)
        ensures
            task == (FinishTask::SaveGroup {
                master_key: *master_key,
                updated_group,
                revision,
                timestamp,
                signed_change,
            }),
    {
        FinishTask::SaveGroup {
            master_key: *master_key,
            updated_group,
            revision,
            timestamp,
            signed_change,
        }
    }
}

/// What is to be done next when a group is left. That it fails is reported, and no reason to stop.
#[derive(Debug)]
pub enum FinishTask<D> {
    /// Save the group as it is without the account.
    SaveGroup {
        master_key: GroupMasterKeyBytes,
        updated_group: Group<D>,
        revision: u32,
        timestamp: u64,
        signed_change: Option<Vec<u8>>,
    },
    /// Send the message to the group.
    Notify { master_key: GroupMasterKeyBytes, message: DataMessage, timestamp: u64 },
    /// Remove the stored group.
    RemoveGroup { master_key: GroupMasterKeyBytes, peer_notification_sent: bool },
    /// This came of it.
    Finished(LeaveGroupOutcome),
}

/// What came of a task.
#[derive(Clone, Copy, Debug, PartialEq, Eq, Structural)]
pub enum FinishEvent {
    /// Whether the group was saved.
    Saved(bool),
    /// Whether the message was sent.
    Notified(bool),
    /// Whether the group was removed.
    Removed(bool),
}

/// Whether a message tells the remaining members of a group of a signed departure.
pub open spec fn is_leave_notification(
    message: DataMessage,
    master_key: GroupMasterKeyBytes,
    revision: u32,
    timestamp: u64,
    signed_change: Vec<u8>,
) -> bool {
    &&& message.timestamp == Some(timestamp)
    &&& message.group_v2 matches Some(context) && {
        &&& context.master_key matches Some(key) && key@ == master_key@
        &&& context.revision == Some(revision)
        &&& context.group_change == Some(signed_change)
    }
    &&& message == (DataMessage {
        timestamp: message.timestamp,
        group_v2: message.group_v2,
        profile_key: None,
        expire_timer: None,
        expire_timer_version: None,
        required_protocol_version: None,
        delete: None,
    })
}

/// The message that tells the remaining members of a group of a signed departure.
pub fn leave_notification(
    master_key: &GroupMasterKeyBytes,
    revision: u32,
    timestamp: u64,
    signed_change: Vec<u8>,
) -> (message: DataMessage)
    ensures
        is_leave_notification(message, *master_key, revision, timestamp, signed_change),
{
    let context = GroupContextV2 {
        master_key: Some(copy_bytes(master_key)),
        revision: Some(revision),
        group_change: Some(signed_change),
    };
    DataMessage {
        timestamp: Some(timestamp),
        group_v2: Some(context),
        profile_key: None,
        expire_timer: None,
        expire_timer_version: None,
        required_protocol_version: None,
        delete: None,
    }
}

impl<D> FinishTask<D> {
    /// Whether an event is one that can come of it.
    pub open spec fn expects(self, event: FinishEvent) -> bool {
        match (self, event) {
            (FinishTask::SaveGroup { .. }, FinishEvent::Saved(_)) => true,
            (FinishTask::Notify { .. }, FinishEvent::Notified(_)) => true,
            (FinishTask::RemoveGroup { .. }, FinishEvent::Removed(_)) => true,
            _ => false,
        }
    }

    /// Whether a task is what follows from an event. The members are notified only if the updated
    /// group was saved and the change was signed.
    pub open spec fn leads_to(self, event: FinishEvent, next: Self) -> bool {
        match (self, event) {
            (
                FinishTask::SaveGroup { master_key, revision, timestamp, signed_change, .. },
                FinishEvent::Saved(saved),
            ) => match signed_change {
                Some(change) if saved => next matches FinishTask::Notify {
                    master_key: key,
                    message,
                    timestamp: time,
                } && {
                    &&& key == master_key
                    &&& time == timestamp
                    &&& is_leave_notification(message, master_key, revision, timestamp, change)
                },
                _ => next == (FinishTask::<D>::RemoveGroup {
                    master_key,
                    peer_notification_sent: false,
                }),
            },
            (FinishTask::Notify { master_key, .. }, FinishEvent::Notified(sent)) => next == (
            FinishTask::<D>::RemoveGroup { master_key, peer_notification_sent: sent }),
            (
                FinishTask::RemoveGroup { peer_notification_sent, .. },
                FinishEvent::Removed(removed),
            ) => next == FinishTask::<D>::Finished(
                LeaveGroupOutcome { peer_notification_sent, local_group_removed: removed },
            ),
            _ => false,
        }
    }

    /// How many steps a task can take at most.
    pub open spec fn steps_left(self) -> nat {
        match self {
            FinishTask::SaveGroup { .. } => 3,
            FinishTask::Notify { .. } => 2,
            FinishTask::RemoveGroup { .. } => 1,
            FinishTask::Finished(_) => 0,
        }
    }

    /// Goes on after what came of a task.
    pub fn step(self, event: FinishEvent) -> (next: Self)
        requires
            self.expects(event),
        ensures
            self.leads_to(event, next),
            next.steps_left() < self.steps_left(),
    {
        match (self, event) {
            (
                FinishTask::SaveGroup { master_key, revision, timestamp, signed_change, .. },
                FinishEvent::Saved(saved),
            ) => {
                if saved {
                    if let Some(change) = signed_change {
                        let message = leave_notification(&master_key, revision, timestamp, change);
                        return FinishTask::Notify { master_key, message, timestamp };
                    }
                }
                FinishTask::RemoveGroup { master_key, peer_notification_sent: false }
            },
            (FinishTask::Notify { master_key, .. }, FinishEvent::Notified(sent)) => {
                FinishTask::RemoveGroup { master_key, peer_notification_sent: sent }
            },
            (
                FinishTask::RemoveGroup { peer_notification_sent, .. },
                FinishEvent::Removed(removed),
            ) => FinishTask::Finished(
                LeaveGroupOutcome { peer_notification_sent, local_group_removed: removed },
            ),
            (task, _) => task,
        }
    }
}

/// Whether tasks follow from one another by events, from the first one of finishing on: saving the
/// updated group, or removing one that was left before.
pub open spec fn is_finish_run<D>(tasks: Seq<FinishTask<D>>, events: Seq<FinishEvent>) -> bool {
    &&& tasks.len() == events.len() + 1
    &&& tasks[0] is SaveGroup || tasks[0] is RemoveGroup
    &&& forall|i: int|
        0 <= i < events.len() ==> (#[trigger] tasks[i]).expects(events[i]) && tasks[i].leads_to(
            events[i],
            tasks[i + 1],
        )
}

/// Whether a task is about a group.
pub open spec fn is_about<D>(task: FinishTask<D>, master_key: GroupMasterKeyBytes) -> bool {
    match task {
        FinishTask::SaveGroup { master_key: key, .. } => key == master_key,
        FinishTask::Notify { master_key: key, .. } => key == master_key,
        FinishTask::RemoveGroup { master_key: key, .. } => key == master_key,
        FinishTask::Finished(_) => true,
    }
}

/// Whatever fails, finishing ends with the removal of the stored group: it is removed once, as the
/// last thing done. The members are notified at most once, right after the updated group was saved
/// and only if the change was signed. The outcome tells whether the notification was sent, if one
/// was due, and whether the group was removed. All of it is about one group.
pub proof fn law_finishing_removes_the_group_last<D>(
    tasks: Seq<FinishTask<D>>,
    events: Seq<FinishEvent>,
    master_key: GroupMasterKeyBytes,
)
    requires
        is_finish_run(tasks, events),
        is_about(tasks[0], master_key),
    ensures
        forall|i: int| 0 <= i < tasks.len() ==> is_about(#[trigger] tasks[i], master_key),
        tasks.last() is Finished ==> (tasks.len() >= 2 && forall|i: int|
            0 <= i < tasks.len() ==> ((#[trigger] tasks[i]) is RemoveGroup <==> i == tasks.len()
                - 2)),
        forall|i: int|
            0 < i < tasks.len() ==> ((#[trigger] tasks[i]) is Notify <==> {
                &&& i == 1
                &&& events[0] == FinishEvent::Saved(true)
                &&& tasks[0] matches FinishTask::SaveGroup { signed_change, .. }
                    && signed_change is Some
            }),
        tasks.last() matches FinishTask::Finished(outcome) ==> {
            &&& events.last() == FinishEvent::Removed(outcome.local_group_removed)
            &&& outcome.peer_notification_sent <==> (tasks[0] matches FinishTask::RemoveGroup {
                peer_notification_sent,
                ..
            } && peer_notification_sent) || (events.len() == 3 && events[1]
                == FinishEvent::Notified(true))
        },
{
    if events.len() > 0 {
        assert(tasks[0].expects(events[0]) && tasks[0].leads_to(events[0], tasks[0int + 1]));
        if events.len() > 1 {
            assert(tasks[1].expects(events[1]) && tasks[1].leads_to(events[1], tasks[1int + 1]));
            if events.len() > 2 {
                assert(tasks[2].expects(events[2]) && tasks[2].leads_to(
                    events[2],
                    tasks[2int + 1],
                ));
                if events.len() > 3 {
                    assert(tasks[3].expects(events[3]));
                }
            }
        }
    }
}

/// Whether tasks follow from one another by events, from the first one on.
pub open spec fn is_leave_run<D>(
    departure: Departure,
    tasks: Seq<LeaveTask<D>>,
    events: Seq<LeaveEvent<D>>,
) -> bool {
    &&& tasks.len() == events.len() + 1
    &&& tasks[0] == LeaveTask::<D>::FetchGroup { attempt: 0 }
    &&& forall|i: int|
        0 <= i < events.len() ==> (#[trigger] tasks[i]).expects(events[i]) && tasks[i].leads_to(
            departure,
            events[i],
            tasks[i + 1],
        )
}

/// How many changes were asked for.
pub open spec fn submissions<D>(tasks: Seq<LeaveTask<D>>) -> nat
    decreases tasks.len(),
{
    if tasks.len() == 0 {
        0
    } else {
        submissions(tasks.drop_last()) + if tasks.last() is Submit {
            1nat
        } else {
            0nat
        }
    }
}

/// The start of a run is a run.
proof fn lemma_run_prefix<D>(
    departure: Departure,
    tasks: Seq<LeaveTask<D>>,
    events: Seq<LeaveEvent<D>>,
)
    requires
        is_leave_run(departure, tasks, events),
        events.len() > 0,
    ensures
        is_leave_run(departure, tasks.drop_last(), events.drop_last()),
        ({
            let last = events.len() - 1;
            &&& tasks.drop_last().last() == tasks[last]
            &&& tasks[last].expects(events[last])
            &&& tasks[last].leads_to(departure, events[last], tasks.last())
        }),
{
    let last = events.len() - 1;
    assert(tasks[last].expects(events[last]));
    assert(tasks.last() == tasks[last + 1]);
    let shorter = tasks.drop_last();
    assert forall|i: int| 0 <= i < last implies (#[trigger] shorter[i]).expects(
        events.drop_last()[i],
    ) && shorter[i].leads_to(departure, events.drop_last()[i], shorter[i + 1]) by {
        assert(tasks[i].expects(events[i]));
    }
}

/// At most three changes are asked for, however often the group changes meanwhile.
pub proof fn law_leave_attempts_are_bounded<D>(
    departure: Departure,
    tasks: Seq<LeaveTask<D>>,
    events: Seq<LeaveEvent<D>>,
)
    requires
        is_leave_run(departure, tasks, events),
    ensures
        tasks.last().valid(),
        submissions(tasks) <= 3,
        tasks.last() matches LeaveTask::FetchGroup { attempt } ==> submissions(tasks) == attempt,
        tasks.last() matches LeaveTask::Submit { attempt, .. } ==> submissions(tasks) == attempt + 1,
    decreases events.len(),
{
    if events.len() == 0 {
        assert(tasks.last() == tasks[0]);
        assert(submissions(tasks.drop_last()) == 0);
    } else {
        lemma_run_prefix(departure, tasks, events);
        law_leave_attempts_are_bounded(departure, tasks.drop_last(), events.drop_last());
    }
}

/// Whether a run holds evidence that the account left: the service accepted a change, and then
/// either signed the account's departure or let it see no group of which it is a member.
pub open spec fn has_evidence<D>(
    departure: Departure,
    tasks: Seq<LeaveTask<D>>,
    events: Seq<LeaveEvent<D>>,
    accepted: int,
    evidence: int,
) -> bool {
    &&& 0 <= accepted < evidence < events.len()
    &&& tasks[accepted] is Submit
    &&& events[accepted] matches LeaveEvent::Response { status, .. } && is_success_status(status)
    &&& match events[evidence] {
        LeaveEvent::Change(Some(signed)) => signed.changes.is_departure(
            departure.group_id,
            departure.own_aci,
            tasks[accepted]->Submit_revision,
        ),
        LeaveEvent::Group(None) => true,
        LeaveEvent::Group(Some(group)) => !is_member(group.members@, departure.own_aci),
        _ => false,
    }
}

/// When a run is past the change that the service accepted, and which one that was.
proof fn lemma_accepted_change<D>(
    departure: Departure,
    tasks: Seq<LeaveTask<D>>,
    events: Seq<LeaveEvent<D>>,
) -> (accepted: int)
    requires
        is_leave_run(departure, tasks, events),
        tasks.last() is ReadChange || tasks.last() is Confirm,
    ensures
        0 <= accepted < events.len(),
        tasks[accepted] is Submit,
        events[accepted] matches LeaveEvent::Response { status, .. } && is_success_status(status),
        tasks.last() matches LeaveTask::ReadChange { revision, updated, .. } ==> revision
            == tasks[accepted]->Submit_revision && !is_member(updated.members@, departure.own_aci),
        tasks.last() matches LeaveTask::Confirm { revision, updated, .. } ==> revision
            == tasks[accepted]->Submit_revision && !is_member(updated.members@, departure.own_aci),
    decreases events.len(),
{
    assert(events.len() > 0);
    lemma_run_prefix(departure, tasks, events);
    let last = events.len() - 1;
    if tasks.last() is ReadChange {
        assert(tasks[last] is Submit);
        let group = tasks[last]->Submit_group;
        law_departure_removes_only_the_account(
            group.members@,
            departure.own_aci,
            departure.own_aci,
        );
        last
    } else {
        lemma_accepted_change(departure, tasks.drop_last(), events.drop_last())
    }
}

/// A departure counts as accepted only on evidence, and the group that is then stored does not have
/// the account among its members. It counts as notifiable only if the service signed it.
pub proof fn law_accepted_departure_is_evident<D>(
    departure: Departure,
    tasks: Seq<LeaveTask<D>>,
    events: Seq<LeaveEvent<D>>,
)
    requires
        is_leave_run(departure, tasks, events),
        tasks.last() is Accepted,
    ensures
        exists|accepted: int, evidence: int|
            has_evidence(departure, tasks, events, accepted, evidence),
        tasks.last() matches LeaveTask::Accepted { updated, signed_change, .. } && {
            &&& !is_member(updated.members@, departure.own_aci)
            &&& signed_change matches Some(encoded) ==> {
                events.last() matches LeaveEvent::Change(Some(signed)) && signed.encoded == encoded
                    && signed.changes.editor == departure.own_aci
            }
        },
{
    assert(events.len() > 0);
    lemma_run_prefix(departure, tasks, events);
    let last = events.len() - 1;
    let accepted = lemma_accepted_change(departure, tasks.drop_last(), events.drop_last());
    assert(tasks.drop_last()[accepted] == tasks[accepted]);
    assert(events.drop_last()[accepted] == events[accepted]);
    assert(accepted != last);
    assert(has_evidence(departure, tasks, events, accepted, last));
}

/// A group counts as left before only if the service let the account see no group of which it is a
/// member, and nothing that the service accepted came before.
pub proof fn law_already_left_is_evident<D>(
    departure: Departure,
    tasks: Seq<LeaveTask<D>>,
    events: Seq<LeaveEvent<D>>,
)
    requires
        is_leave_run(departure, tasks, events),
        tasks.last() is AlreadyLeft,
    ensures
        events.len() > 0,
        events.last() matches LeaveEvent::Group(group) && (group matches Some(g) ==> !is_member(
            g.members@,
            departure.own_aci,
        )),
        forall|i: int|
            0 <= i < events.len() ==> (#[trigger] events[i] matches LeaveEvent::Response {
                status,
                ..
            } ==> status == 409),
{
    lemma_run_prefix(departure, tasks, events);
    lemma_only_conflicts_before_fetch(departure, tasks.drop_last(), events.drop_last());
    assert forall|i: int| 0 <= i < events.len() implies (#[trigger] events[i] matches LeaveEvent::Response {
        status,
        ..
    } ==> status == 409) by {
        if i < events.len() - 1 {
            assert(events.drop_last()[i] == events[i]);
        }
    }
}

/// A run that fetches the group or submits a change was answered with nothing but conflicts.
proof fn lemma_only_conflicts_before_fetch<D>(
    departure: Departure,
    tasks: Seq<LeaveTask<D>>,
    events: Seq<LeaveEvent<D>>,
)
    requires
        is_leave_run(departure, tasks, events),
        tasks.last() is FetchGroup || tasks.last() is Submit,
    ensures
        forall|i: int|
            0 <= i < events.len() ==> (#[trigger] events[i] matches LeaveEvent::Response {
                status,
                ..
            } ==> status == 409),
    decreases events.len(),
{
    if events.len() > 0 {
        lemma_run_prefix(departure, tasks, events);
        lemma_only_conflicts_before_fetch(departure, tasks.drop_last(), events.drop_last());
        assert forall|i: int| 0 <= i < events.len() implies (#[trigger] events[i] matches LeaveEvent::Response {
            status,
            ..
        } ==> status == 409) by {
            if i < events.len() - 1 {
                assert(events.drop_last()[i] == events[i]);
            }
        }
    }
}

/// A group that does not list the account, or that it may not see, was left before. Otherwise the
/// change to the next version of the group as it was fetched is asked for, unless there is no next
/// version.
pub proof fn law_departure_follows_the_fetched_group<D>(
    departure: &Departure,
    attempt: usize,
    group: Option<ServiceGroup<D>>,
    next: LeaveTask<D>,
)
    requires
        call_ensures(
            LeaveTask::<D>::step,
            (LeaveTask::<D>::FetchGroup { attempt }, departure, LeaveEvent::Group(group)),
            next,
        ),
    ensures
        match group {
            None => next is AlreadyLeft,
            Some(fetched) => if !exists|i: int|
                0 <= i < fetched.members@.len() && (#[trigger] fetched.members@[i]).aci
                    == departure.own_aci {
                next is AlreadyLeft
            } else if fetched.version < u32::MAX {
                next matches LeaveTask::Submit { attempt: a, group: g, revision } && a == attempt
                    && g == fetched && revision == fetched.version + 1
            } else {
                next matches LeaveTask::Failed(Error::InvalidGroupLeaveChange)
            },
        },
{
}

/// A conflict has the group fetched again, three times in all. A success has the signed change read,
/// for the group as it was without the account, at the new version and the time of the response, or
/// else the time here. Any other response is an error.
pub proof fn law_response_decides_on_the_departure<D>(
    departure: &Departure,
    attempt: usize,
    group: ServiceGroup<D>,
    revision: u32,
    status: u16,
    timestamp: Option<u64>,
    local_time: u64,
    next: LeaveTask<D>,
)
    requires
        attempt < 3,
        call_ensures(
            LeaveTask::<D>::step,
            (
                LeaveTask::<D>::Submit { attempt, group, revision },
                departure,
                LeaveEvent::Response { status, timestamp, local_time },
            ),
            next,
        ),
    ensures
        status == 409 && attempt < 2 ==> (next matches LeaveTask::FetchGroup { attempt: a } && a
            == attempt + 1),
        status == 409 && attempt == 2 ==> next matches LeaveTask::Failed(
            Error::GroupRevisionConflict,
        ),
        status != 409 && !(200 <= status <= 299) ==> (next matches LeaveTask::ReadError {
            status: told,
        } && told == status),
        200 <= status <= 299 ==> (next matches LeaveTask::ReadChange {
            updated,
            revision: r,
            timestamp: t,
        } && {
            &&& r == revision
            &&& updated.revision == revision
            &&& updated.title == group.title
            &&& updated.avatar == group.avatar
            &&& updated.details == group.details
            &&& timestamp matches Some(time) ==> t == time
            &&& timestamp is None ==> t == local_time
            &&& forall|i: int|
                0 <= i < updated.members@.len() ==> (#[trigger] updated.members@[i]).aci
                    != departure.own_aci && group.members@.contains(updated.members@[i])
            &&& forall|i: int|
                0 <= i < group.members@.len() && (#[trigger] group.members@[i]).aci
                    != departure.own_aci ==> updated.members@.contains(group.members@[i])
        }),
{
    if 200 <= status <= 299 {
        broadcast use vstd::seq_lib::group_filter_ensures;

        let updated = next->ReadChange_updated;
        let own = departure.own_aci;
        let keep = |member: Member| member.aci != own;
        assert(updated.members@ == group.members@.filter(keep));
        assert forall|i: int| 0 <= i < updated.members@.len() implies (
        #[trigger] updated.members@[i]).aci != own && group.members@.contains(
            updated.members@[i],
        ) by {
            group.members@.lemma_filter_pred(keep, i);
            crate::seqs::lemma_filtered_item_is_original(group.members@, keep, i);
        }
        assert forall|i: int|
            0 <= i < group.members@.len() && (#[trigger] group.members@[i]).aci
                != own implies updated.members@.contains(group.members@[i]) by {
            assert(keep(group.members@[i]));
        }
    }
}

/// A signed change is proof exactly if it removes the account from this group at this version, made by
/// the account; it is then kept as it was signed. Without proof the group must be seen, and must not
/// list the account. What is kept of the group is what was seen of it last.
pub proof fn law_departure_needs_proof<D>(
    departure: &Departure,
    updated: Group<D>,
    revision: u32,
    timestamp: u64,
    change: Option<SignedChange>,
    seen: Option<ServiceGroup<D>>,
    after_change: LeaveTask<D>,
    after_seen: LeaveTask<D>,
)
    requires
        call_ensures(
            LeaveTask::<D>::step,
            (
                LeaveTask::ReadChange { updated, revision, timestamp },
                departure,
                LeaveEvent::<D>::Change(change),
            ),
            after_change,
        ),
        call_ensures(
            LeaveTask::<D>::step,
            (
                LeaveTask::Confirm { updated, revision, timestamp },
                departure,
                LeaveEvent::Group(seen),
            ),
            after_seen,
        ),
    ensures
        ({
            let proven = match change {
                Some(signed) => signed.changes.group_id == departure.group_id
                    && signed.changes.editor == departure.own_aci && signed.changes.version
                    == revision && exists|i: int|
                    0 <= i < signed.changes.changes@.len() && #[trigger] signed.changes.changes@[i]
                        == GroupChange::DeleteMember(departure.own_aci),
                None => false,
            };
            if proven {
                after_change == (LeaveTask::Accepted {
                    updated,
                    revision,
                    timestamp,
                    signed_change: Some(change->0.encoded),
                })
            } else {
                after_change == (LeaveTask::Confirm { updated, revision, timestamp })
            }
        }),
        match seen {
            None => after_seen == (LeaveTask::Accepted {
                updated,
                revision,
                timestamp,
                signed_change: None,
            }),
            Some(group) => if exists|i: int|
                0 <= i < group.members@.len() && (#[trigger] group.members@[i]).aci
                    == departure.own_aci {
                after_seen matches LeaveTask::Failed(Error::InvalidGroupLeaveChange)
            } else {
                after_seen matches LeaveTask::Accepted {
                    updated: kept,
                    revision: r,
                    timestamp: t,
                    signed_change,
                } && {
                    &&& kept.title == group.title
                    &&& kept.avatar == group.avatar
                    &&& kept.revision == group.version
                    &&& kept.members == group.members
                    &&& kept.details == group.details
                    &&& r == revision
                    &&& t == timestamp
                    &&& signed_change is None
                }
            },
        },
{
    if let Some(signed) = change {
        assert(signed.changes.changes@.contains(GroupChange::DeleteMember(departure.own_aci))
            <==> exists|i: int|
            0 <= i < signed.changes.changes@.len() && #[trigger] signed.changes.changes@[i]
                == GroupChange::DeleteMember(departure.own_aci));
    }
}

/// A refused change ends in the error for the response: its status and the start of its body.
pub proof fn law_refusal_is_told<D>(
    departure: &Departure,
    status: u16,
    body: String,
    next: LeaveTask<D>,
)
    requires
        call_ensures(
            LeaveTask::<D>::step,
            (LeaveTask::<D>::ReadError { status }, departure, LeaveEvent::Body(body)),
            next,
        ),
    ensures
        next matches LeaveTask::Failed(Error::Service(error)) && {
            &&& status == 401 ==> error is Unauthorized
            &&& status != 401 ==> (error matches ServiceError::UnhandledResponseCode {
                status: told,
                body: kept,
            } && told == status && kept@.len() <= 1024 && (body@.len() <= 1024 ==> kept@ == body@)
                && kept@.is_prefix_of(body@))
        },
{
}

/// Leaving a group is leaving it with this account, from a first attempt on; and what is asked of the
/// service is to remove the one identity that stands for the account, at the next version.
pub proof fn law_account_leaves_by_its_own_request<S, D>(
    manager: &Manager<S, Registered>,
    group_id: [u8; 32],
    start: (Departure, LeaveTask<D>),
    task: LeaveTask<D>,
    removed_user_id: Vec<u8>,
    request: Option<GroupChangeActions>,
    bytes: Vec<u8>,
)
    requires
        call_ensures(Manager::<S, Registered>::leave_group::<D>, (manager, group_id), start),
        call_ensures(LeaveTask::<D>::request, (&task, &start.0, removed_user_id), request),
        call_ensures(
            crate::bytes::uuid_bytes,
            (manager.state.data.service_ids.aci,),
            bytes,
        ),
    ensures
        start.0.own_aci == manager.state.data.service_ids.aci,
        start.0.group_id == group_id,
        start.1 == (LeaveTask::<D>::FetchGroup { attempt: 0 }),
        request is Some <==> task is Submit,
        task matches LeaveTask::Submit { revision, .. } ==> {
            let actions = request->0;
            &&& actions.version == revision
            &&& actions.delete_members@.len() == 1
            &&& actions.delete_members@[0] == removed_user_id
            &&& actions.source_user_id@ == bytes@
            &&& actions.group_id@.len() == 0
        },
{
}

/// The remaining members are told of a departure that was signed and saved: what is sent to the group
/// names the group by its key, the version after the departure, the signed change as it was signed,
/// and the time of the departure.
pub proof fn law_members_are_sent_the_signed_change<S, D>(
    manager: &Manager<S, Registered>,
    master_key: GroupMasterKeyBytes,
    updated_group: Group<D>,
    revision: u32,
    timestamp: u64,
    change: Vec<u8>,
    begun: FinishTask<D>,
    saved: FinishTask<D>,
    stored_timer: Option<(u32, u32)>,
    bytes: &[u8],
    outgoing: OutgoingMessage,
)
    requires
        call_ensures(
            Manager::<S, Registered>::finish_accepted_group_leave::<D>,
            (manager, &master_key, updated_group, revision, timestamp, Some(change)),
            begun,
        ),
        call_ensures(FinishTask::<D>::step, (begun, FinishEvent::Saved(true)), saved),
        bytes@ == master_key@,
        saved is Notify,
        call_ensures(
            Manager::<S, Registered>::send_message_to_group,
            (
                manager,
                bytes,
                ContentBody::DataMessage(saved->Notify_message),
                stored_timer,
                saved->Notify_timestamp,
            ),
            outgoing,
        ),
    ensures
        begun matches FinishTask::SaveGroup { master_key: key, updated_group: group, .. } && key
            == master_key && group == updated_group,
        saved->Notify_master_key == master_key,
        outgoing.timestamp == timestamp,
        outgoing.thread matches Thread::Group(key) && key@ == master_key@,
        outgoing.body matches ContentBody::DataMessage(sent) && {
            &&& sent.timestamp == Some(timestamp)
            &&& sent.delete is None
            &&& sent.group_v2 matches Some(context) && {
                &&& context.master_key matches Some(key) && key@ == master_key@
                &&& context.revision == Some(revision)
                &&& context.group_change == Some(change)
            }
        },
{
}

/// After a departure the members are notified exactly if the group was saved and the change was
/// signed; then, or otherwise at once, the stored group is removed, and the outcome tells what was
/// sent and removed. A group that was left before is only removed, and counts as notified.
pub proof fn law_departure_is_finished_step_by_step<S, D>(
    manager: &Manager<S, Registered>,
    master_key: GroupMasterKeyBytes,
    updated_group: Group<D>,
    revision: u32,
    timestamp: u64,
    signed_change: Option<Vec<u8>>,
    message: DataMessage,
    saved: bool,
    sent: bool,
    notified: bool,
    removed: bool,
    left_before: FinishTask<D>,
    after_save: FinishTask<D>,
    after_notice: FinishTask<D>,
    after_removal: FinishTask<D>,
)
    requires
        call_ensures(
            Manager::<S, Registered>::finish_already_left_group::<D>,
            (manager, &master_key),
            left_before,
        ),
        call_ensures(
            FinishTask::<D>::step,
            (
                FinishTask::SaveGroup {
                    master_key,
                    updated_group,
                    revision,
                    timestamp,
                    signed_change,
                },
                FinishEvent::Saved(saved),
            ),
            after_save,
        ),
        call_ensures(
            FinishTask::<D>::step,
            (
                FinishTask::<D>::Notify { master_key, message, timestamp },
                FinishEvent::Notified(sent),
            ),
            after_notice,
        ),
        call_ensures(
            FinishTask::<D>::step,
            (
                FinishTask::<D>::RemoveGroup { master_key, peer_notification_sent: notified },
                FinishEvent::Removed(removed),
            ),
            after_removal,
        ),
    ensures
        left_before == (FinishTask::<D>::RemoveGroup { master_key, peer_notification_sent: true }),
        after_save is Notify <==> saved && signed_change is Some,
        !(after_save is Notify) ==> after_save == (FinishTask::<D>::RemoveGroup {
            master_key,
            peer_notification_sent: false,
        }),
        after_notice == (FinishTask::<D>::RemoveGroup { master_key, peer_notification_sent: sent }),
        after_removal matches FinishTask::Finished(outcome) && outcome.peer_notification_sent
            == notified && outcome.local_group_removed == removed,
{
}

} // verus!
