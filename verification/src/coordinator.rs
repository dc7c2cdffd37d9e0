//! The order of updates to contacts.
//!
//! Every message may tell a newer profile key of its sender. The updates that follow from it are
//! ordered by when they were observed here, not by the time that the message claims, and only the
//! newest of a contact is ever carried out.

use std::collections::HashMap;
use vstd::prelude::*;

use crate::bytes::same_key;
use crate::content::ServiceId;
use crate::registration::ProfileKey;

verus! {

broadcast use vstd::std_specs::hash::group_hash_axioms;

/// That a profile key was seen, and when in the order of all such events.
#[derive(Clone, Copy, Debug)]
pub struct ProfileUpdateObservation {
    pub sequence: u64,
    pub profile_key: [u8; 32],
}

/// What a message tells of its sender.
#[derive(Clone, Copy, Debug)]
pub struct ContactProfileUpdate {
    pub sender: ServiceId,
    pub profile_key: ProfileKey,
    pub observation_timestamp: u64,
    pub expire_timer: u32,
    pub expire_timer_version: u32,
}

/// An update and its place in the order.
#[derive(Clone, Copy, Debug)]
pub struct QueuedContactProfileUpdate {
    pub update: ContactProfileUpdate,
    pub observation: ProfileUpdateObservation,
}

/// What is known of the updates to contacts.
#[verifier::ext_equal]
pub struct ContactUpdates {
    /// The newest observation of each contact.
    pub latest: Map<u128, ProfileUpdateObservation>,
    /// The update of each contact that waits to be carried out.
    pub pending: Map<u128, QueuedContactProfileUpdate>,
    /// How many updates were observed.
    pub sequence: nat,
    /// The lock of each contact.
    pub locks: Map<u128, u64>,
}

impl ContactUpdates {
    /// Nothing was observed yet.
    pub open spec fn nothing() -> Self {
        ContactUpdates {
            latest: Map::empty(),
            pending: Map::empty(),
            sequence: 0,
            locks: Map::empty(),
        }
    }

    /// What waits for a contact is its newest observation, the order is strict, and no two
    /// contacts share a lock.
    pub open spec fn valid(self) -> bool {
        &&& forall|uuid: u128| #[trigger]
            self.pending.contains_key(uuid) ==> {
                &&& self.latest.contains_key(uuid)
                &&& self.pending[uuid].observation == self.latest[uuid]
                &&& self.pending[uuid].observation.profile_key
                    == self.pending[uuid].update.profile_key.bytes
            }
        &&& forall|uuid: u128| #[trigger]
            self.latest.contains_key(uuid) ==> 1 <= self.latest[uuid].sequence <= self.sequence
        &&& forall|a: u128, b: u128| #[trigger]
            self.latest.contains_key(a) && #[trigger] self.latest.contains_key(b)
                && self.latest[a].sequence == self.latest[b].sequence ==> a == b
        &&& forall|a: u128, b: u128| #[trigger]
            self.locks.contains_key(a) && #[trigger] self.locks.contains_key(b) && self.locks[a]
                == self.locks[b] ==> a == b
    }

    /// The update as it is queued when it is the next one to be observed.
    pub open spec fn next_queued(self, update: ContactProfileUpdate) -> QueuedContactProfileUpdate {
        QueuedContactProfileUpdate {
            update,
            observation: ProfileUpdateObservation {
                sequence: (self.sequence + 1) as u64,
                profile_key: update.profile_key.bytes,
            },
        }
    }

    /// After an update was observed.
    pub open spec fn enqueued(self, uuid: u128, update: ContactProfileUpdate) -> Self {
        let queued = self.next_queued(update);
        ContactUpdates {
            latest: self.latest.insert(uuid, queued.observation),
            pending: self.pending.insert(uuid, queued),
            sequence: self.sequence + 1,
            ..self
        }
    }

    /// The update of a contact that waits, if one does.
    pub open spec fn waiting(self, uuid: u128) -> Option<QueuedContactProfileUpdate> {
        if self.pending.contains_key(uuid) {
            Some(self.pending[uuid])
        } else {
            None
        }
    }

    /// After the update of a contact was taken.
    pub open spec fn taken(self, uuid: u128) -> Self {
        ContactUpdates { pending: self.pending.remove(uuid), ..self }
    }

    /// Whether a newer update with the key of a queued one waits.
    pub open spec fn is_renewed(self, uuid: u128, queued: QueuedContactProfileUpdate) -> bool {
        &&& self.latest.contains_key(uuid)
        &&& self.latest[uuid].profile_key == queued.update.profile_key.bytes
        &&& self.pending.contains_key(uuid)
        &&& self.pending[uuid].observation == self.latest[uuid]
    }

    /// The update to carry out in place of a queued one: the newest of the contact, if it has the
    /// same key.
    pub open spec fn current(self, uuid: u128, queued: QueuedContactProfileUpdate) -> Option<
        QueuedContactProfileUpdate,
    > {
        if self.is_renewed(uuid, queued) {
            Some(self.pending[uuid])
        } else if self.latest.contains_key(uuid) && self.latest[uuid] == queued.observation
            && self.latest[uuid].profile_key == queued.update.profile_key.bytes {
            Some(queued)
        } else {
            None
        }
    }

    /// After a queued update was exchanged for the one to carry out.
    pub open spec fn coalesced(self, uuid: u128, queued: QueuedContactProfileUpdate) -> Self {
        if self.is_renewed(uuid, queued) {
            self.taken(uuid)
        } else {
            self
        }
    }
}

/// Orders the updates to contacts.
#[derive(Debug)]
pub struct ContactUpdateCoordinator {
    locks: HashMap<u128, u64>,
    next_lock: u64,
    latest_profile_updates: HashMap<u128, ProfileUpdateObservation>,
    pending_profile_updates: HashMap<u128, QueuedContactProfileUpdate>,
    next_profile_update_sequence: u64,
}

impl View for ContactUpdateCoordinator {
    type V = ContactUpdates;

    closed spec fn view(&self) -> ContactUpdates {
        ContactUpdates {
            latest: self.latest_profile_updates@,
            pending: self.pending_profile_updates@,
            sequence: self.next_profile_update_sequence as nat,
            locks: self.locks@,
        }
    }
}

/// Whether two observations are the same.
fn same_observation(left: &ProfileUpdateObservation, right: &ProfileUpdateObservation) -> (same:
    bool)
    ensures
        same == (*left == *right),
{
    left.sequence == right.sequence && same_key(&left.profile_key, &right.profile_key)
}

impl ContactUpdateCoordinator {
    /// Whether the coordinator is in a state that its operations lead to.
    pub closed spec fn wf(self) -> bool {
        &&& self@.valid()
        &&& forall|uuid: u128| #[trigger]
            self.locks@.contains_key(uuid) ==> self.locks@[uuid] < self.next_lock
    }

    /// How many locks were given out.
    pub closed spec fn lock_count(self) -> nat {
        self.next_lock as nat
    }

    /// A coordinator that has observed nothing.
    pub fn new() -> (coordinator: Self)
        ensures
            coordinator.wf(),
            coordinator@ == ContactUpdates::nothing(),
            coordinator.lock_count() == 0,
    {
        let coordinator = ContactUpdateCoordinator {
            locks: HashMap::new(),
            next_lock: 0,
            latest_profile_updates: HashMap::new(),
            pending_profile_updates: HashMap::new(),
            next_profile_update_sequence: 0,
        };
        assert(coordinator@ =~= ContactUpdates::nothing());
        coordinator
    }

    /// The number of the lock under which a contact is changed. It is the same at every call for
    /// the contact, and no other contact's.
    pub fn contact_lock(&mut self, uuid: u128) -> (lock: u64)
        requires
            old(self).wf(),
            old(self).lock_count() < u64::MAX,
        ensures
            final(self).wf(),
            old(self)@.locks.contains_key(uuid) ==> lock == old(self)@.locks[uuid] && *final(self)
                == *old(self),
            !old(self)@.locks.contains_key(uuid) ==> {
                &&& lock == old(self).lock_count()
                &&& final(self).lock_count() == old(self).lock_count() + 1
                &&& final(self)@ == (ContactUpdates {
                    locks: old(self)@.locks.insert(uuid, lock),
                    ..old(self)@
                })
            },
    {
        if let Some(lock) = self.locks.get(&uuid) {
            return *lock;
        }
        let lock: u64 = self.next_lock;
        self.next_lock = lock + 1;
        self.locks.insert(uuid, lock);
        lock
    }

    /// Records that a message told a profile key. The contact's lock must be held.
    pub fn enqueue_profile_update(&mut self, uuid: u128, update: ContactProfileUpdate)
        requires
            old(self).wf(),
            old(self)@.sequence < u64::MAX,
        ensures
            final(self).wf(),
            final(self)@ == old(self)@.enqueued(uuid, update),
            final(self).lock_count() == old(self).lock_count(),
    {
        let sequence: u64 = self.next_profile_update_sequence + 1;
        self.next_profile_update_sequence = sequence;
        let observation = ProfileUpdateObservation {
            sequence,
            profile_key: update.profile_key.bytes,
        };
        self.latest_profile_updates.insert(uuid, observation);
        self.pending_profile_updates.insert(
            uuid,
            QueuedContactProfileUpdate { update, observation },
        );
        assert(self@ =~= old(self)@.enqueued(uuid, update));
    }

    /// Takes the update of a contact that waits.
    pub fn take_profile_update(&mut self, uuid: u128) -> (queued: Option<
        QueuedContactProfileUpdate,
    >)
        requires
            old(self).wf(),
        ensures
            final(self).wf(),
            queued == old(self)@.waiting(uuid),
            final(self)@ == old(self)@.taken(uuid),
            final(self).lock_count() == old(self).lock_count(),
    {
        let queued = self.pending_profile_updates.remove(&uuid);
        assert(self@ =~= old(self)@.taken(uuid));
        queued
    }

    /// Whether an update of a contact waits.
    pub fn has_pending_profile_update(&self, uuid: u128) -> (pending: bool)
        ensures
            pending == self@.pending.contains_key(uuid),
    {
        self.pending_profile_updates.contains_key(&uuid)
    }

    /// Exchanges a queued update for the newest one of the contact with the same key. Without one
    /// the queued update is superseded, and nothing is to be done for it.
    pub fn coalesce_current_profile_update(
        &mut self,
        uuid: u128,
        queued: QueuedContactProfileUpdate,
    ) -> (current: Option<QueuedContactProfileUpdate>)
        requires
            old(self).wf(),
        ensures
            final(self).wf(),
            current == old(self)@.current(uuid, queued),
            final(self)@ == old(self)@.coalesced(uuid, queued),
            final(self).lock_count() == old(self).lock_count(),
    {
        let current = match self.latest_profile_updates.get(&uuid) {
            Some(current) => *current,
            None => {
                return None;
            },
        };
        if !same_key(&current.profile_key, &queued.update.profile_key.bytes) {
            return None;
        }
        let renewed = match self.pending_profile_updates.get(&uuid) {
            Some(pending) => same_observation(&pending.observation, &current),
            None => false,
        };
        if renewed {
            return self.take_profile_update(uuid);
        }
        if same_observation(&current, &queued.observation) {
            Some(queued)
        } else {
            None
        }
    }
}

impl Default for ContactUpdateCoordinator {
    fn default() -> (coordinator: Self)
        ensures
            coordinator.wf(),
            coordinator@ == ContactUpdates::nothing(),
            coordinator.lock_count() == 0,
    {
        ContactUpdateCoordinator::new()
    }
}

/// What a coordinator knows is valid.
pub proof fn lemma_coordinator_is_valid(coordinator: ContactUpdateCoordinator)
    requires
        coordinator.wf(),
    ensures
        coordinator@.valid(),
{
}

/// Updates of a contact are ordered by when they were observed: the later one waits, whatever
/// times the two claim.
pub proof fn law_later_observation_wins(
    updates: ContactUpdates,
    uuid: u128,
    first: ContactProfileUpdate,
    second: ContactProfileUpdate,
)
    ensures
        updates.enqueued(uuid, first).enqueued(uuid, second).waiting(uuid) matches Some(queued)
            && queued.update == second && queued.observation.profile_key
            == second.profile_key.bytes,
        updates.sequence + 2 <= u64::MAX ==> updates.enqueued(uuid, first).enqueued(
            uuid,
            second,
        ).pending[uuid].observation.sequence == updates.sequence + 2,
{
}

/// An observation of another key supersedes whatever is under way for the contact.
pub proof fn law_new_key_supersedes(
    updates: ContactUpdates,
    uuid: u128,
    queued: QueuedContactProfileUpdate,
    newer: ContactProfileUpdate,
)
    requires
        newer.profile_key.bytes != queued.update.profile_key.bytes,
    ensures
        updates.enqueued(uuid, newer).current(uuid, queued) is None,
        updates.enqueued(uuid, newer).coalesced(uuid, queued) == updates.enqueued(uuid, newer),
{
}

/// An observation of the same key replaces whatever is under way for the contact, and is then no
/// longer waiting.
pub proof fn law_same_key_coalesces(
    updates: ContactUpdates,
    uuid: u128,
    queued: QueuedContactProfileUpdate,
    newer: ContactProfileUpdate,
)
    requires
        newer.profile_key.bytes == queued.update.profile_key.bytes,
    ensures
        updates.enqueued(uuid, newer).current(uuid, queued) == Some(updates.next_queued(newer)),
        updates.enqueued(uuid, newer).coalesced(uuid, queued).waiting(uuid) is None,
{
}

/// An update that was just taken is current, until another one is observed.
pub proof fn law_taken_update_is_current(updates: ContactUpdates, uuid: u128)
    requires
        updates.valid(),
    ensures
        updates.waiting(uuid) matches Some(queued) ==> {
            &&& updates.taken(uuid).current(uuid, queued) == Some(queued)
            &&& updates.taken(uuid).coalesced(uuid, queued) == updates.taken(uuid)
        },
{
    assert(!updates.taken(uuid).pending.contains_key(uuid));
}

/// The update to carry out always has the newest key of the contact, and coalescing again changes
/// nothing.
pub proof fn law_current_update_has_latest_key(
    updates: ContactUpdates,
    uuid: u128,
    queued: QueuedContactProfileUpdate,
)
    requires
        updates.valid(),
    ensures
        updates.current(uuid, queued) matches Some(current) ==> {
            &&& updates.latest.contains_key(uuid)
            &&& current.update.profile_key.bytes == updates.latest[uuid].profile_key
            &&& updates.coalesced(uuid, queued).current(uuid, current) == Some(current)
            &&& updates.coalesced(uuid, queued).coalesced(uuid, current) == updates.coalesced(
                uuid,
                queued,
            )
        },
{
}

/// What is done for one contact leaves the updates of every other as they were.
pub proof fn law_contacts_are_independent(
    updates: ContactUpdates,
    uuid: u128,
    other: u128,
    update: ContactProfileUpdate,
    queued: QueuedContactProfileUpdate,
    others: QueuedContactProfileUpdate,
)
    requires
        uuid != other,
    ensures
        updates.enqueued(uuid, update).waiting(other) == updates.waiting(other),
        updates.taken(uuid).waiting(other) == updates.waiting(other),
        updates.coalesced(uuid, queued).waiting(other) == updates.waiting(other),
        updates.enqueued(uuid, update).current(other, others) == updates.current(other, others),
        updates.taken(uuid).current(other, others) == updates.current(other, others),
        updates.coalesced(uuid, queued).current(other, others) == updates.current(other, others),
{
}

/// The lock of a contact, once given out, is given to nobody else.
pub proof fn law_locks_are_not_shared(updates: ContactUpdates, a: u128, b: u128)
    requires
        updates.valid(),
        updates.locks.contains_key(a),
        updates.locks.contains_key(b),
    ensures
        updates.locks[a] == updates.locks[b] <==> a == b,
{
}

/// What was observed last for a contact is what is taken next for it, once. What is taken for another
/// contact is what would have been taken before.
pub proof fn law_observed_update_is_taken_once(
    observing: &mut ContactUpdateCoordinator,
    taking: &mut ContactUpdateCoordinator,
    again: &mut ContactUpdateCoordinator,
    elsewhere: &mut ContactUpdateCoordinator,
    unobserved: &mut ContactUpdateCoordinator,
    uuid: u128,
    other: u128,
    update: ContactProfileUpdate,
    taken: Option<QueuedContactProfileUpdate>,
    retaken: Option<QueuedContactProfileUpdate>,
    others: Option<QueuedContactProfileUpdate>,
    others_before: Option<QueuedContactProfileUpdate>,
)
    requires
        old(observing).wf(),
        old(observing)@.sequence < u64::MAX,
        call_ensures(
            ContactUpdateCoordinator::enqueue_profile_update,
            (observing, uuid, update),
            (),
        ),
        *old(taking) == *final(observing),
        call_ensures(ContactUpdateCoordinator::take_profile_update, (taking, uuid), taken),
        *old(again) == *final(taking),
        call_ensures(ContactUpdateCoordinator::take_profile_update, (again, uuid), retaken),
        other != uuid,
        *old(elsewhere) == *final(again),
        call_ensures(ContactUpdateCoordinator::take_profile_update, (elsewhere, other), others),
        *old(unobserved) == *old(observing),
        call_ensures(
            ContactUpdateCoordinator::take_profile_update,
            (unobserved, other),
            others_before,
        ),
    ensures
        taken matches Some(queued) && {
            &&& queued.update == update
            &&& queued.observation.profile_key == update.profile_key.bytes
            &&& queued.observation.sequence == old(observing)@.sequence + 1
        },
        final(observing)@.sequence == old(observing)@.sequence + 1,
        retaken is None,
        others == others_before,
{
}

/// An update that was taken is still the one to carry out as long as nothing is observed for its
/// contact. An observation with another key supersedes it, and waits itself. One with the same key is
/// carried out in its place, and does then not wait any more.
pub proof fn law_newest_update_is_carried_out(
    taking: &mut ContactUpdateCoordinator,
    checking: &mut ContactUpdateCoordinator,
    observing: &mut ContactUpdateCoordinator,
    rechecking: &mut ContactUpdateCoordinator,
    uuid: u128,
    queued: QueuedContactProfileUpdate,
    newer: ContactProfileUpdate,
    unchanged: Option<QueuedContactProfileUpdate>,
    current: Option<QueuedContactProfileUpdate>,
)
    requires
        old(taking).wf(),
        old(taking)@.sequence < u64::MAX,
        call_ensures(ContactUpdateCoordinator::take_profile_update, (taking, uuid), Some(queued)),
        *old(checking) == *final(taking),
        call_ensures(
            ContactUpdateCoordinator::coalesce_current_profile_update,
            (checking, uuid, queued),
            unchanged,
        ),
        *old(observing) == *final(taking),
        call_ensures(
            ContactUpdateCoordinator::enqueue_profile_update,
            (observing, uuid, newer),
            (),
        ),
        *old(rechecking) == *final(observing),
        call_ensures(
            ContactUpdateCoordinator::coalesce_current_profile_update,
            (rechecking, uuid, queued),
            current,
        ),
    ensures
        unchanged == Some(queued),
        final(checking)@ == final(taking)@,
        newer.profile_key.bytes != queued.update.profile_key.bytes ==> {
            &&& current is None
            &&& final(rechecking)@.pending.contains_key(uuid)
            &&& final(rechecking)@.pending[uuid].update == newer
        },
        newer.profile_key.bytes == queued.update.profile_key.bytes ==> {
            &&& current matches Some(c) && c.update == newer
            &&& !final(rechecking)@.pending.contains_key(uuid)
        },
{
    lemma_coordinator_is_valid(*old(taking));
    law_taken_update_is_current(old(taking)@, uuid);
}

/// Without any observation of a contact, nothing waits for it and nothing is to be carried out.
pub proof fn law_nothing_happens_unobserved(
    coordinator: &mut ContactUpdateCoordinator,
    checking: &mut ContactUpdateCoordinator,
    uuid: u128,
    queued: QueuedContactProfileUpdate,
    taken: Option<QueuedContactProfileUpdate>,
    current: Option<QueuedContactProfileUpdate>,
    waits: bool,
)
    requires
        call_ensures(ContactUpdateCoordinator::new, (), *old(coordinator)),
        call_ensures(
            ContactUpdateCoordinator::has_pending_profile_update,
            (&*old(coordinator), uuid),
            waits,
        ),
        call_ensures(ContactUpdateCoordinator::take_profile_update, (coordinator, uuid), taken),
        *old(checking) == *old(coordinator),
        call_ensures(
            ContactUpdateCoordinator::coalesce_current_profile_update,
            (checking, uuid, queued),
            current,
        ),
    ensures
        !waits,
        taken is None,
        current is None,
{
}

/// A contact has the same lock at every call, and no other contact has it.
pub proof fn law_every_contact_has_its_own_lock(
    first: &mut ContactUpdateCoordinator,
    second: &mut ContactUpdateCoordinator,
    third: &mut ContactUpdateCoordinator,
    uuid: u128,
    other: u128,
    lock: u64,
    lock_again: u64,
    others_lock: u64,
)
    requires
        old(first).wf(),
        old(first).lock_count() < u64::MAX - 1,
        call_ensures(ContactUpdateCoordinator::contact_lock, (first, uuid), lock),
        *old(second) == *final(first),
        call_ensures(ContactUpdateCoordinator::contact_lock, (second, uuid), lock_again),
        *old(third) == *final(second),
        call_ensures(ContactUpdateCoordinator::contact_lock, (third, other), others_lock),
    ensures
        lock_again == lock,
        others_lock == lock <==> other == uuid,
        final(third)@.pending == old(first)@.pending,
        final(third)@.latest == old(first)@.latest,
        final(third)@.sequence == old(first)@.sequence,
{
    lemma_coordinator_is_valid(*final(third));
    law_locks_are_not_shared(final(third)@, uuid, other);
}

/// An update is not carried out any more once a later observation of its contact was taken, whatever
/// key that has: of the two, the later one is.
pub proof fn law_earlier_update_gives_way(
    taking: &mut ContactUpdateCoordinator,
    observing: &mut ContactUpdateCoordinator,
    retaking: &mut ContactUpdateCoordinator,
    checking: &mut ContactUpdateCoordinator,
    rechecking: &mut ContactUpdateCoordinator,
    uuid: u128,
    earlier: QueuedContactProfileUpdate,
    newer: ContactProfileUpdate,
    later: Option<QueuedContactProfileUpdate>,
    of_earlier: Option<QueuedContactProfileUpdate>,
    of_later: Option<QueuedContactProfileUpdate>,
)
    requires
        old(taking).wf(),
        old(taking)@.sequence < u64::MAX,
        call_ensures(ContactUpdateCoordinator::take_profile_update, (taking, uuid), Some(earlier)),
        *old(observing) == *final(taking),
        call_ensures(
            ContactUpdateCoordinator::enqueue_profile_update,
            (observing, uuid, newer),
            (),
        ),
        *old(retaking) == *final(observing),
        call_ensures(ContactUpdateCoordinator::take_profile_update, (retaking, uuid), later),
        *old(checking) == *final(retaking),
        call_ensures(
            ContactUpdateCoordinator::coalesce_current_profile_update,
            (checking, uuid, earlier),
            of_earlier,
        ),
        *old(rechecking) == *final(retaking),
        later is Some,
        call_ensures(
            ContactUpdateCoordinator::coalesce_current_profile_update,
            (rechecking, uuid, later->0),
            of_later,
        ),
    ensures
        of_earlier is None,
        of_later == later,
        later->0.update == newer,
        later->0.observation.sequence > earlier.observation.sequence,
        final(checking)@ == final(retaking)@,
        final(rechecking)@ == final(retaking)@,
{
    lemma_coordinator_is_valid(*old(taking));
    let before = old(taking)@;
    assert(before.pending.contains_key(uuid));
    assert(before.latest.contains_key(uuid));
    assert(earlier.observation.sequence <= before.sequence);
}

/// Observing, taking or exchanging an update of one contact changes nothing for another: what waits
/// for it and what was observed last of it stay, and so do all locks.
pub proof fn law_other_contacts_are_left_alone(
    observing: &mut ContactUpdateCoordinator,
    taking: &mut ContactUpdateCoordinator,
    exchanging: &mut ContactUpdateCoordinator,
    uuid: u128,
    other: u128,
    update: ContactProfileUpdate,
    queued: QueuedContactProfileUpdate,
    taken: Option<QueuedContactProfileUpdate>,
    current: Option<QueuedContactProfileUpdate>,
)
    requires
        other != uuid,
        call_ensures(
            ContactUpdateCoordinator::enqueue_profile_update,
            (observing, uuid, update),
            (),
        ),
        call_ensures(ContactUpdateCoordinator::take_profile_update, (taking, uuid), taken),
        call_ensures(
            ContactUpdateCoordinator::coalesce_current_profile_update,
            (exchanging, uuid, queued),
            current,
        ),
    ensures
        final(observing)@.pending.contains_key(other) <==> old(observing)@.pending.contains_key(
            other,
        ),
        final(observing)@.pending[other] == old(observing)@.pending[other],
        final(observing)@.latest[other] == old(observing)@.latest[other],
        final(observing)@.locks == old(observing)@.locks,
        final(taking)@.pending.contains_key(other) <==> old(taking)@.pending.contains_key(other),
        old(taking)@.pending.contains_key(other) ==> final(taking)@.pending[other] == old(
            taking,
        )@.pending[other],
        final(taking)@.latest == old(taking)@.latest,
        final(taking)@.locks == old(taking)@.locks,
        final(taking)@.sequence == old(taking)@.sequence,
        final(exchanging)@.pending.contains_key(other) <==> old(exchanging)@.pending.contains_key(
            other,
        ),
        old(exchanging)@.pending.contains_key(other) ==> final(exchanging)@.pending[other] == old(
            exchanging,
        )@.pending[other],
        final(exchanging)@.latest == old(exchanging)@.latest,
        final(exchanging)@.locks == old(exchanging)@.locks,
        final(exchanging)@.sequence == old(exchanging)@.sequence,
{
}

} // verus!
