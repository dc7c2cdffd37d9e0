//! The workers that carry out updates to contacts.

use std::collections::HashSet;
use vstd::prelude::*;

use crate::coordinator::{ContactProfileUpdate, ContactUpdateCoordinator, ContactUpdates};

verus! {

broadcast use vstd::std_specs::hash::group_hash_axioms;

/// The contacts for which a worker runs: at most one worker for each.
#[derive(Debug)]
pub struct ContactProfileWorkerQueue {
    active: HashSet<u128>,
}

impl View for ContactProfileWorkerQueue {
    type V = Set<u128>;

    closed spec fn view(&self) -> Set<u128> {
        self.active@
    }
}

impl ContactProfileWorkerQueue {
    /// A queue in which no worker runs.
    pub fn new() -> (queue: Self)
        ensures
            queue@ == Set::<u128>::empty(),
    {
        ContactProfileWorkerQueue { active: HashSet::new() }
    }

    /// Whether no worker runs.
    pub fn is_empty(&self) -> (empty: bool)
        ensures
            empty == (self@ == Set::<u128>::empty()),
    {
        let empty = self.active.is_empty();
        proof {
            if empty {
                assert(self@ =~= Set::<u128>::empty());
            }
        }
        empty
    }

    /// Asks for a worker for a contact. It is to be spawned unless one runs already.
    pub fn start(&mut self, sender_uuid: u128) -> (spawn: bool)
        ensures
            spawn == !old(self)@.contains(sender_uuid),
            final(self)@ == old(self)@.insert(sender_uuid),
    {
        let spawn = self.active.insert(sender_uuid);
        assert(self@ =~= old(self)@.insert(sender_uuid));
        spawn
    }

    /// Records that the worker of a contact ended.
    pub fn complete(&mut self, sender_uuid: u128)
        ensures
            final(self)@ == old(self)@.remove(sender_uuid),
    {
        let _ = self.active.remove(&sender_uuid);
        assert(self@ =~= old(self)@.remove(sender_uuid));
    }

    /// Records that the worker of a contact ended, and asks for another one if an update of the
    /// contact was observed meanwhile.
    pub fn finish(&mut self, updates: &ContactUpdateCoordinator, sender_uuid: u128) -> (restart:
        bool)
        ensures
            restart == updates@.pending.contains_key(sender_uuid),
            final(self)@ == if restart {
                old(self)@.insert(sender_uuid)
            } else {
                old(self)@.remove(sender_uuid)
            },
    {
        self.complete(sender_uuid);
        if updates.has_pending_profile_update(sender_uuid) {
            let spawn = self.start(sender_uuid);
            assert(self@ =~= old(self)@.insert(sender_uuid));
            spawn
        } else {
            false
        }
    }
}

impl Default for ContactProfileWorkerQueue {
    fn default() -> (queue: Self)
        ensures
            queue@ == Set::<u128>::empty(),
    {
        ContactProfileWorkerQueue::new()
    }
}

/// Queues an update and asks for a worker, which is to be spawned unless one runs already. The
/// contact's lock must be held.
pub fn observe_profile_update(
    updates: &mut ContactUpdateCoordinator,
    workers: &mut ContactProfileWorkerQueue,
    sender_uuid: u128,
    update: ContactProfileUpdate,
) -> (spawn: bool)
    requires
        old(updates).wf(),
        old(updates)@.sequence < u64::MAX,
    ensures
        final(updates).wf(),
        final(updates)@ == old(updates)@.enqueued(sender_uuid, update),
        final(updates).lock_count() == old(updates).lock_count(),
        spawn == !old(workers)@.contains(sender_uuid),
        final(workers)@ == old(workers)@.insert(sender_uuid),
{
    updates.enqueue_profile_update(sender_uuid, update);
    workers.start(sender_uuid)
}

/// Whether every update that waits has a worker that will take it.
pub open spec fn all_attended(updates: ContactUpdates, active: Set<u128>) -> bool {
    forall|uuid: u128| #[trigger] updates.pending.contains_key(uuid) ==> active.contains(uuid)
}

/// No update is forgotten: whatever is observed, taken, exchanged or finished, every update that
/// waits has a worker.
pub proof fn law_no_update_is_forgotten(
    updates: ContactUpdates,
    active: Set<u128>,
    uuid: u128,
    update: ContactProfileUpdate,
    queued: crate::coordinator::QueuedContactProfileUpdate,
)
    requires
        all_attended(updates, active),
    ensures
        all_attended(ContactUpdates::nothing(), Set::empty()),
        all_attended(updates.enqueued(uuid, update), active.insert(uuid)),
        all_attended(updates.taken(uuid), active),
        all_attended(updates.coalesced(uuid, queued), active),
        // a finished worker is restarted when an update waits
        updates.pending.contains_key(uuid) ==> all_attended(updates, active.insert(uuid)),
        !updates.pending.contains_key(uuid) ==> all_attended(updates, active.remove(uuid)),
{
}

/// A worker is spawned for a contact exactly if none runs for it, and runs until it is completed.
/// Workers of other contacts are left alone.
pub proof fn law_one_worker_runs_for_a_contact(
    starting: &mut ContactProfileWorkerQueue,
    restarting: &mut ContactProfileWorkerQueue,
    completing: &mut ContactProfileWorkerQueue,
    later: &mut ContactProfileWorkerQueue,
    uuid: u128,
    other: u128,
    spawn: bool,
    spawn_again: bool,
    spawn_later: bool,
    empty: bool,
)
    requires
        call_ensures(ContactProfileWorkerQueue::start, (starting, uuid), spawn),
        *old(restarting) == *final(starting),
        call_ensures(ContactProfileWorkerQueue::start, (restarting, uuid), spawn_again),
        *old(completing) == *final(restarting),
        call_ensures(ContactProfileWorkerQueue::is_empty, (&*old(completing),), empty),
        call_ensures(ContactProfileWorkerQueue::complete, (completing, uuid), ()),
        *old(later) == *final(completing),
        call_ensures(ContactProfileWorkerQueue::start, (later, uuid), spawn_later),
    ensures
        spawn <==> !old(starting)@.contains(uuid),
        !spawn_again,
        !empty,
        spawn_later,
        !final(completing)@.contains(uuid),
        final(later)@.contains(uuid),
        other != uuid ==> (final(later)@.contains(other) <==> old(starting)@.contains(other)),
{
    assert(old(completing)@.contains(uuid));
}

/// An update that is observed waits, and has a worker; the worker is spawned if the contact had none.
/// When that worker ends it is started again as long as the update waits.
pub proof fn law_observed_update_has_a_worker(
    updates: &mut ContactUpdateCoordinator,
    workers: &mut ContactProfileWorkerQueue,
    ending: &mut ContactProfileWorkerQueue,
    uuid: u128,
    update: ContactProfileUpdate,
    spawn: bool,
    restart: bool,
)
    requires
        old(updates).wf(),
        old(updates)@.sequence < u64::MAX,
        call_ensures(observe_profile_update, (updates, workers, uuid, update), spawn),
        *old(ending) == *final(workers),
        call_ensures(
            ContactProfileWorkerQueue::finish,
            (ending, &*final(updates), uuid),
            restart,
        ),
    ensures
        final(updates)@.pending.contains_key(uuid),
        final(updates)@.pending[uuid].update == update,
        spawn <==> !old(workers)@.contains(uuid),
        final(workers)@.contains(uuid),
        restart,
        final(ending)@.contains(uuid),
{
}

} // verus!
