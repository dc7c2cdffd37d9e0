//! Carrying out an update to a contact's profile.
//!
//! A task tells what to read, fetch or save next. What came of it is handed back, and the task
//! goes on. Whenever time has passed, the update is exchanged for the newest one of the contact,
//! and the task ends when another key has superseded it.

use vstd::prelude::*;

use crate::bytes::{copy_bytes, same_bytes, same_key};
use crate::contacts::{
    is_profile_merge,
    merge_profile_contact,
    needs_profile_contact_upsert,
    profile_display_name,
    Contact,
    Profile,
};
use crate::content::ServiceId;
use crate::coordinator::{
    ContactUpdateCoordinator,
    ContactUpdates,
    QueuedContactProfileUpdate,
};
use crate::registration::ProfileKey;

verus! {

/// How long to wait for a profile, in seconds.
pub const CONTACT_PROFILE_FETCH_TIMEOUT: u64 = 30;

/// What is to be done next for an update.
#[derive(Debug)]
pub enum ProfileTask {
    /// Under the contact's lock, read the sender's contact and the stored key of its profile.
    LoadContact { queued: QueuedContactProfileUpdate },
    /// Still under the lock, read the profile of the stored key, if there is one, and the sender's
    /// contact as it is now.
    LoadPrevious { queued: QueuedContactProfileUpdate, stored_key: Option<ProfileKey> },
    /// Without the lock, fetch the profile of an account and decrypt it with the update's key.
    Fetch { queued: QueuedContactProfileUpdate, aci: u128 },
    /// Under the lock, read the stored key of the sender's profile, and the profile of that key,
    /// if there is one.
    LoadStored { queued: QueuedContactProfileUpdate, profile: Profile },
    /// Still under the lock, save the profile under the update's key, then read the sender's
    /// contact.
    SaveProfile {
        queued: QueuedContactProfileUpdate,
        profile: Profile,
        previous: Option<Profile>,
    },
    /// Still under the lock, save the contact.
    SaveContact { contact: Contact },
    /// Nothing.
    Done,
}

/// What came of a task.
#[derive(Debug)]
pub enum ProfileEvent {
    ContactLoaded { existing: Option<Contact>, stored_key: Option<ProfileKey> },
    PreviousLoaded { previous: Option<Profile>, latest: Option<Contact> },
    /// The profile, unless it did not come in time.
    Fetched { profile: Option<Profile> },
    StoredLoaded { previous: Option<Profile> },
    ProfileSaved { latest: Option<Contact> },
    ContactSaved,
    /// Reading, fetching or saving failed.
    Failed,
}

/// How to go on from what is stored.
pub enum LocalChoice {
    /// There is nothing to learn.
    Nothing,
    /// The stored profile is that of the key: merge it into the contact.
    Merge,
    /// The contact has a name; only its key is to be set.
    SetKey,
    /// The profile must be fetched.
    Fetch,
}

/// Whether a stored key is the one of an update.
pub open spec fn is_key_of(
    stored_key: Option<ProfileKey>,
    queued: QueuedContactProfileUpdate,
) -> bool {
    stored_key matches Some(key) && key.bytes == queued.update.profile_key.bytes
}

/// How to go on from what is stored.
pub open spec fn local_choice(
    queued: QueuedContactProfileUpdate,
    stored_key: Option<ProfileKey>,
    previous: Option<Profile>,
    latest: Option<Contact>,
) -> LocalChoice {
    if !is_key_of(stored_key, queued) {
        LocalChoice::Fetch
    } else {
        match previous {
            Some(profile) => if latest matches Some(contact) && contact.name@.len() == 0
                && profile.displayed().len() == 0 && contact.profile_key@
                == queued.update.profile_key.bytes@ {
                LocalChoice::Nothing
            } else {
                LocalChoice::Merge
            },
            None => if latest matches Some(contact) && contact.name@.len() > 0 {
                LocalChoice::SetKey
            } else {
                LocalChoice::Fetch
            },
        }
    }
}

/// Whether a contact is another one with its profile key set.
pub open spec fn is_rekeyed(contact: Contact, from: Contact, key: Seq<u8>) -> bool {
    &&& contact.same_otherwise(from)
    &&& contact.name == from.name
    &&& contact.verified == from.verified
    &&& contact.profile_key@ == key
}

/// Whether a contact is the merge of the stored one with a profile, for an update.
pub open spec fn is_merge_for(
    contact: Contact,
    uuid: u128,
    latest: Option<Contact>,
    previous: Option<Profile>,
    profile: Profile,
    queued: QueuedContactProfileUpdate,
) -> bool {
    is_profile_merge(
        contact,
        uuid,
        latest,
        previous,
        profile,
        queued.update.profile_key,
        queued.update.expire_timer,
        queued.update.expire_timer_version,
    )
}

impl ProfileTask {
    /// Whether an event is one that can come of it.
    pub open spec fn expects(self, event: ProfileEvent) -> bool {
        match (self, event) {
            (ProfileTask::Done, _) => false,
            (_, ProfileEvent::Failed) => true,
            (ProfileTask::LoadContact { .. }, ProfileEvent::ContactLoaded { .. }) => true,
            (ProfileTask::LoadPrevious { .. }, ProfileEvent::PreviousLoaded { .. }) => true,
            (ProfileTask::Fetch { .. }, ProfileEvent::Fetched { .. }) => true,
            (ProfileTask::LoadStored { .. }, ProfileEvent::StoredLoaded { .. }) => true,
            (ProfileTask::SaveProfile { .. }, ProfileEvent::ProfileSaved { .. }) => true,
            (ProfileTask::SaveContact { .. }, ProfileEvent::ContactSaved) => true,
            _ => false,
        }
    }

    /// The update that is exchanged for the newest one when an event comes, if one is.
    pub open spec fn exchanges(self, event: ProfileEvent) -> Option<QueuedContactProfileUpdate> {
        match (self, event) {
            (
                ProfileTask::LoadPrevious { queued, stored_key },
                ProfileEvent::PreviousLoaded { previous, latest },
            ) => match local_choice(queued, stored_key, previous, latest) {
                LocalChoice::Merge => Some(queued),
                LocalChoice::SetKey => Some(queued),
                _ => None,
            },
            (
                ProfileTask::Fetch { queued, .. },
                ProfileEvent::Fetched { profile: Some(_) },
            ) => Some(queued),
            (ProfileTask::LoadStored { queued, .. }, ProfileEvent::StoredLoaded { .. }) => Some(
                queued,
            ),
            _ => None,
        }
    }

    /// The updates after an event came.
    pub open spec fn updates_after(
        self,
        updates: ContactUpdates,
        uuid: u128,
        event: ProfileEvent,
    ) -> ContactUpdates {
        match self.exchanges(event) {
            Some(queued) => updates.coalesced(uuid, queued),
            None => updates,
        }
    }

    /// Whether a task is what follows from an event.
    pub open spec fn leads_to(
        self,
        updates: ContactUpdates,
        uuid: u128,
        event: ProfileEvent,
        next: Self,
    ) -> bool {
        match (self, event) {
            (
                ProfileTask::LoadContact { queued },
                ProfileEvent::ContactLoaded { existing, stored_key },
            ) => {
                let up_to_date = is_key_of(stored_key, queued) && (existing matches Some(contact)
                    && contact.name@.len() > 0 && contact.profile_key@
                    == queued.update.profile_key.bytes@);
                next == if up_to_date {
                    ProfileTask::Done
                } else {
                    ProfileTask::LoadPrevious { queued, stored_key }
                }
            },
            (
                ProfileTask::LoadPrevious { queued, stored_key },
                ProfileEvent::PreviousLoaded { previous, latest },
            ) => match local_choice(queued, stored_key, previous, latest) {
                LocalChoice::Nothing => next is Done,
                LocalChoice::Merge => match updates.current(uuid, queued) {
                    Some(current) => next matches ProfileTask::SaveContact { contact }
                        && is_merge_for(contact, uuid, latest, previous, previous->0, current),
                    None => next is Done,
                },
                LocalChoice::SetKey => match updates.current(uuid, queued) {
                    Some(_) => next matches ProfileTask::SaveContact { contact } && is_rekeyed(
                        contact,
                        latest->0,
                        queued.update.profile_key.bytes@,
                    ),
                    None => next is Done,
                },
                LocalChoice::Fetch => next == match queued.update.sender.as_aci() {
                    Some(aci) => ProfileTask::Fetch { queued, aci },
                    None => ProfileTask::Done,
                },
            },
            (ProfileTask::Fetch { queued, .. }, ProfileEvent::Fetched { profile }) => next
                == match (profile, updates.current(uuid, queued)) {
                (Some(profile), Some(current)) => ProfileTask::LoadStored {
                    queued: current,
                    profile,
                },
                _ => ProfileTask::Done,
            },
            (
                ProfileTask::LoadStored { queued, profile },
                ProfileEvent::StoredLoaded { previous },
            ) => next == match updates.current(uuid, queued) {
                Some(current) => ProfileTask::SaveProfile { queued: current, profile, previous },
                None => ProfileTask::Done,
            },
            (
                ProfileTask::SaveProfile { queued, profile, previous },
                ProfileEvent::ProfileSaved { latest },
            ) => next matches ProfileTask::SaveContact { contact } && is_merge_for(
                contact,
                uuid,
                latest,
                previous,
                profile,
                queued,
            ),
            _ => next is Done,
        }
    }

    /// How many steps a task can take at most.
    pub open spec fn steps_left(self) -> nat {
        match self {
            ProfileTask::LoadContact { .. } => 6,
            ProfileTask::LoadPrevious { .. } => 5,
            ProfileTask::Fetch { .. } => 4,
            ProfileTask::LoadStored { .. } => 3,
            ProfileTask::SaveProfile { .. } => 2,
            ProfileTask::SaveContact { .. } => 1,
            ProfileTask::Done => 0,
        }
    }

    /// Starts a task for an update that was taken. The contact's lock must be held.
    pub fn begin(
        updates: &mut ContactUpdateCoordinator,
        uuid: u128,
        queued: QueuedContactProfileUpdate,
    ) -> (task: Self)
        requires
            old(updates).wf(),
        ensures
            final(updates).wf(),
            final(updates)@ == old(updates)@.coalesced(uuid, queued),
            final(updates).lock_count() == old(updates).lock_count(),
            task == match old(updates)@.current(uuid, queued) {
                Some(current) => ProfileTask::LoadContact { queued: current },
                None => ProfileTask::Done,
            },
    {
        match updates.coalesce_current_profile_update(uuid, queued) {
            Some(queued) => ProfileTask::LoadContact { queued },
            None => ProfileTask::Done,
        }
    }

    /// Goes on with a task after what came of it.
    pub fn step(self, updates: &mut ContactUpdateCoordinator, uuid: u128, event: ProfileEvent) -> (
    next: Self)
        requires
            old(updates).wf(),
            self.expects(event),
        ensures
            final(updates).wf(),
            final(updates)@ == self.updates_after(old(updates)@, uuid, event),
            final(updates).lock_count() == old(updates).lock_count(),
            self.leads_to(old(updates)@, uuid, event, next),
            next.steps_left() < self.steps_left(),
    {
        match (self, event) {
            (
                ProfileTask::LoadContact { queued },
                ProfileEvent::ContactLoaded { existing, stored_key },
            ) => {
                if needs_profile_contact_upsert(
                    existing.as_ref(),
                    stored_key.as_ref(),
                    &queued.update.profile_key,
                ) {
                    ProfileTask::LoadPrevious { queued, stored_key }
                } else {
                    ProfileTask::Done
                }
            },
            (
                ProfileTask::LoadPrevious { queued, stored_key },
                ProfileEvent::PreviousLoaded { previous, latest },
            ) => after_previous(updates, uuid, queued, stored_key, previous, latest),
            (
                ProfileTask::Fetch { queued, .. },
                ProfileEvent::Fetched { profile: Some(profile) },
            ) => match updates.coalesce_current_profile_update(uuid, queued) {
                Some(queued) => ProfileTask::LoadStored { queued, profile },
                None => ProfileTask::Done,
            },
            (
                ProfileTask::LoadStored { queued, profile },
                ProfileEvent::StoredLoaded { previous },
            ) => match updates.coalesce_current_profile_update(uuid, queued) {
                Some(queued) => ProfileTask::SaveProfile { queued, profile, previous },
                None => ProfileTask::Done,
            },
            (
                ProfileTask::SaveProfile { queued, profile, previous },
                ProfileEvent::ProfileSaved { latest },
            ) => {
                let contact = merge_profile_contact(
                    uuid,
                    latest,
                    previous.as_ref(),
                    &profile,
                    queued.update.profile_key,
                    queued.update.expire_timer,
                    queued.update.expire_timer_version,
                );
                ProfileTask::SaveContact { contact }
            },
            _ => ProfileTask::Done,
        }
    }
}

/// Goes on from what is stored.
fn after_previous(
    updates: &mut ContactUpdateCoordinator,
    uuid: u128,
    queued: QueuedContactProfileUpdate,
    stored_key: Option<ProfileKey>,
    previous: Option<Profile>,
    latest: Option<Contact>,
) -> (next: ProfileTask)
    requires
        old(updates).wf(),
    ensures
        final(updates).wf(),
        final(updates).lock_count() == old(updates).lock_count(),
        ({
            let task = ProfileTask::LoadPrevious { queued, stored_key };
            let event = ProfileEvent::PreviousLoaded { previous, latest };
            &&& final(updates)@ == task.updates_after(old(updates)@, uuid, event)
            &&& task.leads_to(old(updates)@, uuid, event, next)
            &&& next.steps_left() < 5
        }),
{
    let unchanged = match &stored_key {
        Some(key) => same_key(&key.bytes, &queued.update.profile_key.bytes),
        None => false,
    };
    if unchanged {
        if let Some(profile) = &previous {
            if let Some(contact) = &latest {
                let name = profile_display_name(profile);
                if contact.name.as_str().is_empty() && name.as_str().is_empty() && same_bytes(
                    contact.profile_key.as_slice(),
                    &queued.update.profile_key.bytes,
                ) {
                    return ProfileTask::Done;
                }
            }
            return match updates.coalesce_current_profile_update(uuid, queued) {
                Some(current) => {
                    let contact = merge_profile_contact(
                        uuid,
                        latest,
                        previous.as_ref(),
                        profile,
                        current.update.profile_key,
                        current.update.expire_timer,
                        current.update.expire_timer_version,
                    );
                    ProfileTask::SaveContact { contact }
                },
                None => ProfileTask::Done,
            };
        }
        if let Some(contact) = latest {
            if !contact.name.as_str().is_empty() {
                return match updates.coalesce_current_profile_update(uuid, queued) {
                    Some(_) => {
                        let mut contact = contact;
                        contact.profile_key = copy_bytes(&queued.update.profile_key.bytes);
                        ProfileTask::SaveContact { contact }
                    },
                    None => ProfileTask::Done,
                };
            }
        }
    }
    match queued.update.sender.aci() {
        Some(aci) => ProfileTask::Fetch { queued, aci },
        None => ProfileTask::Done,
    }
}

/// Whether an update has the newest key of a contact.
pub open spec fn has_latest_key(
    updates: ContactUpdates,
    uuid: u128,
    queued: QueuedContactProfileUpdate,
) -> bool {
    &&& updates.latest.contains_key(uuid)
    &&& updates.latest[uuid].profile_key == queued.update.profile_key.bytes
}

/// Whether the contact's lock is held while a task waits for its event.
pub open spec fn holds_lock(task: ProfileTask) -> bool {
    !(task is Fetch || task is Done)
}

/// What holds of a task at any time: a profile is about to be saved only under the newest key of
/// its contact, and a contact only with that key.
pub open spec fn saves_latest_key(task: ProfileTask, updates: ContactUpdates, uuid: u128) -> bool {
    &&& task matches ProfileTask::SaveProfile { queued, .. } ==> has_latest_key(
        updates,
        uuid,
        queued,
    )
    &&& task matches ProfileTask::SaveContact { contact } ==> {
        &&& updates.latest.contains_key(uuid)
        &&& contact.profile_key@ == updates.latest[uuid].profile_key@
    }
}

/// Whatever a task goes through, it saves a profile only under the newest key of its contact, and a
/// contact only with that key. It holds at the start, it stays so when the task goes on, and it
/// stays so when other updates are observed, which for the same contact takes the lock.
pub proof fn law_only_the_latest_key_is_saved(
    updates: ContactUpdates,
    uuid: u128,
    task: ProfileTask,
    event: ProfileEvent,
    next: ProfileTask,
    observed: u128,
    update: crate::coordinator::ContactProfileUpdate,
    queued: QueuedContactProfileUpdate,
)
    requires
        updates.valid(),
        saves_latest_key(task, updates, uuid),
    ensures
        saves_latest_key(ProfileTask::LoadContact { queued }, updates, uuid),
        task.expects(event) && task.leads_to(updates, uuid, event, next) ==> {
            &&& task.updates_after(updates, uuid, event).valid()
            &&& saves_latest_key(next, task.updates_after(updates, uuid, event), uuid)
        },
        observed != uuid || !holds_lock(task) ==> saves_latest_key(
            task,
            updates.enqueued(observed, update),
            uuid,
        ),
        updates.sequence < u64::MAX ==> updates.enqueued(observed, update).valid(),
        saves_latest_key(task, updates.taken(observed), uuid),
        saves_latest_key(task, updates.coalesced(observed, queued), uuid),
{
    match task.exchanges(event) {
        Some(exchanged) => {
            crate::coordinator::law_current_update_has_latest_key(updates, uuid, exchanged);
        },
        None => {},
    }
}

/// A superseded update saves nothing: where the update is exchanged and another key has come, the
/// task ends.
pub proof fn law_superseded_update_saves_nothing(
    updates: ContactUpdates,
    uuid: u128,
    task: ProfileTask,
    event: ProfileEvent,
    next: ProfileTask,
)
    requires
        task.expects(event),
        task.leads_to(updates, uuid, event, next),
        task.exchanges(event) matches Some(queued) && updates.current(uuid, queued) is None,
    ensures
        next is Done,
{
}

/// Nothing is saved before the update was exchanged: a task that saves a contact or a profile comes
/// from one that exchanged its update in that step, or from saving the profile.
pub proof fn law_nothing_is_saved_unchecked(
    updates: ContactUpdates,
    uuid: u128,
    task: ProfileTask,
    event: ProfileEvent,
    next: ProfileTask,
)
    requires
        task.expects(event),
        task.leads_to(updates, uuid, event, next),
        next is SaveProfile || next is SaveContact,
    ensures
        task is SaveProfile || (task.exchanges(event) matches Some(queued) && updates.current(
            uuid,
            queued,
        ) is Some),
{
}

/// Along a run that fetches a profile, the contact that is saved has the fetched profile and the key
/// with which it was saved. A contact that is stored by then gets the name that the fetched profile
/// displays if it had none, or if it has no phone number and its name is the one that its stored
/// profile, which was read before saving, displayed; any other name stays, and so does all else of the
/// contact. One that is not stored is made from the profile, with the timer of the update.
pub proof fn law_fetched_profile_renames_its_contact(
    queued: QueuedContactProfileUpdate,
    aci: u128,
    uuid: u128,
    profile: Profile,
    previous: Option<Profile>,
    latest: Option<Contact>,
    at_fetch: &mut ContactUpdateCoordinator,
    at_load: &mut ContactUpdateCoordinator,
    at_save: &mut ContactUpdateCoordinator,
    fetched: ProfileTask,
    loaded: ProfileTask,
    saved: ProfileTask,
)
    requires
        call_ensures(
            ProfileTask::step,
            (
                ProfileTask::Fetch { queued, aci },
                at_fetch,
                uuid,
                ProfileEvent::Fetched { profile: Some(profile) },
            ),
            fetched,
        ),
        fetched is LoadStored,
        call_ensures(
            ProfileTask::step,
            (fetched, at_load, uuid, ProfileEvent::StoredLoaded { previous }),
            loaded,
        ),
        loaded is SaveProfile,
        call_ensures(
            ProfileTask::step,
            (loaded, at_save, uuid, ProfileEvent::ProfileSaved { latest }),
            saved,
        ),
    ensures
        loaded matches ProfileTask::SaveProfile { queued: current, profile: p, previous: q } && {
            &&& p == profile
            &&& q == previous
            &&& saved matches ProfileTask::SaveContact { contact } && {
                let new_name = match profile.name {
                    Some(name) => name@,
                    None => Seq::empty(),
                };
                &&& contact.profile_key@ == current.update.profile_key.bytes@
                &&& match latest {
                    Some(known) => {
                        let from_profile = known.phone_number is None && match previous {
                            Some(Profile { name: Some(name), .. }) => known.name@ == name@,
                            Some(Profile { name: None, .. }) => known.name@.len() == 0,
                            None => false,
                        };
                        &&& known.name@.len() == 0 || from_profile ==> contact.name@ == new_name
                        &&& known.name@.len() > 0 && !from_profile ==> contact.name@ == known.name@
                        &&& contact.uuid == known.uuid
                        &&& contact.phone_number == known.phone_number
                        &&& contact.verified == known.verified
                        &&& contact.expire_timer == known.expire_timer
                        &&& contact.expire_timer_version == known.expire_timer_version
                        &&& contact.inbox_position == known.inbox_position
                        &&& contact.avatar == known.avatar
                    },
                    None => {
                        &&& contact.uuid == uuid
                        &&& contact.name@ == new_name
                        &&& contact.phone_number is None
                        &&& contact.expire_timer == current.update.expire_timer
                        &&& contact.expire_timer_version == current.update.expire_timer_version
                        &&& contact.inbox_position == 0
                        &&& contact.avatar is None
                        &&& contact.verified.destination_aci is None
                        &&& contact.verified.identity_key is None
                        &&& contact.verified.state is None
                        &&& contact.verified.null_message is None
                    },
                }
            }
        },
        final(at_save)@ == old(at_save)@,
{
    if let Some(known) = latest {
        assert(known.name@.len() == 0 ==> known.name@ =~= Seq::empty());
    }
}

/// A task begins with the newest update of the contact, if it has the key of the one that was taken,
/// and goes on with that after every wait: after the profile was fetched and after the stored one was
/// read. Without such an update it ends. The update that is carried out waits no more.
pub proof fn law_task_goes_on_with_the_newest_update(
    queued: QueuedContactProfileUpdate,
    aci: u128,
    uuid: u128,
    profile: Profile,
    previous: Option<Profile>,
    exchanging: &mut ContactUpdateCoordinator,
    beginning: &mut ContactUpdateCoordinator,
    fetching: &mut ContactUpdateCoordinator,
    loading: &mut ContactUpdateCoordinator,
    current: Option<QueuedContactProfileUpdate>,
    begun: ProfileTask,
    fetched: ProfileTask,
    loaded: ProfileTask,
)
    requires
        call_ensures(
            ContactUpdateCoordinator::coalesce_current_profile_update,
            (exchanging, uuid, queued),
            current,
        ),
        *old(beginning) == *old(exchanging),
        *old(fetching) == *old(exchanging),
        *old(loading) == *old(exchanging),
        call_ensures(ProfileTask::begin, (beginning, uuid, queued), begun),
        call_ensures(
            ProfileTask::step,
            (
                ProfileTask::Fetch { queued, aci },
                fetching,
                uuid,
                ProfileEvent::Fetched { profile: Some(profile) },
            ),
            fetched,
        ),
        call_ensures(
            ProfileTask::step,
            (
                ProfileTask::LoadStored { queued, profile },
                loading,
                uuid,
                ProfileEvent::StoredLoaded { previous },
            ),
            loaded,
        ),
    ensures
        match current {
            Some(newest) => {
                &&& begun == (ProfileTask::LoadContact { queued: newest })
                &&& fetched == (ProfileTask::LoadStored { queued: newest, profile })
                &&& loaded == (ProfileTask::SaveProfile { queued: newest, profile, previous })
            },
            None => begun is Done && fetched is Done && loaded is Done,
        },
        final(beginning)@ == final(exchanging)@,
        final(fetching)@ == final(exchanging)@,
        final(loading)@ == final(exchanging)@,
{
}

/// A contact is left alone exactly if it has a name and the key, and the key is the stored one. Its
/// updates stay as they are while it is read.
pub proof fn law_up_to_date_contact_is_left_alone(
    queued: QueuedContactProfileUpdate,
    updates: &mut ContactUpdateCoordinator,
    uuid: u128,
    existing: Option<Contact>,
    stored_key: Option<ProfileKey>,
    next: ProfileTask,
)
    requires
        call_ensures(
            ProfileTask::step,
            (
                ProfileTask::LoadContact { queued },
                updates,
                uuid,
                ProfileEvent::ContactLoaded { existing, stored_key },
            ),
            next,
        ),
    ensures
        final(updates)@ == old(updates)@,
        next is Done <==> (existing is Some && existing->0.name@.len() > 0
            && existing->0.profile_key@ == queued.update.profile_key.bytes@ && stored_key is Some
            && stored_key->0.bytes == queued.update.profile_key.bytes),
        !(next is Done) ==> next == (ProfileTask::LoadPrevious { queued, stored_key }),
{
}

/// The profile of an account is fetched with another key than the stored one, or if no profile is
/// stored for the key and the contact is without a name. With a profile stored for the key, the
/// contact is merged with it for the newest update, unless neither has a name and the contact has the
/// key; with none, a contact that has a name gets the key and stays as it is otherwise.
pub proof fn law_stored_profile_is_used_before_fetching(
    queued: QueuedContactProfileUpdate,
    stored_key: Option<ProfileKey>,
    previous: Option<Profile>,
    latest: Option<Contact>,
    updates: &mut ContactUpdateCoordinator,
    exchanging: &mut ContactUpdateCoordinator,
    uuid: u128,
    current: Option<QueuedContactProfileUpdate>,
    next: ProfileTask,
)
    requires
        call_ensures(
            ProfileTask::step,
            (
                ProfileTask::LoadPrevious { queued, stored_key },
                updates,
                uuid,
                ProfileEvent::PreviousLoaded { previous, latest },
            ),
            next,
        ),
        *old(exchanging) == *old(updates),
        call_ensures(
            ContactUpdateCoordinator::coalesce_current_profile_update,
            (exchanging, uuid, queued),
            current,
        ),
    ensures
        ({
            let known = stored_key is Some && stored_key->0.bytes
                == queued.update.profile_key.bytes;
            let has_name = latest is Some && latest->0.name@.len() > 0;
            let displayed = match previous {
                Some(Profile { name: Some(name), .. }) => name@,
                _ => Seq::empty(),
            };
            if !known || (previous is None && !has_name) {
                &&& final(updates)@ == old(updates)@
                &&& match queued.update.sender {
                    ServiceId::Aci(aci) => next == (ProfileTask::Fetch { queued, aci }),
                    ServiceId::Pni(_) => next is Done,
                }
            } else if previous is Some && latest is Some && !has_name && displayed.len() == 0
                && latest->0.profile_key@ == queued.update.profile_key.bytes@ {
                next is Done && final(updates)@ == old(updates)@
            } else {
                &&& final(updates)@ == final(exchanging)@
                &&& current is None ==> next is Done
                &&& current matches Some(newest) ==> (next matches ProfileTask::SaveContact {
                    contact,
                } && {
                    &&& previous is None ==> {
                        &&& contact.name == latest->0.name
                        &&& contact.profile_key@ == queued.update.profile_key.bytes@
                    }
                    &&& previous is Some ==> contact.profile_key@
                        == newest.update.profile_key.bytes@
                    &&& previous is Some && has_name ==> contact.name@ == latest->0.name@
                    &&& previous is Some && !has_name ==> contact.name@ == displayed
                    &&& latest matches Some(known) ==> {
                        &&& contact.uuid == known.uuid
                        &&& contact.phone_number == known.phone_number
                        &&& contact.verified == known.verified
                        &&& contact.expire_timer == known.expire_timer
                        &&& contact.expire_timer_version == known.expire_timer_version
                        &&& contact.inbox_position == known.inbox_position
                        &&& contact.avatar == known.avatar
                    }
                    &&& latest is None ==> {
                        &&& contact.uuid == uuid
                        &&& contact.phone_number is None
                        &&& contact.expire_timer == newest.update.expire_timer
                        &&& contact.expire_timer_version == newest.update.expire_timer_version
                        &&& contact.inbox_position == 0
                        &&& contact.avatar is None
                        &&& contact.verified.destination_aci is None
                        &&& contact.verified.identity_key is None
                        &&& contact.verified.state is None
                        &&& contact.verified.null_message is None
                    }
                })
            }
        }),
{
}

/// Whatever failed, and whatever came of saving the contact, the task is over, and the updates are as
/// they were. So it is when a profile did not come in time.
pub proof fn law_failed_task_is_over(
    task: ProfileTask,
    updates: &mut ContactUpdateCoordinator,
    uuid: u128,
    event: ProfileEvent,
    next: ProfileTask,
)
    requires
        call_ensures(ProfileTask::step, (task, updates, uuid, event), next),
        event is Failed || event is ContactSaved || event == (ProfileEvent::Fetched {
            profile: None,
        }),
    ensures
        next is Done,
        final(updates)@ == old(updates)@,
{
}

} // verus!
