//! Profiles, pictures and titles that are read from the store or fetched.

use vstd::prelude::*;

use crate::bytes::key_from_bytes;
use crate::contacts::{Contact, Profile};
use crate::content::GroupContextV2;
use crate::groups::{Group, GroupMasterKeyBytes};
use crate::receive::bytes_or_empty;
use crate::registration::{Manager, ProfileKey, Registered};

verus! {

/// How to come by a profile.
#[derive(Clone, Debug)]
pub enum ProfileSource<P> {
    /// It is stored.
    Stored(P),
    /// It is to be fetched, and then stored; that it cannot be stored is no failure.
    Fetch,
}

/// How to come by the picture of a group.
#[derive(Clone, Debug)]
pub enum GroupAvatarSource {
    /// It is stored.
    Stored(Vec<u8>),
    /// The group is to be brought up to a revision, and tells where its picture is.
    Upsert { master_key: GroupMasterKeyBytes, revision: u32 },
}

/// How to come by the picture of a profile.
#[derive(Clone, Debug)]
pub enum ProfileAvatarSource {
    /// It is stored.
    Stored(Vec<u8>),
    /// The stored profile has none.
    NoAvatar,
    /// It is at this path.
    Download(String),
    /// The profile is to be fetched, and tells where its picture is.
    FetchProfile,
}

/// Something with a title, as far as it is stored.
#[derive(Clone, Debug)]
pub enum StoredThread<D> {
    /// A contact, and the text of its identity.
    Contact { contact: Option<Contact>, service_id: String },
    Group(Option<Group<D>>),
}

/// Where the picture of a profile is, if it has one.
pub fn profile_avatar_path(profile: Profile) -> (source: ProfileAvatarSource)
    ensures
        source == match profile.avatar {
            Some(path) => ProfileAvatarSource::Download(path),
            None => ProfileAvatarSource::NoAvatar,
        },
{
    match profile.avatar {
        Some(path) => ProfileAvatarSource::Download(path),
        None => ProfileAvatarSource::NoAvatar,
    }
}

/// The phone numbers to look up: those that are valid, in their order. Each number is given in
/// international form, if it has one.
pub open spec fn valid_numbers(numbers: Seq<Option<String>>) -> Seq<String>
    decreases numbers.len(),
{
    if numbers.len() == 0 {
        Seq::empty()
    } else {
        match numbers.last() {
            Some(number) => valid_numbers(numbers.drop_last()).push(number),
            None => valid_numbers(numbers.drop_last()),
        }
    }
}

impl<S> Manager<S, Registered> {
    /// Whose profile is that of the registered user, and its key.
    pub fn retrieve_profile(&self) -> (own: (u128, ProfileKey))
        ensures
            own.0 == self.state.data.service_ids.aci,
            own.1 == self.state.data.profile_key,
    {
        (self.state.data.service_ids.aci, self.state.data.profile_key)
    }

    /// Decides how to come by the profile of an account. `stored` is the stored one for the key, if
    /// it could be read.
    pub fn retrieve_profile_by_uuid<P>(&self, stored: Option<P>) -> (source: ProfileSource<P>)
        ensures
            source == match stored {
                Some(profile) => ProfileSource::Stored(profile),
                None => ProfileSource::Fetch,
            },
    {
        match stored {
            Some(profile) => ProfileSource::Stored(profile),
            None => ProfileSource::Fetch,
        }
    }

    /// Decides how to come by the picture of a group. `stored` is the stored one, if it could be
    /// read.
    pub fn retrieve_group_avatar(&self, context: &GroupContextV2, stored: Option<Vec<u8>>) -> (
    source: GroupAvatarSource)
        requires
            bytes_or_empty(context.master_key).len() == 32,
        ensures
            match stored {
                Some(picture) => source == GroupAvatarSource::Stored(picture),
                None => source matches GroupAvatarSource::Upsert { master_key, revision } && {
                    &&& master_key@ == bytes_or_empty(context.master_key)
                    &&& revision == context.revision.unwrap_or(0)
                },
            },
    {
        match stored {
            Some(picture) => GroupAvatarSource::Stored(picture),
            None => {
                let master_key = match &context.master_key {
                    Some(bytes) => key_from_bytes(bytes.as_slice()).unwrap(),
                    None => [0u8; 32],
                };
                GroupAvatarSource::Upsert { master_key, revision: context.revision.unwrap_or(0) }
            },
        }
    }

    /// Decides how to come by the picture of a profile. `avatar` is the stored one and `profile`
    /// the stored profile, each if it could be read.
    pub fn retrieve_profile_avatar_by_uuid(
        &self,
        avatar: Option<Vec<u8>>,
        profile: Option<Profile>,
    ) -> (source: ProfileAvatarSource)
        ensures
            source == match (avatar, profile) {
                (Some(picture), _) => ProfileAvatarSource::Stored(picture),
                (None, Some(p)) => match p.avatar {
                    Some(path) => ProfileAvatarSource::Download(path),
                    None => ProfileAvatarSource::NoAvatar,
                },
                (None, None) => ProfileAvatarSource::FetchProfile,
            },
    {
        match avatar {
            Some(picture) => ProfileAvatarSource::Stored(picture),
            None => match profile {
                Some(profile) => profile_avatar_path(profile),
                None => ProfileAvatarSource::FetchProfile,
            },
        }
    }

    /// Returns the title of a thread (contact or group): the contact's name, or else its identity;
    /// the group's title, or else nothing.
    pub fn thread_title<D>(&self, thread: StoredThread<D>) -> (title: String)
        ensures
            match thread {
                StoredThread::Contact { contact: Some(contact), .. } => title == contact.name,
                StoredThread::Contact { contact: None, service_id } => title == service_id,
                StoredThread::Group(Some(group)) => title == group.title,
                StoredThread::Group(None) => title@ == ""@,
            },
    {
        match thread {
            StoredThread::Contact { contact: Some(contact), .. } => contact.name,
            StoredThread::Contact { contact: None, service_id } => service_id,
            StoredThread::Group(Some(group)) => group.title,
            StoredThread::Group(None) => "".to_owned(),
        }
    }

    /// The phone numbers to look up: those that are valid, in their order.
    pub fn discover_contacts_by_phone_number(&self, numbers: Vec<Option<String>>) -> (valid: Vec<
        String,
    >)
        ensures
            valid@ == valid_numbers(numbers@),
    {
        let ghost all = numbers@;
        let mut valid: Vec<String> = Vec::new();
        for number in iter: numbers
            invariant
                iter.seq() == all,
                valid@ == valid_numbers(all.take(iter.index() as int)),
        {
            proof {
                let taken = all.take(iter.index() as int + 1);
                assert(taken.drop_last() =~= all.take(iter.index() as int));
                assert(taken.last() == number);
            }
            if let Some(number) = number {
                valid.push(number);
            }
        }
        proof {
            assert(all.take(all.len() as int) =~= all);
        }
        valid
    }
}

/// The phone numbers that are looked up are exactly the valid ones, each as often as it was given: the
/// `k`-th is the number at the `k`-th of the places, which rise and leave out no valid one.
pub proof fn law_every_valid_number_is_looked_up<S>(
    manager: &Manager<S, Registered>,
    numbers: Vec<Option<String>>,
    valid: Vec<String>,
) -> (places: Seq<int>)
    requires
        call_ensures(
            Manager::<S, Registered>::discover_contacts_by_phone_number,
            (manager, numbers),
            valid,
        ),
    ensures
        places.len() == valid@.len(),
        forall|k: int|
            #![trigger places[k]]
            #![trigger valid@[k]]
            0 <= k < places.len() ==> 0 <= places[k] < numbers@.len() && numbers@[places[k]]
                == Some(valid@[k]),
        forall|j: int, k: int|
            #![trigger places[j], places[k]]
            0 <= j < k < places.len() ==> places[j] < places[k],
        forall|i: int|
            0 <= i < numbers@.len() && (#[trigger] numbers@[i]) is Some ==> places.contains(i),
{
    lemma_valid_places(numbers@)
}

/// Where the valid numbers stand.
proof fn lemma_valid_places(numbers: Seq<Option<String>>) -> (places: Seq<int>)
    ensures
        places.len() == valid_numbers(numbers).len(),
        forall|k: int|
            #![trigger places[k]]
            #![trigger valid_numbers(numbers)[k]]
            0 <= k < places.len() ==> 0 <= places[k] < numbers.len() && numbers[places[k]] == Some(
                valid_numbers(numbers)[k],
            ),
        forall|j: int, k: int|
            #![trigger places[j], places[k]]
            0 <= j < k < places.len() ==> places[j] < places[k],
        forall|i: int|
            0 <= i < numbers.len() && (#[trigger] numbers[i]) is Some ==> places.contains(i),
    decreases numbers.len(),
{
    if numbers.len() == 0 {
        Seq::empty()
    } else {
        let start = numbers.drop_last();
        let last = numbers.len() - 1;
        let before = lemma_valid_places(start);
        let places = if numbers.last() is Some {
            before.push(last)
        } else {
            before
        };
        assert forall|k: int|
            #![trigger places[k]]
            #![trigger valid_numbers(numbers)[k]]
            0 <= k < places.len() implies 0 <= places[k] < numbers.len() && numbers[places[k]]
            == Some(valid_numbers(numbers)[k]) by {
            if k < before.len() {
                assert(places[k] == before[k]);
                assert(start[before[k]] == numbers[before[k]]);
            }
        }
        assert forall|i: int|
            0 <= i < numbers.len() && (#[trigger] numbers[i]) is Some implies places.contains(i) by {
            if i < last {
                assert(start[i] == numbers[i]);
                let k = choose|k: int| 0 <= k < before.len() && before[k] == i;
                assert(places[k] == i);
            } else {
                assert(places[before.len() as int] == i);
            }
        }
        places
    }
}

/// A thread of a contact has the contact's name as its title, or else the text of its identity; that
/// of a group has the group's title, and none while the group is not known.
pub proof fn law_threads_are_titled_by_what_is_stored<S, D>(
    manager: &Manager<S, Registered>,
    contact: Contact,
    service_id: String,
    group: Group<D>,
    of_contact: String,
    of_stranger: String,
    of_group: String,
    of_unknown: String,
)
    requires
        call_ensures(
            Manager::<S, Registered>::thread_title::<D>,
            (manager, StoredThread::<D>::Contact { contact: Some(contact), service_id }),
            of_contact,
        ),
        call_ensures(
            Manager::<S, Registered>::thread_title::<D>,
            (manager, StoredThread::<D>::Contact { contact: None, service_id }),
            of_stranger,
        ),
        call_ensures(
            Manager::<S, Registered>::thread_title::<D>,
            (manager, StoredThread::Group(Some(group))),
            of_group,
        ),
        call_ensures(
            Manager::<S, Registered>::thread_title::<D>,
            (manager, StoredThread::<D>::Group(None)),
            of_unknown,
        ),
    ensures
        of_contact == contact.name,
        of_stranger == service_id,
        of_group == group.title,
        of_unknown@.len() == 0,
{
    reveal_strlit("");
}

/// What is stored of a profile, of its picture or of a group's picture is used before anything is
/// fetched. A stored profile tells where its picture is, or that it has none; a group's picture is
/// asked of the group that the message names, at the revision that it tells.
pub proof fn law_stored_pictures_and_profiles_are_used<S, P>(
    manager: &Manager<S, Registered>,
    stored: Option<P>,
    context: &GroupContextV2,
    picture: Option<Vec<u8>>,
    profile: Option<Profile>,
    source: ProfileSource<P>,
    of_group: GroupAvatarSource,
    of_profile: ProfileAvatarSource,
)
    requires
        call_ensures(
            Manager::<S, Registered>::retrieve_profile_by_uuid::<P>,
            (manager, stored),
            source,
        ),
        call_ensures(
            Manager::<S, Registered>::retrieve_group_avatar,
            (manager, context, picture),
            of_group,
        ),
        call_ensures(
            Manager::<S, Registered>::retrieve_profile_avatar_by_uuid,
            (manager, picture, profile),
            of_profile,
        ),
        context.master_key is Some && context.master_key->0@.len() == 32,
    ensures
        stored matches Some(p) ==> source == ProfileSource::Stored(p),
        stored is None ==> source is Fetch,
        picture matches Some(bytes) ==> of_group == GroupAvatarSource::Stored(bytes) && of_profile
            == ProfileAvatarSource::Stored(bytes),
        picture is None ==> (of_group matches GroupAvatarSource::Upsert { master_key, revision } && {
            &&& master_key@ == context.master_key->0@
            &&& revision == match context.revision {
                Some(told) => told,
                None => 0,
            }
        }),
        picture is None ==> match profile {
            Some(Profile { avatar: Some(path), .. }) => of_profile == ProfileAvatarSource::Download(
                path,
            ),
            Some(Profile { avatar: None, .. }) => of_profile is NoAvatar,
            None => of_profile is FetchProfile,
        },
{
}

/// The profile of the registered user is that of its account, under its own key.
pub proof fn law_own_profile_has_the_own_key<S>(
    manager: &Manager<S, Registered>,
    own: (u128, ProfileKey),
)
    requires
        call_ensures(Manager::<S, Registered>::retrieve_profile, (manager,), own),
    ensures
        own.0 == manager.state.data.service_ids.aci,
        own.1.bytes == manager.state.data.profile_key.bytes,
{
}

} // verus!
