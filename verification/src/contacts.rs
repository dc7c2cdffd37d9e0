//! Contacts, and how what is known of them is merged.

use vstd::prelude::*;

use crate::bytes::{big_endian, copy_bytes, same_bytes, same_text, uuid_bytes};
use crate::registration::ProfileKey;
use crate::text::{uuid_text, uuid_text_of};

verus! {

/// What is known of the verification of a contact's identity.
#[derive(Clone, Debug, PartialEq)]
pub struct Verified {
    pub destination_aci: Option<String>,
    pub identity_key: Option<Vec<u8>>,
    pub state: Option<i32>,
    pub null_message: Option<Vec<u8>>,
}

impl Default for Verified {
    fn default() -> (verified: Self)
        ensures
            verified.is_unknown(),
    {
        Verified { destination_aci: None, identity_key: None, state: None, null_message: None }
    }
}

impl Verified {
    /// Whether nothing is known.
    pub open spec fn is_unknown(self) -> bool {
        &&& self.destination_aci is None
        &&& self.identity_key is None
        &&& self.state is None
        &&& self.null_message is None
    }
}

/// A picture.
#[derive(Clone, Debug, PartialEq)]
pub struct Attachment {
    pub content_type: String,
    pub reader: Vec<u8>,
}

/// A contact.
#[derive(Clone, Debug)]
pub struct Contact {
    pub uuid: u128,
    pub phone_number: Option<String>,
    pub name: String,
    pub verified: Verified,
    pub profile_key: Vec<u8>,
    pub expire_timer: u32,
    pub expire_timer_version: u32,
    pub inbox_position: u32,
    pub avatar: Option<Attachment>,
}

/// The profile that an account shares with those who know its key.
#[derive(Clone, Debug)]
pub struct Profile {
    /// The account's full name as it is displayed.
    pub name: Option<String>,
    /// The path of the account's picture.
    pub avatar: Option<String>,
}

impl Profile {
    /// The name that a profile displays; empty when it has none.
    pub open spec fn displayed(self) -> Seq<char> {
        match self.name {
            Some(name) => name@,
            None => Seq::empty(),
        }
    }
}

/// The name that a profile displays; empty when it has none.
pub fn profile_display_name(profile: &Profile) -> (name: String)
    ensures
        name@ == profile.displayed(),
{
    match &profile.name {
        Some(name) => name.clone(),
        None => {
            proof {
                reveal_strlit("");
                assert(""@ =~= Seq::<char>::empty());
            }
            "".to_owned()
        },
    }
}

impl Contact {
    /// Whether a contact of this name could only come from a profile: it has no phone number, and
    /// its key is the known one.
    pub open spec fn is_profile_named(self, stored_profile_key: Option<ProfileKey>) -> bool {
        &&& self.phone_number is None
        &&& stored_profile_key matches Some(key) && self.profile_key@ == key.bytes@
    }

    /// Whether this contact and another differ in nothing but name, verification and profile key.
    pub open spec fn same_otherwise(self, other: Self) -> bool {
        &&& self.uuid == other.uuid
        &&& self.phone_number == other.phone_number
        &&& self.expire_timer == other.expire_timer
        &&& self.expire_timer_version == other.expire_timer_version
        &&& self.inbox_position == other.inbox_position
        &&& self.avatar == other.avatar
    }
}

/// The name of a synchronized contact after merging: its own, or else that of the profile, or else,
/// while no profile is known, the name that the contact had from one.
pub open spec fn synchronized_name(
    synchronized: Contact,
    existing: Option<Contact>,
    stored_profile_key: Option<ProfileKey>,
    stored_profile: Option<Profile>,
) -> Seq<char> {
    if synchronized.name@.len() > 0 {
        synchronized.name@
    } else {
        match (stored_profile, existing) {
            (Some(profile), _) => profile.displayed(),
            (None, Some(contact)) => if contact.is_profile_named(stored_profile_key) {
                contact.name@
            } else {
                Seq::empty()
            },
            (None, None) => Seq::empty(),
        }
    }
}

/// The profile key of a synchronized contact after merging: the known one, or else the one that
/// the contact had, if it is a key at all.
pub open spec fn synchronized_key(
    existing: Option<Contact>,
    stored_profile_key: Option<ProfileKey>,
) -> Seq<u8> {
    match (stored_profile_key, existing) {
        (Some(key), _) => key.bytes@,
        (None, Some(contact)) => if contact.profile_key@.len() == 32 {
            contact.profile_key@
        } else {
            Seq::empty()
        },
        (None, None) => Seq::empty(),
    }
}

/// Merges a contact that the primary device synchronized with what is stored.
///
/// The synchronized contact decides over everything but the verification, the profile key, and a
/// name that it leaves empty.
pub fn merge_synchronized_contact(
    synchronized: Contact,
    existing: Option<Contact>,
    stored_profile_key: Option<ProfileKey>,
    stored_profile: Option<&Profile>,
) -> (merged: Contact)
    ensures
        is_synchronized_merge(
            merged,
            synchronized,
            existing,
            stored_profile_key,
            match stored_profile {
                Some(profile) => Some(*profile),
                None => None,
            },
        ),
{
    let mut merged = synchronized;
    if merged.name.as_str().is_empty() {
        match stored_profile {
            Some(profile) => {
                merged.name = profile_display_name(profile);
            },
            None => {
                if let Some(contact) = &existing {
                    if contact.phone_number.is_none() {
                        if let Some(key) = &stored_profile_key {
                            if same_bytes(contact.profile_key.as_slice(), &key.bytes) {
                                merged.name = contact.name.clone();
                            }
                        }
                    }
                }
            },
        }
    }
    merged.profile_key =
    match &stored_profile_key {
        Some(key) => copy_bytes(&key.bytes),
        None => match &existing {
            Some(contact) => {
                if contact.profile_key.len() == 32 {
                    copy_bytes(contact.profile_key.as_slice())
                } else {
                    Vec::new()
                }
            },
            None => Vec::new(),
        },
    };
    proof {
        let profile = match stored_profile {
            Some(profile) => Some(*profile),
            None => None,
        };
        assert(merged.name@ =~= synchronized_name(
            synchronized,
            existing,
            stored_profile_key,
            profile,
        ));
        assert(merged.profile_key@ =~= synchronized_key(existing, stored_profile_key));
    }
    if let Some(contact) = existing {
        merged.verified = contact.verified;
    }
    merged
}

/// How to go on with a contact that the primary device synchronized.
#[derive(Debug)]
pub enum SynchronizedContactStep {
    /// Read the profile of this key, and merge the contact with what is stored and with it.
    LoadProfile { synchronized: Contact, existing: Option<Contact>, profile_key: ProfileKey },
    /// Save the contact.
    Save(Contact),
}

/// Whether a contact is what merging a synchronized one with what is stored makes of it.
pub open spec fn is_synchronized_merge(
    merged: Contact,
    synchronized: Contact,
    existing: Option<Contact>,
    stored_profile_key: Option<ProfileKey>,
    stored_profile: Option<Profile>,
) -> bool {
    &&& merged.same_otherwise(synchronized)
    &&& merged.name@ == synchronized_name(
        synchronized,
        existing,
        stored_profile_key,
        stored_profile,
    )
    &&& merged.verified == match existing {
        Some(contact) => contact.verified,
        None => synchronized.verified,
    }
    &&& merged.profile_key@ == synchronized_key(existing, stored_profile_key)
}

/// Decides how to go on with a contact that the primary device synchronized. The contact's lock
/// must be held from before what is stored is read until the contact is saved. The profile is read
/// only if its name is needed.
pub fn save_synchronized_contact(
    synchronized: Contact,
    existing: Option<Contact>,
    stored_profile_key: Option<ProfileKey>,
) -> (step: SynchronizedContactStep)
    ensures
        match stored_profile_key {
            Some(profile_key) if synchronized.name@.len() == 0 => step
                == (SynchronizedContactStep::LoadProfile { synchronized, existing, profile_key }),
            _ => step matches SynchronizedContactStep::Save(merged) && is_synchronized_merge(
                merged,
                synchronized,
                existing,
                stored_profile_key,
                None,
            ),
        },
{
    if synchronized.name.as_str().is_empty() {
        if let Some(profile_key) = stored_profile_key {
            return SynchronizedContactStep::LoadProfile { synchronized, existing, profile_key };
        }
    }
    SynchronizedContactStep::Save(
        merge_synchronized_contact(synchronized, existing, stored_profile_key, None),
    )
}

/// Whether a contact must be updated for a profile key that a message tells: unless the key is the
/// stored one, and the contact is stored with a name and with that key.
pub fn needs_profile_contact_upsert(
    contact: Option<&Contact>,
    stored_profile_key: Option<&ProfileKey>,
    incoming_profile_key: &ProfileKey,
) -> (needed: bool)
    ensures
        needed == !{
            &&& stored_profile_key matches Some(key) && key.bytes == incoming_profile_key.bytes
            &&& contact matches Some(c) && c.name@.len() > 0 && c.profile_key@
                == incoming_profile_key.bytes@
        },
{
    match stored_profile_key {
        Some(key) => {
            if !crate::bytes::same_key(&key.bytes, &incoming_profile_key.bytes) {
                return true;
            }
        },
        None => {
            return true;
        },
    }
    match contact {
        Some(contact) => contact.name.as_str().is_empty() || !same_bytes(
            contact.profile_key.as_slice(),
            &incoming_profile_key.bytes,
        ),
        None => true,
    }
}

/// The name of a contact after its profile was read: that of the profile, unless the contact has a
/// name that is not from its profile.
pub open spec fn refreshed_name(
    existing: Contact,
    previous_profile: Option<Profile>,
    profile: Profile,
) -> Seq<char> {
    let profile_owned = existing.phone_number is None && (previous_profile matches Some(previous)
        && previous.displayed() == existing.name@);
    if existing.name@.len() == 0 || profile_owned {
        profile.displayed()
    } else {
        existing.name@
    }
}

/// Whether a contact is what merging with a profile makes of the stored one.
pub open spec fn is_profile_merge(
    merged: Contact,
    uuid: u128,
    existing: Option<Contact>,
    previous_profile: Option<Profile>,
    profile: Profile,
    profile_key: ProfileKey,
    new_contact_timer: u32,
    new_contact_timer_version: u32,
) -> bool {
    &&& merged.profile_key@ == profile_key.bytes@
    &&& match existing {
        Some(contact) => {
            &&& merged.same_otherwise(contact)
            &&& merged.verified == contact.verified
            &&& merged.name@ == refreshed_name(contact, previous_profile, profile)
        },
        None => {
            &&& merged.uuid == uuid
            &&& merged.phone_number is None
            &&& merged.name@ == profile.displayed()
            &&& merged.expire_timer == new_contact_timer
            &&& merged.expire_timer_version == new_contact_timer_version
            &&& merged.inbox_position == 0
            &&& merged.avatar is None
            &&& merged.verified.is_unknown()
        },
    }
}

/// Merges a contact with a profile that was read with its key. A contact that is not stored yet
/// gets the timer of the message that told the key.
pub fn merge_profile_contact(
    uuid: u128,
    existing: Option<Contact>,
    previous_profile: Option<&Profile>,
    profile: &Profile,
    profile_key: ProfileKey,
    new_contact_timer: u32,
    new_contact_timer_version: u32,
) -> (merged: Contact)
    ensures
        is_profile_merge(
            merged,
            uuid,
            existing,
            match previous_profile {
                Some(previous) => Some(*previous),
                None => None,
            },
            *profile,
            profile_key,
            new_contact_timer,
            new_contact_timer_version,
        ),
{
    let profile_name = profile_display_name(profile);
    match existing {
        Some(contact) => {
            let mut merged = contact;
            let profile_owned = match previous_profile {
                Some(previous) => {
                    let name = profile_display_name(previous);
                    merged.phone_number.is_none() && same_text(name.as_str(), merged.name.as_str())
                },
                None => false,
            };
            if merged.name.as_str().is_empty() || profile_owned {
                merged.name = profile_name;
            }
            merged.profile_key = copy_bytes(&profile_key.bytes);
            merged
        },
        None => Contact {
            uuid,
            phone_number: None,
            name: profile_name,
            profile_key: copy_bytes(&profile_key.bytes),
            expire_timer: new_contact_timer,
            expire_timer_version: new_contact_timer_version,
            inbox_position: 0,
            avatar: None,
            verified: Verified::default(),
        },
    }
}

/// What is told of a picture before its bytes.
#[derive(Clone, Debug)]
pub struct AvatarDetails {
    pub content_type: Option<String>,
    pub length: Option<u32>,
}

/// A contact as it is sent to the account's other devices.
#[derive(Clone, Debug)]
pub struct ContactDetails {
    pub number: Option<String>,
    pub aci: Option<String>,
    pub aci_binary: Option<Vec<u8>>,
    pub name: Option<String>,
    pub avatar: Option<AvatarDetails>,
    pub expire_timer: Option<u32>,
    pub expire_timer_version: Option<u32>,
    pub inbox_position: Option<u32>,
}

/// Whether details are those of a contact.
pub open spec fn details_describe(details: ContactDetails, contact: Contact) -> bool {
    &&& details.number == contact.phone_number
    &&& details.aci matches Some(aci) && aci@ == uuid_text_of(contact.uuid)
    &&& details.aci_binary matches Some(bytes) && bytes@ == big_endian(contact.uuid as nat, 16)
    &&& details.name == Some(contact.name)
    &&& details.avatar is Some <==> contact.avatar is Some
    &&& details.avatar matches Some(avatar) ==> {
        &&& avatar.content_type == Some(contact.avatar->0.content_type)
        &&& avatar.length == if contact.avatar->0.reader@.len() <= u32::MAX {
            Some(contact.avatar->0.reader@.len() as u32)
        } else {
            None
        }
    }
    &&& details.expire_timer == Some(contact.expire_timer)
    &&& details.expire_timer_version == Some(contact.expire_timer_version)
    &&& details.inbox_position is None
}

/// The details of a contact.
pub fn contact_details(contact: Contact) -> (details: ContactDetails)
    ensures
        details_describe(details, contact),
{
    let avatar = match contact.avatar {
        Some(avatar) => {
            let length: usize = avatar.reader.len();
            Some(
                AvatarDetails {
                    content_type: Some(avatar.content_type),
                    length: if length <= 0xffff_ffff {
                        Some(length as u32)
                    } else {
                        None
                    },
                },
            )
        },
        None => None,
    };
    ContactDetails {
        number: contact.phone_number,
        aci: Some(uuid_text(contact.uuid)),
        aci_binary: Some(uuid_bytes(contact.uuid)),
        name: Some(contact.name),
        avatar,
        expire_timer: Some(contact.expire_timer),
        expire_timer_version: Some(contact.expire_timer_version),
        inbox_position: None,
    }
}

/// The details of all contacts, in their order.
pub fn all_contact_details(contacts: Vec<Contact>) -> (details: Vec<ContactDetails>)
    ensures
        details@.len() == contacts@.len(),
        forall|i: int|
            0 <= i < details@.len() ==> details_describe(#[trigger] details@[i], contacts@[i]),
{
    let ghost all = contacts@;
    let mut details: Vec<ContactDetails> = Vec::new();
    for contact in iter: contacts
        invariant
            iter.seq() == all,
            details@.len() == iter.index(),
            forall|i: int|
                0 <= i < details@.len() ==> details_describe(#[trigger] details@[i], all[i]),
    {
        assert(contact == all[iter.index() as int]);
        details.push(contact_details(contact));
    }
    details
}

/// Synchronizing a contact never takes a name away: it is without one only if the synchronized
/// contact, its profile and, while no profile is known, the name it had from one are without one.
/// And it never takes away a key that is a key.
pub proof fn law_synchronization_keeps_names_and_keys(
    synchronized: Contact,
    existing: Contact,
    stored_profile_key: Option<ProfileKey>,
    stored_profile: Option<Profile>,
)
    ensures
        synchronized.name@.len() > 0 ==> synchronized_name(
            synchronized,
            Some(existing),
            stored_profile_key,
            stored_profile,
        ) == synchronized.name@,
        synchronized.name@.len() == 0 && (stored_profile matches Some(profile)
            && profile.displayed().len() > 0) ==> synchronized_name(
            synchronized,
            Some(existing),
            stored_profile_key,
            stored_profile,
        ).len() > 0,
        stored_profile is None && existing.is_profile_named(stored_profile_key)
            && existing.name@.len() > 0 ==> synchronized_name(
            synchronized,
            Some(existing),
            stored_profile_key,
            stored_profile,
        ).len() > 0,
        existing.profile_key@.len() == 32 || stored_profile_key is Some ==> synchronized_key(
            Some(existing),
            stored_profile_key,
        ).len() == 32,
        synchronized_key(Some(existing), stored_profile_key).len() == 0 || synchronized_key(
            Some(existing),
            stored_profile_key,
        ).len() == 32,
{
}

/// A profile matters to a synchronized contact only if the contact comes without a name, so that it
/// is read only then.
pub proof fn law_profile_matters_only_without_a_name(
    merged: Contact,
    synchronized: Contact,
    existing: Option<Contact>,
    stored_profile_key: Option<ProfileKey>,
    profile: Option<Profile>,
    other: Option<Profile>,
)
    requires
        synchronized.name@.len() > 0,
        is_synchronized_merge(merged, synchronized, existing, stored_profile_key, profile),
    ensures
        is_synchronized_merge(merged, synchronized, existing, stored_profile_key, other),
{
}

/// A name that a contact has from an address book is never replaced by that of a profile.
pub proof fn law_address_book_names_stay(
    existing: Contact,
    previous_profile: Option<Profile>,
    profile: Profile,
)
    requires
        existing.name@.len() > 0,
        existing.phone_number is Some || (previous_profile matches Some(previous)
            ==> previous.displayed() != existing.name@),
    ensures
        refreshed_name(existing, previous_profile, profile) == existing.name@,
{
}

/// After a contact was merged with a profile that has a name, it needs no other update for the
/// same key.
pub proof fn law_merged_contact_is_up_to_date(
    uuid: u128,
    existing: Option<Contact>,
    previous_profile: Option<&Profile>,
    profile: &Profile,
    profile_key: ProfileKey,
    timer: u32,
    version: u32,
    merged: Contact,
    needed: bool,
)
    requires
        profile.displayed().len() > 0,
        call_ensures(
            merge_profile_contact,
            (uuid, existing, previous_profile, profile, profile_key, timer, version),
            merged,
        ),
        call_ensures(
            needs_profile_contact_upsert,
            (Some(&merged), Some(&profile_key), &profile_key),
            needed,
        ),
    ensures
        !needed,
{
}

/// A synchronized contact is what the primary device says, except that it keeps the verification that
/// is stored here, has the profile key that is known here, and gets the name of its profile if it
/// comes without one. A name that it had from a profile stays until that profile is read; without a
/// phone number and with the known key it can be from nothing else.
pub proof fn law_synchronized_contact_is_completed(
    synchronized: Contact,
    existing: Option<Contact>,
    stored_profile_key: Option<ProfileKey>,
    stored_profile: Option<&Profile>,
    merged: Contact,
)
    requires
        call_ensures(
            merge_synchronized_contact,
            (synchronized, existing, stored_profile_key, stored_profile),
            merged,
        ),
    ensures
        merged.uuid == synchronized.uuid,
        merged.phone_number == synchronized.phone_number,
        merged.expire_timer == synchronized.expire_timer,
        merged.expire_timer_version == synchronized.expire_timer_version,
        merged.inbox_position == synchronized.inbox_position,
        merged.avatar == synchronized.avatar,
        existing matches Some(contact) ==> merged.verified == contact.verified,
        existing is None ==> merged.verified == synchronized.verified,
        synchronized.name@.len() > 0 ==> merged.name@ == synchronized.name@,
        synchronized.name@.len() == 0 ==> match (stored_profile, existing, stored_profile_key) {
            (Some(profile), _, _) => match profile.name {
                Some(name) => merged.name@ == name@,
                None => merged.name@.len() == 0,
            },
            (None, Some(contact), Some(key)) if contact.phone_number is None
                && contact.profile_key@ == key.bytes@ => merged.name@ == contact.name@,
            _ => merged.name@.len() == 0,
        },
        match (stored_profile_key, existing) {
            (Some(key), _) => merged.profile_key@ == key.bytes@,
            (None, Some(contact)) if contact.profile_key@.len() == 32 => merged.profile_key@
                == contact.profile_key@,
            _ => merged.profile_key@.len() == 0,
        },
{
}

/// A synchronized contact is saved at once, or after its profile was read: either way it is the merge
/// with all that is known. The profile is read exactly if the contact comes without a name and a key
/// is known.
pub proof fn law_synchronized_contact_is_saved_merged(
    synchronized: Contact,
    existing: Option<Contact>,
    stored_profile_key: Option<ProfileKey>,
    step: SynchronizedContactStep,
    merged: Contact,
)
    requires
        call_ensures(
            save_synchronized_contact,
            (synchronized, existing, stored_profile_key),
            step,
        ),
        call_ensures(
            merge_synchronized_contact,
            (synchronized, existing, stored_profile_key, None),
            merged,
        ),
    ensures
        step is LoadProfile <==> synchronized.name@.len() == 0 && stored_profile_key is Some,
        step matches SynchronizedContactStep::LoadProfile {
            synchronized: s,
            existing: e,
            profile_key,
        } ==> s == synchronized && e == existing && stored_profile_key == Some(profile_key),
        step matches SynchronizedContactStep::Save(saved) ==> {
            &&& saved.name@ == merged.name@
            &&& saved.profile_key@ == merged.profile_key@
            &&& saved.verified == merged.verified
            &&& saved.uuid == merged.uuid
            &&& saved.phone_number == merged.phone_number
            &&& saved.expire_timer == merged.expire_timer
            &&& saved.expire_timer_version == merged.expire_timer_version
            &&& saved.inbox_position == merged.inbox_position
            &&& saved.avatar == merged.avatar
        },
{
}

/// A contact that is merged with a profile has the key of that profile. It gets the profile's name if
/// it has none, or if it has no phone number and its name is that of its previous profile; otherwise
/// its name stays, and all else of it does. One that is not stored yet is made from the profile, with
/// the timer that is given.
pub proof fn law_profile_names_its_contact(
    uuid: u128,
    existing: Option<Contact>,
    previous_profile: Option<&Profile>,
    profile: &Profile,
    profile_key: ProfileKey,
    timer: u32,
    version: u32,
    merged: Contact,
)
    requires
        call_ensures(
            merge_profile_contact,
            (uuid, existing, previous_profile, profile, profile_key, timer, version),
            merged,
        ),
    ensures
        merged.profile_key@ == profile_key.bytes@,
        ({
            let new_name = match profile.name {
                Some(name) => name@,
                None => Seq::empty(),
            };
            match existing {
                Some(contact) => {
                    let from_profile = contact.phone_number is None && match previous_profile {
                        Some(Profile { name: Some(name), .. }) => contact.name@ == name@,
                        Some(Profile { name: None, .. }) => contact.name@.len() == 0,
                        None => false,
                    };
                    &&& contact.name@.len() == 0 || from_profile ==> merged.name@ == new_name
                    &&& contact.name@.len() > 0 && !from_profile ==> merged.name@ == contact.name@
                    &&& merged.uuid == contact.uuid
                    &&& merged.phone_number == contact.phone_number
                    &&& merged.verified == contact.verified
                    &&& merged.expire_timer == contact.expire_timer
                    &&& merged.expire_timer_version == contact.expire_timer_version
                    &&& merged.inbox_position == contact.inbox_position
                    &&& merged.avatar == contact.avatar
                },
                None => {
                    &&& merged.uuid == uuid
                    &&& merged.name@ == new_name
                    &&& merged.phone_number is None
                    &&& merged.expire_timer == timer
                    &&& merged.expire_timer_version == version
                    &&& merged.inbox_position == 0
                    &&& merged.avatar is None
                    &&& merged.verified.destination_aci is None
                    &&& merged.verified.identity_key is None
                    &&& merged.verified.state is None
                    &&& merged.verified.null_message is None
                },
            }
        }),
{
    if let Some(contact) = existing {
        assert(contact.name@.len() == 0 ==> contact.name@ =~= Seq::empty());
    }
}

/// What is told of a contact to the account's other devices is what is stored: its number, its
/// identity as text and as bytes, its name, its timer and what its picture is.
pub proof fn law_details_are_those_of_the_contact(
    contact: Contact,
    details: ContactDetails,
    text: String,
    bytes: Vec<u8>,
)
    requires
        call_ensures(contact_details, (contact,), details),
        call_ensures(uuid_text, (contact.uuid,), text),
        call_ensures(uuid_bytes, (contact.uuid,), bytes),
    ensures
        details.number == contact.phone_number,
        details.name == Some(contact.name),
        details.aci matches Some(aci) && aci@ == text@,
        details.aci_binary matches Some(binary) && binary@ == bytes@,
        details.expire_timer == Some(contact.expire_timer),
        details.expire_timer_version == Some(contact.expire_timer_version),
        details.inbox_position is None,
        match (contact.avatar, details.avatar) {
            (Some(picture), Some(told)) => {
                &&& told.content_type == Some(picture.content_type)
                &&& picture.reader@.len() <= u32::MAX ==> (told.length matches Some(length)
                    && length == picture.reader@.len())
                &&& picture.reader@.len() > u32::MAX ==> told.length is None
            },
            (None, None) => true,
            _ => false,
        },
{
}

/// Every contact is told of, in order, as it would be alone.
pub proof fn law_every_contact_is_told_of(
    contacts: Vec<Contact>,
    all: Vec<ContactDetails>,
    index: int,
    alone: ContactDetails,
)
    requires
        call_ensures(all_contact_details, (contacts,), all),
        0 <= index < contacts@.len(),
        call_ensures(contact_details, (contacts@[index],), alone),
    ensures
        all@.len() == contacts@.len(),
        all@[index].number == alone.number,
        all@[index].name == alone.name,
        all@[index].aci->0@ == alone.aci->0@,
        all@[index].aci is Some,
        all@[index].aci_binary->0@ == alone.aci_binary->0@,
        all@[index].aci_binary is Some,
        all@[index].expire_timer == alone.expire_timer,
        all@[index].expire_timer_version == alone.expire_timer_version,
        all@[index].inbox_position == alone.inbox_position,
        all@[index].avatar == alone.avatar,
{
    assert(details_describe(all@[index], contacts@[index]));
    assert(details_describe(alone, contacts@[index]));
}

/// A contact needs no update exactly if the key is the stored one, and the contact has it and has a
/// name.
pub proof fn law_named_contact_with_the_key_is_up_to_date(
    contact: Option<&Contact>,
    stored: Option<&ProfileKey>,
    incoming: &ProfileKey,
    needed: bool,
)
    requires
        call_ensures(needs_profile_contact_upsert, (contact, stored, incoming), needed),
    ensures
        match (contact, stored) {
            (Some(c), Some(key)) => needed <==> key.bytes != incoming.bytes || c.name@.len() == 0
                || c.profile_key@ != incoming.bytes@,
            _ => needed,
        },
{
}

} // verus!
