//! Groups, their members, and what follows from membership.

use vstd::prelude::*;

use crate::bytes::{big_endian, contains_key, key_from_bytes, same_key, uuid_bytes};
use crate::error::Error;
use crate::seqs::{lemma_filter_places, lemma_filtered_item_is_original};

verus! {

/// The bytes from which a group's keys are derived; they identify the group.
pub type GroupMasterKeyBytes = [u8; 32];

/// What a member of a group may do.
#[derive(Clone, Copy, Debug, PartialEq, Eq, Structural)]
pub enum Role {
    Unknown,
    Default,
    Administrator,
}

/// A member of a group.
#[derive(Clone, Debug)]
pub struct Member {
    /// The member's account identity.
    pub aci: u128,
    pub role: Role,
    pub profile_key: [u8; 32],
    pub joined_at_version: u32,
    pub label: Option<String>,
    pub label_emoji: Option<String>,
}

/// A group as the service describes it. `D` holds the attributes that no decision reads.
#[derive(Clone, Debug)]
pub struct ServiceGroup<D> {
    pub title: String,
    /// The path of the group's picture; empty when it has none.
    pub avatar: String,
    /// The number of changes that led to this state.
    pub version: u32,
    pub members: Vec<Member>,
    pub details: D,
}

/// A group as the client stores it. `D` holds the attributes that no decision reads.
#[derive(Clone, Debug)]
pub struct Group<D> {
    pub title: String,
    /// The path of the group's picture; empty when it has none.
    pub avatar: String,
    /// The number of changes that led to this state.
    pub revision: u32,
    pub members: Vec<Member>,
    pub details: D,
}

/// Whether an account is among the members.
pub open spec fn is_member(members: Seq<Member>, aci: u128) -> bool {
    exists|i: int| 0 <= i < members.len() && (#[trigger] members[i]).aci == aci
}

/// The members other than an account, in their order.
pub open spec fn members_without(members: Seq<Member>, aci: u128) -> Seq<Member> {
    members.filter(|member: Member| member.aci != aci)
}

impl<D> Group<D> {
    /// The stored form of a group that the service describes.
    pub open spec fn describes(self, group: ServiceGroup<D>) -> bool {
        &&& self.title == group.title
        &&& self.avatar == group.avatar
        &&& self.revision == group.version
        &&& self.members == group.members
        &&& self.details == group.details
    }

    /// Converts the service's description of a group to the stored form.
    pub fn from_service(group: ServiceGroup<D>) -> (stored: Self)
        ensures
            stored.describes(group),
            stored.title == group.title,
            stored.avatar == group.avatar,
            stored.revision == group.version,
            stored.members == group.members,
            stored.details == group.details,
    {
        Group {
            title: group.title,
            avatar: group.avatar,
            revision: group.version,
            members: group.members,
            details: group.details,
        }
    }

    /// Whether this is a group after an account left it: the same group at a given revision, with
    /// that account no longer among its members.
    pub open spec fn is_departure_from(
        self,
        group: ServiceGroup<D>,
        aci: u128,
        revision: u32,
    ) -> bool {
        &&& self.title == group.title
        &&& self.avatar == group.avatar
        &&& self.revision == revision
        &&& self.members@ == members_without(group.members@, aci)
        &&& self.details == group.details
    }
}

/// Whether an account is a member of a group.
pub fn group_has_member<D>(group: &ServiceGroup<D>, aci: u128) -> (found: bool)
    ensures
        found == is_member(group.members@, aci),
{
    let mut index: usize = 0;
    while index < group.members.len()
        invariant
            index <= group.members@.len(),
            forall|j: int| 0 <= j < index ==> (#[trigger] group.members@[j]).aci != aci,
        decreases group.members@.len() - index,
    {
        if group.members[index].aci == aci {
            assert(group.members@[index as int].aci == aci);
            return true;
        }
        index += 1;
    }
    false
}

/// Removes an account from a list of members.
pub fn remove_member(members: Vec<Member>, aci: u128) -> (rest: Vec<Member>)
    ensures
        rest@ == members_without(members@, aci),
        !is_member(rest@, aci),
{
    let ghost all = members@;
    let ghost keep = |member: Member| member.aci != aci;
    let mut rest: Vec<Member> = Vec::new();
    for member in iter: members
        invariant
            iter.seq() == all,
            keep == (|member: Member| member.aci != aci),
            rest@ == all.take(iter.index() as int).filter(keep),
            forall|j: int| 0 <= j < rest@.len() ==> (#[trigger] rest@[j]).aci != aci,
    {
        proof {
            let taken = all.take(iter.index() as int + 1);
            assert(taken.drop_last() =~= all.take(iter.index() as int));
            assert(taken.last() == member);
            reveal(Seq::filter);
        }
        if member.aci != aci {
            rest.push(member);
        }
    }
    proof {
        assert(all.take(all.len() as int) =~= all);
    }
    rest
}

/// The keys of one list that are not in another, in their order.
pub open spec fn keys_outside(
    keys: Seq<GroupMasterKeyBytes>,
    others: Seq<GroupMasterKeyBytes>,
) -> Seq<GroupMasterKeyBytes> {
    keys.filter(|key: GroupMasterKeyBytes| !others.contains(key))
}

/// The keys of stored groups that are no longer active.
pub fn stale_group_keys(stored: &[GroupMasterKeyBytes], active: &[GroupMasterKeyBytes]) -> (stale:
    Vec<GroupMasterKeyBytes>)
    ensures
        stale@ == keys_outside(stored@, active@),
{
    let ghost outside = |key: GroupMasterKeyBytes| !active@.contains(key);
    let mut stale: Vec<GroupMasterKeyBytes> = Vec::new();
    let mut index: usize = 0;
    while index < stored.len()
        invariant
            index <= stored@.len(),
            outside == (|key: GroupMasterKeyBytes| !active@.contains(key)),
            stale@ == stored@.take(index as int).filter(outside),
        decreases stored@.len() - index,
    {
        proof {
            assert(stored@.take(index + 1).drop_last() =~= stored@.take(index as int));
            reveal(Seq::filter);
        }
        if !contains_key(active, &stored[index]) {
            stale.push(stored[index]);
        }
        index += 1;
    }
    proof {
        assert(stored@.take(index as int) =~= stored@);
    }
    stale
}

/// The distinct keys of a list, each where it first occurs.
pub open spec fn distinct_keys(keys: Seq<GroupMasterKeyBytes>) -> Seq<GroupMasterKeyBytes>
    decreases keys.len(),
{
    if keys.len() == 0 {
        Seq::empty()
    } else {
        let before = distinct_keys(keys.drop_last());
        if before.contains(keys.last()) {
            before
        } else {
            before.push(keys.last())
        }
    }
}

/// The distinct keys of a list are its keys, none of them twice.
pub proof fn lemma_distinct_keys(keys: Seq<GroupMasterKeyBytes>)
    ensures
        distinct_keys(keys).no_duplicates(),
        forall|key: GroupMasterKeyBytes|
            #![trigger distinct_keys(keys).contains(key)]
            #![trigger keys.contains(key)]
            distinct_keys(keys).contains(key) <==> keys.contains(key),
        distinct_keys(keys).len() <= keys.len(),
    decreases keys.len(),
{
    if keys.len() > 0 {
        let start = keys.drop_last();
        let before = distinct_keys(start);
        lemma_distinct_keys(start);
        assert forall|key: GroupMasterKeyBytes|
            distinct_keys(keys).contains(key) <==> keys.contains(key) by {
            if keys.contains(key) {
                let i = choose|i: int| 0 <= i < keys.len() && keys[i] == key;
                if i < start.len() {
                    assert(start[i] == key);
                    assert(start.contains(key));
                    assert(before.contains(key));
                    let j = choose|j: int| 0 <= j < before.len() && before[j] == key;
                    assert(distinct_keys(keys)[j] == key);
                } else {
                    assert(keys.last() == key);
                    if !before.contains(key) {
                        assert(distinct_keys(keys)[before.len() as int] == key);
                    }
                }
            }
            if distinct_keys(keys).contains(key) {
                let j = choose|j: int|
                    0 <= j < distinct_keys(keys).len() && distinct_keys(keys)[j] == key;
                if j < before.len() {
                    assert(before[j] == key);
                    assert(before.contains(key));
                    assert(start.contains(key));
                    let i = choose|i: int| 0 <= i < start.len() && start[i] == key;
                    assert(keys[i] == key);
                } else {
                    assert(key == keys.last());
                    assert(keys[keys.len() - 1] == key);
                }
            }
        }
    }
}

/// Adds a key to a list of distinct keys unless it is there, and tells whether it was added.
pub fn insert_key(keys: &mut Vec<GroupMasterKeyBytes>, key: GroupMasterKeyBytes) -> (added: bool)
    ensures
        added == !old(keys)@.contains(key),
        final(keys)@ == if added {
            old(keys)@.push(key)
        } else {
            old(keys)@
        },
{
    if contains_key(keys, &key) {
        false
    } else {
        keys.push(key);
        true
    }
}

/// The keys of the groups whose current state is to be fetched: those of the manifest and those
/// that are stored, each once.
pub fn group_candidate_keys(
    manifest: &[GroupMasterKeyBytes],
    cached: &[GroupMasterKeyBytes],
) -> (candidates: Vec<GroupMasterKeyBytes>)
    ensures
        candidates@ == distinct_keys(manifest@ + cached@),
        candidates@.no_duplicates(),
        forall|key: GroupMasterKeyBytes|
            #[trigger] candidates@.contains(key) <==> manifest@.contains(key) || cached@.contains(
                key,
            ),
{
    let ghost all = manifest@ + cached@;
    let mut candidates: Vec<GroupMasterKeyBytes> = Vec::new();
    let mut index: usize = 0;
    while index < manifest.len()
        invariant
            index <= manifest@.len(),
            all == manifest@ + cached@,
            candidates@ == distinct_keys(all.take(index as int)),
        decreases manifest@.len() - index,
    {
        proof {
            assert(all.take(index + 1).drop_last() =~= all.take(index as int));
            assert(all.take(index + 1).last() == manifest@[index as int]);
        }
        let _ = insert_key(&mut candidates, manifest[index]);
        index += 1;
    }
    let mut rest: usize = 0;
    while rest < cached.len()
        invariant
            rest <= cached@.len(),
            all == manifest@ + cached@,
            candidates@ == distinct_keys(all.take(manifest@.len() + rest)),
        decreases cached@.len() - rest,
    {
        proof {
            let at = manifest@.len() + rest;
            assert(all.take(at + 1).drop_last() =~= all.take(at));
            assert(all.take(at + 1).last() == cached@[rest as int]);
        }
        let _ = insert_key(&mut candidates, cached[rest]);
        rest += 1;
    }
    proof {
        assert(all.take(all.len() as int) =~= all);
        lemma_distinct_keys(all);
        assert forall|key: GroupMasterKeyBytes|
            #[trigger] candidates@.contains(key) <==> manifest@.contains(key) || cached@.contains(
                key,
            ) by {
            assert(candidates@.contains(key) <==> all.contains(key));
            if manifest@.contains(key) {
                let i = choose|i: int| 0 <= i < manifest@.len() && manifest@[i] == key;
                assert(all[i] == key);
            }
            if cached@.contains(key) {
                let i = choose|i: int| 0 <= i < cached@.len() && cached@[i] == key;
                assert(all[manifest@.len() + i] == key);
            }
            if all.contains(key) {
                let i = choose|i: int| 0 <= i < all.len() && all[i] == key;
                if i < manifest@.len() {
                    assert(manifest@[i] == key);
                } else {
                    assert(cached@[i - manifest@.len()] == key);
                }
            }
        }
    }
    candidates
}

/// The group to keep when its current state lists the account among the members.
pub fn active_group_from_snapshot<D>(
    master_key: GroupMasterKeyBytes,
    group: ServiceGroup<D>,
    own_aci: u128,
) -> (active: Option<(GroupMasterKeyBytes, Group<D>)>)
    ensures
        active is Some <==> is_member(group.members@, own_aci),
        active matches Some((key, stored)) ==> key == master_key && stored.describes(group),
{
    if group_has_member(&group, own_aci) {
        Some((master_key, Group::from_service(group)))
    } else {
        None
    }
}

/// Why a departure is not confirmed.
#[derive(Clone, Copy, Debug, PartialEq, Eq, Structural)]
pub enum GroupLeaveConfirmationError {
    /// The account is still a member.
    StillMember,
}

/// Confirms a departure by the group's current state, which an account outside the group may not
/// be able to see.
pub fn confirmed_group_after_leave<D>(
    group: Option<ServiceGroup<D>>,
    own_aci: u128,
) -> (confirmed: Result<Option<Group<D>>, GroupLeaveConfirmationError>)
    ensures
        match (group, confirmed) {
            (None, result) => result == Ok::<_, GroupLeaveConfirmationError>(None::<Group<D>>),
            (Some(g), Ok(stored)) => {
                &&& !is_member(g.members@, own_aci)
                &&& stored matches Some(s) && s.describes(g)
            },
            (Some(g), Err(error)) => is_member(g.members@, own_aci) && error is StillMember,
        },
{
    match group {
        Some(group) => {
            if group_has_member(&group, own_aci) {
                Err(GroupLeaveConfirmationError::StillMember)
            } else {
                Ok(Some(Group::from_service(group)))
            }
        },
        None => Ok(None),
    }
}

/// A request to change a group.
#[derive(Clone, Debug)]
pub struct GroupChangeActions {
    /// Who asks: the raw account identity, which the service replaces by an encrypted one.
    pub source_user_id: Vec<u8>,
    /// The group that changes; the service fills it in.
    pub group_id: Vec<u8>,
    /// The version that the change leads to.
    pub version: u32,
    /// The encrypted identities of the members to remove.
    pub delete_members: Vec<Vec<u8>>,
}

/// The request with which an account leaves a group. `removed_user_id` is the account's identity
/// as the group's keys encrypt it.
pub fn build_leave_group_actions(removed_user_id: Vec<u8>, own_aci: u128, version: u32) -> (actions:
    GroupChangeActions)
    ensures
        actions.source_user_id@ == big_endian(own_aci as nat, 16),
        actions.group_id@ == Seq::<u8>::empty(),
        actions.version == version,
        actions.delete_members@ == seq![removed_user_id],
{
    let mut delete_members: Vec<Vec<u8>> = Vec::new();
    delete_members.push(removed_user_id);
    assert(delete_members@ =~= seq![removed_user_id]);
    GroupChangeActions {
        source_user_id: uuid_bytes(own_aci),
        group_id: Vec::new(),
        version,
        delete_members,
    }
}

/// Result details for a group leave accepted by the Signal group service.
///
/// Any returned value means membership was irreversibly removed on the server.
/// The flags expose best-effort cleanup which callers may report as a nonfatal
/// warning without restoring a group the account has already left. A peer
/// notification is considered sent when no new leave change was required.
#[derive(Clone, Copy, Debug, PartialEq, Eq, Structural)]
#[must_use]
pub struct LeaveGroupOutcome {
    pub peer_notification_sent: bool,
    pub local_group_removed: bool,
}

/// One change that a group underwent.
#[derive(Clone, Copy, Debug, PartialEq, Eq, Structural)]
pub enum GroupChange {
    /// A member was removed, by itself or by another.
    DeleteMember(u128),
    /// Anything else.
    Other,
}

/// The changes that the service signed, decrypted.
#[derive(Clone, Debug)]
pub struct GroupChanges {
    pub group_id: [u8; 32],
    pub editor: u128,
    pub version: u32,
    pub changes: Vec<GroupChange>,
}

impl GroupChanges {
    /// Whether these changes are the departure of an account from a group, made by the account
    /// itself and leading to the given version.
    pub open spec fn is_departure(self, group_id: [u8; 32], aci: u128, version: u32) -> bool {
        &&& self.group_id == group_id
        &&& self.editor == aci
        &&& self.version == version
        &&& self.changes@.contains(GroupChange::DeleteMember(aci))
    }
}

/// Whether changes are the departure that was asked for.
pub fn is_expected_leave_change(
    change: &GroupChanges,
    expected_group_id: &[u8; 32],
    own_aci: u128,
    version: u32,
) -> (expected: bool)
    ensures
        expected == change.is_departure(*expected_group_id, own_aci, version),
{
    if !same_key(&change.group_id, expected_group_id) || change.editor != own_aci || change.version
        != version {
        return false;
    }
    let mut index: usize = 0;
    while index < change.changes.len()
        invariant
            index <= change.changes@.len(),
            change.group_id == *expected_group_id,
            change.editor == own_aci,
            change.version == version,
            forall|j: int|
                0 <= j < index ==> change.changes@[j] != GroupChange::DeleteMember(own_aci),
        decreases change.changes@.len() - index,
    {
        if let GroupChange::DeleteMember(aci) = change.changes[index] {
            if aci == own_aci {
                assert(change.changes@[index as int] == GroupChange::DeleteMember(own_aci));
                return true;
            }
        }
        index += 1;
    }
    false
}

/// Whether a stored group must be fetched anew to be at least at a revision. A group that is not
/// stored, or whose lookup failed, must.
pub fn needs_group_refresh(stored_revision: Option<u32>, revision: u32) -> (refresh: bool)
    ensures
        refresh == match stored_revision {
            Some(stored) => stored < revision,
            None => true,
        },
{
    match stored_revision {
        Some(stored) => stored < revision,
        None => true,
    }
}

/// What is to be done next for a group that a message speaks of.
#[derive(Debug)]
pub enum UpsertTask<D, E> {
    /// Read the stored group.
    LoadGroup { master_key: GroupMasterKeyBytes, revision: u32 },
    /// Fetch the group from the service and decrypt it.
    FetchGroup { master_key: GroupMasterKeyBytes },
    /// Save the group.
    SaveGroup { master_key: GroupMasterKeyBytes, group: Group<D> },
    /// Read the group as it is now stored.
    ReadGroup { master_key: GroupMasterKeyBytes },
    /// This is the group, if it is stored.
    Finished(Option<Group<D>>),
    /// It is not known what the group is.
    Failed(E),
}

/// What came of fetching a group.
#[derive(Debug)]
pub enum GroupFetch<D, E> {
    /// It could not be fetched.
    Unavailable,
    /// It could not be decrypted.
    Undecryptable(E),
    Fetched(ServiceGroup<D>),
}

/// What came of a task.
#[derive(Debug)]
pub enum UpsertEvent<D, E> {
    /// The revision of the stored group, if it is stored.
    Loaded(Result<Option<u32>, E>),
    Fetch(GroupFetch<D, E>),
    Saved(Result<(), E>),
    Read(Result<Option<Group<D>>, E>),
}

/// Whether a group is to be fetched, by what came of reading the stored one.
pub open spec fn is_behind<E>(loaded: Result<Option<u32>, E>, revision: u32) -> bool {
    match loaded {
        Ok(Some(stored)) => stored < revision,
        Ok(None) => true,
        Err(_) => true,
    }
}

/// Begins to bring a group that a message speaks of to at least some revision. The bytes must spell
/// a key.
pub fn upsert_group<D, E>(master_key_bytes: &[u8], revision: u32) -> (task: Result<
    UpsertTask<D, E>,
    Error,
>)
    ensures
        match task {
            Ok(t) => t matches UpsertTask::LoadGroup { master_key, revision: r } && master_key@
                == master_key_bytes@ && r == revision,
            Err(error) => error is InvalidKeyLength && master_key_bytes@.len() != 32,
        },
{
    match key_from_bytes(master_key_bytes) {
        Some(master_key) => Ok(UpsertTask::LoadGroup { master_key, revision }),
        None => Err(Error::InvalidKeyLength),
    }
}

impl<D, E> UpsertTask<D, E> {
    /// Whether an event is one that can come of it.
    pub open spec fn expects(self, event: UpsertEvent<D, E>) -> bool {
        match (self, event) {
            (UpsertTask::LoadGroup { .. }, UpsertEvent::Loaded(_)) => true,
            (UpsertTask::FetchGroup { .. }, UpsertEvent::Fetch(_)) => true,
            (UpsertTask::SaveGroup { .. }, UpsertEvent::Saved(_)) => true,
            (UpsertTask::ReadGroup { .. }, UpsertEvent::Read(_)) => true,
            _ => false,
        }
    }

    /// Whether a task is what follows from an event. That a group cannot be fetched or saved is no
    /// failure: it then stays as it is stored. That it cannot be decrypted is one.
    pub open spec fn leads_to(self, event: UpsertEvent<D, E>, next: Self) -> bool {
        match (self, event) {
            (UpsertTask::LoadGroup { master_key, revision }, UpsertEvent::Loaded(loaded)) => next
                == if is_behind(loaded, revision) {
                UpsertTask::<D, E>::FetchGroup { master_key }
            } else {
                UpsertTask::ReadGroup { master_key }
            },
            (UpsertTask::FetchGroup { master_key }, UpsertEvent::Fetch(fetch)) => match fetch {
                GroupFetch::Unavailable => next == (UpsertTask::<D, E>::ReadGroup { master_key }),
                GroupFetch::Undecryptable(error) => next == UpsertTask::<D, E>::Failed(error),
                GroupFetch::Fetched(group) => next matches UpsertTask::SaveGroup {
                    master_key: key,
                    group: stored,
                } && key == master_key && stored.describes(group),
            },
            (UpsertTask::SaveGroup { master_key, .. }, UpsertEvent::Saved(_)) => next
                == (UpsertTask::<D, E>::ReadGroup { master_key }),
            (UpsertTask::ReadGroup { .. }, UpsertEvent::Read(read)) => match read {
                Ok(group) => next == UpsertTask::<D, E>::Finished(group),
                Err(error) => next == UpsertTask::<D, E>::Failed(error),
            },
            _ => false,
        }
    }

    /// How many steps a task can take at most.
    pub open spec fn steps_left(self) -> nat {
        match self {
            UpsertTask::LoadGroup { .. } => 4,
            UpsertTask::FetchGroup { .. } => 3,
            UpsertTask::SaveGroup { .. } => 2,
            UpsertTask::ReadGroup { .. } => 1,
            _ => 0,
        }
    }

    /// Goes on after what came of a task.
    pub fn step(self, event: UpsertEvent<D, E>) -> (next: Self)
        requires
            self.expects(event),
        ensures
            self.leads_to(event, next),
            next.steps_left() < self.steps_left(),
    {
        match (self, event) {
            (UpsertTask::LoadGroup { master_key, revision }, UpsertEvent::Loaded(loaded)) => {
                let stored_revision = match loaded {
                    Ok(stored) => stored,
                    Err(_) => None,
                };
                if needs_group_refresh(stored_revision, revision) {
                    UpsertTask::FetchGroup { master_key }
                } else {
                    UpsertTask::ReadGroup { master_key }
                }
            },
            (UpsertTask::FetchGroup { master_key }, UpsertEvent::Fetch(fetch)) => match fetch {
                GroupFetch::Unavailable => UpsertTask::ReadGroup { master_key },
                GroupFetch::Undecryptable(error) => UpsertTask::Failed(error),
                GroupFetch::Fetched(group) => UpsertTask::SaveGroup {
                    master_key,
                    group: Group::from_service(group),
                },
            },
            (UpsertTask::SaveGroup { master_key, .. }, _) => UpsertTask::ReadGroup { master_key },
            (UpsertTask::ReadGroup { .. }, UpsertEvent::Read(read)) => match read {
                Ok(group) => UpsertTask::Finished(group),
                Err(error) => UpsertTask::Failed(error),
            },
            (task, _) => task,
        }
    }
}

/// Whether tasks follow from one another by events, from reading a stored group on.
pub open spec fn is_upsert_run<D, E>(
    master_key: GroupMasterKeyBytes,
    revision: u32,
    tasks: Seq<UpsertTask<D, E>>,
    events: Seq<UpsertEvent<D, E>>,
) -> bool {
    &&& tasks.len() == events.len() + 1
    &&& tasks[0] == (UpsertTask::<D, E>::LoadGroup { master_key, revision })
    &&& forall|i: int|
        0 <= i < events.len() ==> (#[trigger] tasks[i]).expects(events[i]) && tasks[i].leads_to(
            events[i],
            tasks[i + 1],
        )
}

/// What holds of any task of a run: it is about the run's group, a group is fetched or saved only if
/// the stored one is behind, and a failure is one of decryption or of the last reading.
proof fn lemma_upsert_run_task<D, E>(
    master_key: GroupMasterKeyBytes,
    revision: u32,
    tasks: Seq<UpsertTask<D, E>>,
    events: Seq<UpsertEvent<D, E>>,
    at: int,
)
    requires
        is_upsert_run(master_key, revision, tasks, events),
        0 <= at < tasks.len(),
    ensures
        tasks[at] is LoadGroup ==> at == 0,
        at > 0 ==> events[0] is Loaded,
        tasks[at] is FetchGroup || tasks[at] is SaveGroup ==> at > 0 && is_behind(
            events[0]->Loaded_0,
            revision,
        ),
        tasks[at] matches UpsertTask::FetchGroup { master_key: key } ==> key == master_key && at
            == 1,
        tasks[at] matches UpsertTask::SaveGroup { master_key: key, group } ==> key == master_key
            && at == 2 && (events[1] matches UpsertEvent::Fetch(GroupFetch::Fetched(fetched))
            && group.describes(fetched)),
        tasks[at] matches UpsertTask::ReadGroup { master_key: key } ==> key == master_key,
        tasks[at] matches UpsertTask::Finished(group) ==> at > 0 && (
        events[at - 1] matches UpsertEvent::Read(Ok(read)) && read == group),
        tasks[at] matches UpsertTask::Failed(error) ==> at > 0 && match events[at - 1] {
            UpsertEvent::Fetch(GroupFetch::Undecryptable(e)) => e == error,
            UpsertEvent::Read(Err(e)) => e == error,
            _ => false,
        },
    decreases at,
{
    if at > 0 {
        lemma_upsert_run_task(master_key, revision, tasks, events, at - 1);
        assert(tasks[at - 1].expects(events[at - 1]));
        assert(tasks[at - 1].leads_to(events[at - 1], tasks[at - 1 + 1]));
    }
}

/// A group is fetched exactly when the stored one is behind, missing or unreadable, and nothing is
/// fetched or saved otherwise. What was fetched is what is saved. The result is the group as it is
/// stored in the end, whether or not it could be fetched and saved; only a group that cannot be
/// decrypted, or a store that cannot be read in the end, is an error.
pub proof fn law_upsert_ends_with_the_stored_group<D, E>(
    master_key: GroupMasterKeyBytes,
    revision: u32,
    tasks: Seq<UpsertTask<D, E>>,
    events: Seq<UpsertEvent<D, E>>,
)
    requires
        is_upsert_run(master_key, revision, tasks, events),
    ensures
        events.len() > 0 ==> (events[0] matches UpsertEvent::Loaded(loaded) && (tasks[1]
            is FetchGroup <==> is_behind(loaded, revision))),
        events.len() > 0 && !is_behind(events[0]->Loaded_0, revision) ==> forall|i: int|
            0 <= i < tasks.len() ==> !((#[trigger] tasks[i]) is FetchGroup) && !(
            tasks[i] is SaveGroup),
        forall|i: int|
            0 <= i < tasks.len() ==> ((#[trigger] tasks[i]) matches UpsertTask::SaveGroup {
                group,
                ..
            } ==> (events[1] matches UpsertEvent::Fetch(GroupFetch::Fetched(fetched))
                && group.describes(fetched))),
        tasks.last() matches UpsertTask::Finished(group) ==> (
        events.last() matches UpsertEvent::Read(Ok(read)) && read == group),
        tasks.last() matches UpsertTask::Failed(error) ==> match events.last() {
            UpsertEvent::Fetch(GroupFetch::Undecryptable(e)) => e == error,
            UpsertEvent::Read(Err(e)) => e == error,
            _ => false,
        },
{
    if events.len() > 0 {
        assert(tasks[0].expects(events[0]) && tasks[0].leads_to(events[0], tasks[0int + 1]));
    }
    assert forall|i: int| 0 <= i < tasks.len() implies {
        &&& (#[trigger] tasks[i]) matches UpsertTask::SaveGroup { group, .. } ==> (
        events[1] matches UpsertEvent::Fetch(GroupFetch::Fetched(fetched)) && group.describes(
            fetched,
        ))
        &&& tasks[i] is FetchGroup || tasks[i] is SaveGroup ==> is_behind(
            events[0]->Loaded_0,
            revision,
        )
    } by {
        lemma_upsert_run_task(master_key, revision, tasks, events, i);
    }
    lemma_upsert_run_task(master_key, revision, tasks, events, tasks.len() - 1);
}

/// The path of a group's picture, if the group is known and has one.
pub fn group_avatar_path<D>(group: Option<&Group<D>>) -> (path: Option<&str>)
    ensures
        match group {
            Some(g) => {
                &&& path is Some <==> g.avatar@.len() > 0
                &&& path matches Some(p) ==> p@ == g.avatar@
            },
            None => path is None,
        },
{
    match group {
        Some(group) => {
            let avatar = group.avatar.as_str();
            if avatar.is_empty() {
                None
            } else {
                Some(avatar)
            }
        },
        None => None,
    }
}

/// After a departure the account is not among the members, and everyone else still is.
pub proof fn law_departure_removes_only_the_account(members: Seq<Member>, aci: u128, other: u128)
    ensures
        !is_member(members_without(members, aci), aci),
        other != aci ==> (is_member(members_without(members, aci), other) <==> is_member(
            members,
            other,
        )),
{
    broadcast use vstd::seq_lib::group_filter_ensures;

    let keep = |member: Member| member.aci != aci;
    let rest = members_without(members, aci);
    if is_member(rest, aci) {
        let i = choose|i: int| 0 <= i < rest.len() && (#[trigger] rest[i]).aci == aci;
        assert(keep(rest[i]));
    }
    if other != aci {
        if is_member(members, other) {
            let i = choose|i: int| 0 <= i < members.len() && (#[trigger] members[i]).aci == other;
            assert(keep(members[i]));
            assert(rest.contains(members[i]));
            let j = choose|j: int| 0 <= j < rest.len() && rest[j] == members[i];
            assert(rest[j].aci == other);
        }
        if is_member(rest, other) {
            let i = choose|i: int| 0 <= i < rest.len() && (#[trigger] rest[i]).aci == other;
            lemma_filtered_item_is_original(members, keep, i);
            let j = choose|j: int| 0 <= j < members.len() && members[j] == rest[i];
            assert(members[j].aci == other);
        }
    }
}

/// A stored group is either active or stale, and never both.
pub proof fn law_stored_groups_are_active_or_stale(
    stored: Seq<GroupMasterKeyBytes>,
    active: Seq<GroupMasterKeyBytes>,
    key: GroupMasterKeyBytes,
)
    requires
        stored.contains(key),
    ensures
        keys_outside(stored, active).contains(key) <==> !active.contains(key),
{
    broadcast use vstd::seq_lib::group_filter_ensures;

    let outside = |key: GroupMasterKeyBytes| !active.contains(key);
    let stale = keys_outside(stored, active);
    if !active.contains(key) {
        let i = choose|i: int| 0 <= i < stored.len() && stored[i] == key;
        assert(outside(stored[i]));
        assert(stale.contains(stored[i]));
    }
    if stale.contains(key) {
        let i = choose|i: int| 0 <= i < stale.len() && stale[i] == key;
        assert(outside(stale[i]));
    }
}

/// A group is stored as the service describes it: under its title, with its picture, its members and
/// whatever else it has, at the version that it is at.
pub proof fn law_group_is_stored_as_described<D>(group: ServiceGroup<D>, stored: Group<D>)
    requires
        call_ensures(Group::<D>::from_service, (group,), stored),
    ensures
        stored.title == group.title,
        stored.avatar == group.avatar,
        stored.revision == group.version,
        stored.members == group.members,
        stored.details == group.details,
{
}

/// A group whose state was fetched is saved under the key with which it was asked for, with the title,
/// the picture, the members and whatever else was fetched, at the version that was fetched.
pub proof fn law_fetched_group_is_saved_as_it_is<D, E>(
    master_key: GroupMasterKeyBytes,
    fetched: ServiceGroup<D>,
    next: UpsertTask<D, E>,
)
    requires
        call_ensures(
            UpsertTask::<D, E>::step,
            (
                UpsertTask::<D, E>::FetchGroup { master_key },
                UpsertEvent::Fetch(GroupFetch::Fetched(fetched)),
            ),
            next,
        ),
    ensures
        next matches UpsertTask::SaveGroup { master_key: key, group } && {
            &&& key == master_key
            &&& group.title == fetched.title
            &&& group.avatar == fetched.avatar
            &&& group.revision == fetched.version
            &&& group.members == fetched.members
            &&& group.details == fetched.details
        },
{
}

/// A group that a message speaks of is fetched if it is not stored, cannot be read or is stored at an
/// earlier revision than the message tells, and is read as it is stored otherwise. It is read in the
/// end whether or not it could be fetched or saved, and what is read is the result; that it cannot be
/// decrypted or read is an error.
pub proof fn law_group_is_fetched_when_it_is_behind<D, E>(
    master_key: GroupMasterKeyBytes,
    revision: u32,
    group: Group<D>,
    loaded: Result<Option<u32>, E>,
    saved: Result<(), E>,
    read: Result<Option<Group<D>>, E>,
    error: E,
    after_load: UpsertTask<D, E>,
    after_failed_fetch: UpsertTask<D, E>,
    after_garbage: UpsertTask<D, E>,
    after_save: UpsertTask<D, E>,
    after_read: UpsertTask<D, E>,
)
    requires
        call_ensures(
            UpsertTask::<D, E>::step,
            (
                UpsertTask::<D, E>::LoadGroup { master_key, revision },
                UpsertEvent::Loaded(loaded),
            ),
            after_load,
        ),
        call_ensures(
            UpsertTask::<D, E>::step,
            (
                UpsertTask::<D, E>::FetchGroup { master_key },
                UpsertEvent::Fetch(GroupFetch::Unavailable),
            ),
            after_failed_fetch,
        ),
        call_ensures(
            UpsertTask::<D, E>::step,
            (
                UpsertTask::<D, E>::FetchGroup { master_key },
                UpsertEvent::Fetch(GroupFetch::Undecryptable(error)),
            ),
            after_garbage,
        ),
        call_ensures(
            UpsertTask::<D, E>::step,
            (UpsertTask::<D, E>::SaveGroup { master_key, group }, UpsertEvent::Saved(saved)),
            after_save,
        ),
        call_ensures(
            UpsertTask::<D, E>::step,
            (UpsertTask::<D, E>::ReadGroup { master_key }, UpsertEvent::Read(read)),
            after_read,
        ),
    ensures
        match loaded {
            Ok(Some(stored)) => if stored >= revision {
                after_load == (UpsertTask::<D, E>::ReadGroup { master_key })
            } else {
                after_load == (UpsertTask::<D, E>::FetchGroup { master_key })
            },
            _ => after_load == (UpsertTask::<D, E>::FetchGroup { master_key }),
        },
        after_failed_fetch == (UpsertTask::<D, E>::ReadGroup { master_key }),
        after_garbage == UpsertTask::<D, E>::Failed(error),
        after_save == (UpsertTask::<D, E>::ReadGroup { master_key }),
        match read {
            Ok(stored) => after_read == UpsertTask::<D, E>::Finished(stored),
            Err(e) => after_read == UpsertTask::<D, E>::Failed(e),
        },
{
}

/// Bringing a group up to date starts with reading the group of the key that the bytes spell, exactly
/// if they are as many as a key has.
pub proof fn law_only_keys_name_groups<D, E>(
    bytes: &[u8],
    revision: u32,
    task: Result<UpsertTask<D, E>, Error>,
)
    requires
        call_ensures(upsert_group::<D, E>, (bytes, revision), task),
    ensures
        bytes@.len() == 32 ==> (task matches Ok(UpsertTask::LoadGroup { master_key, revision: r })
            && master_key@ == bytes@ && r == revision),
        bytes@.len() != 32 ==> (task matches Err(error) && error is InvalidKeyLength),
{
}

/// A group is active for exactly those accounts that it lists, and is then kept as it was fetched.
pub proof fn law_group_is_active_for_its_members<D>(
    master_key: GroupMasterKeyBytes,
    group: ServiceGroup<D>,
    aci: u128,
    active: Option<(GroupMasterKeyBytes, Group<D>)>,
    listed: bool,
)
    requires
        call_ensures(active_group_from_snapshot::<D>, (master_key, group, aci), active),
        call_ensures(group_has_member::<D>, (&group, aci), listed),
    ensures
        listed <==> exists|i: int|
            0 <= i < group.members@.len() && (#[trigger] group.members@[i]).aci == aci,
        active is Some <==> listed,
        active matches Some((key, stored)) ==> {
            &&& key == master_key
            &&& stored.title == group.title
            &&& stored.avatar == group.avatar
            &&& stored.revision == group.version
            &&& stored.members == group.members
            &&& stored.details == group.details
        },
{
}

/// A departure is confirmed by a group that does not list the account, which is then kept as it was
/// fetched, or by no group at all. A group that lists the account refutes it.
pub proof fn law_departure_is_confirmed_by_the_members<D>(
    group: Option<ServiceGroup<D>>,
    aci: u128,
    confirmed: Result<Option<Group<D>>, GroupLeaveConfirmationError>,
)
    requires
        call_ensures(confirmed_group_after_leave::<D>, (group, aci), confirmed),
    ensures
        match group {
            None => confirmed matches Ok(None),
            Some(g) => if exists|i: int|
                0 <= i < g.members@.len() && (#[trigger] g.members@[i]).aci == aci {
                confirmed is Err
            } else {
                confirmed matches Ok(Some(stored)) && {
                    &&& stored.title == g.title
                    &&& stored.avatar == g.avatar
                    &&& stored.revision == g.version
                    &&& stored.members == g.members
                    &&& stored.details == g.details
                }
            },
        },
{
}

/// Removing an account from a list of members leaves every other member as it was, in the order in
/// which they were, and as often: the `k`-th that is left is the one at the `k`-th of the places, which
/// rise and leave out nobody but the account.
pub proof fn law_removal_leaves_the_others(
    members: Vec<Member>,
    aci: u128,
    rest: Vec<Member>,
) -> (places: Seq<int>)
    requires
        call_ensures(remove_member, (members, aci), rest),
    ensures
        places.len() == rest@.len(),
        forall|k: int|
            #![trigger places[k]]
            #![trigger rest@[k]]
            0 <= k < places.len() ==> 0 <= places[k] < members@.len() && rest@[k]
                == members@[places[k]] && rest@[k].aci != aci,
        forall|j: int, k: int|
            #![trigger places[j], places[k]]
            0 <= j < k < places.len() ==> places[j] < places[k],
        forall|i: int|
            0 <= i < members@.len() && (#[trigger] members@[i]).aci != aci ==> places.contains(i),
{
    let keep = |member: Member| member.aci != aci;
    let places = lemma_filter_places(members@, keep);
    assert forall|i: int| 0 <= i < members@.len() && (#[trigger] members@[i]).aci != aci implies
        places.contains(i) by {
        assert(keep(members@[i]));
    }
    places
}

/// The stored groups that are to be removed are exactly those that are not active.
pub proof fn law_stale_groups_are_the_inactive_ones(
    stored: &[GroupMasterKeyBytes],
    active: &[GroupMasterKeyBytes],
    stale: Vec<GroupMasterKeyBytes>,
    key: GroupMasterKeyBytes,
)
    requires
        call_ensures(stale_group_keys, (stored, active), stale),
    ensures
        stale@.contains(key) <==> stored@.contains(key) && !active@.contains(key),
        stale@.len() <= stored@.len(),
{
    let outside = |k: GroupMasterKeyBytes| !active@.contains(k);
    stored@.lemma_filter_len(outside);
    if stored@.contains(key) {
        law_stored_groups_are_active_or_stale(stored@, active@, key);
    }
    if stale@.contains(key) {
        let at = choose|at: int| 0 <= at < stale@.len() && stale@[at] == key;
        lemma_filtered_item_is_original(stored@, outside, at);
        stored@.lemma_filter_pred(outside, at);
    }
}

/// The groups whose state is needed are those of the manifest and those that are stored, each once.
pub proof fn law_candidates_are_named_or_stored(
    manifest: &[GroupMasterKeyBytes],
    cached: &[GroupMasterKeyBytes],
    candidates: Vec<GroupMasterKeyBytes>,
    key: GroupMasterKeyBytes,
)
    requires
        call_ensures(group_candidate_keys, (manifest, cached), candidates),
    ensures
        candidates@.contains(key) <==> manifest@.contains(key) || cached@.contains(key),
        forall|i: int, j: int|
            0 <= i < j < candidates@.len() ==> candidates@[i] != candidates@[j],
{
}

/// A change is the departure that was asked for exactly if it is one of that group, made by the
/// account, leads to that version and removes the account.
pub proof fn law_expected_change_removes_the_account(
    change: &GroupChanges,
    group_id: &[u8; 32],
    aci: u128,
    version: u32,
    expected: bool,
)
    requires
        call_ensures(is_expected_leave_change, (change, group_id, aci, version), expected),
    ensures
        expected <==> change.group_id == *group_id && change.editor == aci && change.version
            == version && exists|i: int|
            0 <= i < change.changes@.len() && #[trigger] change.changes@[i]
                == GroupChange::DeleteMember(aci),
{
    assert(change.changes@.contains(GroupChange::DeleteMember(aci)) <==> exists|i: int|
        0 <= i < change.changes@.len() && #[trigger] change.changes@[i]
            == GroupChange::DeleteMember(aci));
}

/// The request with which an account leaves a group names the account, the version that it leads to,
/// and one member to remove.
pub proof fn law_leave_request_removes_one_member(
    removed_user_id: Vec<u8>,
    aci: u128,
    version: u32,
    actions: GroupChangeActions,
    bytes: Vec<u8>,
)
    requires
        call_ensures(build_leave_group_actions, (removed_user_id, aci, version), actions),
        call_ensures(uuid_bytes, (aci,), bytes),
    ensures
        actions.delete_members@.len() == 1,
        actions.delete_members@[0] == removed_user_id,
        actions.source_user_id@ == bytes@,
        actions.group_id@.len() == 0,
        actions.version == version,
{
}

/// The picture of a group is at the path that the group tells, if it tells one.
pub proof fn law_group_tells_where_its_picture_is<D>(group: &Group<D>, path: Option<&str>)
    requires
        call_ensures(group_avatar_path::<D>, (Some(group),), path),
    ensures
        group.avatar@.len() == 0 ==> path is None,
        group.avatar@.len() > 0 ==> (path matches Some(p) && p@ == group.avatar@),
{
}

} // verus!
