//! Synchronizing the stored groups with the account's storage.
//!
//! The manifest names the records that hold the account's groups. Together with the groups that
//! are already stored they are the candidates whose current state is fetched. Only when the state
//! of every candidate is known is the store brought in line.

use vstd::prelude::*;

use crate::bytes::{copy_bytes, key_from_bytes, same_bytes};
use crate::error::Error;
use crate::groups::{
    active_group_from_snapshot,
    group_candidate_keys,
    insert_key,
    is_member,
    keys_outside,
    stale_group_keys,
    Group,
    GroupMasterKeyBytes,
    ServiceGroup,
};
use crate::registration::{Manager, Registered};

verus! {

/// What a storage item holds.
#[derive(Clone, Copy, Debug, PartialEq, Eq, Structural)]
pub enum IdentifierType {
    Contact,
    GroupV1,
    GroupV2,
    /// Any other kind, by its number.
    Other(i32),
}

/// A storage item that the manifest names.
#[derive(Clone, Debug)]
pub struct Identifier {
    pub raw: Vec<u8>,
    pub item_type: IdentifierType,
}

/// The table of contents of the account's storage.
#[derive(Clone, Debug)]
pub struct ManifestRecord {
    pub identifiers: Vec<Identifier>,
    /// The key material for the records; empty when there is none.
    pub record_ikm: Vec<u8>,
}

/// A record of the account's storage.
#[derive(Clone, Debug, PartialEq, Eq)]
pub enum StorageRecord {
    GroupV2 { master_key: Vec<u8> },
    Other,
}

/// Why the group records do not make up a snapshot.
#[derive(Clone, Copy, Debug, PartialEq, Eq, Structural)]
pub enum StorageGroupSnapshotError {
    /// A group item is named twice.
    DuplicateManifestKey,
    /// The records that came are not those that were asked for.
    ResponseKeySetMismatch,
}

/// The byte strings in a list.
pub open spec fn key_views(keys: Seq<Vec<u8>>) -> Seq<Seq<u8>> {
    keys.map_values(|key: Vec<u8>| key@)
}

/// The keys of the group items that a manifest names, in its order.
pub open spec fn group_item_keys(identifiers: Seq<Identifier>) -> Seq<Seq<u8>> {
    identifiers.filter(|item: Identifier| item.item_type == IdentifierType::GroupV2).map_values(
        |item: Identifier| item.raw@,
    )
}

/// Where a key first occurs in a list.
fn position(keys: &[Vec<u8>], key: &[u8]) -> (found: Option<usize>)
    ensures
        match found {
            Some(index) => index < keys@.len() && keys@[index as int]@ == key@,
            None => !key_views(keys@).contains(key@),
        },
{
    let mut index: usize = 0;
    while index < keys.len()
        invariant
            index <= keys@.len(),
            forall|j: int| 0 <= j < index ==> (#[trigger] keys@[j])@ != key@,
        decreases keys@.len() - index,
    {
        if same_bytes(&keys[index], key) {
            return Some(index);
        }
        index += 1;
    }
    proof {
        if key_views(keys@).contains(key@) {
            let j = choose|j: int| 0 <= j < keys@.len() && key_views(keys@)[j] == key@;
            assert(keys@[j]@ == key@);
        }
    }
    None
}

/// Adds a key to a list of distinct keys, unless it is there.
fn insert_distinct(keys: &mut Vec<Vec<u8>>, key: Vec<u8>) -> (added: bool)
    requires
        key_views(old(keys)@).no_duplicates(),
    ensures
        added == !key_views(old(keys)@).contains(key@),
        added ==> final(keys)@ == old(keys)@.push(key),
        !added ==> final(keys)@ == old(keys)@,
        key_views(final(keys)@).no_duplicates(),
{
    match position(keys, &key) {
        Some(index) => {
            assert(key_views(keys@)[index as int] == key@);
            false
        },
        None => {
            let ghost before = keys@;
            keys.push(key);
            assert(key_views(keys@) =~= key_views(before).push(key@));
            true
        },
    }
}

/// The keys of the group items that a manifest names.
pub fn storage_group_item_keys(manifest: &ManifestRecord) -> (keys: Result<
    Vec<Vec<u8>>,
    StorageGroupSnapshotError,
>)
    ensures
        match keys {
            Ok(ks) => {
                &&& key_views(ks@) == group_item_keys(manifest.identifiers@)
                &&& key_views(ks@).no_duplicates()
            },
            Err(error) => {
                &&& error is DuplicateManifestKey
                &&& !group_item_keys(manifest.identifiers@).no_duplicates()
            },
        },
{
    let ghost is_group = |item: Identifier| item.item_type == IdentifierType::GroupV2;
    let ghost raw = |item: Identifier| item.raw@;
    let ghost all = manifest.identifiers@;
    let mut keys: Vec<Vec<u8>> = Vec::new();
    let mut index: usize = 0;
    proof {
        assert(all.take(0).filter(is_group).map_values(raw) =~= key_views(keys@)) by {
            reveal(Seq::filter);
        }
    }
    while index < manifest.identifiers.len()
        invariant
            index <= all.len(),
            all == manifest.identifiers@,
            is_group == (|item: Identifier| item.item_type == IdentifierType::GroupV2),
            raw == (|item: Identifier| item.raw@),
            key_views(keys@) == all.take(index as int).filter(is_group).map_values(raw),
            key_views(keys@).no_duplicates(),
        decreases all.len() - index,
    {
        let item = &manifest.identifiers[index];
        proof {
            assert(all.take(index + 1).drop_last() =~= all.take(index as int));
            assert(all.take(index + 1).last() == *item);
            reveal(Seq::filter);
        }
        let is_group_item = match item.item_type {
            IdentifierType::GroupV2 => true,
            _ => false,
        };
        if is_group_item {
            let ghost before = keys@;
            let ghost known = all.take(index as int).filter(is_group);
            let added = insert_distinct(&mut keys, copy_bytes(&item.raw));
            proof {
                assert(all.take(index + 1).filter(is_group) == known.push(*item));
                assert(known.push(*item).map_values(raw) =~= known.map_values(raw).push(item.raw@));
            }
            if !added {
                proof {
                    let upto = all.take(index + 1).filter(is_group).map_values(raw);
                    let j = choose|j: int|
                        0 <= j < key_views(before).len() && key_views(before)[j] == item.raw@;
                    assert(upto[j] == item.raw@);
                    assert(upto[upto.len() - 1] == item.raw@);
                    let rest = all.skip(index + 1);
                    assert(all =~= all.take(index + 1) + rest);
                    Seq::filter_distributes_over_add(all.take(index + 1), rest, is_group);
                    let whole = group_item_keys(all);
                    assert(whole =~= upto + rest.filter(is_group).map_values(raw));
                    assert(whole[j] == item.raw@);
                    assert(whole[upto.len() - 1] == item.raw@);
                    assert(!whole.no_duplicates());
                }
                return Err(StorageGroupSnapshotError::DuplicateManifestKey);
            }
            proof {
                assert(key_views(keys@) =~= key_views(before).push(item.raw@));
            }
        }
        index += 1;
    }
    proof {
        assert(all.take(index as int) =~= all);
    }
    Ok(keys)
}

/// The keys under which records came.
pub open spec fn returned_keys<R>(returned: Seq<(Vec<u8>, R)>) -> Seq<Seq<u8>> {
    returned.map_values(|item: (Vec<u8>, R)| item.0@)
}

/// Whether two lists hold the same keys and neither holds one twice.
pub open spec fn same_key_sets(requested: Seq<Seq<u8>>, returned: Seq<Seq<u8>>) -> bool {
    &&& requested.no_duplicates()
    &&& returned.no_duplicates()
    &&& requested.to_set() == returned.to_set()
}

/// Distinct keys among other distinct keys, and as many of them, are the same keys.
proof fn lemma_equal_count_is_same_set(requested: Seq<Seq<u8>>, returned: Seq<Seq<u8>>)
    requires
        requested.no_duplicates(),
        returned.no_duplicates(),
        forall|i: int| 0 <= i < returned.len() ==> requested.contains(#[trigger] returned[i]),
    ensures
        returned.len() == requested.len() <==> same_key_sets(requested, returned),
{
    requested.unique_seq_to_set();
    returned.unique_seq_to_set();
    assert(returned.to_set().subset_of(requested.to_set()));
    vstd::seq_lib::seq_to_set_is_finite(requested);
    vstd::seq_lib::seq_to_set_is_finite(returned);
    if returned.len() == requested.len() {
        vstd::set_lib::lemma_subset_equality(returned.to_set(), requested.to_set());
    }
}

/// Puts the records that came in the order in which they were requested.
///
/// Exactly the requested records must have come, each once, in any order.
pub fn match_storage_group_records<R>(
    requested: &[Vec<u8>],
    returned: Vec<(Vec<u8>, R)>,
) -> (records: Result<Vec<R>, StorageGroupSnapshotError>)
    ensures
        match records {
            Ok(rs) => {
                &&& same_key_sets(key_views(requested@), returned_keys(returned@))
                &&& rs@.len() == requested@.len()
                &&& forall|i: int, j: int|
                    #![trigger requested@[i], returned@[j]]
                    0 <= i < requested@.len() && 0 <= j < returned@.len() && requested@[i]@
                        == returned@[j].0@ ==> rs@[i] == returned@[j].1
            },
            Err(StorageGroupSnapshotError::DuplicateManifestKey) => !key_views(
                requested@,
            ).no_duplicates(),
            Err(StorageGroupSnapshotError::ResponseKeySetMismatch) => {
                &&& key_views(requested@).no_duplicates()
                &&& !same_key_sets(key_views(requested@), returned_keys(returned@))
            },
        },
{
    let ghost wanted = key_views(requested@);
    let ghost all = returned@;
    let mut known: Vec<Vec<u8>> = Vec::new();
    let mut index: usize = 0;
    while index < requested.len()
        invariant
            index <= requested@.len(),
            wanted == key_views(requested@),
            key_views(known@) =~= wanted.take(index as int),
            key_views(known@).no_duplicates(),
        decreases requested@.len() - index,
    {
        let ghost before = known@;
        let added = insert_distinct(&mut known, copy_bytes(&requested[index]));
        if !added {
            proof {
                let j = choose|j: int|
                    0 <= j < key_views(before).len() && key_views(before)[j]
                        == requested@[index as int]@;
                assert(wanted[j] == wanted[index as int]);
            }
            return Err(StorageGroupSnapshotError::DuplicateManifestKey);
        }
        proof {
            assert(key_views(known@) =~= key_views(before).push(requested@[index as int]@));
        }
        index += 1;
    }
    assert(wanted.take(index as int) =~= wanted);
    assert(wanted.no_duplicates());

    let mut keys: Vec<Vec<u8>> = Vec::new();
    let mut slots: Vec<Option<R>> = Vec::new();
    for item in iter: returned
        invariant
            iter.seq() == all,
            wanted == key_views(requested@),
            wanted.no_duplicates(),
            key_views(keys@) =~= returned_keys(all).take(iter.index() as int),
            key_views(keys@).no_duplicates(),
            forall|i: int|
                0 <= i < keys@.len() ==> wanted.contains(#[trigger] key_views(keys@)[i]),
            slots@.len() == keys@.len(),
            forall|i: int| 0 <= i < slots@.len() ==> #[trigger] slots@[i] == Some(all[i].1),
    {
        let ghost at = iter.index() as int;
        let ghost before = keys@;
        assert(item == all[at]);
        assert(returned_keys(all)[at] == item.0@);
        let (key, record) = item;
        let unrequested = position(requested, &key).is_none();
        if unrequested {
            proof {
                assert(returned_keys(all).contains(returned_keys(all)[at]));
                assert(returned_keys(all).to_set().contains(key@));
                assert(!wanted.to_set().contains(key@));
            }
            return Err(StorageGroupSnapshotError::ResponseKeySetMismatch);
        }
        assert(wanted.contains(key@)) by {
            let found = choose|found: int|
                0 <= found < requested@.len() && (#[trigger] requested@[found])@ == key@;
            assert(wanted[found] == key@);
        }
        let added = insert_distinct(&mut keys, key);
        if !added {
            proof {
                let j = choose|j: int|
                    0 <= j < key_views(before).len() && key_views(before)[j] == key@;
                assert(returned_keys(all)[j] == returned_keys(all)[at]);
            }
            return Err(StorageGroupSnapshotError::ResponseKeySetMismatch);
        }
        slots.push(Some(record));
        proof {
            assert(key_views(keys@) =~= key_views(before).push(key@));
        }
    }
    proof {
        assert(returned_keys(all).take(all.len() as int) =~= returned_keys(all));
        assert forall|i: int| 0 <= i < returned_keys(all).len() implies wanted.contains(
            #[trigger] returned_keys(all)[i],
        ) by {
            assert(returned_keys(all)[i] == key_views(keys@)[i]);
        }
        lemma_equal_count_is_same_set(wanted, returned_keys(all));
    }
    if keys.len() != requested.len() {
        return Err(StorageGroupSnapshotError::ResponseKeySetMismatch);
    }
    let mut records: Vec<R> = Vec::new();
    let mut next: usize = 0;
    while next < requested.len()
        invariant
            next <= requested@.len(),
            wanted == key_views(requested@),
            same_key_sets(wanted, returned_keys(all)),
            key_views(keys@) == returned_keys(all),
            keys@.len() == all.len(),
            slots@.len() == keys@.len(),
            records@.len() == next,
            forall|i: int|
                0 <= i < slots@.len() && (forall|k: int|
                    0 <= k < next ==> wanted[k] != key_views(keys@)[i]) ==> #[trigger] slots@[i]
                    == Some(all[i].1),
            forall|i: int, j: int|
                #![trigger requested@[i], all[j]]
                0 <= i < next && 0 <= j < all.len() && requested@[i]@ == all[j].0@ ==> records@[i]
                    == all[j].1,
        decreases requested@.len() - next,
    {
        let found = position(&keys, &requested[next]);
        proof {
            assert(wanted[next as int] == requested@[next as int]@);
            assert(wanted.contains(wanted[next as int]));
            assert(wanted.to_set().contains(wanted[next as int]));
            assert(returned_keys(all).to_set().contains(wanted[next as int]));
            assert(found is Some);
        }
        let place: usize = match found {
            Some(place) => place,
            None => {
                return Err(StorageGroupSnapshotError::ResponseKeySetMismatch);
            },
        };
        proof {
            assert(key_views(keys@)[place as int] == wanted[next as int]);
            assert(slots@[place as int] == Some(all[place as int].1));
        }
        let ghost slots_before = slots@;
        let mut slot: Option<R> = None;
        std::mem::swap(&mut slot, &mut slots[place]);
        match slot {
            Some(record) => records.push(record),
            None => {
                return Err(StorageGroupSnapshotError::ResponseKeySetMismatch);
            },
        }
        proof {
            assert forall|i: int, j: int|
                #![trigger requested@[i], all[j]]
                0 <= i < next + 1 && 0 <= j < all.len() && requested@[i]@
                    == all[j].0@ implies records@[i] == all[j].1 by {
                if i == next {
                    assert(returned_keys(all)[j] == all[j].0@);
                    assert(returned_keys(all)[place as int] == wanted[next as int]);
                    assert(j == place);
                }
            }
        }
        next += 1;
    }
    Ok(records)
}

/// Whether a record describes a group by a key of the right length.
pub open spec fn is_group_record(record: StorageRecord) -> bool {
    record matches StorageRecord::GroupV2 { master_key } && master_key@.len() == 32
}

/// The key bytes of a group record.
pub open spec fn record_key(record: StorageRecord) -> Seq<u8> {
    match record {
        StorageRecord::GroupV2 { master_key } => master_key@,
        StorageRecord::Other => Seq::empty(),
    }
}

/// Whether records describe groups, each a different one.
pub open spec fn are_distinct_group_records(records: Seq<StorageRecord>) -> bool {
    &&& forall|i: int| 0 <= i < records.len() ==> is_group_record(#[trigger] records[i])
    &&& forall|i: int, j: int|
        #![trigger records[i], records[j]]
        0 <= i < j < records.len() ==> record_key(records[i]) != record_key(records[j])
}

/// The keys of the groups that the storage records describe.
pub fn manifest_group_keys(records: &[StorageRecord]) -> (keys: Result<
    Vec<GroupMasterKeyBytes>,
    Error,
>)
    ensures
        match keys {
            Ok(ks) => {
                &&& are_distinct_group_records(records@)
                &&& ks@.len() == records@.len()
                &&& forall|i: int|
                    0 <= i < ks@.len() ==> (#[trigger] ks@[i])@ == record_key(records@[i])
                &&& ks@.no_duplicates()
            },
            Err(error) => error is InvalidStorageGroupRecord && !are_distinct_group_records(
                records@,
            ),
        },
{
    let mut keys: Vec<GroupMasterKeyBytes> = Vec::new();
    let mut index: usize = 0;
    while index < records.len()
        invariant
            index <= records@.len(),
            keys@.len() == index,
            forall|i: int| 0 <= i < index ==> is_group_record(#[trigger] records@[i]),
            forall|i: int| 0 <= i < index ==> (#[trigger] keys@[i])@ == record_key(records@[i]),
            keys@.no_duplicates(),
        decreases records@.len() - index,
    {
        let key = match &records[index] {
            StorageRecord::GroupV2 { master_key } => key_from_bytes(master_key),
            StorageRecord::Other => None,
        };
        match key {
            Some(key) => {
                let ghost before = keys@;
                if !insert_key(&mut keys, key) {
                    proof {
                        let i = choose|i: int| 0 <= i < before.len() && before[i] == key;
                        assert(before[i]@ == record_key(records@[i]));
                        assert(record_key(records@[i]) == record_key(records@[index as int]));
                    }
                    return Err(Error::InvalidStorageGroupRecord);
                }
            },
            None => {
                assert(!is_group_record(records@[index as int]));
                return Err(Error::InvalidStorageGroupRecord);
            },
        }
        index += 1;
    }
    proof {
        assert forall|i: int, j: int|
            #![trigger records@[i], records@[j]]
            0 <= i < j < records@.len() implies record_key(records@[i]) != record_key(records@[j]) by {
            if record_key(records@[i]) == record_key(records@[j]) {
                assert(keys@[i]@ == keys@[j]@);
                assert forall|k: int| 0 <= k < 32 implies keys@[i][k] == keys@[j][k] by {
                    assert(keys@[i]@[k] == keys@[j]@[k]);
                }
                assert(keys@[i] =~= keys@[j]);
            }
        }
    }
    Ok(keys)
}

/// The key material for reading the records, if the manifest has any.
pub fn record_key_material(manifest: &ManifestRecord) -> (material: Option<&[u8]>)
    ensures
        material is Some <==> manifest.record_ikm@.len() > 0,
        material matches Some(m) ==> m@ == manifest.record_ikm@,
{
    if manifest.record_ikm.len() == 0 {
        None
    } else {
        Some(manifest.record_ikm.as_slice())
    }
}

/// The master key, without which the account's storage cannot be read.
pub fn require_master_key<M>(master_key: Option<M>) -> (key: Result<M, Error>)
    ensures
        match key {
            Ok(k) => master_key == Some(k),
            Err(Error::MissingKeyError(name)) => master_key is None && name@ == "master key"@,
            Err(_) => false,
        },
{
    match master_key {
        Some(key) => Ok(key),
        None => Err(Error::MissingKeyError("master key")),
    }
}

/// The keys of the storage items to request for the account's groups.
pub fn requested_group_items(manifest: &ManifestRecord) -> (keys: Result<Vec<Vec<u8>>, Error>)
    ensures
        match keys {
            Ok(ks) => {
                &&& key_views(ks@) == group_item_keys(manifest.identifiers@)
                &&& key_views(ks@).no_duplicates()
            },
            Err(error) => {
                &&& error is InvalidStorageGroupRecord
                &&& !group_item_keys(manifest.identifiers@).no_duplicates()
            },
        },
{
    match storage_group_item_keys(manifest) {
        Ok(keys) => Ok(keys),
        Err(_) => Err(Error::InvalidStorageGroupRecord),
    }
}

/// The keys of the account's groups by the storage records that came for the requested items.
pub fn snapshot_group_keys(
    requested: &[Vec<u8>],
    returned: Vec<(Vec<u8>, StorageRecord)>,
) -> (keys: Result<Vec<GroupMasterKeyBytes>, Error>)
    ensures
        match keys {
            Ok(ks) => {
                &&& same_key_sets(key_views(requested@), returned_keys(returned@))
                &&& ks@.no_duplicates()
                &&& ks@.len() == requested@.len()
                &&& forall|i: int, j: int|
                    #![trigger requested@[i], returned@[j]]
                    0 <= i < requested@.len() && 0 <= j < returned@.len() && requested@[i]@
                        == returned@[j].0@ ==> is_group_record(returned@[j].1) && ks@[i]@
                        == record_key(returned@[j].1)
            },
            Err(Error::IncompleteStorageGroupSnapshot) => !same_key_sets(
                key_views(requested@),
                returned_keys(returned@),
            ),
            Err(Error::InvalidStorageGroupRecord) => {
                &&& same_key_sets(key_views(requested@), returned_keys(returned@))
                &&& !are_distinct_group_records(
                    returned@.map_values(|item: (Vec<u8>, StorageRecord)| item.1),
                )
            },
            Err(_) => false,
        },
{
    let ghost all = returned@;
    let records = match match_storage_group_records(requested, returned) {
        Ok(records) => records,
        Err(_) => {
            return Err(Error::IncompleteStorageGroupSnapshot);
        },
    };
    proof {
        lemma_reordered_records(key_views(requested@), requested@, all, records@);
    }
    manifest_group_keys(&records)
}

/// Whether records are distinct group records does not depend on their order.
proof fn lemma_reordered_records(
    wanted: Seq<Seq<u8>>,
    requested: Seq<Vec<u8>>,
    returned: Seq<(Vec<u8>, StorageRecord)>,
    records: Seq<StorageRecord>,
)
    requires
        wanted == key_views(requested),
        same_key_sets(wanted, returned_keys(returned)),
        records.len() == requested.len(),
        forall|i: int, j: int|
            #![trigger requested[i], returned[j]]
            0 <= i < requested.len() && 0 <= j < returned.len() && requested[i]@ == returned[j].0@
                ==> records[i] == returned[j].1,
    ensures
        are_distinct_group_records(
            returned.map_values(|item: (Vec<u8>, StorageRecord)| item.1),
        ) ==> are_distinct_group_records(records),
        are_distinct_group_records(records) ==> forall|i: int, j: int|
            #![trigger requested[i], returned[j]]
            0 <= i < requested.len() && 0 <= j < returned.len() && requested[i]@ == returned[j].0@
                ==> is_group_record(returned[j].1),
{
    let came = returned.map_values(|item: (Vec<u8>, StorageRecord)| item.1);
    let arrived = returned_keys(returned);
    assert forall|i: int| #![trigger records[i]] 0 <= i < records.len() implies exists|j: int|
        0 <= j < returned.len() && requested[i]@ == (#[trigger] returned[j]).0@ && records[i]
            == returned[j].1 by {
        assert(wanted[i] == requested[i]@);
        assert(wanted.to_set().contains(wanted[i]));
        assert(arrived.to_set().contains(wanted[i]));
        let j = choose|j: int| 0 <= j < arrived.len() && arrived[j] == wanted[i];
        assert(returned[j].0@ == requested[i]@);
    }
    if are_distinct_group_records(came) {
        assert forall|i: int| 0 <= i < records.len() implies is_group_record(
            #[trigger] records[i],
        ) by {
            let j = choose|j: int|
                0 <= j < returned.len() && requested[i]@ == (#[trigger] returned[j]).0@
                    && records[i] == returned[j].1;
            assert(is_group_record(came[j]));
        }
        assert forall|a: int, b: int|
            #![trigger records[a], records[b]]
            0 <= a < b < records.len() implies record_key(records[a]) != record_key(records[b]) by {
            let j = choose|j: int|
                0 <= j < returned.len() && requested[a]@ == (#[trigger] returned[j]).0@
                    && records[a] == returned[j].1;
            let k = choose|k: int|
                0 <= k < returned.len() && requested[b]@ == (#[trigger] returned[k]).0@
                    && records[b] == returned[k].1;
            assert(wanted[a] != wanted[b]);
            assert(j != k);
            assert(came[j] == records[a] && came[k] == records[b]);
            if j < k {
                assert(record_key(came[j]) != record_key(came[k]));
            } else {
                assert(record_key(came[k]) != record_key(came[j]));
            }
        }
    }
    if are_distinct_group_records(records) {
        assert forall|i: int, j: int|
            #![trigger requested[i], returned[j]]
            0 <= i < requested.len() && 0 <= j < returned.len() && requested[i]@
                == returned[j].0@ implies is_group_record(returned[j].1) by {
            assert(is_group_record(records[i]));
        }
    }
}

/// Whether the current state of a candidate shows that the account is a member.
pub open spec fn shows_membership<D>(state: Option<ServiceGroup<D>>, own_aci: u128) -> bool {
    state matches Some(group) && is_member(group.members@, own_aci)
}

/// The keys of the first candidates whose current state shows the account as a member.
pub open spec fn active_keys<D>(
    candidates: Seq<GroupMasterKeyBytes>,
    observed: Seq<Option<ServiceGroup<D>>>,
    own_aci: u128,
) -> Seq<GroupMasterKeyBytes>
    decreases observed.len(),
{
    if observed.len() == 0 {
        Seq::empty()
    } else {
        let before = active_keys(candidates, observed.drop_last(), own_aci);
        if shows_membership(observed.last(), own_aci) {
            before.push(candidates[observed.len() - 1])
        } else {
            before
        }
    }
}

/// The keys of groups.
pub open spec fn keys_of_groups<D>(groups: Seq<(GroupMasterKeyBytes, Group<D>)>) -> Seq<
    GroupMasterKeyBytes,
> {
    groups.map_values(|entry: (GroupMasterKeyBytes, Group<D>)| entry.0)
}

/// What the store is to be brought in line with.
#[derive(Clone, Debug)]
pub struct Reconciliation<D> {
    /// The groups to store.
    pub active_groups: Vec<(GroupMasterKeyBytes, Group<D>)>,
    /// The keys of the stored groups to remove.
    pub stale_keys: Vec<GroupMasterKeyBytes>,
    /// The number of groups that are now stored.
    pub synchronized: usize,
}

/// A synchronization of the stored groups that is under way.
pub struct GroupSynchronization<D> {
    own_aci: u128,
    stored: Vec<GroupMasterKeyBytes>,
    candidates: Vec<GroupMasterKeyBytes>,
    next: usize,
    active: Vec<(GroupMasterKeyBytes, Group<D>)>,
    observed: Ghost<Seq<Option<ServiceGroup<D>>>>,
}

impl<D> GroupSynchronization<D> {
    /// The account.
    pub closed spec fn account(self) -> u128 {
        self.own_aci
    }

    /// The keys of the groups that were stored at the start.
    pub closed spec fn stored_keys(self) -> Seq<GroupMasterKeyBytes> {
        self.stored@
    }

    /// The keys of the groups whose current state is needed.
    pub closed spec fn candidate_keys(self) -> Seq<GroupMasterKeyBytes> {
        self.candidates@
    }

    /// The states that were observed so far, in the order of the candidates. An inactive group has
    /// no state.
    pub closed spec fn observations(self) -> Seq<Option<ServiceGroup<D>>> {
        self.observed@
    }

    /// What holds throughout a synchronization.
    pub closed spec fn wf(self) -> bool {
        &&& self.candidates@.no_duplicates()
        &&& forall|key: GroupMasterKeyBytes|
            #[trigger] self.stored@.contains(key) ==> self.candidates@.contains(key)
        &&& self.next == self.observed@.len()
        &&& self.next <= self.candidates@.len()
        &&& keys_of_groups(self.active@) == active_keys(
            self.candidates@,
            self.observed@,
            self.own_aci,
        )
        &&& forall|i: int|
            0 <= i < self.active@.len() ==> Self::stored_as_observed(
                self.candidates@,
                self.observed@,
                #[trigger] self.active@[i],
            )
    }

    /// Whether a group is to be stored as its state was observed.
    pub open spec fn stored_as_observed(
        candidates: Seq<GroupMasterKeyBytes>,
        observed: Seq<Option<ServiceGroup<D>>>,
        entry: (GroupMasterKeyBytes, Group<D>),
    ) -> bool {
        exists|i: int|
            0 <= i < observed.len() && candidates[i] == entry.0 && (#[trigger] observed[i]) is Some
                && entry.1.describes(observed[i]->0)
    }

    /// Begins a synchronization with the groups of the manifest and those that are stored.
    pub fn begin(
        own_aci: u128,
        manifest: &[GroupMasterKeyBytes],
        stored: Vec<GroupMasterKeyBytes>,
    ) -> (sync: Self)
        ensures
            sync.wf(),
            sync.account() == own_aci,
            sync.stored_keys() == stored@,
            sync.observations() == Seq::<Option<ServiceGroup<D>>>::empty(),
            sync.candidate_keys() == crate::groups::distinct_keys(manifest@ + stored@),
            sync.candidate_keys().no_duplicates(),
            forall|key: GroupMasterKeyBytes|
                #[trigger] sync.candidate_keys().contains(key) <==> manifest@.contains(key)
                    || stored@.contains(key),
    {
        let candidates = group_candidate_keys(manifest, &stored);
        let active: Vec<(GroupMasterKeyBytes, Group<D>)> = Vec::new();
        assert(keys_of_groups(active@) =~= Seq::<GroupMasterKeyBytes>::empty());
        GroupSynchronization {
            own_aci,
            stored,
            candidates,
            next: 0,
            active,
            observed: Ghost(Seq::empty()),
        }
    }

    /// The key of the group whose current state is needed next, if one is.
    pub fn next_candidate(&self) -> (key: Option<GroupMasterKeyBytes>)
        requires
            self.wf(),
        ensures
            key is Some <==> self.observations().len() < self.candidate_keys().len(),
            key matches Some(k) ==> k == self.candidate_keys()[self.observations().len() as int],
    {
        if self.next < self.candidates.len() {
            Some(self.candidates[self.next])
        } else {
            None
        }
    }

    /// Records the current state of the next candidate. An inactive group has no state.
    pub fn observe(&mut self, state: Option<ServiceGroup<D>>)
        requires
            old(self).wf(),
            old(self).observations().len() < old(self).candidate_keys().len(),
        ensures
            final(self).wf(),
            final(self).account() == old(self).account(),
            final(self).stored_keys() == old(self).stored_keys(),
            final(self).candidate_keys() == old(self).candidate_keys(),
            final(self).observations() == old(self).observations().push(state),
    {
        let key = self.candidates[self.next];
        let ghost before = *self;
        let ghost observed = self.observed@.push(state);
        proof {
            assert(observed.drop_last() =~= before.observed@);
        }
        if let Some(group) = state {
            if let Some(entry) = active_group_from_snapshot(key, group, self.own_aci) {
                proof {
                    assert(observed[before.next as int] == Some(group));
                    assert(Self::stored_as_observed(self.candidates@, observed, entry));
                }
                self.active.push(entry);
                proof {
                    assert(keys_of_groups(self.active@) =~= keys_of_groups(before.active@).push(
                        key,
                    ));
                }
            }
        }
        assert(self.next < self.candidates.len());
        self.next = self.next + 1;
        self.observed = Ghost(observed);
        proof {
            assert forall|i: int| 0 <= i < self.active@.len() implies Self::stored_as_observed(
                self.candidates@,
                self.observed@,
                #[trigger] self.active@[i],
            ) by {
                if i < before.active@.len() {
                    assert(self.active@[i] == before.active@[i]);
                    let j = choose|j: int|
                        0 <= j < before.observed@.len() && before.candidates@[j]
                            == before.active@[i].0 && (#[trigger] before.observed@[j]) is Some
                            && before.active@[i].1.describes(before.observed@[j]->0);
                    assert(observed[j] == before.observed@[j]);
                }
            }
        }
    }

    /// What the store is to be brought in line with, once every candidate's state is known.
    pub fn finish(self) -> (plan: Reconciliation<D>)
        requires
            self.wf(),
            self.observations().len() == self.candidate_keys().len(),
        ensures
            keys_of_groups(plan.active_groups@) == active_keys(
                self.candidate_keys(),
                self.observations(),
                self.account(),
            ),
            forall|i: int|
                0 <= i < plan.active_groups@.len() ==> Self::stored_as_observed(
                    self.candidate_keys(),
                    self.observations(),
                    #[trigger] plan.active_groups@[i],
                ),
            plan.stale_keys@ == keys_outside(
                self.stored_keys(),
                keys_of_groups(plan.active_groups@),
            ),
            plan.synchronized == plan.active_groups@.len(),
    {
        let mut keys: Vec<GroupMasterKeyBytes> = Vec::new();
        let mut index: usize = 0;
        while index < self.active.len()
            invariant
                index <= self.active@.len(),
                keys@ =~= keys_of_groups(self.active@).take(index as int),
            decreases self.active@.len() - index,
        {
            keys.push(self.active[index].0);
            index += 1;
        }
        assert(keys@ =~= keys_of_groups(self.active@));
        let stale_keys = stale_group_keys(&self.stored, &keys);
        let synchronized = self.active.len();
        Reconciliation { active_groups: self.active, stale_keys, synchronized }
    }
}

impl<S> Manager<S, Registered> {
    /// Fetches the account's current group records from Signal Storage Service
    /// and refreshes their encrypted group metadata in the local store.
    ///
    /// Linked devices do not receive an authoritative legacy group snapshot.
    /// Storage Service is therefore required to discover existing groups that
    /// have not produced a message since this device was linked.
    ///
    /// `manifest` holds the keys of the groups of the records, and `stored` those of the groups
    /// that are stored. The current state of every candidate is to be observed before the store is
    /// changed, so that a partial snapshot never prunes a group.
    pub fn synchronize_storage_groups<D>(
        &self,
        manifest: &[GroupMasterKeyBytes],
        stored: Vec<GroupMasterKeyBytes>,
    ) -> (sync: GroupSynchronization<D>)
        ensures
            sync.wf(),
            sync.account() == self.state.data.service_ids.aci,
            sync.stored_keys() == stored@,
            sync.observations() == Seq::<Option<ServiceGroup<D>>>::empty(),
            sync.candidate_keys() == crate::groups::distinct_keys(manifest@ + stored@),
            sync.candidate_keys().no_duplicates(),
            forall|key: GroupMasterKeyBytes|
                #[trigger] sync.candidate_keys().contains(key) <==> manifest@.contains(key)
                    || stored@.contains(key),
    {
        GroupSynchronization::begin(self.registration_data().service_ids.aci, manifest, stored)
    }
}

/// The active keys are candidates, each once, and exactly those whose state shows membership.
pub proof fn lemma_active_keys<D>(
    candidates: Seq<GroupMasterKeyBytes>,
    observed: Seq<Option<ServiceGroup<D>>>,
    own_aci: u128,
)
    requires
        candidates.no_duplicates(),
        observed.len() <= candidates.len(),
    ensures
        active_keys(candidates, observed, own_aci).no_duplicates(),
        forall|i: int|
            0 <= i < observed.len() ==> (active_keys(candidates, observed, own_aci).contains(
                #[trigger] candidates[i],
            ) <==> shows_membership(observed[i], own_aci)),
        forall|i: int|
            observed.len() <= i < candidates.len() ==> !active_keys(
                candidates,
                observed,
                own_aci,
            ).contains(#[trigger] candidates[i]),
    decreases observed.len(),
{
    if observed.len() > 0 {
        let start = observed.drop_last();
        let last = observed.len() - 1;
        let before = active_keys(candidates, start, own_aci);
        let keys = active_keys(candidates, observed, own_aci);
        lemma_active_keys(candidates, start, own_aci);
        assert(!before.contains(candidates[last]));
        assert forall|i: int| 0 <= i < candidates.len() implies (keys.contains(
            #[trigger] candidates[i],
        ) <==> before.contains(candidates[i]) || (i == last && shows_membership(
            observed[last],
            own_aci,
        ))) by {
            if before.contains(candidates[i]) {
                let j = choose|j: int| 0 <= j < before.len() && before[j] == candidates[i];
                assert(keys[j] == candidates[i]);
            }
            if i == last && shows_membership(observed[last], own_aci) {
                assert(keys[before.len() as int] == candidates[i]);
            }
            if keys.contains(candidates[i]) {
                let j = choose|j: int| 0 <= j < keys.len() && keys[j] == candidates[i];
                if j < before.len() {
                    assert(before[j] == candidates[i]);
                }
            }
        }
        assert forall|i: int| 0 <= i < observed.len() implies (keys.contains(
            #[trigger] candidates[i],
        ) <==> shows_membership(observed[i], own_aci)) by {
            if i < last {
                assert(start[i] == observed[i]);
            }
        }
    }
}

/// Only a group whose current state was observed, and which shows that the account is no member,
/// is removed from the store.
pub proof fn law_only_observed_departures_are_pruned<D>(
    sync: GroupSynchronization<D>,
    plan: Reconciliation<D>,
    key: GroupMasterKeyBytes,
)
    requires
        sync.wf(),
        sync.observations().len() == sync.candidate_keys().len(),
        call_ensures(GroupSynchronization::<D>::finish, (sync,), plan),
        plan.stale_keys@.contains(key),
    ensures
        sync.stored_keys().contains(key),
        exists|i: int|
            0 <= i < sync.observations().len() && sync.candidate_keys()[i] == key
                && !shows_membership(#[trigger] sync.observations()[i], sync.account()),
{
    let active = keys_of_groups(plan.active_groups@);
    let outside = |k: GroupMasterKeyBytes| !active.contains(k);
    let at = choose|at: int| 0 <= at < plan.stale_keys@.len() && plan.stale_keys@[at] == key;
    crate::seqs::lemma_filtered_item_is_original(sync.stored_keys(), outside, at);
    sync.stored_keys().lemma_filter_pred(outside, at);
    lemma_active_keys(sync.candidate_keys(), sync.observations(), sync.account());
    assert(sync.candidate_keys().contains(key));
    let i = choose|i: int| 0 <= i < sync.candidate_keys().len() && sync.candidate_keys()[i] == key;
    assert(!shows_membership(sync.observations()[i], sync.account()));
}

/// A group that is stored, or that the manifest names, and whose current state shows the account
/// as a member is kept.
pub proof fn law_active_candidates_are_kept<D>(
    sync: GroupSynchronization<D>,
    plan: Reconciliation<D>,
    index: int,
)
    requires
        sync.wf(),
        sync.observations().len() == sync.candidate_keys().len(),
        call_ensures(GroupSynchronization::<D>::finish, (sync,), plan),
        0 <= index < sync.observations().len(),
        shows_membership(sync.observations()[index], sync.account()),
    ensures
        keys_of_groups(plan.active_groups@).contains(sync.candidate_keys()[index]),
        !plan.stale_keys@.contains(sync.candidate_keys()[index]),
{
    let active = keys_of_groups(plan.active_groups@);
    let outside = |k: GroupMasterKeyBytes| !active.contains(k);
    let key = sync.candidate_keys()[index];
    lemma_active_keys(sync.candidate_keys(), sync.observations(), sync.account());
    assert(active.contains(key));
    if plan.stale_keys@.contains(key) {
        let at = choose|at: int| 0 <= at < plan.stale_keys@.len() && plan.stale_keys@[at] == key;
        sync.stored_keys().lemma_filter_pred(outside, at);
    }
}

/// No group is stored twice, so that the reported number is that of the account's groups.
pub proof fn law_active_groups_are_distinct<D>(
    sync: GroupSynchronization<D>,
    plan: Reconciliation<D>,
)
    requires
        sync.wf(),
        sync.observations().len() == sync.candidate_keys().len(),
        call_ensures(GroupSynchronization::<D>::finish, (sync,), plan),
    ensures
        keys_of_groups(plan.active_groups@).no_duplicates(),
        plan.synchronized == keys_of_groups(plan.active_groups@).to_set().len(),
{
    lemma_active_keys(sync.candidate_keys(), sync.observations(), sync.account());
    keys_of_groups(plan.active_groups@).unique_seq_to_set();
}

/// Every group that is to be stored is stored as its state was observed: under the key of the
/// candidate that was observed, with the title, the picture, the members and whatever else was
/// observed, at the version that was observed.
pub proof fn law_active_groups_are_stored_as_observed<D>(
    sync: GroupSynchronization<D>,
    plan: Reconciliation<D>,
    at: int,
) -> (seen: int)
    requires
        sync.wf(),
        sync.observations().len() == sync.candidate_keys().len(),
        call_ensures(GroupSynchronization::<D>::finish, (sync,), plan),
        0 <= at < plan.active_groups@.len(),
    ensures
        0 <= seen < sync.observations().len(),
        plan.active_groups@[at].0 == sync.candidate_keys()[seen],
        sync.observations()[seen] matches Some(state) && {
            let group = plan.active_groups@[at].1;
            &&& group.title == state.title
            &&& group.avatar == state.avatar
            &&& group.revision == state.version
            &&& group.members == state.members
            &&& group.details == state.details
        },
{
    let entry = plan.active_groups@[at];
    assert(GroupSynchronization::<D>::stored_as_observed(
        sync.candidate_keys(),
        sync.observations(),
        entry,
    ));
    choose|i: int|
        0 <= i < sync.observations().len() && sync.candidate_keys()[i] == entry.0 && (
        #[trigger] sync.observations()[i]) is Some && entry.1.describes(sync.observations()[i]->0)
}

/// A candidate is to be stored exactly if its observed state lists the account; it is to be removed
/// exactly if it is stored and its state does not. The number that is reported is that of the groups
/// to store.
pub proof fn law_groups_of_the_account_are_stored<D>(
    sync: GroupSynchronization<D>,
    plan: Reconciliation<D>,
    index: int,
)
    requires
        sync.wf(),
        sync.observations().len() == sync.candidate_keys().len(),
        call_ensures(GroupSynchronization::<D>::finish, (sync,), plan),
        0 <= index < sync.observations().len(),
    ensures
        ({
            let key = sync.candidate_keys()[index];
            let listed = match sync.observations()[index] {
                Some(state) => exists|m: int|
                    0 <= m < state.members@.len() && (#[trigger] state.members@[m]).aci
                        == sync.account(),
                None => false,
            };
            &&& (exists|at: int|
                0 <= at < plan.active_groups@.len() && (#[trigger] plan.active_groups@[at]).0
                    == key) <==> listed
            &&& plan.stale_keys@.contains(key) <==> sync.stored_keys().contains(key) && !listed
        }),
        plan.synchronized == plan.active_groups@.len(),
{
    let keys = keys_of_groups(plan.active_groups@);
    let key = sync.candidate_keys()[index];
    lemma_active_keys(sync.candidate_keys(), sync.observations(), sync.account());
    assert(keys.contains(key) <==> shows_membership(sync.observations()[index], sync.account()));
    if keys.contains(key) {
        let at = choose|at: int| 0 <= at < keys.len() && keys[at] == key;
        assert(plan.active_groups@[at].0 == key);
    }
    if exists|at: int|
        0 <= at < plan.active_groups@.len() && (#[trigger] plan.active_groups@[at]).0 == key {
        let at = choose|at: int|
            0 <= at < plan.active_groups@.len() && (#[trigger] plan.active_groups@[at]).0 == key;
        assert(keys[at] == key);
    }
    let outside = |k: GroupMasterKeyBytes| !keys.contains(k);
    if sync.stored_keys().contains(key) {
        crate::groups::law_stored_groups_are_active_or_stale(sync.stored_keys(), keys, key);
    }
    if plan.stale_keys@.contains(key) {
        let at = choose|at: int| 0 <= at < plan.stale_keys@.len() && plan.stale_keys@[at] == key;
        crate::seqs::lemma_filtered_item_is_original(sync.stored_keys(), outside, at);
    }
}

/// What is observed is kept: each observation is of the next candidate, after those before it, and
/// changes nothing else. So the observations of a whole synchronization are those that were made, in
/// the order of the candidates.
pub proof fn law_observations_are_kept_in_order<D>(
    sync: &mut GroupSynchronization<D>,
    state: Option<ServiceGroup<D>>,
    next: Option<GroupMasterKeyBytes>,
    after: Option<GroupMasterKeyBytes>,
)
    requires
        old(sync).wf(),
        call_ensures(GroupSynchronization::<D>::next_candidate, (&*old(sync),), next),
        next is Some,
        call_ensures(GroupSynchronization::<D>::observe, (sync, state), ()),
        call_ensures(GroupSynchronization::<D>::next_candidate, (&*final(sync),), after),
    ensures
        ({
            let made = old(sync).observations().len() as int;
            &&& next == Some(old(sync).candidate_keys()[made])
            &&& final(sync).observations().len() == made + 1
            &&& final(sync).observations()[made] == state
            &&& forall|i: int|
                0 <= i < made ==> #[trigger] final(sync).observations()[i] == old(
                    sync,
                ).observations()[i]
            &&& after is Some <==> made + 1 < old(sync).candidate_keys().len()
            &&& after matches Some(key) ==> key == old(sync).candidate_keys()[made + 1]
        }),
        final(sync).candidate_keys() == old(sync).candidate_keys(),
        final(sync).stored_keys() == old(sync).stored_keys(),
        final(sync).account() == old(sync).account(),
{
}

/// A synchronization is for the account, and needs the state of every group that the manifest names
/// or that is stored, each once. Nothing is observed at its start.
pub proof fn law_synchronization_covers_every_group<S, D>(
    manager: &Manager<S, Registered>,
    manifest: &[GroupMasterKeyBytes],
    stored: Vec<GroupMasterKeyBytes>,
    sync: GroupSynchronization<D>,
    key: GroupMasterKeyBytes,
)
    requires
        call_ensures(
            Manager::<S, Registered>::synchronize_storage_groups::<D>,
            (manager, manifest, stored),
            sync,
        ),
    ensures
        sync.wf(),
        sync.account() == manager.state.data.service_ids.aci,
        sync.observations().len() == 0,
        sync.stored_keys() == stored@,
        sync.candidate_keys().contains(key) <==> manifest@.contains(key) || stored@.contains(key),
        forall|i: int, j: int|
            0 <= i < j < sync.candidate_keys().len() ==> sync.candidate_keys()[i]
                != sync.candidate_keys()[j],
{
}

/// The items that are requested are those that the manifest names as groups, and no others, each
/// once; a manifest that names one of them twice is refused.
pub proof fn law_group_items_are_requested_once(
    manifest: &ManifestRecord,
    keys: Result<Vec<Vec<u8>>, Error>,
    k: int,
)
    requires
        call_ensures(requested_group_items, (manifest,), keys),
    ensures
        ({
            let items = manifest.identifiers@;
            &&& keys is Err <==> exists|i: int, j: int|
                #![trigger items[i], items[j]]
                0 <= i < j < items.len() && items[i].item_type == IdentifierType::GroupV2
                    && items[j].item_type == IdentifierType::GroupV2 && items[i].raw@
                    == items[j].raw@
            &&& keys matches Err(error) ==> error is InvalidStorageGroupRecord
            &&& keys matches Ok(requested) ==> {
                &&& forall|i: int|
                    0 <= i < items.len() && (#[trigger] items[i]).item_type
                        == IdentifierType::GroupV2 ==> exists|k: int|
                        0 <= k < requested@.len() && (#[trigger] requested@[k])@ == items[i].raw@
                &&& 0 <= k < requested@.len() ==> exists|i: int|
                    0 <= i < items.len() && (#[trigger] items[i]).item_type
                        == IdentifierType::GroupV2 && items[i].raw@ == requested@[k]@
                &&& forall|j: int|
                    0 <= j < requested@.len() && 0 <= k < requested@.len() && j != k ==> (
                    #[trigger] requested@[j])@ != requested@[k]@
            }
        }),
{
    let items = manifest.identifiers@;
    let is_group = |item: Identifier| item.item_type == IdentifierType::GroupV2;
    let raw = |item: Identifier| item.raw@;
    let named = group_item_keys(items);
    let places = lemma_group_item_places(items);
    assert(keys is Err <==> !named.no_duplicates());
    if exists|i: int, j: int|
        #![trigger items[i], items[j]]
        0 <= i < j < items.len() && items[i].item_type == IdentifierType::GroupV2
            && items[j].item_type == IdentifierType::GroupV2 && items[i].raw@ == items[j].raw@ {
        let (i, j) = choose|i: int, j: int|
            #![trigger items[i], items[j]]
            0 <= i < j < items.len() && items[i].item_type == IdentifierType::GroupV2
                && items[j].item_type == IdentifierType::GroupV2 && items[i].raw@ == items[j].raw@;
        assert(places.contains(i) && places.contains(j));
        let a = choose|a: int| 0 <= a < places.len() && places[a] == i;
        let b = choose|b: int| 0 <= b < places.len() && places[b] == j;
        assert(named[a] == items[places[a]].raw@ && named[b] == items[places[b]].raw@);
        assert(a != b && named[a] == named[b]);
        assert(!named.no_duplicates());
    }
    if !named.no_duplicates() {
        let (a, b) = choose|a: int, b: int|
            0 <= a < named.len() && 0 <= b < named.len() && a != b && named[a] == named[b];
        let (x, y) = if a < b {
            (a, b)
        } else {
            (b, a)
        };
        assert(places[x] < places[y]);
        assert(items[places[x]].raw@ == items[places[y]].raw@);
    }
    if let Ok(requested) = keys {
        assert(key_views(requested@) == named);
        assert forall|k: int| 0 <= k < requested@.len() implies (#[trigger] requested@[k])@
            == named[k] by {
            assert(key_views(requested@)[k] == requested@[k]@);
        }
        assert forall|i: int|
            0 <= i < items.len() && (#[trigger] items[i]).item_type
                == IdentifierType::GroupV2 implies exists|k: int|
            0 <= k < requested@.len() && (#[trigger] requested@[k])@ == items[i].raw@ by {
            assert(places.contains(i));
            let k = choose|k: int| 0 <= k < places.len() && places[k] == i;
            assert(named[k] == items[places[k]].raw@);
            assert(requested@[k]@ == items[i].raw@);
        }
        if 0 <= k < requested@.len() {
            assert(requested@[k]@ == named[k]);
            assert(named[k] == items[places[k]].raw@);
            assert(items[places[k]].item_type == IdentifierType::GroupV2);
            assert forall|j: int| 0 <= j < requested@.len() && j != k implies (
            #[trigger] requested@[j])@ != requested@[k]@ by {
                assert(named[j] != named[k]);
            }
        }
    }
}

/// Where the group items of a manifest stand.
proof fn lemma_group_item_places(items: Seq<Identifier>) -> (places: Seq<int>)
    ensures
        places.len() == group_item_keys(items).len(),
        forall|k: int|
            #![trigger places[k]]
            0 <= k < places.len() ==> 0 <= places[k] < items.len() && items[places[k]].item_type
                == IdentifierType::GroupV2 && group_item_keys(items)[k] == items[places[k]].raw@,
        forall|j: int, k: int|
            #![trigger places[j], places[k]]
            0 <= j < k < places.len() ==> places[j] < places[k],
        forall|i: int|
            0 <= i < items.len() && (#[trigger] items[i]).item_type == IdentifierType::GroupV2
                ==> places.contains(i),
    decreases items.len(),
{
    reveal(Seq::filter);
    if items.len() == 0 {
        Seq::empty()
    } else {
        let start = items.drop_last();
        let last = items.len() - 1;
        let before = lemma_group_item_places(start);
        let places = if items.last().item_type == IdentifierType::GroupV2 {
            before.push(last)
        } else {
            before
        };
        assert forall|k: int| #![trigger places[k]] 0 <= k < places.len() implies 0 <= places[k]
            < items.len() && items[places[k]].item_type == IdentifierType::GroupV2
            && group_item_keys(items)[k] == items[places[k]].raw@ by {
            if k < before.len() {
                assert(places[k] == before[k]);
                assert(start[before[k]] == items[before[k]]);
                assert(group_item_keys(items)[k] == group_item_keys(start)[k]);
            }
        }
        assert forall|i: int|
            0 <= i < items.len() && (#[trigger] items[i]).item_type
                == IdentifierType::GroupV2 implies places.contains(i) by {
            if i < last {
                assert(start[i] == items[i]);
                let k = choose|k: int| 0 <= k < before.len() && before[k] == i;
                assert(places[k] == i);
            } else {
                assert(places[before.len() as int] == i);
            }
        }
        places
    }
}

/// The keys of the account's groups are those in the records that came, each for the item that was
/// requested under the record's key, in the order of the requests. Every record must be that of a
/// group with a key, no two of the same group, and exactly the requested ones must have come.
pub proof fn law_snapshot_holds_the_keys_of_its_records(
    requested: &[Vec<u8>],
    returned: Vec<(Vec<u8>, StorageRecord)>,
    keys: Result<Vec<GroupMasterKeyBytes>, Error>,
    index: int,
)
    requires
        call_ensures(snapshot_group_keys, (requested, returned), keys),
    ensures
        keys matches Ok(ks) ==> {
            &&& ks@.len() == requested@.len()
            &&& returned@.len() == requested@.len()
            &&& forall|i: int, j: int|
                0 <= i < j < ks@.len() ==> ks@[i] != ks@[j]
            &&& 0 <= index < requested@.len() ==> exists|j: int|
                0 <= j < returned@.len() && (#[trigger] returned@[j]).0@ == requested@[index]@
            &&& forall|i: int, j: int|
                #![trigger requested@[i], returned@[j]]
                0 <= i < requested@.len() && 0 <= j < returned@.len() && requested@[i]@
                    == returned@[j].0@ ==> (
                returned@[j].1 matches StorageRecord::GroupV2 { master_key } && ks@[i]@
                    == master_key@)
        },
        returned@.len() != requested@.len() ==> keys matches Err(
            Error::IncompleteStorageGroupSnapshot,
        ),
        keys matches Err(error) ==> error is IncompleteStorageGroupSnapshot
            || error is InvalidStorageGroupRecord,
{
    if same_key_sets(key_views(requested@), returned_keys(returned@)) {
        key_views(requested@).unique_seq_to_set();
        returned_keys(returned@).unique_seq_to_set();
    }
    if let Ok(ks) = keys {
        let wanted = key_views(requested@);
        let arrived = returned_keys(returned@);
        assert(wanted.no_duplicates() && arrived.no_duplicates());
        wanted.unique_seq_to_set();
        arrived.unique_seq_to_set();
        if 0 <= index < requested@.len() {
            assert(wanted[index] == requested@[index]@);
            assert(wanted.to_set().contains(wanted[index]));
            assert(arrived.to_set().contains(wanted[index]));
            let j = choose|j: int| 0 <= j < arrived.len() && arrived[j] == wanted[index];
            assert(returned@[j].0@ == arrived[j]);
        }
    }
}

/// A complete snapshot is read: where exactly the requested records came, each once, and each is that
/// of another group with a key, there is no error. Where they came, the only error is one in a record.
pub proof fn law_complete_snapshot_is_read(
    requested: &[Vec<u8>],
    returned: Vec<(Vec<u8>, StorageRecord)>,
    keys: Result<Vec<GroupMasterKeyBytes>, Error>,
)
    requires
        call_ensures(snapshot_group_keys, (requested, returned), keys),
        returned@.len() == requested@.len(),
        forall|i: int, j: int|
            #![trigger requested@[i], requested@[j]]
            0 <= i < j < requested@.len() ==> requested@[i]@ != requested@[j]@,
        forall|i: int, j: int|
            #![trigger returned@[i], returned@[j]]
            0 <= i < j < returned@.len() ==> returned@[i].0@ != returned@[j].0@,
        forall|j: int|
            0 <= j < returned@.len() ==> requested@.map_values(|key: Vec<u8>| key@).contains(
                (#[trigger] returned@[j]).0@,
            ),
    ensures
        keys matches Err(error) ==> error is InvalidStorageGroupRecord,
        (forall|j: int|
            0 <= j < returned@.len() ==> ((
            #[trigger] returned@[j]).1 matches StorageRecord::GroupV2 { master_key }
                && master_key@.len() == 32)) && (forall|i: int, j: int|
            #![trigger returned@[i], returned@[j]]
            0 <= i < j < returned@.len() ==> returned@[i].1->master_key@
                != returned@[j].1->master_key@) ==> keys is Ok,
{
    let wanted = key_views(requested@);
    let arrived = returned_keys(returned@);
    assert forall|i: int, j: int|
        0 <= i < wanted.len() && 0 <= j < wanted.len() && i != j implies wanted[i] != wanted[j] by {
        assert(wanted[i] == requested@[i]@ && wanted[j] == requested@[j]@);
    }
    assert forall|i: int, j: int|
        0 <= i < arrived.len() && 0 <= j < arrived.len() && i != j implies arrived[i]
        != arrived[j] by {
        assert(arrived[i] == returned@[i].0@ && arrived[j] == returned@[j].0@);
    }
    assert forall|i: int| 0 <= i < arrived.len() implies wanted.contains(#[trigger] arrived[i]) by {
        assert(arrived[i] == returned@[i].0@);
        assert(requested@.map_values(|key: Vec<u8>| key@) =~= wanted);
    }
    lemma_equal_count_is_same_set(wanted, arrived);
    let records = returned@.map_values(|item: (Vec<u8>, StorageRecord)| item.1);
    if (forall|j: int|
        0 <= j < returned@.len() ==> ((
        #[trigger] returned@[j]).1 matches StorageRecord::GroupV2 { master_key }
            && master_key@.len() == 32)) && (forall|i: int, j: int|
        #![trigger returned@[i], returned@[j]]
        0 <= i < j < returned@.len() ==> returned@[i].1->master_key@
            != returned@[j].1->master_key@) {
        assert forall|i: int| 0 <= i < records.len() implies is_group_record(
            #[trigger] records[i],
        ) by {
            assert(records[i] == returned@[i].1);
        }
        assert forall|i: int, j: int|
            #![trigger records[i], records[j]]
            0 <= i < j < records.len() implies record_key(records[i]) != record_key(records[j]) by {
            assert(records[i] == returned@[i].1 && records[j] == returned@[j].1);
        }
        assert(are_distinct_group_records(records));
    }
}

/// The keys of the account's groups come from the records in their order; a record that is not that of
/// a group, that has no key of the right length or that repeats a group is refused.
pub proof fn law_records_name_their_groups(
    records: &[StorageRecord],
    keys: Result<Vec<GroupMasterKeyBytes>, Error>,
)
    requires
        call_ensures(manifest_group_keys, (records,), keys),
    ensures
        keys matches Ok(ks) ==> ks@.len() == records@.len() && forall|i: int|
            0 <= i < records@.len() ==> (
            #[trigger] records@[i] matches StorageRecord::GroupV2 { master_key } && ks@[i]@
                == master_key@ && master_key@.len() == 32),
        keys is Err ==> (exists|i: int|
            0 <= i < records@.len() && match #[trigger] records@[i] {
                StorageRecord::GroupV2 { master_key } => master_key@.len() != 32,
                StorageRecord::Other => true,
            }) || (exists|i: int, j: int|
            #![trigger records@[i], records@[j]]
            0 <= i < j < records@.len() && records@[i]->master_key@ == records@[j]->master_key@),
{
    if let Ok(ks) = keys {
        assert forall|i: int| 0 <= i < records@.len() implies (
        #[trigger] records@[i] matches StorageRecord::GroupV2 { master_key } && ks@[i]@
            == master_key@ && master_key@.len() == 32) by {
            assert(is_group_record(records@[i]));
            assert(ks@[i]@ == record_key(records@[i]));
        }
    } else if forall|i: int| 0 <= i < records@.len() ==> is_group_record(#[trigger] records@[i]) {
        let (i, j) = choose|i: int, j: int|
            #![trigger records@[i], records@[j]]
            0 <= i < j < records@.len() && record_key(records@[i]) == record_key(records@[j]);
        assert(is_group_record(records@[i]) && is_group_record(records@[j]));
        assert(records@[i]->master_key@ == records@[j]->master_key@);
    } else {
        let i = choose|i: int| 0 <= i < records@.len() && !is_group_record(#[trigger] records@[i]);
        assert(match records@[i] {
            StorageRecord::GroupV2 { master_key } => master_key@.len() != 32,
            StorageRecord::Other => true,
        });
    }
}

/// The records that came are put in the order of the requests: the record for each requested key is
/// the one that came under it. Where exactly the requested ones came, each once, there is no error.
pub proof fn law_records_are_matched_by_their_keys<R>(
    requested: &[Vec<u8>],
    returned: Vec<(Vec<u8>, R)>,
    records: Result<Vec<R>, StorageGroupSnapshotError>,
    i: int,
    j: int,
)
    requires
        call_ensures(match_storage_group_records::<R>, (requested, returned), records),
        0 <= i < requested@.len(),
        0 <= j < returned@.len(),
    ensures
        records matches Ok(rs) ==> {
            &&& rs@.len() == requested@.len()
            &&& returned@.len() == requested@.len()
            &&& requested@[i]@ == returned@[j].0@ ==> rs@[i] == returned@[j].1
        },
        ({
            &&& returned@.len() == requested@.len()
            &&& forall|a: int, b: int|
                #![trigger requested@[a], requested@[b]]
                0 <= a < b < requested@.len() ==> requested@[a]@ != requested@[b]@
            &&& forall|a: int, b: int|
                #![trigger returned@[a], returned@[b]]
                0 <= a < b < returned@.len() ==> returned@[a].0@ != returned@[b].0@
            &&& forall|a: int|
                0 <= a < returned@.len() ==> requested@.map_values(
                    |key: Vec<u8>| key@,
                ).contains((#[trigger] returned@[a]).0@)
        }) ==> records is Ok,
        records matches Err(StorageGroupSnapshotError::DuplicateManifestKey) ==> exists|
            a: int,
            b: int,
        |
            #![trigger requested@[a], requested@[b]]
            0 <= a < b < requested@.len() && requested@[a]@ == requested@[b]@,
{
    let wanted = key_views(requested@);
    let arrived = returned_keys(returned@);
    if records matches Err(StorageGroupSnapshotError::DuplicateManifestKey) {
        let (a, b) = choose|a: int, b: int|
            0 <= a < wanted.len() && 0 <= b < wanted.len() && a != b && wanted[a] == wanted[b];
        assert(requested@[a]@ == wanted[a] && requested@[b]@ == wanted[b]);
    }
    if records is Ok {
        wanted.unique_seq_to_set();
        arrived.unique_seq_to_set();
        assert(requested@[i]@ == returned@[j].0@ ==> records->Ok_0@[i] == returned@[j].1);
    }
    if returned@.len() == requested@.len() && (forall|a: int, b: int|
        #![trigger requested@[a], requested@[b]]
        0 <= a < b < requested@.len() ==> requested@[a]@ != requested@[b]@) && (forall|
        a: int,
        b: int,
    |
        #![trigger returned@[a], returned@[b]]
        0 <= a < b < returned@.len() ==> returned@[a].0@ != returned@[b].0@) && (forall|a: int|
        0 <= a < returned@.len() ==> requested@.map_values(|key: Vec<u8>| key@).contains(
            (#[trigger] returned@[a]).0@,
        )) {
        assert forall|a: int, b: int|
            0 <= a < wanted.len() && 0 <= b < wanted.len() && a != b implies wanted[a]
            != wanted[b] by {
            assert(wanted[a] == requested@[a]@ && wanted[b] == requested@[b]@);
        }
        assert forall|a: int, b: int|
            0 <= a < arrived.len() && 0 <= b < arrived.len() && a != b implies arrived[a]
            != arrived[b] by {
            assert(arrived[a] == returned@[a].0@ && arrived[b] == returned@[b].0@);
        }
        assert forall|a: int| 0 <= a < arrived.len() implies wanted.contains(
            #[trigger] arrived[a],
        ) by {
            assert(arrived[a] == returned@[a].0@);
            assert(requested@.map_values(|key: Vec<u8>| key@) =~= wanted);
        }
        lemma_equal_count_is_same_set(wanted, arrived);
    }
}

/// The records are read with the material of the manifest, if it has any, and not at all without a
/// master key.
pub proof fn law_storage_is_read_with_its_keys<M>(
    manifest: &ManifestRecord,
    material: Option<&[u8]>,
    master_key: M,
    known: Result<M, Error>,
    unknown: Result<M, Error>,
)
    requires
        call_ensures(record_key_material, (manifest,), material),
        call_ensures(require_master_key::<M>, (Some(master_key),), known),
        call_ensures(require_master_key::<M>, (None::<M>,), unknown),
    ensures
        manifest.record_ikm@.len() == 0 ==> material is None,
        manifest.record_ikm@.len() > 0 ==> (material matches Some(bytes) && bytes@
            == manifest.record_ikm@),
        known == Ok::<M, Error>(master_key),
        unknown matches Err(Error::MissingKeyError(_)),
{
}

} // verus!
