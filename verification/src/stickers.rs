//! Sticker packs.

use vstd::prelude::*;

use crate::bytes::copy_bytes;
use crate::content::{StickerPackAction, StickerPackOperation};
use crate::receive::bytes_or_empty;
use crate::registration::{Manager, Registered};
use crate::text::{hex_encode, lower_hex};

verus! {

/// A sticker.
#[derive(Clone, Debug)]
pub struct Sticker {
    pub id: u32,
    pub emoji: Option<String>,
    pub content_type: Option<String>,
    /// The picture, once it is downloaded.
    pub bytes: Option<Vec<u8>>,
}

/// What a sticker pack says of itself.
#[derive(Clone, Debug)]
pub struct StickerPackManifest {
    pub title: String,
    pub author: String,
    pub cover: Option<Sticker>,
    pub stickers: Vec<Sticker>,
}

/// A sticker pack.
#[derive(Clone, Debug)]
pub struct StickerPack {
    pub id: Vec<u8>,
    pub key: Vec<u8>,
    pub manifest: StickerPackManifest,
}

/// Whether a place in a list of stickers is the first with an identifier.
pub open spec fn is_first_with_id(stickers: Seq<Sticker>, id: u32, place: int) -> bool {
    &&& 0 <= place < stickers.len()
    &&& stickers[place].id == id
    &&& forall|i: int| 0 <= i < place ==> (#[trigger] stickers[i]).id != id
}

/// Whether a sticker is another one after its download: with its picture, or, when the download
/// failed, as it was.
pub open spec fn is_downloaded(sticker: Sticker, from: Sticker, download: Option<Vec<u8>>) -> bool {
    sticker == match download {
        Some(bytes) => Sticker { bytes: Some(bytes), ..from },
        None => from,
    }
}

/// Under what name a pack and its stickers are found.
pub fn sticker_pack_name(operation: &StickerPackOperation) -> (name: String)
    ensures
        name@ == lower_hex(bytes_or_empty(operation.pack_id)),
{
    match &operation.pack_id {
        Some(pack_id) => hex_encode(pack_id.as_slice()),
        None => {
            let pack_id: Vec<u8> = Vec::new();
            hex_encode(pack_id.as_slice())
        },
    }
}

/// The identifiers of the stickers to download, in their order.
pub fn sticker_ids(manifest: &StickerPackManifest) -> (ids: Vec<u32>)
    ensures
        ids@ == manifest.stickers@.map_values(|sticker: Sticker| sticker.id),
{
    let ghost to_id = |sticker: Sticker| sticker.id;
    let mut ids: Vec<u32> = Vec::new();
    let mut index: usize = 0;
    while index < manifest.stickers.len()
        invariant
            index <= manifest.stickers@.len(),
            to_id == (|sticker: Sticker| sticker.id),
            ids@ =~= manifest.stickers@.map_values(to_id).take(index as int),
        decreases manifest.stickers@.len() - index,
    {
        ids.push(manifest.stickers[index].id);
        index += 1;
    }
    ids
}

/// Puts a sticker pack together. `manifest` is what the pack says of itself, and `downloads` holds
/// the picture of each of its stickers; a failed download leaves the sticker without one.
pub fn download_sticker_pack(
    operation: &StickerPackOperation,
    manifest: StickerPackManifest,
    downloads: Vec<Option<Vec<u8>>>,
) -> (pack: StickerPack)
    requires
        downloads@.len() == manifest.stickers@.len(),
    ensures
        pack.id@ == bytes_or_empty(operation.pack_id),
        pack.key@ == bytes_or_empty(operation.pack_key),
        pack.manifest.title == manifest.title,
        pack.manifest.author == manifest.author,
        pack.manifest.cover == manifest.cover,
        pack.manifest.stickers@.len() == manifest.stickers@.len(),
        forall|i: int|
            0 <= i < pack.manifest.stickers@.len() ==> is_downloaded(
                #[trigger] pack.manifest.stickers@[i],
                manifest.stickers@[i],
                downloads@[i],
            ),
{
    let ghost before = manifest.stickers@;
    let ghost all = downloads@;
    let mut manifest = manifest;
    let mut index: usize = 0;
    let ghost title = manifest.title;
    let ghost author = manifest.author;
    let ghost cover = manifest.cover;
    for download in iter: downloads
        invariant
            iter.seq() == all,
            index == iter.index(),
            before.len() == all.len(),
            manifest.title == title,
            manifest.author == author,
            manifest.cover == cover,
            manifest.stickers@.len() == before.len(),
            forall|i: int|
                0 <= i < index ==> is_downloaded(
                    #[trigger] manifest.stickers@[i],
                    before[i],
                    all[i],
                ),
            forall|i: int| index <= i < before.len() ==> manifest.stickers@[i] == before[i],
    {
        assert(download == all[index as int]);
        if let Some(bytes) = download {
            manifest.stickers[index].bytes = Some(bytes);
        }
        assert(index < manifest.stickers.len());
        index += 1;
    }
    let id = match &operation.pack_id {
        Some(id) => copy_bytes(id.as_slice()),
        None => Vec::new(),
    };
    let key = match &operation.pack_key {
        Some(key) => copy_bytes(key.as_slice()),
        None => Vec::new(),
    };
    proof {
        if operation.pack_id is None {
            assert(id@ =~= Seq::empty());
        }
        if operation.pack_key is None {
            assert(key@ =~= Seq::empty());
        }
    }
    StickerPack { id, key, manifest }
}

/// What was done to a pack.
fn pack_operation(pack_id: &[u8], pack_key: &[u8], action: StickerPackAction) -> (operation:
    StickerPackOperation)
    ensures
        operation.pack_id matches Some(id) && id@ == pack_id@,
        operation.pack_key matches Some(key) && key@ == pack_key@,
        operation.action == action,
{
    StickerPackOperation {
        pack_id: Some(copy_bytes(pack_id)),
        pack_key: Some(copy_bytes(pack_key)),
        action,
    }
}

impl<S> Manager<S, Registered> {
    /// Gets the metadata of a sticker: of the first one with the identifier in a pack, if the pack
    /// is installed.
    pub fn sticker_metadata<'a>(&self, pack: Option<&'a StickerPack>, sticker_id: u32) -> (sticker:
        Option<&'a Sticker>)
        ensures
            match (pack, sticker) {
                (Some(p), Some(s)) => exists|i: int|
                    #[trigger] is_first_with_id(p.manifest.stickers@, sticker_id, i)
                        && p.manifest.stickers@[i] == *s,
                (Some(p), None) => forall|i: int|
                    0 <= i < p.manifest.stickers@.len() ==> (#[trigger] p.manifest.stickers@[i]).id
                        != sticker_id,
                (None, s) => s is None,
            },
    {
        let installed = match pack {
            Some(pack) => pack,
            None => {
                return None;
            },
        };
        let stickers = &installed.manifest.stickers;
        let mut index: usize = 0;
        while index < stickers.len()
            invariant
                index <= stickers@.len(),
                pack == Some(installed),
                stickers@ == installed.manifest.stickers@,
                forall|i: int| 0 <= i < index ==> (#[trigger] stickers@[i]).id != sticker_id,
            decreases stickers@.len() - index,
        {
            if stickers[index].id == sticker_id {
                let sticker = &stickers[index];
                assert(is_first_with_id(installed.manifest.stickers@, sticker_id, index as int));
                return Some(sticker);
            }
            index += 1;
        }
        None
    }

    /// Installs a sticker pack and notifies other registered devices. The pack is downloaded first,
    /// and what was done is then sent to the account's other devices.
    pub fn install_sticker_pack(&self, pack_id: &[u8], pack_key: &[u8]) -> (operation:
        StickerPackOperation)
        ensures
            operation.pack_id matches Some(id) && id@ == pack_id@,
            operation.pack_key matches Some(key) && key@ == pack_key@,
            operation.action is Install,
    {
        pack_operation(pack_id, pack_key, StickerPackAction::Install)
    }

    /// Removes an installed sticker pack. What is done is sent to the account's other devices
    /// first, and the pack is then removed from the store.
    pub fn remove_sticker_pack(&self, pack_id: &[u8], pack_key: &[u8]) -> (operation:
        StickerPackOperation)
        ensures
            operation.pack_id matches Some(id) && id@ == pack_id@,
            operation.pack_key matches Some(key) && key@ == pack_key@,
            operation.action is Remove,
    {
        pack_operation(pack_id, pack_key, StickerPackAction::Remove)
    }
}

/// A downloaded pack is the one that was asked for: its identifier and key are those of the operation,
/// and what it says of itself stays, its stickers in their order. Each of them has the picture that was
/// downloaded for it, or what it had if none was.
pub proof fn law_pack_is_put_together_as_it_came(
    operation: &StickerPackOperation,
    manifest: StickerPackManifest,
    downloads: Vec<Option<Vec<u8>>>,
    pack: StickerPack,
)
    requires
        downloads@.len() == manifest.stickers@.len(),
        call_ensures(download_sticker_pack, (operation, manifest, downloads), pack),
    ensures
        operation.pack_id matches Some(id) ==> pack.id@ == id@,
        operation.pack_id is None ==> pack.id@.len() == 0,
        operation.pack_key matches Some(key) ==> pack.key@ == key@,
        operation.pack_key is None ==> pack.key@.len() == 0,
        pack.manifest.title == manifest.title,
        pack.manifest.author == manifest.author,
        pack.manifest.cover == manifest.cover,
        pack.manifest.stickers@.len() == manifest.stickers@.len(),
        forall|i: int|
            0 <= i < manifest.stickers@.len() ==> {
                let sticker = #[trigger] pack.manifest.stickers@[i];
                &&& sticker.id == manifest.stickers@[i].id
                &&& sticker.emoji == manifest.stickers@[i].emoji
                &&& sticker.content_type == manifest.stickers@[i].content_type
                &&& downloads@[i] matches Some(picture) ==> sticker.bytes == Some(picture)
                &&& downloads@[i] is None ==> sticker.bytes == manifest.stickers@[i].bytes
            },
{
    assert forall|i: int| 0 <= i < manifest.stickers@.len() implies is_downloaded(
        #[trigger] pack.manifest.stickers@[i],
        manifest.stickers@[i],
        downloads@[i],
    ) by {
    }
}

/// The stickers that are downloaded are all those of the pack, in their order.
pub proof fn law_every_sticker_is_downloaded(manifest: &StickerPackManifest, ids: Vec<u32>)
    requires
        call_ensures(sticker_ids, (manifest,), ids),
    ensures
        ids@.len() == manifest.stickers@.len(),
        forall|i: int| 0 <= i < ids@.len() ==> #[trigger] ids@[i] == manifest.stickers@[i].id,
{
}

/// A sticker is found by its identifier: what is found is the first sticker of the pack that has it,
/// and nothing is found exactly if none does or the pack is not installed.
pub proof fn law_sticker_is_found_by_its_identifier<S>(
    manager: &Manager<S, Registered>,
    pack: &StickerPack,
    sticker_id: u32,
    found: Option<&Sticker>,
    in_no_pack: Option<&Sticker>,
)
    requires
        call_ensures(
            Manager::<S, Registered>::sticker_metadata,
            (manager, Some(pack), sticker_id),
            found,
        ),
        call_ensures(
            Manager::<S, Registered>::sticker_metadata,
            (manager, None::<&StickerPack>, sticker_id),
            in_no_pack,
        ),
    ensures
        in_no_pack is None,
        ({
            let stickers = pack.manifest.stickers@;
            &&& found is Some <==> exists|i: int|
                0 <= i < stickers.len() && (#[trigger] stickers[i]).id == sticker_id
            &&& found matches Some(sticker) ==> exists|i: int|
                {
                    &&& 0 <= i < stickers.len()
                    &&& #[trigger] stickers[i] == *sticker
                    &&& stickers[i].id == sticker_id
                    &&& forall|j: int| 0 <= j < i ==> (#[trigger] stickers[j]).id != sticker_id
                }
        }),
{
    let stickers = pack.manifest.stickers@;
    if let Some(sticker) = found {
        let i = choose|i: int| #[trigger]
            is_first_with_id(stickers, sticker_id, i) && stickers[i] == *sticker;
        assert(stickers[i].id == sticker_id);
    }
}

/// What is told of a pack that was installed or removed names that pack by its identifier and key, and
/// what was done. Under the name of a pack its identifier is found in lower-case digits.
pub proof fn law_operations_name_their_pack<S>(
    manager: &Manager<S, Registered>,
    pack_id: &[u8],
    pack_key: &[u8],
    installed: StickerPackOperation,
    removed: StickerPackOperation,
    name: String,
)
    requires
        call_ensures(
            Manager::<S, Registered>::install_sticker_pack,
            (manager, pack_id, pack_key),
            installed,
        ),
        call_ensures(
            Manager::<S, Registered>::remove_sticker_pack,
            (manager, pack_id, pack_key),
            removed,
        ),
        call_ensures(sticker_pack_name, (&installed,), name),
    ensures
        installed.action is Install,
        removed.action is Remove,
        installed.pack_id matches Some(id) && id@ == pack_id@,
        installed.pack_key matches Some(key) && key@ == pack_key@,
        removed.pack_id matches Some(id) && id@ == pack_id@,
        removed.pack_key matches Some(key) && key@ == pack_key@,
        name@.len() == 2 * pack_id@.len(),
        name@ == lower_hex(pack_id@),
{
}

} // verus!
