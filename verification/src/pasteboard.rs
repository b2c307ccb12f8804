//! Snapshots of the device's pasteboard and the text or image that they carry.
use idevice::core_device::{
    PasteboardEntry, PasteboardItem, PasteboardPayload, PasteboardSnapshot,
};
use vstd::prelude::*;
use vstd::utf8::{decode_utf8, valid_utf8};

verus! {

/// One representation of a pasteboard item: its type, and its bytes where the
/// snapshot carries them.
#[derive(Debug)]
pub struct Entry {
    pub uti: String,
    pub bytes: Option<Vec<u8>>,
}

/// A pasteboard snapshot: the device's change counter and, for each item, its
/// representations.
#[derive(Debug)]
pub struct Snapshot {
    pub change_count: Option<i64>,
    pub items: Vec<Vec<Entry>>,
}

/// What an [`Entry`] holds.
pub struct EntryModel {
    pub uti: Seq<char>,
    pub bytes: Option<Seq<u8>>,
}

/// What a [`Snapshot`] holds.
pub struct SnapshotModel {
    pub change_count: Option<i64>,
    pub items: Seq<Seq<EntryModel>>,
}

impl View for Entry {
    type V = EntryModel;

    open spec fn view(&self) -> EntryModel {
        EntryModel {
            uti: self.uti@,
            bytes: match self.bytes {
                Some(b) => Some(b@),
                None => None,
            },
        }
    }
}

/// What a list of items holds.
pub open spec fn items_view(items: Seq<Vec<Entry>>) -> Seq<Seq<EntryModel>> {
    items.map_values(|item: Vec<Entry>| item@.map_values(|e: Entry| e@))
}

impl View for Snapshot {
    type V = SnapshotModel;

    open spec fn view(&self) -> SnapshotModel {
        SnapshotModel { change_count: self.change_count, items: items_view(self.items@) }
    }
}

/// The bytes that an item carries under a type: those of the first entry of that
/// type, if the snapshot has them.
pub open spec fn bytes_under(item: Seq<EntryModel>, uti: Seq<char>) -> Option<Seq<u8>>
    decreases item.len(),
{
    if item.len() == 0 {
        None
    } else if item[0].uti == uti {
        item[0].bytes
    } else {
        bytes_under(item.drop_first(), uti)
    }
}

/// The text that an item carries under a type, if its bytes are UTF-8.
pub open spec fn text_under(item: Seq<EntryModel>, uti: Seq<char>) -> Option<Seq<char>> {
    match bytes_under(item, uti) {
        Some(bytes) if valid_utf8(bytes) => Some(decode_utf8(bytes)),
        _ => None,
    }
}

/// The first that is there.
pub open spec fn first_of<T>(a: Option<T>, b: Option<T>, c: Option<T>) -> Option<T> {
    if a is Some {
        a
    } else if b is Some {
        b
    } else {
        c
    }
}

/// The text of an item, under the first text type that carries any.
pub open spec fn item_text(item: Seq<EntryModel>) -> Option<Seq<char>> {
    first_of(
        text_under(item, "public.utf8-plain-text"@),
        text_under(item, "public.plain-text"@),
        text_under(item, "public.text"@),
    )
}

/// The encoded image of an item: PNG before JPEG before TIFF.
pub open spec fn item_image(item: Seq<EntryModel>) -> Option<Seq<u8>> {
    first_of(
        bytes_under(item, "public.png"@),
        bytes_under(item, "public.jpeg"@),
        bytes_under(item, "public.tiff"@),
    )
}

/// The text of the first item that has one.
pub open spec fn text_of(items: Seq<Seq<EntryModel>>) -> Option<Seq<char>>
    decreases items.len(),
{
    if items.len() == 0 {
        None
    } else if item_text(items[0]) is Some {
        item_text(items[0])
    } else {
        text_of(items.drop_first())
    }
}

/// The encoded image of the first item that has one.
pub open spec fn image_of(items: Seq<Seq<EntryModel>>) -> Option<Seq<u8>>
    decreases items.len(),
{
    if items.len() == 0 {
        None
    } else if item_image(items[0]) is Some {
        item_image(items[0])
    } else {
        image_of(items.drop_first())
    }
}

/// Calls `PasteboardSnapshot::text` of `idevice`, which looks through the items in
/// order and, in each, through the three text types in order, and is trusted to
/// return the first inline bytes that are UTF-8. An entry without bytes is handed
/// over as a promised one.
#[verifier::external_body]
pub(crate) fn snapshot_text(items: &Vec<Vec<Entry>>) -> (r: Option<String>)
    ensures
        r is Some == text_of(items_view(items@)) is Some,
        r matches Some(text) ==> text_of(items_view(items@)) == Some(text@),
{
    let payload = |e: &Entry| match &e.bytes {
        Some(bytes) => PasteboardPayload::Inline(bytes.clone()),
        None => PasteboardPayload::Promised { size: None },
    };
    let entry = |e: &Entry| PasteboardEntry { uti: e.uti.clone(), payload: payload(e) };
    let item = |(index, entries): (usize, &Vec<Entry>)| PasteboardItem {
        index,
        types: entries.iter().map(|e| e.uti.clone()).collect(),
        data: entries.iter().map(entry).collect(),
    };
    let items = items.iter().enumerate().map(item).collect();
    PasteboardSnapshot { pasteboard_name: None, change_count: None, items }.text()
}

/// Calls `PasteboardSnapshot::image` of `idevice`, which looks through the items in
/// order and, in each, for PNG, JPEG and TIFF in order, and is trusted to return
/// the first inline bytes. An entry without bytes is handed over as a promised one.
#[verifier::external_body]
pub(crate) fn snapshot_image(items: &Vec<Vec<Entry>>) -> (r: Option<Vec<u8>>)
    ensures
        r is Some == image_of(items_view(items@)) is Some,
        r matches Some(file) ==> image_of(items_view(items@)) == Some(file@),
{
    let payload = |e: &Entry| match &e.bytes {
        Some(bytes) => PasteboardPayload::Inline(bytes.clone()),
        None => PasteboardPayload::Promised { size: None },
    };
    let entry = |e: &Entry| PasteboardEntry { uti: e.uti.clone(), payload: payload(e) };
    let item = |(index, entries): (usize, &Vec<Entry>)| PasteboardItem {
        index,
        types: entries.iter().map(|e| e.uti.clone()).collect(),
        data: entries.iter().map(entry).collect(),
    };
    let items = items.iter().enumerate().map(item).collect();
    let snap = PasteboardSnapshot { pasteboard_name: None, change_count: None, items };
    Some(snap.image()?.1)
}

/// The text of a snapshot is that of the first item that has one, wherever it
/// stands, and the image likewise.
pub proof fn law_the_first_item_goes_first(items: Seq<Seq<EntryModel>>, k: int)
    requires
        0 <= k < items.len(),
    ensures
        item_text(items[k]) is Some && (forall|j: int|
            0 <= j < k ==> item_text(#[trigger] items[j]) is None) ==> text_of(items) == item_text(
            items[k],
        ),
        item_image(items[k]) is Some && (forall|j: int|
            0 <= j < k ==> item_image(#[trigger] items[j]) is None) ==> image_of(items)
            == item_image(items[k]),
    decreases k,
{
    let rest = items.drop_first();
    if k > 0 {
        law_the_first_item_goes_first(rest, k - 1);
        assert(rest[k - 1] == items[k]);
        assert(forall|j: int| 0 <= j < k - 1 ==> #[trigger] rest[j] == items[j + 1]);
    }
}

/// Where no item has a text there is none, and the image likewise.
pub proof fn law_nothing_comes_of_nothing(items: Seq<Seq<EntryModel>>)
    ensures
        (forall|j: int| 0 <= j < items.len() ==> item_text(#[trigger] items[j]) is None)
            ==> text_of(items) is None,
        (forall|j: int| 0 <= j < items.len() ==> item_image(#[trigger] items[j]) is None)
            ==> image_of(items) is None,
    decreases items.len(),
{
    if items.len() > 0 {
        let rest = items.drop_first();
        law_nothing_comes_of_nothing(rest);
        assert(forall|j: int| 0 <= j < rest.len() ==> #[trigger] rest[j] == items[j + 1]);
    }
}

/// An item that holds a single representation, of UTF-8 bytes, has them as its text
/// if the type is one of the three text types, and as its image if it is one of the
/// three image types.
pub proof fn law_a_single_representation_is_found(entry: EntryModel, bytes: Seq<u8>)
    requires
        entry.bytes == Some(bytes),
        valid_utf8(bytes),
    ensures
        item_text(seq![entry]) == if entry.uti == "public.utf8-plain-text"@ || entry.uti
            == "public.plain-text"@ || entry.uti == "public.text"@ {
            Some(decode_utf8(bytes))
        } else {
            None
        },
        item_image(seq![entry]) == if entry.uti == "public.png"@ || entry.uti == "public.jpeg"@
            || entry.uti == "public.tiff"@ {
            Some(bytes)
        } else {
            None
        },
{
    assert(seq![entry].drop_first() =~= Seq::empty());
    assert forall|uti: Seq<char>| entry.uti != uti implies #[trigger] bytes_under(seq![entry], uti)
        is None by {
        assert(bytes_under(Seq::empty(), uti) is None);
    }
}

/// A snapshot is taken with all its items and all their representations, as they
/// are and in their order.
pub proof fn law_a_snapshot_says_what_it_holds(snap: Snapshot, i: int, j: int)
    ensures
        snap@.change_count == snap.change_count,
        snap@.items.len() == snap.items@.len(),
        0 <= i < snap.items@.len() ==> snap@.items[i].len() == snap.items@[i]@.len(),
        0 <= i < snap.items@.len() && 0 <= j < snap.items@[i]@.len() ==> {
            let entry = snap.items@[i]@[j];
            &&& snap@.items[i][j].uti == entry.uti@
            &&& entry.bytes is None ==> snap@.items[i][j].bytes is None
            &&& entry.bytes matches Some(bytes) ==> snap@.items[i][j].bytes == Some(bytes@)
        },
{
}

} // verus!
