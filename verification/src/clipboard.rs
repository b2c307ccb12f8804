//! Clipboard sync between host and device: what both sides are believed to share,
//! and the loop that keeps it so.
use vstd::prelude::*;

use crate::pasteboard::{
    image_of, snapshot_image, snapshot_text, text_of, Snapshot, SnapshotModel,
};
use crate::picture::{
    decode_image, decoded, encode_png, encoded, hash_of, image_hash, Picture, PictureModel,
};
use crate::text::chars_of;

verus! {

/// How often the host clipboard is polled, in milliseconds.
pub const CLIPBOARD_POLL_MS: u64 = 600;

/// The most characters of a text that its preview shows.
pub const CLIPBOARD_PREVIEW_LEN: usize = 48;

/// The contents that both clipboards are believed to share already. Images are
/// tracked by the hash of their raw RGBA.
#[derive(Debug)]
pub struct ClipState {
    pub last_text: Option<String>,
    pub last_image: Option<u64>,
    /// The device's change counter, to ignore snapshots that changed nothing.
    pub last_change_count: Option<i64>,
}

/// What a [`ClipState`] says.
pub struct ClipModel {
    pub last_text: Option<Seq<char>>,
    pub last_image: Option<u64>,
    pub last_change_count: Option<i64>,
}

/// What an optional picture shows.
pub open spec fn picture_view(picture: Option<Picture>) -> Option<PictureModel> {
    match picture {
        Some(p) => Some(p@),
        None => None,
    }
}

impl View for ClipState {
    type V = ClipModel;

    open spec fn view(&self) -> ClipModel {
        ClipModel {
            last_text: chars_of(self.last_text),
            last_image: self.last_image,
            last_change_count: self.last_change_count,
        }
    }
}

/// What a device snapshot asks of the host clipboard.
#[derive(Debug)]
pub enum HostUpdate {
    Nothing,
    Text(String),
    Image { picture: Picture, hash: u64 },
}

/// What a [`HostUpdate`] asks.
pub enum UpdateModel {
    Nothing,
    Text(Seq<char>),
    Image(PictureModel),
}

impl HostUpdate {
    /// The hash that comes with an image is that of its RGBA.
    pub open spec fn valid(self) -> bool {
        self matches HostUpdate::Image { picture, hash } ==> hash == hash_of(picture.rgba@)
    }
}

impl View for HostUpdate {
    type V = UpdateModel;

    open spec fn view(&self) -> UpdateModel {
        match self {
            HostUpdate::Nothing => UpdateModel::Nothing,
            HostUpdate::Text(text) => UpdateModel::Text(text@),
            HostUpdate::Image { picture, hash: _ } => UpdateModel::Image(picture@),
        }
    }
}

/// What the host's text asks of the device.
#[derive(Debug)]
pub enum TextPush {
    /// There is no text: look for an image.
    NoText,
    /// The device has it.
    Settled,
    Send(String),
}

/// What a [`TextPush`] asks.
pub enum TextPushModel {
    NoText,
    Settled,
    Send(Seq<char>),
}

impl View for TextPush {
    type V = TextPushModel;

    open spec fn view(&self) -> TextPushModel {
        match self {
            TextPush::NoText => TextPushModel::NoText,
            TextPush::Settled => TextPushModel::Settled,
            TextPush::Send(text) => TextPushModel::Send(text@),
        }
    }
}

/// An image for the device: the PNG file, and the hash of what it shows.
#[derive(Debug)]
pub struct ImagePush {
    pub png: Vec<u8>,
    pub hash: u64,
}

impl ClipModel {
    /// With another change counter.
    pub open spec fn counted(self, change_count: Option<i64>) -> ClipModel {
        ClipModel { last_change_count: change_count, ..self }
    }

    /// Once the host's image, if any, has been read after its text: a text goes
    /// before an image, and an empty one counts as none.
    pub open spec fn seeded(self, image: Option<u64>) -> ClipModel {
        let has_text = self.last_text matches Some(text) && text.len() > 0;
        match image {
            Some(hash) if !has_text => self.sharing_image(hash),
            _ => ClipModel { last_image: None, ..self },
        }
    }

    /// Once both sides hold a text.
    pub open spec fn sharing_text(self, text: Seq<char>) -> ClipModel {
        ClipModel { last_text: Some(text), last_image: None, ..self }
    }

    /// Once both sides hold an image.
    pub open spec fn sharing_image(self, hash: u64) -> ClipModel {
        ClipModel { last_text: None, last_image: Some(hash), ..self }
    }

    /// What a text on the device asks of the host.
    pub open spec fn text_update(self, text: Seq<char>) -> UpdateModel {
        if self.last_text == Some(text) {
            UpdateModel::Nothing
        } else {
            UpdateModel::Text(text)
        }
    }

    /// What an image on the device asks of the host, once decoded.
    pub open spec fn image_update(self, picture: Option<PictureModel>) -> UpdateModel {
        match picture {
            Some(p) if self.last_image != Some(hash_of(p.rgba)) => UpdateModel::Image(p),
            _ => UpdateModel::Nothing,
        }
    }

    /// What a device snapshot asks of the host: text goes before an image, and an
    /// unchanged counter asks nothing.
    pub open spec fn device_update(self, snap: SnapshotModel) -> UpdateModel {
        if snap.change_count == self.last_change_count {
            UpdateModel::Nothing
        } else if let Some(text) = text_of(snap.items) {
            self.text_update(text)
        } else if let Some(file) = image_of(snap.items) {
            self.image_update(decoded(file))
        } else {
            UpdateModel::Nothing
        }
    }

    /// What the host's text asks of the device. An empty one counts as none.
    pub open spec fn text_push(self, text: Option<Seq<char>>) -> TextPushModel {
        match text {
            Some(t) if t.len() > 0 => if self.last_text == Some(t) {
                TextPushModel::Settled
            } else {
                TextPushModel::Send(t)
            },
            _ => TextPushModel::NoText,
        }
    }

    /// The PNG that the host's image asks the device to take, if any.
    pub open spec fn image_push(self, picture: Option<PictureModel>) -> Option<Seq<u8>> {
        match picture {
            Some(p) if self.last_image != Some(hash_of(p.rgba)) => encoded(p),
            _ => None,
        }
    }
}

impl ClipState {
    /// Decide on a text that the device has.
    pub fn text_update(&self, text: String) -> (r: HostUpdate)
        ensures
            r.valid(),
            r@ == self@.text_update(text@),
    {
        if let Some(last) = &self.last_text {
            if *last == text {
                return HostUpdate::Nothing;
            }
        }
        HostUpdate::Text(text)
    }

    /// Decide on an image that the device has, once decoded.
    pub fn image_update(&self, picture: Option<Picture>) -> (r: HostUpdate)
        ensures
            r.valid(),
            r@ == self@.image_update(picture_view(picture)),
    {
        match picture {
            Some(picture) => {
                let hash: u64 = image_hash(picture.rgba.as_slice());
                if self.has_image(hash) {
                    HostUpdate::Nothing
                } else {
                    HostUpdate::Image { picture, hash }
                }
            },
            None => HostUpdate::Nothing,
        }
    }

    /// Whether both sides are believed to hold the image of this hash.
    fn has_image(&self, hash: u64) -> (r: bool)
        ensures
            r == (self@.last_image == Some(hash)),
    {
        match self.last_image {
            Some(last) => last == hash,
            None => false,
        }
    }

    /// Take note of a device snapshot, and say what it asks of the host clipboard:
    /// its text or, failing that, its image, unless its counter has not advanced or
    /// both sides hold the same already.
    pub fn apply_device_snapshot(&mut self, snap: &Snapshot) -> (r: HostUpdate)
        ensures
            r.valid(),
            r@ == old(self)@.device_update(snap@),
            final(self)@ == old(self)@.counted(snap@.change_count),
    {
        if snap.change_count == self.last_change_count {
            return HostUpdate::Nothing;
        }
        self.last_change_count = snap.change_count;
        if let Some(text) = snapshot_text(&snap.items) {
            self.text_update(text)
        } else if let Some(file) = snapshot_image(&snap.items) {
            self.image_update(decode_image(file.as_slice()))
        } else {
            HostUpdate::Nothing
        }
    }

    /// Decide on the text that the host has.
    pub fn text_push(&self, text: Option<String>) -> (r: TextPush)
        ensures
            r@ == self@.text_push(chars_of(text)),
    {
        match text {
            Some(text) => {
                if text.as_str().unicode_len() == 0 {
                    return TextPush::NoText;
                }
                if let Some(last) = &self.last_text {
                    if *last == text {
                        return TextPush::Settled;
                    }
                }
                TextPush::Send(text)
            },
            None => TextPush::NoText,
        }
    }

    /// Decide on the image that the host has: the PNG to send, unless both sides
    /// hold the image already or it does not encode.
    pub fn image_push(&self, picture: &Option<Picture>) -> (r: Option<ImagePush>)
        ensures
            r is Some == self@.image_push(picture_view(*picture)) is Some,
            r matches Some(push) ==> {
                &&& picture matches Some(p)
                &&& push.hash == hash_of(p.rgba@)
                &&& self@.image_push(picture_view(*picture)) == Some(push.png@)
            },
    {
        match picture {
            Some(p) => {
                let hash: u64 = image_hash(p.rgba.as_slice());
                if self.has_image(hash) {
                    None
                } else {
                    with_hash(hash, encode_png(p))
                }
            },
            None => None,
        }
    }

    /// Both sides hold this text now.
    pub fn share_text(&mut self, text: String)
        ensures
            final(self)@ == old(self)@.sharing_text(text@),
    {
        self.last_text = Some(text);
        self.last_image = None;
    }

    /// Both sides hold the image of this hash now.
    pub fn share_image(&mut self, hash: u64)
        ensures
            final(self)@ == old(self)@.sharing_image(hash),
    {
        self.last_image = Some(hash);
        self.last_text = None;
    }

    /// Adopt the host's image, if any, unless its text has been adopted.
    pub fn seed_image(&mut self, image: Option<u64>)
        ensures
            final(self)@ == old(self)@.seeded(image),
    {
        let has_text = match &self.last_text {
            Some(text) => text.as_str().unicode_len() > 0,
            None => false,
        };
        self.last_image = None;
        if let Some(hash) = image {
            if !has_text {
                self.share_image(hash);
            }
        }
    }

    /// Adopt the counter of the device's present contents, if it could be read.
    pub fn seed_count(&mut self, snap: &Option<Snapshot>)
        ensures
            final(self)@ == old(self)@.counted(count_of(*snap)),
    {
        self.last_change_count = match snap {
            Some(s) => s.change_count,
            None => None,
        };
    }
}

/// The counter of a snapshot, where there is one.
pub open spec fn count_of(snap: Option<Snapshot>) -> Option<i64> {
    match snap {
        Some(s) => s.change_count,
        None => None,
    }
}

/// The image to send, where the encoding succeeded.
pub fn with_hash(hash: u64, png: Option<Vec<u8>>) -> (r: Option<ImagePush>)
    ensures
        r == match png {
            Some(png) => Some(ImagePush { png, hash }),
            None => None,
        },
{
    match png {
        Some(png) => Some(ImagePush { png, hash }),
        None => None,
    }
}

/// What is believed to be shared is what the state holds, and what is asked for is
/// the whole text or picture.
pub proof fn law_the_state_says_what_it_holds(
    state: ClipState,
    text: String,
    picture: Picture,
    hash: u64,
)
    ensures
        state.last_text is None ==> state@.last_text is None,
        state.last_text matches Some(t) ==> state@.last_text == Some(t@),
        state@.last_image == state.last_image,
        state@.last_change_count == state.last_change_count,
        HostUpdate::Text(text)@ == UpdateModel::Text(text@),
        TextPush::Send(text)@ == TextPushModel::Send(text@),
        (HostUpdate::Image { picture, hash })@ == UpdateModel::Image(picture@),
        picture_view(Some(picture)) == Some(picture@),
        picture_view(None) is None,
{
}

} // verus!
