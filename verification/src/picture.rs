//! Clipboard pictures: raw RGBA, its hash, and the encoded files that the device
//! keeps.
use std::collections::hash_map::DefaultHasher;
use std::hash::Hasher;

use vstd::bytes::u64_to_le_bytes;
use vstd::prelude::*;

verus! {

use vstd::bytes::spec_u64_to_le_bytes;
use vstd::std_specs::hash::DefaultHasherAdditionalSpecFns;

/// A picture as the host clipboard holds it: four bytes a pixel, row by row.
#[derive(Debug)]
pub struct Picture {
    pub width: usize,
    pub height: usize,
    pub rgba: Vec<u8>,
}

/// What a [`Picture`] shows.
#[verifier::ext_equal]
pub struct PictureModel {
    pub width: nat,
    pub height: nat,
    pub rgba: Seq<u8>,
}

impl View for Picture {
    type V = PictureModel;

    open spec fn view(&self) -> PictureModel {
        PictureModel { width: self.width as nat, height: self.height as nat, rgba: self.rgba@ }
    }
}

/// The hash of raw bytes: std's default hasher, fed the length and the bytes.
pub open spec fn hash_of(bytes: Seq<u8>) -> u64 {
    DefaultHasher::spec_finish(seq![spec_u64_to_le_bytes(bytes.len() as u64), bytes])
}

/// Hash raw RGBA bytes for image echo suppression.
pub fn image_hash(bytes: &[u8]) -> (r: u64)
    ensures
        r == hash_of(bytes@),
{
    let mut h = DefaultHasher::new();
    let prefix: Vec<u8> = u64_to_le_bytes(bytes.len() as u64);
    h.write(prefix.as_slice());
    h.write(bytes);
    assert(h@ =~= seq![spec_u64_to_le_bytes(bytes@.len() as u64), bytes@]);
    h.finish()
}

/// What the `image` crate makes of an encoded file: width, height and RGBA.
pub uninterp spec fn loaded_rgba(file: Seq<u8>) -> Option<(u32, u32, Seq<u8>)>;

/// Calls `image::load_from_memory`, which guesses the format (of PNG, JPEG and
/// TIFF) from the bytes and decodes them, and `DynamicImage::to_rgba8`. The result
/// is trusted to depend on the bytes alone, and to hold four bytes a pixel. Which
/// bytes decode, and to what, is not stated.
#[verifier::external_body]
fn load_rgba(file: &[u8]) -> (r: Option<(u32, u32, Vec<u8>)>)
    ensures
        r is Some == loaded_rgba(file@) is Some,
        r matches Some((w, h, rgba)) ==> loaded_rgba(file@) == Some((w, h, rgba@)) && rgba@.len()
            == 4 * w * h,
{
    let img = image::load_from_memory(file).ok()?.to_rgba8();
    Some((img.width(), img.height(), img.into_raw()))
}

/// The picture that an encoded file decodes to, if it does.
pub open spec fn decoded(file: Seq<u8>) -> Option<PictureModel> {
    match loaded_rgba(file) {
        Some((w, h, rgba)) => Some(PictureModel { width: w as nat, height: h as nat, rgba }),
        None => None,
    }
}

/// Decode an encoded pasteboard image (PNG, JPEG or TIFF). `None` if the bytes do
/// not decode as one.
pub fn decode_image(file: &[u8]) -> (r: Option<Picture>)
    ensures
        r is Some == decoded(file@) is Some,
        r matches Some(p) ==> decoded(file@) == Some(p@) && p.rgba@.len() == 4 * p.width * p.height,
{
    match load_rgba(file) {
        Some((w, h, rgba)) => Some(Picture { width: w as usize, height: h as usize, rgba }),
        None => None,
    }
}

/// The PNG file that the `image` crate makes of raw RGBA.
pub uninterp spec fn written_png(width: u32, height: u32, rgba: Seq<u8>) -> Option<Seq<u8>>;

/// Calls `image::RgbaImage::from_raw`, which refuses a buffer that is too short for
/// the dimensions, and `write_to` with the PNG format. The result is trusted to
/// depend on the dimensions and bytes alone. What the file holds is not stated.
#[verifier::external_body]
fn write_png(width: u32, height: u32, rgba: &[u8]) -> (r: Option<Vec<u8>>)
    ensures
        r is Some == written_png(width, height, rgba@) is Some,
        r matches Some(file) ==> written_png(width, height, rgba@) == Some(file@),
        4 * width * height > rgba@.len() ==> r is None,
{
    let buf = image::RgbaImage::from_raw(width, height, rgba.to_vec())?;
    let mut out = std::io::Cursor::new(Vec::new());
    buf.write_to(&mut out, image::ImageFormat::Png).ok()?;
    Some(out.into_inner())
}

/// The PNG file for a picture; a dimension that does not fit 32 bits has none.
pub open spec fn encoded(picture: PictureModel) -> Option<Seq<u8>> {
    if picture.width > u32::MAX || picture.height > u32::MAX {
        None
    } else {
        written_png(picture.width as u32, picture.height as u32, picture.rgba)
    }
}

/// Encode a picture as PNG for the device pasteboard. `None` if its bytes are too
/// few for its dimensions or the encoding fails.
pub fn encode_png(picture: &Picture) -> (r: Option<Vec<u8>>)
    ensures
        r is Some == encoded(picture@) is Some,
        r matches Some(file) ==> encoded(picture@) == Some(file@),
        picture.width > u32::MAX || picture.height > u32::MAX ==> r is None,
        4 * picture.width * picture.height > picture.rgba@.len() ==> r is None,
{
    let (width, height): (u64, u64) = (picture.width as u64, picture.height as u64);
    if width > u32::MAX as u64 || height > u32::MAX as u64 {
        return None;
    }
    write_png(width as u32, height as u32, picture.rgba.as_slice())
}

/// Decoding keeps the dimensions and the bytes that the file holds, and encoding
/// hands them over as they are; only dimensions beyond 32 bits are never encoded.
pub proof fn law_pictures_keep_their_shape(file: Seq<u8>, picture: PictureModel)
    ensures
        loaded_rgba(file) is None <==> decoded(file) is None,
        loaded_rgba(file) matches Some((w, h, rgba)) ==> {
            &&& decoded(file)->0.width == w
            &&& decoded(file)->0.height == h
            &&& decoded(file)->0.rgba == rgba
        },
        picture.width < 0x1_0000_0000 && picture.height < 0x1_0000_0000 ==> encoded(picture)
            == written_png(picture.width as u32, picture.height as u32, picture.rgba),
        picture.width >= 0x1_0000_0000 || picture.height >= 0x1_0000_0000 ==> encoded(picture)
            is None,
{
}

/// The hash covers every byte: the hasher is fed the length and all the bytes, so
/// that pictures of one hash are those that the hasher itself does not tell apart.
pub proof fn law_the_hash_covers_every_byte(bytes: Seq<u8>)
    ensures
        exists|fed: Seq<Seq<u8>>|
            {
                &&& hash_of(bytes) == #[trigger] DefaultHasher::spec_finish(fed)
                &&& fed.len() == 2
                &&& fed[0] == spec_u64_to_le_bytes(bytes.len() as u64)
                &&& fed[1] == bytes
            },
{
    let fed = seq![spec_u64_to_le_bytes(bytes.len() as u64), bytes];
    assert(hash_of(bytes) == DefaultHasher::spec_finish(fed));
}

/// A picture shows all that it holds.
pub proof fn law_a_picture_shows_what_it_holds(picture: Picture)
    ensures
        picture@.width == picture.width,
        picture@.height == picture.height,
        picture@.rgba == picture.rgba@,
{
}

} // verus!
