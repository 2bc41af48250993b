//! The Vorbis backend: what is read from a `lofty::ogg::VorbisComments`, and
//! how its list of pictures is edited. The tag stays a value of the `lofty`
//! crate; its comments and its pictures each have a name here, and what is
//! read is copied into plain values.

use vstd::prelude::*;
use crate::format::{mime_text, ImageFormat};
use crate::text::{opt_view, parsed_u32};

verus! {

#[verifier::external_type_specification]
#[verifier::external_body]
pub struct ExVorbisComments(lofty::ogg::VorbisComments);

/// What a picture block says of the image it holds.
#[derive(Clone, Copy, Debug, PartialEq, Eq, Structural)]
pub struct PictureInfo {
    /// Width in pixels.
    pub width: u32,
    /// Height in pixels.
    pub height: u32,
    /// Bits per pixel.
    pub color_depth: u32,
    /// Number of colours of an indexed image, otherwise 0.
    pub num_colors: u32,
}

/// One comment: a key and a value.
pub struct VorbisItem {
    pub key: String,
    pub value: String,
}

pub struct VorbisItemView {
    pub key: Seq<char>,
    pub value: Seq<char>,
}

impl View for VorbisItem {
    type V = VorbisItemView;

    open spec fn view(&self) -> VorbisItemView {
        VorbisItemView { key: self.key@, value: self.value@ }
    }
}

/// The views of a list of comments.
pub open spec fn item_views(v: Seq<VorbisItem>) -> Seq<VorbisItemView> {
    v.map_values(|i: VorbisItem| i@)
}

/// An attached picture of a Vorbis tag, as plain values.
pub struct VorbisPicture {
    /// The picture type as its code; 3 is the front cover.
    pub picture_type: u8,
    /// The MIME type as text; empty where the picture has none.
    pub mime_type: String,
    pub description: Option<String>,
    pub data: Vec<u8>,
    pub info: PictureInfo,
}

pub struct VorbisPictureView {
    pub picture_type: u8,
    pub mime_type: Seq<char>,
    pub description: Option<Seq<char>>,
    pub data: Seq<u8>,
    pub info: PictureInfo,
}

impl View for VorbisPicture {
    type V = VorbisPictureView;

    open spec fn view(&self) -> VorbisPictureView {
        VorbisPictureView {
            picture_type: self.picture_type,
            mime_type: self.mime_type@,
            description: opt_view(self.description),
            data: self.data@,
            info: self.info,
        }
    }
}

/// The views of a list of pictures.
pub open spec fn picture_views(v: Seq<VorbisPicture>) -> Seq<VorbisPictureView> {
    v.map_values(|p: VorbisPicture| p@)
}

/// The comments of a tag, in order: what
/// `lofty::ogg::VorbisComments::items` yields.
pub uninterp spec fn vorbis_items(tag: lofty::ogg::VorbisComments) -> Seq<VorbisItemView>;

/// The pictures of a tag, in order: what
/// `lofty::ogg::OggPictureStorage::pictures` returns.
pub uninterp spec fn vorbis_pictures(tag: lofty::ogg::VorbisComments) -> Seq<VorbisPictureView>;

/// What `lofty::PictureInformation::from_png` reads from the bytes of an
/// image, or none where it takes them for no PNG.
pub uninterp spec fn png_information(data: Seq<u8>) -> Option<PictureInfo>;

/// A key written in the capital letters `A` to `Z` alone, and not empty.
pub open spec fn plain_key(key: Seq<char>) -> bool {
    &&& key.len() > 0
    &&& forall|i: int| 0 <= i < key.len() ==> 'A' <= #[trigger] key[i] <= 'Z'
}

/// True where `stored` is `key` up to the case of its letters. `key` is
/// meant to be a plain key: each character of `stored` is then the capital
/// letter of `key` at its place, or the small letter 32 code points above it.
pub open spec fn same_key(stored: Seq<char>, key: Seq<char>) -> bool {
    &&& stored.len() == key.len()
    &&& forall|i: int|
        0 <= i < key.len() ==> (#[trigger] stored[i] == key[i] || stored[i] as u32 == key[i] as u32
            + 32)
}

/// Position of the first comment stored under `key`, or the number of
/// comments where there is none.
pub open spec fn first_under(items: Seq<VorbisItemView>, key: Seq<char>) -> int
    decreases items.len(),
{
    if items.len() == 0 {
        0
    } else if same_key(items[0].key, key) {
        0
    } else {
        1 + first_under(items.drop_first(), key)
    }
}

/// The value of the first comment stored under `key`.
pub open spec fn first_value(items: Seq<VorbisItemView>, key: Seq<char>) -> Option<Seq<char>> {
    let k = first_under(items, key);
    if 0 <= k < items.len() {
        Some(items[k].value)
    } else {
        None
    }
}

/// The values of all comments stored under `key`, in order.
pub open spec fn all_values(items: Seq<VorbisItemView>, key: Seq<char>) -> Seq<Seq<char>> {
    items.filter(|i: VorbisItemView| same_key(i.key, key)).map_values(|i: VorbisItemView| i.value)
}

/// The number in the first comment under `key`, or where there is no such
/// comment, in the first under `other`.
pub open spec fn number_under(
    first: Option<Seq<char>>,
    first_number: Option<u32>,
    second: Option<Seq<char>>,
    second_number: Option<u32>,
) -> Option<u32> {
    if first is Some {
        first_number
    } else if second is Some {
        second_number
    } else {
        None
    }
}

/// The number that a text denotes, where there is a text.
pub open spec fn parsed(text: Option<Seq<char>>) -> Option<u32> {
    match text {
        Some(t) => parsed_u32(t),
        None => None,
    }
}

/// `lofty::ogg::VorbisComments::new`: a tag without comments and pictures.
#[verifier::external_body]
pub(crate) fn vorbis_empty_tag() -> (tag: lofty::ogg::VorbisComments)
    ensures
        vorbis_items(tag) == Seq::<VorbisItemView>::empty(),
        vorbis_pictures(tag) == Seq::<VorbisPictureView>::empty(),
{
    lofty::ogg::VorbisComments::new()
}

/// `lofty::ogg::VorbisComments::items`: the comments of the tag in its order.
#[verifier::external_body]
pub(crate) fn vorbis_item_list(tag: &lofty::ogg::VorbisComments) -> (out: Vec<VorbisItem>)
    ensures
        item_views(out@) == vorbis_items(*tag),
{
    tag.items().map(|(k, v)| VorbisItem { key: k.to_string(), value: v.to_string() }).collect()
}

/// `lofty::ogg::VorbisComments::get`: the value of the first comment whose
/// key is `key`, whatever the case of its letters.
#[verifier::external_body]
pub(crate) fn vorbis_get(tag: &lofty::ogg::VorbisComments, key: &str) -> (out: Option<String>)
    requires
        plain_key(key@),
    ensures
        opt_view(out) == first_value(vorbis_items(*tag), key@),
{
    tag.get(key).map(String::from)
}

/// `lofty::ogg::VorbisComments::get_all`: the values of all comments whose
/// key is `key`, whatever the case of its letters, in order.
#[verifier::external_body]
pub(crate) fn vorbis_get_all(tag: &lofty::ogg::VorbisComments, key: &str) -> (out: Vec<String>)
    requires
        plain_key(key@),
    ensures
        crate::text::texts(out@) == all_values(vorbis_items(*tag), key@),
{
    tag.get_all(key).map(String::from).collect()
}

/// `lofty::Accessor::track`: the number in the first `TRACKNUMBER` comment,
/// or where there is none, in the first `TRACKNUM` comment.
#[verifier::external_body]
pub(crate) fn vorbis_track(tag: &lofty::ogg::VorbisComments) -> (n: Option<u32>)
    ensures
        n == number_under(
            first_value(vorbis_items(*tag), "TRACKNUMBER"@),
            parsed(first_value(vorbis_items(*tag), "TRACKNUMBER"@)),
            first_value(vorbis_items(*tag), "TRACKNUM"@),
            parsed(first_value(vorbis_items(*tag), "TRACKNUM"@)),
        ),
{
    lofty::Accessor::track(tag)
}

/// `lofty::Accessor::track_total`: the number in the first `TRACKTOTAL`
/// comment, or where there is none, in the first `TOTALTRACKS` comment.
#[verifier::external_body]
pub(crate) fn vorbis_track_total(tag: &lofty::ogg::VorbisComments) -> (n: Option<u32>)
    ensures
        n == number_under(
            first_value(vorbis_items(*tag), "TRACKTOTAL"@),
            parsed(first_value(vorbis_items(*tag), "TRACKTOTAL"@)),
            first_value(vorbis_items(*tag), "TOTALTRACKS"@),
            parsed(first_value(vorbis_items(*tag), "TOTALTRACKS"@)),
        ),
{
    lofty::Accessor::track_total(tag)
}

/// `lofty::Accessor::disk`: the number in the first `DISCNUMBER` comment.
#[verifier::external_body]
pub(crate) fn vorbis_disk(tag: &lofty::ogg::VorbisComments) -> (n: Option<u32>)
    ensures
        n == match first_value(vorbis_items(*tag), "DISCNUMBER"@) {
            Some(t) => parsed_u32(t),
            None => None,
        },
{
    lofty::Accessor::disk(tag)
}

/// `lofty::Accessor::disk_total`: the number in the first `DISCTOTAL`
/// comment, or where there is none, in the first `TOTALDISCS` comment.
#[verifier::external_body]
pub(crate) fn vorbis_disk_total(tag: &lofty::ogg::VorbisComments) -> (n: Option<u32>)
    ensures
        n == number_under(
            first_value(vorbis_items(*tag), "DISCTOTAL"@),
            parsed(first_value(vorbis_items(*tag), "DISCTOTAL"@)),
            first_value(vorbis_items(*tag), "TOTALDISCS"@),
            parsed(first_value(vorbis_items(*tag), "TOTALDISCS"@)),
        ),
{
    lofty::Accessor::disk_total(tag)
}

/// `lofty::ogg::OggPictureStorage::pictures`, each picture copied: its type
/// by its code (`as_u8`), its MIME type as text (`as_str`), its description,
/// its data and what its block says of the image.
#[verifier::external_body]
pub(crate) fn vorbis_picture_list(tag: &lofty::ogg::VorbisComments) -> (out: Vec<VorbisPicture>)
    ensures
        picture_views(out@) == vorbis_pictures(*tag),
{
    lofty::ogg::OggPictureStorage::pictures(tag).iter().map(|(p, i)| VorbisPicture {
        picture_type: p.pic_type().as_u8(),
        mime_type: p.mime_type().as_str().to_string(),
        description: p.description().map(String::from),
        data: p.data().to_vec(),
        info: PictureInfo {
            width: i.width,
            height: i.height,
            color_depth: i.color_depth,
            num_colors: i.num_colors,
        },
    }).collect()
}

/// `lofty::ogg::OggPictureStorage::remove_picture`: the picture at `index`
/// leaves the list and the later ones move up. The comments stay.
#[verifier::external_body]
pub(crate) fn vorbis_remove_picture(tag: &mut lofty::ogg::VorbisComments, index: usize)
    requires
        index < vorbis_pictures(*old(tag)).len(),
    ensures
        vorbis_pictures(*final(tag)) == vorbis_pictures(*old(tag)).remove(index as int),
        vorbis_items(*final(tag)) == vorbis_items(*old(tag)),
{
    lofty::ogg::OggPictureStorage::remove_picture(tag, index);
}

/// The picture that `vorbis_set_picture` stores.
pub open spec fn stored_picture(
    picture_type: u8,
    format: ImageFormat,
    description: Option<Seq<char>>,
    data: Seq<u8>,
    info: PictureInfo,
) -> VorbisPictureView {
    VorbisPictureView { picture_type, mime_type: mime_text(format), description, data, info }
}

/// `lofty::ogg::OggPictureStorage::set_picture` on a picture made by
/// `lofty::Picture::new_unchecked`: at an index inside the list the picture
/// there is replaced, at any other the new one is appended. Pictures of the
/// two icon types, codes 1 and 2, may only replace: appending one would make
/// `lofty` remove another of its type. The comments stay.
#[verifier::external_body]
pub(crate) fn vorbis_set_picture(
    tag: &mut lofty::ogg::VorbisComments,
    index: usize,
    picture_type: u8,
    format: ImageFormat,
    description: Option<String>,
    data: Vec<u8>,
    info: PictureInfo,
)
    requires
        index < vorbis_pictures(*old(tag)).len() || (picture_type != 1 && picture_type != 2),
    ensures
        vorbis_pictures(*final(tag)) == if index < vorbis_pictures(*old(tag)).len() {
            vorbis_pictures(*old(tag)).update(
                index as int,
                stored_picture(picture_type, format, opt_view(description), data@, info),
            )
        } else {
            vorbis_pictures(*old(tag)).push(
                stored_picture(picture_type, format, opt_view(description), data@, info),
            )
        },
        vorbis_items(*final(tag)) == vorbis_items(*old(tag)),
{
    let mime = match format {
        ImageFormat::Jpeg => lofty::MimeType::Jpeg,
        ImageFormat::Png => lofty::MimeType::Png,
        ImageFormat::Bmp => lofty::MimeType::Bmp,
    };
    let kind = lofty::PictureType::from_u8(picture_type);
    let picture = lofty::Picture::new_unchecked(kind, mime, description, data);
    let PictureInfo { width, height, color_depth, num_colors } = info;
    let info = lofty::PictureInformation { width, height, color_depth, num_colors };
    lofty::ogg::OggPictureStorage::set_picture(tag, index, picture, info);
}

/// `lofty::PictureInformation::from_png`: what the header of a PNG says of
/// the image, or none where the bytes are no PNG.
#[verifier::external_body]
pub(crate) fn png_info(data: &Vec<u8>) -> (info: Option<PictureInfo>)
    ensures
        info == png_information(data@),
{
    match lofty::PictureInformation::from_png(data) {
        Ok(i) => Some(PictureInfo {
            width: i.width,
            height: i.height,
            color_depth: i.color_depth,
            num_colors: i.num_colors,
        }),
        Err(_) => None,
    }
}

} // verus!
