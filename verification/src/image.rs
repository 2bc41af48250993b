//! The pictures of a tag: showing one, removing one, replacing one or adding
//! one.

use vstd::prelude::*;
use vstd::string::*;
use crate::artwork::{
    check_mime, is_front, lemma_default_without_types, lemma_first_front_is,
    mime_fault, picture_type_label, picture_type_name, picture_type_string, picture_type_text,
    selected_picture, PictureView,
};
use crate::cmd::App;
use crate::error::TagError;
use crate::fields::{
    album_artist_ident, album_ident, artist_ident, comment_ident, composer_ident, grouping_ident,
    id3_comment, title_ident, FieldsView,
};
use crate::text::opt_view;
use crate::format::{format_of_extension, image_format, mime_string, mime_text, ImageFormat};
use crate::frames::{id3_listed, Metadata};
use crate::id3_pictures::{
    lemma_filter_map_edit, lemma_pictures_after_push, lemma_pictures_after_remove,
    lemma_pictures_after_update, lemma_places, lemma_text_after_push, lemma_text_after_remove,
    lemma_text_after_update, picture_of, picture_places, picture_positions, pictures_in,
    pictures_under_apic,
};
use crate::id3_tag::{
    apic, frame_text, id3_frame_list, id3_frames, id3_push_picture_frame, id3_remove_frame,
    id3_set_picture_frame, new_picture_frame, plain_views, replaced_picture_frame, Id3Content, Id3Frame, Id3Picture,
    Id3FrameView, Id3PictureView,
};
use crate::jpeg::{jpeg_info, jpeg_information};
use crate::mp4_tag::{
    artwork_views, cover_ident, mp4_artwork_list, mp4_artworks, mp4_rest_kept, mp4_set_artworks, Mp4Artwork,
    Mp4ArtworkView,
};
use crate::vorbis_tag::{png_info, png_information, stored_picture, vorbis_items, vorbis_picture_list, vorbis_pictures, vorbis_remove_picture, vorbis_set_picture, PictureInfo, VorbisPicture, VorbisPictureView};

verus! {

/// A picture as it is shown to the caller.
#[derive(Debug, Clone, PartialEq, Eq)]
pub struct Image {
    /// The position of the picture in the list of the tag.
    pub index: usize,
    /// The number of pictures in that list.
    pub total_images: usize,
    /// The image data in base64.
    pub data: String,
    pub mime_type: String,
    pub description: Option<String>,
    /// The name of the picture type, where the tag stores picture types.
    pub picture_type: Option<String>,
}

pub struct ImageView {
    pub index: usize,
    pub total_images: usize,
    pub data: Seq<char>,
    pub mime_type: Seq<char>,
    pub description: Option<Seq<char>>,
    pub picture_type: Option<Seq<char>>,
}

impl View for Image {
    type V = ImageView;

    open spec fn view(&self) -> ImageView {
        ImageView {
            index: self.index,
            total_images: self.total_images,
            data: self.data@,
            mime_type: self.mime_type@,
            description: opt_view(self.description),
            picture_type: opt_view(self.picture_type),
        }
    }
}

/// The base64 text of a sequence of bytes, in the standard alphabet and
/// with padding, as `base64::encode` writes it.
pub uninterp spec fn base64_text(data: Seq<u8>) -> Seq<char>;

/// `base64::encode`.
#[verifier::external_body]
pub(crate) fn base64_encode(data: &Vec<u8>) -> (text: String)
    ensures
        text@ == base64_text(data@),
{
    base64::encode(data)
}

/// How a picture of an ID3 tag is shown: with the MIME type as stored, its
/// description, and the name of its picture type; a type without a name
/// of its own is named by the number of its code.
pub open spec fn id3_image(picture: Id3PictureView, index: usize, total: usize, encoded: Seq<char>) -> ImageView {
    ImageView {
        index,
        total_images: total,
        data: encoded,
        mime_type: picture.mime_type,
        description: Some(picture.description),
        picture_type: Some(picture_type_text(picture.picture_type)),
    }
}

/// How an artwork of an MP4 tag is shown: with the MIME type of its format,
/// without description and picture type.
pub open spec fn mp4_image(artwork: Mp4ArtworkView, index: usize, total: usize, encoded: Seq<char>) -> ImageView {
    ImageView {
        index,
        total_images: total,
        data: encoded,
        mime_type: mime_text(artwork.format),
        description: None,
        picture_type: None,
    }
}

/// How a picture of a Vorbis tag is shown. A picture whose MIME type is
/// missing or unknown is not shown, and neither is one whose type code has
/// no name: each is an error, the MIME type first.
pub open spec fn vorbis_image(picture: VorbisPictureView, index: usize, total: usize, encoded: Seq<char>) -> Result<ImageView, TagError> {
    match mime_fault(picture.mime_type) {
        Some(fault) => Err(fault),
        None => match picture_type_name(picture.picture_type) {
            None => Err(TagError::UndefinedPictureType(picture.picture_type)),
            Some(name) => Ok(
                ImageView {
                    index,
                    total_images: total,
                    data: encoded,
                    mime_type: picture.mime_type,
                    description: picture.description,
                    picture_type: Some(name),
                },
            ),
        },
    }
}

/// Shows a picture of an ID3 tag; `encoded` is its data in base64.
pub fn id3_image_of(picture: &Id3Picture, index: usize, total: usize, encoded: String) -> (image: Image)
    ensures
        image@ == id3_image(picture@, index, total, encoded@),
{
    Image {
        index,
        total_images: total,
        data: encoded,
        mime_type: picture.mime_type.clone(),
        description: Some(picture.description.clone()),
        picture_type: Some(picture_type_string(picture.picture_type)),
    }
}

/// Shows an artwork of an MP4 tag; `encoded` is its data in base64.
pub fn mp4_image_of(artwork: &Mp4Artwork, index: usize, total: usize, encoded: String) -> (image: Image)
    ensures
        image@ == mp4_image(artwork@, index, total, encoded@),
{
    Image {
        index,
        total_images: total,
        data: encoded,
        mime_type: mime_string(artwork.format),
        description: None,
        picture_type: None,
    }
}

/// Shows a picture of a Vorbis tag; `encoded` is its data in base64.
pub fn vorbis_image_of(picture: &VorbisPicture, index: usize, total: usize, encoded: String) -> (image:
    Result<Image, TagError>)
    ensures
        match vorbis_image(picture@, index, total, encoded@) {
            Ok(v) => image matches Ok(i) && i@ == v,
            Err(e) => image == Err::<Image, TagError>(e),
        },
{
    match check_mime(picture.mime_type.as_str()) {
        Some(fault) => Err(fault),
        None => match picture_type_label(picture.picture_type) {
            None => Err(TagError::UndefinedPictureType(picture.picture_type)),
            Some(name) => {
                let description = match &picture.description {
                    Some(d) => Some(d.clone()),
                    None => None,
                };
                Ok(
                    Image {
                        index,
                        total_images: total,
                        data: encoded,
                        mime_type: picture.mime_type.clone(),
                        description,
                        picture_type: Some(name),
                    },
                )
            },
        },
    }
}

/// A picture of an ID3 tag as all kinds of tag store one.
pub open spec fn id3_shown(p: Id3PictureView) -> PictureView {
    PictureView {
        mime_type: p.mime_type,
        picture_type: Some(p.picture_type),
        description: Some(p.description),
        data: p.data,
    }
}

/// An artwork of an MP4 tag as all kinds of tag store one.
pub open spec fn mp4_shown(a: Mp4ArtworkView) -> PictureView {
    PictureView { mime_type: mime_text(a.format), picture_type: None, description: None, data: a.data }
}

/// A picture of a Vorbis tag as all kinds of tag store one.
pub open spec fn vorbis_shown(p: VorbisPictureView) -> PictureView {
    PictureView {
        mime_type: p.mime_type,
        picture_type: Some(p.picture_type),
        description: p.description,
        data: p.data,
    }
}

/// The pictures of an ID3 tag as all kinds of tag store them.
pub open spec fn id3_shown_list(pictures: Seq<Id3PictureView>) -> Seq<PictureView> {
    pictures.map_values(|p: Id3PictureView| id3_shown(p))
}

/// The artworks of an MP4 tag as all kinds of tag store them.
pub open spec fn mp4_shown_list(artworks: Seq<Mp4ArtworkView>) -> Seq<PictureView> {
    artworks.map_values(|a: Mp4ArtworkView| mp4_shown(a))
}

/// The pictures of a Vorbis tag as all kinds of tag store them.
pub open spec fn vorbis_shown_list(pictures: Seq<VorbisPictureView>) -> Seq<PictureView> {
    pictures.map_values(|p: VorbisPictureView| vorbis_shown(p))
}

/// What the header of an image of the given format says of the image.
pub open spec fn header_info(format: ImageFormat, data: Seq<u8>) -> Option<PictureInfo> {
    match format {
        ImageFormat::Png => png_information(data),
        ImageFormat::Jpeg => jpeg_information(data),
        ImageFormat::Bmp => None,
    }
}

impl Metadata {
    /// The pictures of the tag, in its order.
    pub open spec fn pictures(self) -> Seq<PictureView> {
        match self {
            Metadata::Id3(tag) => id3_shown_list(pictures_in(id3_frames(tag))),
            Metadata::Mp4(tag) => mp4_shown_list(mp4_artworks(tag)),
            Metadata::VorbisComments(tag) => vorbis_shown_list(vorbis_pictures(tag)),
        }
    }

    /// How the picture at position `i` is shown, or why it cannot be.
    pub open spec fn image_at(self, i: int) -> Result<ImageView, TagError> {
        let total = self.pictures().len() as usize;
        match self {
            Metadata::Id3(tag) => {
                let p = pictures_in(id3_frames(tag))[i];
                Ok(id3_image(p, i as usize, total, base64_text(p.data)))
            },
            Metadata::Mp4(tag) => {
                let a = mp4_artworks(tag)[i];
                Ok(mp4_image(a, i as usize, total, base64_text(a.data)))
            },
            Metadata::VorbisComments(tag) => {
                let p = vorbis_pictures(tag)[i];
                vorbis_image(p, i as usize, total, base64_text(p.data))
            },
        }
    }

    /// What a request for a picture gives: the picture at the index, or
    /// the default one where no index is given; nothing where the list has
    /// no picture at that place; an error where the picture cannot be shown.
    pub open spec fn shown(self, index: Option<usize>) -> Result<Option<ImageView>, TagError> {
        match selected_picture(self.pictures(), index) {
            None => Ok(None),
            Some(i) => match self.image_at(i) {
                Ok(v) => Ok(Some(v)),
                Err(e) => Err(e),
            },
        }
    }

    /// The image format that a file extension stands for and that this
    /// kind of tag can hold: JPEG and PNG for all, BMP for all but Vorbis.
    pub open spec fn accepted_format(self, extension: Seq<char>) -> Option<ImageFormat> {
        match format_of_extension(extension) {
            Some(ImageFormat::Bmp) => if self is VorbisComments {
                None
            } else {
                Some(ImageFormat::Bmp)
            },
            other => other,
        }
    }

    /// What this kind of tag reads from the header of an image before it
    /// stores it: a Vorbis tag the size and the colour depth, the others
    /// nothing.
    pub open spec fn header(self, format: ImageFormat, data: Seq<u8>) -> Option<PictureInfo> {
        if self is VorbisComments {
            header_info(format, data)
        } else {
            None
        }
    }

    /// Why an image with the given header cannot be stored at `index`, if
    /// it cannot: the index is checked first, then, by a Vorbis tag, that
    /// there is a header.
    pub open spec fn store_fault(self, index: usize, info: Option<PictureInfo>) -> Option<TagError> {
        if index > self.pictures().len() {
            Some(TagError::IndexOutOfRange)
        } else if self is VorbisComments && info is None {
            Some(TagError::InvalidImage)
        } else {
            None
        }
    }

    /// Why an image file cannot be stored at `index`, if it cannot: the
    /// extension is checked first, then the index, then the header of the
    /// image, which only a Vorbis tag reads.
    pub open spec fn set_fault(self, index: usize, data: Seq<u8>, extension: Seq<char>) -> Option<TagError> {
        match self.accepted_format(extension) {
            None => Some(TagError::UnsupportedImageType),
            Some(format) => self.store_fault(index, self.header(format, data)),
        }
    }

    /// The picture that is added behind the list: without type where the
    /// tag stores none, else of the type "other"; with an empty description
    /// in an ID3 tag, without one elsewhere.
    pub open spec fn fresh_picture(self, format: ImageFormat, data: Seq<u8>) -> PictureView {
        match self {
            Metadata::Id3(_) => PictureView {
                mime_type: mime_text(format),
                picture_type: Some(0u8),
                description: Some(Seq::<char>::empty()),
                data,
            },
            Metadata::Mp4(_) => PictureView {
                mime_type: mime_text(format),
                picture_type: None,
                description: None,
                data,
            },
            Metadata::VorbisComments(_) => PictureView {
                mime_type: mime_text(format),
                picture_type: Some(0u8),
                description: None,
                data,
            },
        }
    }

    /// The list of pictures after an image of the given format has been
    /// stored at `index`: inside the list the picture there keeps its type
    /// and its description and gets the new MIME type and data; one behind
    /// the list a fresh picture is added.
    pub open spec fn pictures_after_set(self, index: usize, format: ImageFormat, data: Seq<u8>) -> Seq<PictureView> {
        let before = self.pictures();
        if index < before.len() {
            before.update(
                index as int,
                PictureView {
                    mime_type: mime_text(format),
                    picture_type: before[index as int].picture_type,
                    description: before[index as int].description,
                    data,
                },
            )
        } else {
            before.push(self.fresh_picture(format, data))
        }
    }

    /// What removing picture `index` does to the tag itself: `after` is
    /// `self` without that picture, every other part as it was. In an ID3
    /// tag the frame of the picture is gone and the other frames keep their
    /// order.
    pub open spec fn removed(self, after: Metadata, index: usize) -> bool {
        match (self, after) {
            (Metadata::Id3(a), Metadata::Id3(b)) => id3_frames(b) == id3_frames(a).remove(
                picture_places(id3_frames(a))[index as int],
            ),
            (Metadata::Mp4(a), Metadata::Mp4(b)) => {
                &&& mp4_artworks(b) == mp4_artworks(a).remove(index as int)
                &&& mp4_rest_kept(a, b)
            },
            (Metadata::VorbisComments(a), Metadata::VorbisComments(b)) => {
                &&& vorbis_pictures(b) == vorbis_pictures(a).remove(index as int)
                &&& vorbis_items(b) == vorbis_items(a)
            },
            _ => false,
        }
    }

    /// What storing an image at `index` does to the tag itself: `after` is
    /// `self` with the picture replaced in its place or added behind the
    /// last, every other part as it was. In an ID3 tag the frame of a
    /// replaced picture keeps its place among the frames, and a new picture
    /// comes as the last frame. A Vorbis tag also stores `info`, what the
    /// header of the image says.
    pub open spec fn stored(
        self,
        after: Metadata,
        index: usize,
        format: ImageFormat,
        data: Seq<u8>,
        info: Option<PictureInfo>,
    ) -> bool {
        match (self, after) {
            (Metadata::Id3(a), Metadata::Id3(b)) => {
                let frames = id3_frames(a);
                if index < pictures_in(frames).len() {
                    let place = picture_places(frames)[index as int];
                    id3_frames(b) == frames.update(
                        place,
                        replaced_picture_frame(frames[place], mime_text(format), data),
                    )
                } else {
                    id3_frames(b) == frames.push(
                        new_picture_frame(mime_text(format), Seq::<char>::empty(), data),
                    )
                }
            },
            (Metadata::Mp4(a), Metadata::Mp4(b)) => {
                let artwork = Mp4ArtworkView { format, data };
                &&& mp4_artworks(b) == if index < mp4_artworks(a).len() {
                    mp4_artworks(a).update(index as int, artwork)
                } else {
                    mp4_artworks(a).push(artwork)
                }
                &&& mp4_rest_kept(a, b)
            },
            (Metadata::VorbisComments(a), Metadata::VorbisComments(b)) => {
                let before = vorbis_pictures(a);
                &&& info is Some
                &&& vorbis_pictures(b) == if index < before.len() {
                    before.update(
                        index as int,
                        stored_picture(
                            before[index as int].picture_type,
                            format,
                            before[index as int].description,
                            data,
                            info.unwrap(),
                        ),
                    )
                } else {
                    before.push(stored_picture(0, format, None, data, info.unwrap()))
                }
                &&& vorbis_items(b) == vorbis_items(a)
            },
            _ => false,
        }
    }
}

/// Position of the first front cover among the picture type codes, or their
/// number where none is a front cover.
pub fn first_front_code(codes: &Vec<u8>) -> (k: usize)
    ensures
        k <= codes@.len(),
        forall|j: int| 0 <= j < k ==> codes@[j] != 3,
        k < codes@.len() ==> codes@[k as int] == 3,
{
    let mut k: usize = 0;
    while k < codes.len()
        invariant
            k <= codes@.len(),
            forall|j: int| 0 <= j < k ==> codes@[j] != 3,
        decreases codes@.len() - k,
    {
        if codes[k] == 3 {
            return k;
        }
        k = k + 1;
    }
    k
}

/// The picture type codes of the pictures at the given places.
fn id3_codes(frames: &Vec<Id3Frame>, places: &Vec<usize>) -> (codes: Vec<u8>)
    requires
        places@.len() == picture_places(plain_views(frames@)).len(),
        forall|j: int|
            0 <= j < places@.len() ==> places@[j] as int == picture_places(plain_views(frames@))[j],
    ensures
        codes@.len() == places@.len(),
        forall|j: int|
            0 <= j < codes@.len() ==> codes@[j] == (#[trigger] pictures_in(
                plain_views(frames@),
            )[j]).picture_type,
{
    let ghost all = plain_views(frames@);
    proof {
        lemma_places(all);
    }
    let mut codes: Vec<u8> = Vec::new();
    let mut j: usize = 0;
    while j < places.len()
        invariant
            j <= places@.len(),
            all == plain_views(frames@),
            places@.len() == picture_places(all).len(),
            places@.len() == pictures_in(all).len(),
            forall|i: int| 0 <= i < places@.len() ==> places@[i] as int == picture_places(all)[i],
            forall|i: int|
                0 <= i < picture_places(all).len() ==> {
                    &&& 0 <= #[trigger] picture_places(all)[i] < all.len()
                    &&& picture_of(all[picture_places(all)[i]]) == Some(pictures_in(all)[i])
                },
            codes@.len() == j,
            forall|i: int| 0 <= i < j ==> codes@[i] == (#[trigger] pictures_in(all)[i]).picture_type,
        decreases places@.len() - j,
    {
        let place = places[j];
        let code: u8 = match &frames[place].content {
            Id3Content::Picture(p) => p.picture_type,
            _ => 0,
        };
        codes.push(code);
        j = j + 1;
    }
    codes
}

/// The picture type codes of a list of Vorbis pictures.
fn vorbis_codes(pictures: &Vec<VorbisPicture>) -> (codes: Vec<u8>)
    ensures
        codes@.len() == pictures@.len(),
        forall|j: int| 0 <= j < codes@.len() ==> codes@[j] == (#[trigger] pictures@[j]).picture_type,
{
    let mut codes: Vec<u8> = Vec::new();
    let mut j: usize = 0;
    while j < pictures.len()
        invariant
            j <= pictures@.len(),
            codes@.len() == j,
            forall|i: int| 0 <= i < j ==> codes@[i] == (#[trigger] pictures@[i]).picture_type,
        decreases pictures@.len() - j,
    {
        codes.push(pictures[j].picture_type);
        j = j + 1;
    }
    codes
}

/// The position that a request selects in a list with these picture type
/// codes.
fn select(codes: &Vec<u8>, index: Option<usize>, Ghost(pictures): Ghost<Seq<PictureView>>) -> (at:
    Option<usize>)
    requires
        pictures.len() == codes@.len(),
        forall|j: int|
            0 <= j < codes@.len() ==> (#[trigger] pictures[j]).picture_type == Some(codes@[j]),
    ensures
        match selected_picture(pictures, index) {
            Some(i) => at == Some(i as usize) && 0 <= i < pictures.len(),
            None => at is None,
        },
{
    match index {
        Some(i) => if i < codes.len() {
            Some(i)
        } else {
            None
        },
        None => {
            let k = first_front_code(codes);
            proof {
                lemma_first_front_is(pictures, k as int);
            }
            if codes.len() == 0 {
                None
            } else if k < codes.len() {
                Some(k)
            } else {
                Some(0)
            }
        },
    }
}

impl Metadata {
    /// Shows one picture of the tag: the one at `index`, or where no index
    /// is given the first front cover, or the first picture where the tag
    /// has no front cover or stores no picture types. Where the list has no
    /// picture at that place, nothing is shown, which is no error.
    pub fn get_picture(&self, index: Option<usize>) -> (image: Result<Option<Image>, TagError>)
        ensures
            match self.shown(index) {
                Ok(Some(v)) => image matches Ok(Some(i)) && i@ == v,
                Ok(None) => image matches Ok(None),
                Err(e) => image == Err::<Option<Image>, TagError>(e),
            },
    {
        match self {
            Metadata::Id3(tag) => {
                let frames = id3_frame_list(tag);
                let places = picture_positions(&frames);
                let codes = id3_codes(&frames, &places);
                let ghost all = id3_frames(*tag);
                proof {
                    lemma_places(all);
                }
                match select(&codes, index, Ghost(self.pictures())) {
                    None => Ok(None),
                    Some(i) => {
                        let place = places[i];
                        match &frames[place].content {
                            Id3Content::Picture(p) => {
                                let encoded = base64_encode(&p.data);
                                Ok(Some(id3_image_of(p, i, places.len(), encoded)))
                            },
                            _ => Ok(None),
                        }
                    },
                }
            },
            Metadata::Mp4(tag) => {
                let artworks = mp4_artwork_list(tag);
                let total = artworks.len();
                proof {
                    lemma_default_without_types(self.pictures());
                }
                let at = match index {
                    Some(i) => i,
                    None => 0,
                };
                if at < total {
                    let encoded = base64_encode(&artworks[at].data);
                    Ok(Some(mp4_image_of(&artworks[at], at, total, encoded)))
                } else {
                    Ok(None)
                }
            },
            Metadata::VorbisComments(tag) => {
                let pictures = vorbis_picture_list(tag);
                let codes = vorbis_codes(&pictures);
                match select(&codes, index, Ghost(self.pictures())) {
                    None => Ok(None),
                    Some(i) => {
                        let encoded = base64_encode(&pictures[i].data);
                        match vorbis_image_of(&pictures[i], i, pictures.len(), encoded) {
                            Ok(image) => Ok(Some(image)),
                            Err(e) => Err(e),
                        }
                    },
                }
            },
        }
    }
}

impl Metadata {
    /// The number of pictures of the tag.
    pub fn picture_count(&self) -> (n: usize)
        ensures
            n == self.pictures().len(),
    {
        match self {
            Metadata::Id3(tag) => {
                let frames = id3_frame_list(tag);
                let places = picture_positions(&frames);
                proof {
                    lemma_places(id3_frames(*tag));
                }
                places.len()
            },
            Metadata::Mp4(tag) => {
                let artworks = mp4_artwork_list(tag);
                artworks.len()
            },
            Metadata::VorbisComments(tag) => {
                let pictures = vorbis_picture_list(tag);
                pictures.len()
            },
        }
    }

    /// Removes the picture at `index`; the later pictures move up by one.
    /// An index outside the list is refused and the tag stays as it is.
    pub fn remove_picture(&mut self, index: usize) -> (done: Result<(), TagError>)
        ensures
            match done {
                Ok(_) => {
                    &&& index < old(self).pictures().len()
                    &&& final(self).pictures() == old(self).pictures().remove(index as int)
                    &&& old(self).removed(*final(self), index)
                },
                Err(e) => {
                    &&& e == TagError::IndexOutOfRange
                    &&& index >= old(self).pictures().len()
                    &&& *final(self) == *old(self)
                },
            },
    {
        match self {
            Metadata::Id3(tag) => {
                let frames = id3_frame_list(tag);
                let places = picture_positions(&frames);
                let ghost all = id3_frames(*tag);
                proof {
                    lemma_places(all);
                }
                if index >= places.len() {
                    return Err(TagError::IndexOutOfRange);
                }
                proof {
                    lemma_pictures_after_remove(all, index as int);
                }
                id3_remove_frame(tag, places[index]);
                Ok(())
            },
            Metadata::Mp4(tag) => {
                let mut artworks = mp4_artwork_list(tag);
                if index >= artworks.len() {
                    return Err(TagError::IndexOutOfRange);
                }
                let ghost before = mp4_artworks(*tag);
                let _ = artworks.remove(index);
                proof {
                    assert(artwork_views(artworks@) =~= before.remove(index as int));
                }
                mp4_set_artworks(tag, artworks);
                Ok(())
            },
            Metadata::VorbisComments(tag) => {
                let pictures = vorbis_picture_list(tag);
                if index >= pictures.len() {
                    return Err(TagError::IndexOutOfRange);
                }
                vorbis_remove_picture(tag, index);
                Ok(())
            },
        }
    }

    /// The image format of a file with this extension, where this kind of
    /// tag can hold it.
    pub fn format_for(&self, extension: &str) -> (format: Option<ImageFormat>)
        ensures
            format == self.accepted_format(extension@),
    {
        match image_format(extension) {
            Some(ImageFormat::Bmp) => match self {
                Metadata::VorbisComments(_) => None,
                _ => Some(ImageFormat::Bmp),
            },
            other => other,
        }
    }

    /// What this kind of tag reads from the header of an image before it
    /// stores it.
    pub fn read_header(&self, format: ImageFormat, data: &Vec<u8>) -> (info: Option<PictureInfo>)
        ensures
            info == self.header(format, data@),
    {
        match self {
            Metadata::VorbisComments(_) => match format {
                ImageFormat::Png => png_info(data),
                ImageFormat::Jpeg => jpeg_info(data),
                ImageFormat::Bmp => None,
            },
            _ => None,
        }
    }

    /// Stores an image of the given format as picture `index`; `info` is
    /// what its header says, which a Vorbis tag needs and the others do not
    /// look at. Inside the list the picture there is replaced: it keeps
    /// its picture type and its description where the tag stores them, and
    /// gets the new data and the MIME type of the format. At the position
    /// behind the last picture the image is added as a new picture. Any
    /// other index is refused, and then, by a Vorbis tag, an image without
    /// header; the tag then stays as it is.
    pub fn store_picture(&mut self, index: usize, data: Vec<u8>, format: ImageFormat, info: Option<PictureInfo>) -> (done:
        Result<(), TagError>)
        ensures
            match done {
                Ok(_) => {
                    &&& old(self).store_fault(index, info) is None
                    &&& final(self).pictures() == old(self).pictures_after_set(index, format, data@)
                    &&& old(self).stored(*final(self), index, format, data@, info)
                },
                Err(e) => {
                    &&& old(self).store_fault(index, info) == Some(e)
                    &&& *final(self) == *old(self)
                },
            },
    {
        match self {
            Metadata::Id3(tag) => {
                let frames = id3_frame_list(tag);
                let places = picture_positions(&frames);
                let ghost all = id3_frames(*tag);
                proof {
                    lemma_places(all);
                }
                if index > places.len() {
                    return Err(TagError::IndexOutOfRange);
                }
                let mime = mime_string(format);
                if index < places.len() {
                    let place = places[index];
                    let (kind, description) = match &frames[place].content {
                        Id3Content::Picture(p) => (p.picture_type, p.description.clone()),
                        _ => (0, String::new()),
                    };
                    proof {
                        assert(all[place as int] == frames@[place as int]@);
                        let fresh = replaced_picture_frame(all[place as int], mime@, data@);
                        lemma_pictures_after_update(all, index as int, fresh);
                    }
                    id3_set_picture_frame(tag, place, kind, mime, description, data);
                } else {
                    let description = String::new();
                    proof {
                        let fresh = new_picture_frame(mime@, description@, data@);
                        lemma_pictures_after_push(all, fresh);
                    }
                    id3_push_picture_frame(tag, 0, mime, description, data);
                }
                Ok(())
            },
            Metadata::Mp4(tag) => {
                let mut artworks = mp4_artwork_list(tag);
                if index > artworks.len() {
                    return Err(TagError::IndexOutOfRange);
                }
                let ghost before = mp4_artworks(*tag);
                let ghost fresh = Mp4ArtworkView { format, data: data@ };
                let artwork = Mp4Artwork { format, data };
                if index < artworks.len() {
                    artworks.set(index, artwork);
                    proof {
                        assert(artwork_views(artworks@) =~= before.update(index as int, fresh));
                    }
                } else {
                    artworks.push(artwork);
                    proof {
                        assert(artwork_views(artworks@) =~= before.push(fresh));
                    }
                }
                mp4_set_artworks(tag, artworks);
                Ok(())
            },
            Metadata::VorbisComments(tag) => {
                let pictures = vorbis_picture_list(tag);
                if index > pictures.len() {
                    return Err(TagError::IndexOutOfRange);
                }
                let info = match info {
                    Some(i) => i,
                    None => {
                        return Err(TagError::InvalidImage);
                    },
                };
                if index < pictures.len() {
                    let kind = pictures[index].picture_type;
                    let description = match &pictures[index].description {
                        Some(d) => Some(d.clone()),
                        None => None,
                    };
                    vorbis_set_picture(tag, index, kind, format, description, data, info);
                } else {
                    vorbis_set_picture(tag, index, 0, format, None, data, info);
                }
                Ok(())
            },
        }
    }

    /// Stores the image `data`, read from a file with the given extension,
    /// as picture `index`: see `store_picture`. An extension that this kind
    /// of tag does not hold is refused before anything else is looked at.
    pub fn set_picture(&mut self, index: usize, data: Vec<u8>, extension: &str) -> (done: Result<
        (),
        TagError,
    >)
        ensures
            match done {
                Ok(_) => {
                    &&& old(self).set_fault(index, data@, extension@) is None
                    &&& final(self).pictures() == old(self).pictures_after_set(
                        index,
                        old(self).accepted_format(extension@).unwrap(),
                        data@,
                    )
                    &&& old(self).stored(
                        *final(self),
                        index,
                        old(self).accepted_format(extension@).unwrap(),
                        data@,
                        old(self).header(old(self).accepted_format(extension@).unwrap(), data@),
                    )
                },
                Err(e) => {
                    &&& old(self).set_fault(index, data@, extension@) == Some(e)
                    &&& *final(self) == *old(self)
                },
            },
    {
        let format = match self.format_for(extension) {
            Some(f) => f,
            None => {
                return Err(TagError::UnsupportedImageType);
            },
        };
        let info = self.read_header(format, &data);
        self.store_picture(index, data, format, info)
    }
}

/// Shows a picture of the current file: see `Metadata::get_picture`.
pub fn get_image(index: Option<usize>, app: &App) -> (image: Result<Option<Image>, TagError>)
    ensures
        !app.has_current() ==> image == Err::<Option<Image>, TagError>(TagError::NoOpenFile),
        app.has_current() ==> match app.current().metadata.shown(index) {
            Ok(Some(v)) => image matches Ok(Some(i)) && i@ == v,
            Ok(None) => image matches Ok(None),
            Err(e) => image == Err::<Option<Image>, TagError>(e),
        },
{
    if app.current_index < app.files.len() {
        app.files[app.current_index].metadata.get_picture(index)
    } else {
        Err(TagError::NoOpenFile)
    }
}

/// Removes a picture of the current file and marks the file as changed.
/// Where the picture cannot be removed, nothing changes.
pub fn remove_image(index: usize, app: &mut App) -> (done: Result<(), TagError>)
    ensures
        match done {
            Ok(_) => {
                &&& old(app).has_current()
                &&& old(app).edited(*final(app))
                &&& final(app).current().dirty
                &&& index < old(app).current().metadata.pictures().len()
                &&& final(app).current().metadata.pictures() == old(app).current().metadata.pictures().remove(index as int)
                &&& old(app).current().metadata.removed(final(app).current().metadata, index)
            },
            Err(e) => {
                &&& old(app).unchanged(*final(app))
                &&& e == if old(app).has_current() {
                    TagError::IndexOutOfRange
                } else {
                    TagError::NoOpenFile
                }
                &&& old(app).has_current() ==> index >= old(app).current().metadata.pictures().len()
            },
        },
{
    let file = match app.current_file() {
        Ok(f) => f,
        Err(e) => {
            return Err(e);
        },
    };
    let done = match file.metadata.remove_picture(index) {
        Ok(_) => {
            file.dirty = true;
            Ok(())
        },
        Err(e) => Err(e),
    };
    proof {
        if done is Err {
            assert(app.files@ =~= old(app).files@);
        }
    }
    done
}

/// Stores an image as a picture of the current file and marks the file as
/// changed: see `Metadata::set_picture`. `data` is what the image file
/// holds and `extension` the extension of its name. Where the image cannot
/// be stored, nothing changes.
pub fn set_image(index: usize, data: Vec<u8>, extension: &str, app: &mut App) -> (done: Result<
    (),
    TagError,
>)
    ensures
        match done {
            Ok(_) => {
                &&& old(app).has_current()
                &&& old(app).edited(*final(app))
                &&& final(app).current().dirty
                &&& old(app).current().metadata.set_fault(index, data@, extension@) is None
                &&& final(app).current().metadata.pictures() == old(app).current().metadata.pictures_after_set(
                    index,
                    old(app).current().metadata.accepted_format(extension@).unwrap(),
                    data@,
                )
                &&& old(app).current().metadata.stored(
                    final(app).current().metadata,
                    index,
                    old(app).current().metadata.accepted_format(extension@).unwrap(),
                    data@,
                    old(app).current().metadata.header(
                        old(app).current().metadata.accepted_format(extension@).unwrap(),
                        data@,
                    ),
                )
            },
            Err(e) => {
                &&& old(app).unchanged(*final(app))
                &&& !old(app).has_current() ==> e == TagError::NoOpenFile
                &&& old(app).has_current() ==> old(app).current().metadata.set_fault(
                    index,
                    data@,
                    extension@,
                ) == Some(e)
            },
        },
{
    let file = match app.current_file() {
        Ok(f) => f,
        Err(e) => {
            return Err(e);
        },
    };
    let done = match file.metadata.set_picture(index, data, extension) {
        Ok(_) => {
            file.dirty = true;
            Ok(())
        },
        Err(e) => Err(e),
    };
    proof {
        if done is Err {
            assert(app.files@ =~= old(app).files@);
        }
    }
    done
}

/// Of a tag without pictures nothing is shown, whatever is asked for, and
/// that is no error.
pub proof fn lemma_nothing_to_show(m: Metadata, index: Option<usize>)
    requires
        m.pictures().len() == 0,
    ensures
        m.shown(index) == Ok::<Option<ImageView>, TagError>(None),
{
}

/// Showing a picture fails for Vorbis tags alone, and only because of what
/// is stored with the picture: its MIME type or its picture type.
pub proof fn lemma_show_errors(m: Metadata, index: Option<usize>)
    ensures
        match m.shown(index) {
            Ok(_) => true,
            Err(e) => m is VorbisComments && e.is_picture_metadata(),
        },
{
}

/// An edit of the pictures leaves the tag of the kind that it was.
pub proof fn lemma_edit_keeps_kind(
    before: Metadata,
    after: Metadata,
    index: usize,
    format: ImageFormat,
    data: Seq<u8>,
    info: Option<PictureInfo>,
)
    requires
        before.removed(after, index) || before.stored(after, index, format, data, info),
    ensures
        after.backend() == before.backend(),
{
}

/// An edit of the pictures of an MP4 or Vorbis tag leaves its fields as they
/// were. Of an MP4 tag the flat list is left out: text values stored in the
/// atom of the artworks would be lost from it.
pub proof fn lemma_edit_keeps_fields(
    before: Metadata,
    after: Metadata,
    index: usize,
    format: ImageFormat,
    data: Seq<u8>,
    info: Option<PictureInfo>,
)
    requires
        before.removed(after, index) || before.stored(after, index, format, data, info),
    ensures
        before is VorbisComments ==> after.field_view() == before.field_view(),
        before is Mp4 ==> after.field_view() == (FieldsView {
            frames: after.field_view().frames,
            ..before.field_view()
        }),
{
    assert(title_ident()[1] != cover_ident()[1]);
    assert(artist_ident()[1] != cover_ident()[1]);
    assert(album_ident()[1] != cover_ident()[1]);
    assert(album_artist_ident()[0] != cover_ident()[0]);
    assert(composer_ident()[1] != cover_ident()[1]);
    assert(grouping_ident()[1] != cover_ident()[1]);
    assert(comment_ident()[0] != cover_ident()[0]);
}

/// None of the frames that the fields of an ID3 tag are read from is the
/// frame of a picture, `APIC`.
pub proof fn lemma_field_frames()
    ensures
        "TIT2"@ != apic(),
        "TPE1"@ != apic(),
        "TALB"@ != apic(),
        "TPE2"@ != apic(),
        "TCOM"@ != apic(),
        "GRP1"@ != apic(),
        "GP1"@ != apic(),
        "TCON"@ != apic(),
        "TRCK"@ != apic(),
        "TPOS"@ != apic(),
        "TCMP"@ != apic(),
        "TCP"@ != apic(),
        "TBPM"@ != apic(),
{
    reveal_strlit("APIC");
    reveal_strlit("TIT2");
    reveal_strlit("TPE1");
    reveal_strlit("TALB");
    reveal_strlit("TPE2");
    reveal_strlit("TCOM");
    reveal_strlit("GRP1");
    reveal_strlit("GP1");
    reveal_strlit("TCON");
    reveal_strlit("TRCK");
    reveal_strlit("TPOS");
    reveal_strlit("TCMP");
    reveal_strlit("TCP");
    reveal_strlit("TBPM");
    assert("APIC"@[0] == 'A');
}

/// An edit of the pictures of an ID3 tag leaves its fields as they were,
/// provided the frames that hold its pictures are `APIC` frames: a picture
/// held under the identifier of a field would hide or uncover that field.
pub proof fn lemma_edit_keeps_id3_fields(
    before: Metadata,
    after: Metadata,
    index: usize,
    format: ImageFormat,
    data: Seq<u8>,
    info: Option<PictureInfo>,
)
    requires
        before is Id3,
        pictures_under_apic(id3_frames(before->Id3_0)),
        (index < before.pictures().len() && before.removed(after, index)) || (index
            <= before.pictures().len() && before.stored(after, index, format, data, info)),
    ensures
        after.field_view() == before.field_view(),
{
    let f = id3_frames(before->Id3_0);
    let g = id3_frames(after->Id3_0);
    let listed = |x: Id3FrameView| id3_listed(x);
    let commented = |x: Id3FrameView| id3_comment(x);
    lemma_places(f);
    lemma_field_frames();
    if index < before.pictures().len() {
        let k = picture_places(f)[index as int];
        let head = f.take(k);
        let tail = f.skip(k + 1);
        assert(f =~= head + seq![f[k]] + tail);
        if before.removed(after, index) {
            assert(g =~= head + Seq::<Id3FrameView>::empty() + tail);
            lemma_filter_map_edit(head, seq![f[k]], Seq::<Id3FrameView>::empty(), tail, listed);
            lemma_filter_map_edit(head, seq![f[k]], Seq::<Id3FrameView>::empty(), tail, commented);
            assert forall|id: Seq<char>| id != apic() implies frame_text(g, id) == frame_text(f, id) by {
                lemma_text_after_remove(f, k, id);
            }
        } else {
            let fresh = replaced_picture_frame(f[k], mime_text(format), data);
            assert(g =~= head + seq![fresh] + tail);
            lemma_filter_map_edit(head, seq![f[k]], seq![fresh], tail, listed);
            lemma_filter_map_edit(head, seq![f[k]], seq![fresh], tail, commented);
            assert forall|id: Seq<char>| id != apic() implies frame_text(g, id) == frame_text(f, id) by {
                lemma_text_after_update(f, k, fresh, id);
            }
        }
    } else {
        let fresh = new_picture_frame(mime_text(format), Seq::<char>::empty(), data);
        let none = Seq::<Id3FrameView>::empty();
        assert(f =~= f + none + none);
        assert(g =~= f + seq![fresh] + none);
        lemma_filter_map_edit(f, none, seq![fresh], none, listed);
        lemma_filter_map_edit(f, none, seq![fresh], none, commented);
        assert forall|id: Seq<char>| id != apic() implies frame_text(g, id) == frame_text(f, id) by {
            lemma_text_after_push(f, fresh, id);
        }
    }
}

/// After the only front cover of a tag has been removed, the first of the
/// remaining pictures is the one shown by default, and none where no
/// picture remains.
pub proof fn lemma_front_cover_removed(before: Metadata, after: Metadata, index: usize)
    requires
        index < before.pictures().len(),
        after.pictures() == before.pictures().remove(index as int),
        is_front(before.pictures()[index as int]),
        forall|j: int|
            0 <= j < before.pictures().len() && j != index ==> !is_front(before.pictures()[j]),
    ensures
        selected_picture(after.pictures(), None) == if before.pictures().len() == 1 {
            None::<int>
        } else {
            Some(0int)
        },
{
    crate::artwork::lemma_default_after_front_removed(before.pictures(), index as int);
}

/// An image whose extension names no format that the tag holds is refused
/// with `UnsupportedImageType`, whatever the index and the data. `gif` is
/// such an extension for every kind of tag.
pub proof fn lemma_unknown_extension_refused(m: Metadata, index: usize, data: Seq<u8>, extension: Seq<char>)
    ensures
        m.accepted_format(extension) is None ==> m.set_fault(index, data, extension) == Some(
            TagError::UnsupportedImageType,
        ),
        m.set_fault(index, data, "gif"@) == Some(TagError::UnsupportedImageType),
{
    reveal_strlit("gif");
    reveal_strlit("jpg");
    reveal_strlit("jpeg");
    reveal_strlit("png");
    reveal_strlit("bmp");
    assert("gif"@[0] != "jpg"@[0]);
}

/// A PNG image stored at the position behind the last picture is added to
/// the list, and one position further it is refused. A Vorbis tag adds
/// the image only where it can read its header.
pub proof fn lemma_png_behind_the_last(m: Metadata, data: Seq<u8>)
    requires
        m.pictures().len() < usize::MAX,
        m is VorbisComments ==> png_information(data) is Some,
    ensures
        m.accepted_format("png"@) == Some(ImageFormat::Png),
        m.set_fault(m.pictures().len() as usize, data, "png"@) is None,
        m.pictures_after_set(m.pictures().len() as usize, ImageFormat::Png, data)
            == m.pictures().push(m.fresh_picture(ImageFormat::Png, data)),
        m.set_fault((m.pictures().len() + 1) as usize, data, "png"@) == Some(
            TagError::IndexOutOfRange,
        ),
{
    reveal_strlit("jpg");
    reveal_strlit("jpeg");
    reveal_strlit("png");
    assert("png"@[0] != "jpg"@[0]);
}

} // verus!
