//! The MP4 backend: what is read from an `mp4ameta::Tag`, and how its list of
//! artworks is written. The tag stays a value of the `mp4ameta` crate; each
//! thing read of it has a name here, and what is read is copied into plain
//! values.

use vstd::prelude::*;
use crate::format::ImageFormat;

verus! {

#[verifier::external_type_specification]
#[verifier::external_body]
pub struct ExMp4Tag(mp4ameta::Tag);

/// An artwork of an MP4 tag, as plain values.
pub struct Mp4Artwork {
    pub format: ImageFormat,
    pub data: Vec<u8>,
}

pub struct Mp4ArtworkView {
    pub format: ImageFormat,
    pub data: Seq<u8>,
}

impl View for Mp4Artwork {
    type V = Mp4ArtworkView;

    open spec fn view(&self) -> Mp4ArtworkView {
        Mp4ArtworkView { format: self.format, data: self.data@ }
    }
}

/// The views of a list of artworks.
pub open spec fn artwork_views(v: Seq<Mp4Artwork>) -> Seq<Mp4ArtworkView> {
    v.map_values(|a: Mp4Artwork| a@)
}

/// What a value of a tag is: of a text the text itself, of anything else
/// its kind alone.
pub enum Mp4Value {
    Reserved,
    Utf8(String),
    Utf16(String),
    Jpeg,
    Png,
    BeSigned,
    Bmp,
}

pub enum Mp4ValueView {
    Reserved,
    Utf8(Seq<char>),
    Utf16(Seq<char>),
    Jpeg,
    Png,
    BeSigned,
    Bmp,
}

impl View for Mp4Value {
    type V = Mp4ValueView;

    open spec fn view(&self) -> Mp4ValueView {
        match self {
            Mp4Value::Reserved => Mp4ValueView::Reserved,
            Mp4Value::Utf8(t) => Mp4ValueView::Utf8(t@),
            Mp4Value::Utf16(t) => Mp4ValueView::Utf16(t@),
            Mp4Value::Jpeg => Mp4ValueView::Jpeg,
            Mp4Value::Png => Mp4ValueView::Png,
            Mp4Value::BeSigned => Mp4ValueView::BeSigned,
            Mp4Value::Bmp => Mp4ValueView::Bmp,
        }
    }
}

/// One value of a tag: the identifier of its atom as text, and the value.
pub struct Mp4Entry {
    pub ident: String,
    pub value: Mp4Value,
}

pub struct Mp4EntryView {
    pub ident: Seq<char>,
    pub value: Mp4ValueView,
}

impl View for Mp4Entry {
    type V = Mp4EntryView;

    open spec fn view(&self) -> Mp4EntryView {
        Mp4EntryView { ident: self.ident@, value: self.value@ }
    }
}

/// The views of a list of entries.
pub open spec fn entry_views(v: Seq<Mp4Entry>) -> Seq<Mp4EntryView> {
    v.map_values(|e: Mp4Entry| e@)
}

/// The strings that the tag holds under a four-byte identifier, in order:
/// what `mp4ameta::Tag::strings_of` yields.
pub uninterp spec fn mp4_strings(tag: mp4ameta::Tag, ident: Seq<u8>) -> Seq<Seq<char>>;

/// The genres of the tag, first the standard ones by name, then the custom
/// ones: what `mp4ameta::Tag::genres` yields.
pub uninterp spec fn mp4_genres(tag: mp4ameta::Tag) -> Seq<Seq<char>>;

/// The track number of the tag and the number of tracks: what
/// `mp4ameta::Tag::track` returns.
pub uninterp spec fn mp4_track(tag: mp4ameta::Tag) -> (Option<u16>, Option<u16>);

/// The disc number of the tag and the number of discs: what
/// `mp4ameta::Tag::disc` returns.
pub uninterp spec fn mp4_disc(tag: mp4ameta::Tag) -> (Option<u16>, Option<u16>);

/// The compilation flag of the tag: what `mp4ameta::Tag::compilation`
/// returns.
pub uninterp spec fn mp4_compilation(tag: mp4ameta::Tag) -> bool;

/// The beats per minute of the tag: what `mp4ameta::Tag::bpm` returns.
pub uninterp spec fn mp4_bpm(tag: mp4ameta::Tag) -> Option<u16>;

/// The artworks of the tag, in order: what `mp4ameta::Tag::artworks`
/// yields.
pub uninterp spec fn mp4_artworks(tag: mp4ameta::Tag) -> Seq<Mp4ArtworkView>;

/// All values of the tag, atom by atom, in order: what
/// `mp4ameta::Tag::data` yields.
pub uninterp spec fn mp4_entries(tag: mp4ameta::Tag) -> Seq<Mp4EntryView>;

/// The identifier of the atom that holds the artworks, as four bytes.
pub open spec fn cover_ident() -> Seq<u8> {
    seq![0x63u8, 0x6fu8, 0x76u8, 0x72u8]
}

/// True of an entry that does not belong to the atom of the artworks.
pub open spec fn outside_cover(entry: Mp4EntryView) -> bool {
    entry.ident != "covr"@
}

/// The entries of a tag without those of the atom of the artworks.
pub open spec fn entries_outside_cover(tag: mp4ameta::Tag) -> Seq<Mp4EntryView> {
    mp4_entries(tag).filter(|e: Mp4EntryView| outside_cover(e))
}

/// True where `after` holds under every identifier but that of the artworks
/// what `before` holds.
pub open spec fn mp4_rest_kept(before: mp4ameta::Tag, after: mp4ameta::Tag) -> bool {
    &&& forall|ident: Seq<u8>|
        ident.len() == 4 && ident != cover_ident() ==> #[trigger] mp4_strings(after, ident)
            == mp4_strings(before, ident)
    &&& mp4_genres(after) == mp4_genres(before)
    &&& mp4_track(after) == mp4_track(before)
    &&& mp4_disc(after) == mp4_disc(before)
    &&& mp4_compilation(after) == mp4_compilation(before)
    &&& mp4_bpm(after) == mp4_bpm(before)
    &&& entries_outside_cover(after) == entries_outside_cover(before)
}

/// `mp4ameta::Tag::strings_of` on a four-byte identifier: the strings under
/// it, in order.
#[verifier::external_body]
pub(crate) fn mp4_strings_of(tag: &mp4ameta::Tag, ident: [u8; 4]) -> (out: Vec<String>)
    ensures
        crate::text::texts(out@) == mp4_strings(*tag, ident@),
{
    tag.strings_of(&mp4ameta::Fourcc(ident)).map(String::from).collect()
}

/// `mp4ameta::Tag::genres`.
#[verifier::external_body]
pub(crate) fn mp4_genre_list(tag: &mp4ameta::Tag) -> (out: Vec<String>)
    ensures
        crate::text::texts(out@) == mp4_genres(*tag),
{
    tag.genres().map(String::from).collect()
}

/// `mp4ameta::Tag::track`.
#[verifier::external_body]
pub(crate) fn mp4_track_pair(tag: &mp4ameta::Tag) -> (pair: (Option<u16>, Option<u16>))
    ensures
        pair == mp4_track(*tag),
{
    tag.track()
}

/// `mp4ameta::Tag::disc`.
#[verifier::external_body]
pub(crate) fn mp4_disc_pair(tag: &mp4ameta::Tag) -> (pair: (Option<u16>, Option<u16>))
    ensures
        pair == mp4_disc(*tag),
{
    tag.disc()
}

/// `mp4ameta::Tag::compilation`.
#[verifier::external_body]
pub(crate) fn mp4_is_compilation(tag: &mp4ameta::Tag) -> (flag: bool)
    ensures
        flag == mp4_compilation(*tag),
{
    tag.compilation()
}

/// `mp4ameta::Tag::bpm`.
#[verifier::external_body]
pub(crate) fn mp4_beats(tag: &mp4ameta::Tag) -> (bpm: Option<u16>)
    ensures
        bpm == mp4_bpm(*tag),
{
    tag.bpm()
}

/// `mp4ameta::Tag::artworks`, each image copied with its format.
#[verifier::external_body]
pub(crate) fn mp4_artwork_list(tag: &mp4ameta::Tag) -> (out: Vec<Mp4Artwork>)
    ensures
        artwork_views(out@) == mp4_artworks(*tag),
{
    tag.artworks().map(|img| Mp4Artwork {
        format: match img.fmt {
            mp4ameta::ImgFmt::Bmp => ImageFormat::Bmp,
            mp4ameta::ImgFmt::Jpeg => ImageFormat::Jpeg,
            mp4ameta::ImgFmt::Png => ImageFormat::Png,
        },
        data: img.data.to_vec(),
    }).collect()
}

/// `mp4ameta::Tag::data`, of each value the identifier of its atom
/// (`to_string`) and its kind, with the text of a UTF-8 or UTF-16 value.
#[verifier::external_body]
pub(crate) fn mp4_entry_list(tag: &mp4ameta::Tag) -> (out: Vec<Mp4Entry>)
    ensures
        entry_views(out@) == mp4_entries(*tag),
{
    tag.data().map(|(ident, data)| Mp4Entry { ident: ident.to_string(), value: match data {
        mp4ameta::Data::Reserved(_) => Mp4Value::Reserved,
        mp4ameta::Data::Utf8(t) => Mp4Value::Utf8(t.clone()),
        mp4ameta::Data::Utf16(t) => Mp4Value::Utf16(t.clone()),
        mp4ameta::Data::Jpeg(_) => Mp4Value::Jpeg,
        mp4ameta::Data::Png(_) => Mp4Value::Png,
        mp4ameta::Data::BeSigned(_) => Mp4Value::BeSigned,
        mp4ameta::Data::Bmp(_) => Mp4Value::Bmp,
    } }).collect()
}

/// `mp4ameta::Tag::set_artworks`: the artworks of the tag become the images
/// given, in their order. The atom of the artworks is the only one changed:
/// the strings under any other identifier, the genres, the track and disc
/// numbers, the compilation flag, the beats per minute and the values of
/// all other atoms stay as they were.
#[verifier::external_body]
pub(crate) fn mp4_set_artworks(tag: &mut mp4ameta::Tag, images: Vec<Mp4Artwork>)
    ensures
        mp4_artworks(*final(tag)) == artwork_views(images@),
        mp4_rest_kept(*old(tag), *final(tag)),
{
    tag.set_artworks(images.into_iter().map(|a| mp4ameta::Img {
        fmt: match a.format {
            ImageFormat::Bmp => mp4ameta::ImgFmt::Bmp,
            ImageFormat::Jpeg => mp4ameta::ImgFmt::Jpeg,
            ImageFormat::Png => mp4ameta::ImgFmt::Png,
        },
        data: a.data,
    }));
}

} // verus!
