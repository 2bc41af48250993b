//! The ID3v2 backend: what is read from an `id3::Tag`, and how its picture
//! frames are edited. The tag stays a value of the `id3` crate; its frames
//! have a name here, and what is read of them is copied into plain values.

use vstd::prelude::*;
use vstd::string::*;
use id3::frame::PictureType;
use crate::text::{opt_view, parsed_u32};

verus! {

#[verifier::external_type_specification]
#[verifier::external_body]
pub struct ExId3Tag(id3::Tag);

/// An attached picture of an ID3 tag, as plain values.
pub struct Id3Picture {
    /// The MIME type, as the frame stores it.
    pub mime_type: String,
    /// The picture type as its ID3 code; 3 is the front cover. The code is
    /// all that is read of the type: a picture of an undefined type whose
    /// code is one of the defined ones, 0 to 20, is read as of that type.
    pub picture_type: u8,
    pub description: String,
    pub data: Vec<u8>,
}

pub struct Id3PictureView {
    pub mime_type: Seq<char>,
    pub picture_type: u8,
    pub description: Seq<char>,
    pub data: Seq<u8>,
}

impl View for Id3Picture {
    type V = Id3PictureView;

    open spec fn view(&self) -> Id3PictureView {
        Id3PictureView {
            mime_type: self.mime_type@,
            picture_type: self.picture_type,
            description: self.description@,
            data: self.data@,
        }
    }
}

/// A comment of an ID3 tag, as plain values.
pub struct Id3Comment {
    pub lang: String,
    pub description: String,
    pub text: String,
}

pub struct Id3CommentView {
    pub lang: Seq<char>,
    pub description: Seq<char>,
    pub text: Seq<char>,
}

impl View for Id3Comment {
    type V = Id3CommentView;

    open spec fn view(&self) -> Id3CommentView {
        Id3CommentView { lang: self.lang@, description: self.description@, text: self.text@ }
    }
}

/// What a frame holds, as far as this library reads it.
pub enum Id3Content {
    Text(String),
    Comment(Id3Comment),
    Picture(Id3Picture),
    /// Any other kind of content: links, lyrics, binary objects and the like.
    Other,
}

pub enum Id3ContentView {
    Text(Seq<char>),
    Comment(Id3CommentView),
    Picture(Id3PictureView),
    Other,
}

impl View for Id3Content {
    type V = Id3ContentView;

    open spec fn view(&self) -> Id3ContentView {
        match self {
            Id3Content::Text(t) => Id3ContentView::Text(t@),
            Id3Content::Comment(c) => Id3ContentView::Comment(c@),
            Id3Content::Picture(p) => Id3ContentView::Picture(p@),
            Id3Content::Other => Id3ContentView::Other,
        }
    }
}

/// One frame as plain values: its identifier and its content.
pub struct Id3Frame {
    pub id: String,
    pub content: Id3Content,
}

pub struct Id3FrameView {
    pub id: Seq<char>,
    pub content: Id3ContentView,
}

impl View for Id3Frame {
    type V = Id3FrameView;

    open spec fn view(&self) -> Id3FrameView {
        Id3FrameView { id: self.id@, content: self.content@ }
    }
}

/// The frames of a tag as plain values, in the order in which the tag holds
/// them: what `id3::Tag::frames` yields.
pub uninterp spec fn id3_frames(tag: id3::Tag) -> Seq<Id3FrameView>;

/// True where the frame holds a picture.
pub open spec fn holds_picture(frame: Id3FrameView) -> bool {
    frame.content is Picture
}

/// The identifier under which a picture frame is written.
pub open spec fn apic() -> Seq<char> {
    "APIC"@
}

/// Position of the first frame with identifier `id`, or the number of frames
/// where there is none.
pub open spec fn first_with_id(frames: Seq<Id3FrameView>, id: Seq<char>) -> int
    decreases frames.len(),
{
    if frames.len() == 0 {
        0
    } else if frames[0].id == id {
        0
    } else {
        1 + first_with_id(frames.drop_first(), id)
    }
}

/// The text of the first frame with identifier `id`. There is none where no
/// frame has that identifier, and none where the first that has it holds
/// something other than plain text.
pub open spec fn frame_text(frames: Seq<Id3FrameView>, id: Seq<char>) -> Option<Seq<char>> {
    let k = first_with_id(frames, id);
    if 0 <= k < frames.len() {
        match frames[k].content {
            Id3ContentView::Text(t) => Some(t),
            _ => None,
        }
    } else {
        None
    }
}

/// Position of the first `/` or NUL of a text, or its length.
pub open spec fn first_separator(text: Seq<char>) -> int
    decreases text.len(),
{
    if text.len() == 0 {
        0
    } else if text[0] == '/' || text[0] == '\0' {
        0
    } else {
        1 + first_separator(text.drop_first())
    }
}

/// The part of a text such as `4/10` before its first separator.
pub open spec fn first_part(text: Seq<char>) -> Seq<char> {
    text.take(first_separator(text))
}

/// True where the text holds a separator.
pub open spec fn has_second_part(text: Seq<char>) -> bool {
    first_separator(text) < text.len()
}

/// The part of a text after its first separator.
pub open spec fn second_part(text: Seq<char>) -> Seq<char> {
    text.skip(first_separator(text) + 1)
}

/// The identifier of the frame that holds the track number.
pub open spec fn trck() -> Seq<char> {
    "TRCK"@
}

/// The identifier of the frame that holds the disc number.
pub open spec fn tpos() -> Seq<char> {
    "TPOS"@
}

/// The views of a list of frames.
pub open spec fn plain_views(v: Seq<Id3Frame>) -> Seq<Id3FrameView> {
    v.map_values(|f: Id3Frame| f@)
}

/// An `APIC` frame that holds a picture.
pub open spec fn picture_frame(
    picture_type: u8,
    mime_type: Seq<char>,
    description: Seq<char>,
    data: Seq<u8>,
) -> Id3FrameView {
    Id3FrameView {
        id: apic(),
        content: Id3ContentView::Picture(
            Id3PictureView { mime_type, picture_type, description, data },
        ),
    }
}

/// The picture frame that is written for a new picture: a picture of the
/// type "other", code 0.
pub open spec fn new_picture_frame(mime_type: Seq<char>, description: Seq<char>, data: Seq<u8>) -> Id3FrameView {
    picture_frame(0, mime_type, description, data)
}

/// The picture frame that takes the place of `old`: a picture with the type
/// and the description of the picture in `old`.
pub open spec fn replaced_picture_frame(old: Id3FrameView, mime_type: Seq<char>, data: Seq<u8>) -> Id3FrameView {
    picture_frame(
        old.content->Picture_0.picture_type,
        mime_type,
        old.content->Picture_0.description,
        data,
    )
}

/// `id3::Tag::new`: a tag without frames.
#[verifier::external_body]
pub(crate) fn id3_empty_tag() -> (tag: id3::Tag)
    ensures
        id3_frames(tag) == Seq::<Id3FrameView>::empty(),
{
    id3::Tag::new()
}

/// `id3::Tag::frames`, each frame copied out: its identifier (`id`), and of
/// a text, a comment or a picture the fields. The picture type is given by
/// its code (`u8::from`).
#[verifier::external_body]
pub(crate) fn id3_frame_list(tag: &id3::Tag) -> (out: Vec<Id3Frame>)
    ensures
        plain_views(out@) == id3_frames(*tag),
{
    tag.frames().map(|f| Id3Frame { id: f.id().to_string(), content: match f.content() {
        id3::Content::Text(t) => Id3Content::Text(t.clone()),
        id3::Content::Comment(c) => Id3Content::Comment(Id3Comment {
            lang: c.lang.clone(), description: c.description.clone(), text: c.text.clone(),
        }),
        id3::Content::Picture(p) => Id3Content::Picture(Id3Picture {
            mime_type: p.mime_type.clone(), picture_type: u8::from(p.picture_type),
            description: p.description.clone(), data: p.data.clone(),
        }),
        _ => Id3Content::Other,
    } }).collect()
}

/// `Vec::remove` on `id3::TagLike::frames_vec_mut`: the frame at `position`
/// leaves the tag and the later ones move up.
#[verifier::external_body]
pub(crate) fn id3_remove_frame(tag: &mut id3::Tag, position: usize)
    requires
        position < id3_frames(*old(tag)).len(),
    ensures
        id3_frames(*final(tag)) == id3_frames(*old(tag)).remove(position as int),
{
    id3::TagLike::frames_vec_mut(tag).remove(position);
}

/// `Frame::from` on an `id3::frame::Picture` made of the values given,
/// written to the place `position` of `id3::TagLike::frames_vec_mut`: the
/// frame there becomes an `APIC` frame with that picture. No other frame
/// changes. The picture type is the one that `u8::from` maps to the code
/// given: one of the 21 defined types for the codes 0 to 20, an undefined
/// type with the code for the others.
#[verifier::external_body]
pub(crate) fn id3_set_picture_frame(
    tag: &mut id3::Tag,
    position: usize,
    picture_type: u8,
    mime_type: String,
    description: String,
    data: Vec<u8>,
)
    requires
        position < id3_frames(*old(tag)).len(),
    ensures
        id3_frames(*final(tag)) == id3_frames(*old(tag)).update(
            position as int,
            picture_frame(picture_type, mime_type@, description@, data@),
        ),
{
    let kinds = [
        PictureType::Other, PictureType::Icon, PictureType::OtherIcon, PictureType::CoverFront,
        PictureType::CoverBack, PictureType::Leaflet, PictureType::Media, PictureType::LeadArtist,
        PictureType::Artist, PictureType::Conductor, PictureType::Band, PictureType::Composer,
        PictureType::Lyricist, PictureType::RecordingLocation, PictureType::DuringRecording,
        PictureType::DuringPerformance, PictureType::ScreenCapture, PictureType::BrightFish,
        PictureType::Illustration, PictureType::BandLogo, PictureType::PublisherLogo,
    ];
    let undefined = PictureType::Undefined(picture_type);
    let picture_type = kinds.get(usize::from(picture_type)).copied().unwrap_or(undefined);
    let picture = id3::frame::Picture { mime_type, picture_type, description, data };
    id3::TagLike::frames_vec_mut(tag)[position] = id3::Frame::from(picture);
}

/// `Extend::extend` of `id3::Tag` with one frame, `Frame::from` on an
/// `id3::frame::Picture` made of the values given: an `APIC` frame with
/// that picture comes behind the frames of the tag. `extend` appends and
/// replaces nothing. The picture type is the one that `u8::from` maps to
/// the code given, as in `id3_set_picture_frame`.
#[verifier::external_body]
pub(crate) fn id3_push_picture_frame(
    tag: &mut id3::Tag,
    picture_type: u8,
    mime_type: String,
    description: String,
    data: Vec<u8>,
)
    ensures
        id3_frames(*final(tag)) == id3_frames(*old(tag)).push(
            picture_frame(picture_type, mime_type@, description@, data@),
        ),
{
    let kinds = [
        PictureType::Other, PictureType::Icon, PictureType::OtherIcon, PictureType::CoverFront,
        PictureType::CoverBack, PictureType::Leaflet, PictureType::Media, PictureType::LeadArtist,
        PictureType::Artist, PictureType::Conductor, PictureType::Band, PictureType::Composer,
        PictureType::Lyricist, PictureType::RecordingLocation, PictureType::DuringRecording,
        PictureType::DuringPerformance, PictureType::ScreenCapture, PictureType::BrightFish,
        PictureType::Illustration, PictureType::BandLogo, PictureType::PublisherLogo,
    ];
    let undefined = PictureType::Undefined(picture_type);
    let picture_type = kinds.get(usize::from(picture_type)).copied().unwrap_or(undefined);
    let picture = id3::frame::Picture { mime_type, picture_type, description, data };
    tag.extend(std::iter::once(id3::Frame::from(picture)));
}

/// `id3::TagLike::track`: the number before the first separator in the text
/// of the first `TRCK` frame.
#[verifier::external_body]
pub(crate) fn id3_track(tag: &id3::Tag) -> (n: Option<u32>)
    ensures
        n == match frame_text(id3_frames(*tag), trck()) {
            Some(t) => parsed_u32(first_part(t)),
            None => None,
        },
{
    id3::TagLike::track(tag)
}

/// `id3::TagLike::total_tracks`: the number after the first separator in the
/// text of the first `TRCK` frame, where the part before it is a number too.
#[verifier::external_body]
pub(crate) fn id3_total_tracks(tag: &id3::Tag) -> (n: Option<u32>)
    ensures
        n == match frame_text(id3_frames(*tag), trck()) {
            Some(t) => if has_second_part(t) && parsed_u32(first_part(t)) is Some {
                parsed_u32(second_part(t))
            } else {
                None
            },
            None => None,
        },
{
    id3::TagLike::total_tracks(tag)
}

/// `id3::TagLike::disc`: the number before the first separator in the text of
/// the first `TPOS` frame.
#[verifier::external_body]
pub(crate) fn id3_disc(tag: &id3::Tag) -> (n: Option<u32>)
    ensures
        n == match frame_text(id3_frames(*tag), tpos()) {
            Some(t) => parsed_u32(first_part(t)),
            None => None,
        },
{
    id3::TagLike::disc(tag)
}

/// `id3::TagLike::total_discs`: the number after the first separator in the
/// text of the first `TPOS` frame, where the part before it is a number too.
#[verifier::external_body]
pub(crate) fn id3_total_discs(tag: &id3::Tag) -> (n: Option<u32>)
    ensures
        n == match frame_text(id3_frames(*tag), tpos()) {
            Some(t) => if has_second_part(t) && parsed_u32(first_part(t)) is Some {
                parsed_u32(second_part(t))
            } else {
                None
            },
            None => None,
        },
{
    id3::TagLike::total_discs(tag)
}

/// The text of the first frame with the identifier `id`, where that frame
/// holds plain text.
pub fn get_frame_text(frames: &Vec<Id3Frame>, id: &str) -> (out: Option<String>)
    ensures
        opt_view(out) == frame_text(plain_views(frames@), id@),
{
    let ghost all = plain_views(frames@);
    let wanted = String::from_str(id);
    let mut i: usize = 0;
    proof {
        assert(all.skip(0) =~= all);
    }
    while i < frames.len()
        invariant
            i <= frames@.len(),
            all == plain_views(frames@),
            wanted@ == id@,
            first_with_id(all, id@) == i + first_with_id(all.skip(i as int), id@),
        decreases frames@.len() - i,
    {
        proof {
            assert(all.skip(i as int).drop_first() =~= all.skip(i + 1));
        }
        if frames[i].id == wanted {
            return match &frames[i].content {
                Id3Content::Text(t) => Some(t.clone()),
                _ => None,
            };
        }
        i = i + 1;
    }
    None
}

} // verus!
