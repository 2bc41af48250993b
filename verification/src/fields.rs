//! The canonical fields of a tag: one snapshot for all three kinds of tag.
//!
//! | field | ID3 | MP4 | Vorbis |
//! |---|---|---|---|
//! | title | `TIT2` | `©nam` | `TITLE` |
//! | artists | `TPE1`, split at NUL | `©ART` | every `ARTIST` |
//! | album | `TALB` | `©alb` | `ALBUM` |
//! | album artists | `TPE2`, split | `aART` | every `ALBUMARTIST` |
//! | composer | `TCOM`, split | `©wrt` | every `COMPOSER` |
//! | groupings | `GRP1`, else `GP1`, split | `©grp` | every `GROUPING` |
//! | genres | `TCON`, split | standard and custom genres | every `GENRE` |
//! | track, disc | `TRCK`, `TPOS` | `trkn`, `disk` | `TRACKNUMBER`, `TRACKTOTAL`, `DISCNUMBER`, `DISCTOTAL` |
//! | compilation | `TCMP` or `TCP` is `1` | `cpil` | `COMPILATION` is `1` |
//! | bpm | `TBPM` | `tmpo` | `BPM` |
//! | comments | `COMM` frames | `©cmt` | every `COMMENT` |

use vstd::prelude::*;
use vstd::string::*;
use crate::format::same_text;
use crate::frames::{
    frame_views, get_id3_frames, get_mp4_frames, get_vorbis_comments_frames, id3_listing,
    mp4_listing, vorbis_listing, Frame, FrameView, Metadata,
};
use crate::id3_tag::{
    first_part, frame_text, get_frame_text, has_second_part, id3_disc, id3_frame_list, id3_frames,
    id3_total_discs, id3_total_tracks, id3_track, plain_views, second_part, Id3Content, Id3ContentView,
    Id3Frame, Id3FrameView,
};
use crate::mp4_tag::{
    mp4_beats, mp4_bpm, mp4_compilation, mp4_disc, mp4_disc_pair, mp4_entries, mp4_entry_list,
    mp4_genre_list, mp4_genres, mp4_is_compilation, mp4_strings, mp4_strings_of, mp4_track,
    mp4_track_pair,
};
use crate::text::{id3_split, nul_split, opt_text, opt_to_str, opt_view, parsed_u32, texts};
use crate::vorbis_tag::{all_values, first_value, number_under, parsed, plain_key, vorbis_disk, vorbis_disk_total, vorbis_get, vorbis_get_all, vorbis_item_list, vorbis_items, vorbis_track, vorbis_track_total, VorbisItemView};

verus! {

/// A comment of a tag. The language and the description are stored by ID3
/// tags alone.
#[derive(Debug, Clone, PartialEq, Eq)]
pub struct Comment {
    pub text: String,
    pub lang: Option<String>,
    pub description: Option<String>,
}

pub struct CommentView {
    pub text: Seq<char>,
    pub lang: Option<Seq<char>>,
    pub description: Option<Seq<char>>,
}

impl View for Comment {
    type V = CommentView;

    open spec fn view(&self) -> CommentView {
        CommentView {
            text: self.text@,
            lang: opt_view(self.lang),
            description: opt_view(self.description),
        }
    }
}

/// The views of a list of comments.
pub open spec fn comment_views(v: Seq<Comment>) -> Seq<CommentView> {
    v.map_values(|c: Comment| c@)
}

/// The snapshot of the fields of a tag. A number that the tag lacks is an
/// empty text. The lists keep the order of the tag and its duplicates.
#[derive(Debug, Clone, PartialEq, Eq)]
pub struct Fields {
    pub title: String,
    pub artists: Vec<String>,
    pub album: String,
    pub album_artists: Vec<String>,
    pub composer: Vec<String>,
    pub groupings: Vec<String>,
    pub genres: Vec<String>,
    pub track_num: String,
    pub track_total: String,
    pub disc_num: String,
    pub disc_total: String,
    pub compilation: bool,
    pub bpm: String,
    pub comments: Vec<Comment>,
    pub frames: Vec<Frame>,
}

pub struct FieldsView {
    pub title: Seq<char>,
    pub artists: Seq<Seq<char>>,
    pub album: Seq<char>,
    pub album_artists: Seq<Seq<char>>,
    pub composer: Seq<Seq<char>>,
    pub groupings: Seq<Seq<char>>,
    pub genres: Seq<Seq<char>>,
    pub track_num: Seq<char>,
    pub track_total: Seq<char>,
    pub disc_num: Seq<char>,
    pub disc_total: Seq<char>,
    pub compilation: bool,
    pub bpm: Seq<char>,
    pub comments: Seq<CommentView>,
    pub frames: Seq<FrameView>,
}

impl View for Fields {
    type V = FieldsView;

    open spec fn view(&self) -> FieldsView {
        FieldsView {
            title: self.title@,
            artists: texts(self.artists@),
            album: self.album@,
            album_artists: texts(self.album_artists@),
            composer: texts(self.composer@),
            groupings: texts(self.groupings@),
            genres: texts(self.genres@),
            track_num: self.track_num@,
            track_total: self.track_total@,
            disc_num: self.disc_num@,
            disc_total: self.disc_total@,
            compilation: self.compilation,
            bpm: self.bpm@,
            comments: comment_views(self.comments@),
            frames: frame_views(self.frames@),
        }
    }
}

/// A text, or the empty text where there is none.
pub open spec fn text_or_empty(text: Option<Seq<char>>) -> Seq<char> {
    match text {
        Some(t) => t,
        None => Seq::empty(),
    }
}

/// The values of a NUL-separated text, or no values where there is no text.
pub open spec fn split_or_none(text: Option<Seq<char>>) -> Seq<Seq<char>> {
    match text {
        Some(t) => nul_split(t),
        None => Seq::empty(),
    }
}

/// The first text of a list, or the empty text where the list is empty.
pub open spec fn first_or_empty(list: Seq<Seq<char>>) -> Seq<char> {
    if list.len() > 0 {
        list[0]
    } else {
        Seq::empty()
    }
}

/// True where the text is `1`.
pub open spec fn is_one(text: Option<Seq<char>>) -> bool {
    text == Some("1"@)
}

/// A 16-bit number as a 32-bit one.
pub open spec fn widen(n: Option<u16>) -> Option<u32> {
    match n {
        Some(v) => Some(v as u32),
        None => None,
    }
}

/// One of two texts: the first where there is one, else the second.
pub open spec fn or_else(first: Option<Seq<char>>, second: Option<Seq<char>>) -> Option<Seq<char>> {
    if first is Some {
        first
    } else {
        second
    }
}

/// The number that a text such as `4/10` begins with.
pub open spec fn leading_number(text: Option<Seq<char>>) -> Option<u32> {
    match text {
        Some(t) => parsed_u32(first_part(t)),
        None => None,
    }
}

/// The number behind the separator of a text such as `4/10`; there is none
/// where the text does not begin with a number.
pub open spec fn trailing_number(text: Option<Seq<char>>) -> Option<u32> {
    match text {
        Some(t) => if has_second_part(t) && parsed_u32(first_part(t)) is Some {
            parsed_u32(second_part(t))
        } else {
            None
        },
        None => None,
    }
}

/// The comment that an ID3 frame holds, if it holds one.
pub open spec fn id3_comment(frame: Id3FrameView) -> Option<CommentView> {
    match frame.content {
        Id3ContentView::Comment(c) => Some(
            CommentView { text: c.text, lang: Some(c.lang), description: Some(c.description) },
        ),
        _ => None,
    }
}

/// The comments among the frames of an ID3 tag.
pub open spec fn id3_comments(frames: Seq<Id3FrameView>) -> Seq<CommentView> {
    frames.filter_map(|f: Id3FrameView| id3_comment(f))
}

/// A comment that is a text and nothing more.
pub open spec fn plain_comment(text: Seq<char>) -> CommentView {
    CommentView { text, lang: None, description: None }
}

/// The comments for a list of texts.
pub open spec fn plain_comments(list: Seq<Seq<char>>) -> Seq<CommentView> {
    list.map_values(|t: Seq<char>| plain_comment(t))
}

/// The fields of an ID3 tag, from its frames.
pub open spec fn id3_fields(frames: Seq<Id3FrameView>) -> FieldsView {
    FieldsView {
        title: text_or_empty(frame_text(frames, "TIT2"@)),
        artists: split_or_none(frame_text(frames, "TPE1"@)),
        album: text_or_empty(frame_text(frames, "TALB"@)),
        album_artists: split_or_none(frame_text(frames, "TPE2"@)),
        composer: split_or_none(frame_text(frames, "TCOM"@)),
        groupings: split_or_none(or_else(frame_text(frames, "GRP1"@), frame_text(frames, "GP1"@))),
        genres: split_or_none(frame_text(frames, "TCON"@)),
        track_num: opt_text(leading_number(frame_text(frames, "TRCK"@))),
        track_total: opt_text(trailing_number(frame_text(frames, "TRCK"@))),
        disc_num: opt_text(leading_number(frame_text(frames, "TPOS"@))),
        disc_total: opt_text(trailing_number(frame_text(frames, "TPOS"@))),
        compilation: is_one(frame_text(frames, "TCMP"@)) || is_one(frame_text(frames, "TCP"@)),
        bpm: text_or_empty(frame_text(frames, "TBPM"@)),
        comments: id3_comments(frames),
        frames: id3_listing(frames),
    }
}

/// The identifier of the title atom, `©nam`.
pub open spec fn title_ident() -> Seq<u8> {
    seq![0xa9u8, 0x6eu8, 0x61u8, 0x6du8]
}

/// The identifier of the artist atom, `©ART`.
pub open spec fn artist_ident() -> Seq<u8> {
    seq![0xa9u8, 0x41u8, 0x52u8, 0x54u8]
}

/// The identifier of the album atom, `©alb`.
pub open spec fn album_ident() -> Seq<u8> {
    seq![0xa9u8, 0x61u8, 0x6cu8, 0x62u8]
}

/// The identifier of the album artist atom, `aART`.
pub open spec fn album_artist_ident() -> Seq<u8> {
    seq![0x61u8, 0x41u8, 0x52u8, 0x54u8]
}

/// The identifier of the composer atom, `©wrt`.
pub open spec fn composer_ident() -> Seq<u8> {
    seq![0xa9u8, 0x77u8, 0x72u8, 0x74u8]
}

/// The identifier of the grouping atom, `©grp`.
pub open spec fn grouping_ident() -> Seq<u8> {
    seq![0xa9u8, 0x67u8, 0x72u8, 0x70u8]
}

/// The identifier of the comment atom, `©cmt`.
pub open spec fn comment_ident() -> Seq<u8> {
    seq![0xa9u8, 0x63u8, 0x6du8, 0x74u8]
}

/// The fields of an MP4 tag.
pub open spec fn mp4_fields(tag: mp4ameta::Tag) -> FieldsView {
    FieldsView {
        title: first_or_empty(mp4_strings(tag, title_ident())),
        artists: mp4_strings(tag, artist_ident()),
        album: first_or_empty(mp4_strings(tag, album_ident())),
        album_artists: mp4_strings(tag, album_artist_ident()),
        composer: mp4_strings(tag, composer_ident()),
        groupings: mp4_strings(tag, grouping_ident()),
        genres: mp4_genres(tag),
        track_num: opt_text(widen(mp4_track(tag).0)),
        track_total: opt_text(widen(mp4_track(tag).1)),
        disc_num: opt_text(widen(mp4_disc(tag).0)),
        disc_total: opt_text(widen(mp4_disc(tag).1)),
        compilation: mp4_compilation(tag),
        bpm: opt_text(widen(mp4_bpm(tag))),
        comments: plain_comments(mp4_strings(tag, comment_ident())),
        frames: mp4_listing(mp4_entries(tag)),
    }
}

/// The number in the first comment under `key`, or where there is no such
/// comment, in the first under `other`.
pub open spec fn vorbis_number(items: Seq<VorbisItemView>, key: Seq<char>, other: Seq<char>) -> Option<u32> {
    number_under(
        first_value(items, key),
        parsed(first_value(items, key)),
        first_value(items, other),
        parsed(first_value(items, other)),
    )
}

/// The fields of a Vorbis tag, from its comments.
pub open spec fn vorbis_fields(items: Seq<VorbisItemView>) -> FieldsView {
    FieldsView {
        title: text_or_empty(first_value(items, "TITLE"@)),
        artists: all_values(items, "ARTIST"@),
        album: text_or_empty(first_value(items, "ALBUM"@)),
        album_artists: all_values(items, "ALBUMARTIST"@),
        composer: all_values(items, "COMPOSER"@),
        groupings: all_values(items, "GROUPING"@),
        genres: all_values(items, "GENRE"@),
        track_num: opt_text(vorbis_number(items, "TRACKNUMBER"@, "TRACKNUM"@)),
        track_total: opt_text(vorbis_number(items, "TRACKTOTAL"@, "TOTALTRACKS"@)),
        disc_num: opt_text(parsed(first_value(items, "DISCNUMBER"@))),
        disc_total: opt_text(vorbis_number(items, "DISCTOTAL"@, "TOTALDISCS"@)),
        compilation: is_one(first_value(items, "COMPILATION"@)),
        bpm: text_or_empty(first_value(items, "BPM"@)),
        comments: plain_comments(all_values(items, "COMMENT"@)),
        frames: vorbis_listing(items),
    }
}

/// The text of an optional string, empty where there is none.
pub fn or_empty(text: Option<String>) -> (out: String)
    ensures
        out@ == text_or_empty(opt_view(text)),
{
    match text {
        Some(t) => t,
        None => String::new(),
    }
}

/// The values of an optional NUL-separated text.
pub fn split_text(text: &Option<String>) -> (out: Vec<String>)
    ensures
        texts(out@) == split_or_none(opt_view(*text)),
{
    match text {
        Some(t) => id3_split(Some(t.as_str())),
        None => id3_split(None),
    }
}

/// The first text of a list, empty where the list is.
pub fn first_text(list: &Vec<String>) -> (out: String)
    ensures
        out@ == first_or_empty(texts(list@)),
{
    if list.len() > 0 {
        list[0].clone()
    } else {
        String::new()
    }
}

/// True where the optional text is `1`.
pub fn text_is_one(text: &Option<String>) -> (yes: bool)
    ensures
        yes == is_one(opt_view(*text)),
{
    match text {
        Some(t) => same_text(t.as_str(), "1"),
        None => false,
    }
}

/// A 16-bit number as text, empty where there is none.
pub fn small_to_str(n: Option<u16>) -> (out: String)
    ensures
        out@ == opt_text(widen(n)),
{
    match n {
        Some(v) => opt_to_str(Some(v as u32)),
        None => opt_to_str(None),
    }
}

/// A list of texts as comments without language and description.
pub fn text_comments(list: Vec<String>) -> (out: Vec<Comment>)
    ensures
        comment_views(out@) == plain_comments(texts(list@)),
{
    let mut out: Vec<Comment> = Vec::new();
    let mut i: usize = 0;
    while i < list.len()
        invariant
            i <= list@.len(),
            out@.len() == i,
            forall|j: int| 0 <= j < i ==> (#[trigger] out@[j])@ == plain_comment(list@[j]@),
        decreases list@.len() - i,
    {
        out.push(Comment { text: list[i].clone(), lang: None, description: None });
        i = i + 1;
    }
    out
}

/// The comments among the frames of an ID3 tag.
pub fn get_id3_comments(frames: &Vec<Id3Frame>) -> (out: Vec<Comment>)
    ensures
        comment_views(out@) == id3_comments(plain_views(frames@)),
{
    let ghost all = plain_views(frames@);
    let mut out: Vec<Comment> = Vec::new();
    let mut i: usize = 0;
    while i < frames.len()
        invariant
            i <= frames@.len(),
            all == plain_views(frames@),
            comment_views(out@) == id3_comments(all.take(i as int)),
        decreases frames@.len() - i,
    {
        proof {
            assert(all.take(i + 1).drop_last() =~= all.take(i as int));
        }
        match &frames[i].content {
            Id3Content::Comment(c) => {
                let comment = Comment {
                    text: c.text.clone(),
                    lang: Some(c.lang.clone()),
                    description: Some(c.description.clone()),
                };
                out.push(comment);
            },
            _ => {},
        }
        i = i + 1;
    }
    proof {
        assert(all.take(i as int) =~= all);
    }
    out
}

impl Metadata {
    /// The fields of the tag.
    pub open spec fn field_view(self) -> FieldsView {
        match self {
            Metadata::Id3(tag) => id3_fields(id3_frames(tag)),
            Metadata::Mp4(tag) => mp4_fields(tag),
            Metadata::VorbisComments(tag) => vorbis_fields(vorbis_items(tag)),
        }
    }

    /// The snapshot of all fields of the tag, with its comments and its
    /// flat list of text frames.
    pub fn get_field_view(&self) -> (fields: Fields)
        ensures
            fields@ == self.field_view(),
    {
        match self {
            Metadata::Id3(tag) => id3_field_view(tag),
            Metadata::Mp4(tag) => mp4_field_view(tag),
            Metadata::VorbisComments(tag) => vorbis_field_view(tag),
        }
    }
}

/// The snapshot of the fields of an ID3 tag.
pub fn id3_field_view(tag: &id3::Tag) -> (fields: Fields)
    ensures
        fields@ == id3_fields(id3_frames(*tag)),
{
    let frames = id3_frame_list(tag);
    let grouping = match get_frame_text(&frames, "GRP1") {
        Some(t) => Some(t),
        None => get_frame_text(&frames, "GP1"),
    };
    let compilation = text_is_one(&get_frame_text(&frames, "TCMP")) || text_is_one(
        &get_frame_text(&frames, "TCP"),
    );
    Fields {
        title: or_empty(get_frame_text(&frames, "TIT2")),
        artists: split_text(&get_frame_text(&frames, "TPE1")),
        album: or_empty(get_frame_text(&frames, "TALB")),
        album_artists: split_text(&get_frame_text(&frames, "TPE2")),
        composer: split_text(&get_frame_text(&frames, "TCOM")),
        groupings: split_text(&grouping),
        genres: split_text(&get_frame_text(&frames, "TCON")),
        track_num: opt_to_str(id3_track(tag)),
        track_total: opt_to_str(id3_total_tracks(tag)),
        disc_num: opt_to_str(id3_disc(tag)),
        disc_total: opt_to_str(id3_total_discs(tag)),
        compilation,
        bpm: or_empty(get_frame_text(&frames, "TBPM")),
        comments: get_id3_comments(&frames),
        frames: get_id3_frames(&frames),
    }
}

/// The snapshot of the fields of an MP4 tag.
pub fn mp4_field_view(tag: &mp4ameta::Tag) -> (fields: Fields)
    ensures
        fields@ == mp4_fields(*tag),
{
    let titles = mp4_strings_of(tag, [0xa9u8, 0x6eu8, 0x61u8, 0x6du8]);
    let albums = mp4_strings_of(tag, [0xa9u8, 0x61u8, 0x6cu8, 0x62u8]);
    let track = mp4_track_pair(tag);
    let disc = mp4_disc_pair(tag);
    let entries = mp4_entry_list(tag);
    Fields {
        title: first_text(&titles),
        artists: mp4_strings_of(tag, [0xa9u8, 0x41u8, 0x52u8, 0x54u8]),
        album: first_text(&albums),
        album_artists: mp4_strings_of(tag, [0x61u8, 0x41u8, 0x52u8, 0x54u8]),
        composer: mp4_strings_of(tag, [0xa9u8, 0x77u8, 0x72u8, 0x74u8]),
        groupings: mp4_strings_of(tag, [0xa9u8, 0x67u8, 0x72u8, 0x70u8]),
        genres: mp4_genre_list(tag),
        track_num: small_to_str(track.0),
        track_total: small_to_str(track.1),
        disc_num: small_to_str(disc.0),
        disc_total: small_to_str(disc.1),
        compilation: mp4_is_compilation(tag),
        bpm: small_to_str(mp4_beats(tag)),
        comments: text_comments(mp4_strings_of(tag, [0xa9u8, 0x63u8, 0x6du8, 0x74u8])),
        frames: get_mp4_frames(&entries),
    }
}

/// The keys that are read of a Vorbis tag are plain keys.
proof fn lemma_plain_keys()
    ensures
        plain_key("TITLE"@),
        plain_key("ARTIST"@),
        plain_key("ALBUM"@),
        plain_key("ALBUMARTIST"@),
        plain_key("COMPOSER"@),
        plain_key("GROUPING"@),
        plain_key("GENRE"@),
        plain_key("COMPILATION"@),
        plain_key("BPM"@),
        plain_key("COMMENT"@),
{
    reveal_strlit("TITLE");
    reveal_strlit("ARTIST");
    reveal_strlit("ALBUM");
    reveal_strlit("ALBUMARTIST");
    reveal_strlit("COMPOSER");
    reveal_strlit("GROUPING");
    reveal_strlit("GENRE");
    reveal_strlit("COMPILATION");
    reveal_strlit("BPM");
    reveal_strlit("COMMENT");
}

/// The snapshot of the fields of a Vorbis tag.
pub fn vorbis_field_view(tag: &lofty::ogg::VorbisComments) -> (fields: Fields)
    ensures
        fields@ == vorbis_fields(vorbis_items(*tag)),
{
    proof {
        lemma_plain_keys();
    }
    let items = vorbis_item_list(tag);
    Fields {
        title: or_empty(vorbis_get(tag, "TITLE")),
        artists: vorbis_get_all(tag, "ARTIST"),
        album: or_empty(vorbis_get(tag, "ALBUM")),
        album_artists: vorbis_get_all(tag, "ALBUMARTIST"),
        composer: vorbis_get_all(tag, "COMPOSER"),
        groupings: vorbis_get_all(tag, "GROUPING"),
        genres: vorbis_get_all(tag, "GENRE"),
        track_num: opt_to_str(vorbis_track(tag)),
        track_total: opt_to_str(vorbis_track_total(tag)),
        disc_num: opt_to_str(vorbis_disk(tag)),
        disc_total: opt_to_str(vorbis_disk_total(tag)),
        compilation: text_is_one(&vorbis_get(tag, "COMPILATION")),
        bpm: or_empty(vorbis_get(tag, "BPM")),
        comments: text_comments(vorbis_get_all(tag, "COMMENT")),
        frames: get_vorbis_comments_frames(&items),
    }
}

} // verus!
