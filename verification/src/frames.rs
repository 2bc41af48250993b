//! The tag of one open file, and its flat list of text frames.

use vstd::prelude::*;
use vstd::string::*;
use crate::id3_tag::{
    id3_frame_list, id3_frames, plain_views, Id3Content, Id3ContentView, Id3Frame, Id3FrameView,
};
use crate::mp4_tag::{
    entry_views, mp4_entries, mp4_entry_list, Mp4Entry, Mp4EntryView, Mp4Value, Mp4ValueView,
};
use crate::vorbis_tag::{item_views, vorbis_item_list, vorbis_items, VorbisItem, VorbisItemView};

verus! {

/// The tag of an audio file: exactly one of the three kinds.
pub enum Metadata {
    Id3(id3::Tag),
    Mp4(mp4ameta::Tag),
    VorbisComments(lofty::ogg::VorbisComments),
}

/// One entry of the flat list: an identifier and a text.
#[derive(Debug, Clone, PartialEq, Eq)]
pub enum Frame {
    Text { id: String, value: String },
}

pub struct FrameView {
    pub id: Seq<char>,
    pub value: Seq<char>,
}

impl View for Frame {
    type V = FrameView;

    open spec fn view(&self) -> FrameView {
        match self {
            Frame::Text { id, value } => FrameView { id: id@, value: value@ },
        }
    }
}

/// The views of a list of frames.
pub open spec fn frame_views(v: Seq<Frame>) -> Seq<FrameView> {
    v.map_values(|f: Frame| f@)
}

/// An ID3 frame is listed where it holds plain text.
pub open spec fn id3_listed(frame: Id3FrameView) -> Option<FrameView> {
    match frame.content {
        Id3ContentView::Text(t) => Some(FrameView { id: frame.id, value: t }),
        _ => None,
    }
}

/// A value of an MP4 tag is listed where it is UTF-8 text. UTF-16 text,
/// images, numbers and reserved data are not.
pub open spec fn mp4_listed(entry: Mp4EntryView) -> Option<FrameView> {
    match entry.value {
        Mp4ValueView::Utf8(t) => Some(FrameView { id: entry.ident, value: t }),
        _ => None,
    }
}

/// Every Vorbis comment is listed.
pub open spec fn vorbis_listed(item: VorbisItemView) -> FrameView {
    FrameView { id: item.key, value: item.value }
}

/// The list for the frames of an ID3 tag.
pub open spec fn id3_listing(frames: Seq<Id3FrameView>) -> Seq<FrameView> {
    frames.filter_map(|f: Id3FrameView| id3_listed(f))
}

/// The list for the values of an MP4 tag.
pub open spec fn mp4_listing(entries: Seq<Mp4EntryView>) -> Seq<FrameView> {
    entries.filter_map(|e: Mp4EntryView| mp4_listed(e))
}

/// The list for the comments of a Vorbis tag.
pub open spec fn vorbis_listing(items: Seq<VorbisItemView>) -> Seq<FrameView> {
    items.map_values(|i: VorbisItemView| vorbis_listed(i))
}

impl Metadata {
    /// The flat list of the tag: one entry for each frame, atom value or
    /// comment that is a single plain text, in the order of the tag. What
    /// is no plain text (pictures, links, lyrics, binary data, UTF-16 text,
    /// numbers) is not listed; it stays in the tag.
    pub open spec fn listing(self) -> Seq<FrameView> {
        match self {
            Metadata::Id3(tag) => id3_listing(id3_frames(tag)),
            Metadata::Mp4(tag) => mp4_listing(mp4_entries(tag)),
            Metadata::VorbisComments(tag) => vorbis_listing(vorbis_items(tag)),
        }
    }

    /// The text frames of the tag as a flat list.
    pub fn get_frames(&self) -> (frames: Vec<Frame>)
        ensures
            frame_views(frames@) == self.listing(),
    {
        match self {
            Metadata::Id3(tag) => {
                let plain = id3_frame_list(tag);
                get_id3_frames(&plain)
            },
            Metadata::Mp4(tag) => {
                let entries = mp4_entry_list(tag);
                get_mp4_frames(&entries)
            },
            Metadata::VorbisComments(tag) => {
                let items = vorbis_item_list(tag);
                get_vorbis_comments_frames(&items)
            },
        }
    }
}

/// The text frames among the frames of an ID3 tag.
pub fn get_id3_frames(frames: &Vec<Id3Frame>) -> (out: Vec<Frame>)
    ensures
        frame_views(out@) == id3_listing(plain_views(frames@)),
{
    let ghost all = plain_views(frames@);
    let mut out: Vec<Frame> = Vec::new();
    let mut i: usize = 0;
    while i < frames.len()
        invariant
            i <= frames@.len(),
            all == plain_views(frames@),
            frame_views(out@) == id3_listing(all.take(i as int)),
        decreases frames@.len() - i,
    {
        proof {
            assert(all.take(i + 1).drop_last() =~= all.take(i as int));
        }
        match &frames[i].content {
            Id3Content::Text(t) => {
                let frame = Frame::Text { id: frames[i].id.clone(), value: t.clone() };
                out.push(frame);
            },
            _ => {},
        }
        i = i + 1;
    }
    proof {
        assert(all.take(i as int) =~= all);
    }
    out
}

/// The UTF-8 texts among the values of an MP4 tag.
pub fn get_mp4_frames(entries: &Vec<Mp4Entry>) -> (out: Vec<Frame>)
    ensures
        frame_views(out@) == mp4_listing(entry_views(entries@)),
{
    let ghost all = entry_views(entries@);
    let mut out: Vec<Frame> = Vec::new();
    let mut i: usize = 0;
    while i < entries.len()
        invariant
            i <= entries@.len(),
            all == entry_views(entries@),
            frame_views(out@) == mp4_listing(all.take(i as int)),
        decreases entries@.len() - i,
    {
        proof {
            assert(all.take(i + 1).drop_last() =~= all.take(i as int));
        }
        match &entries[i].value {
            Mp4Value::Utf8(t) => {
                let frame = Frame::Text { id: entries[i].ident.clone(), value: t.clone() };
                out.push(frame);
            },
            _ => {},
        }
        i = i + 1;
    }
    proof {
        assert(all.take(i as int) =~= all);
    }
    out
}

/// The comments of a Vorbis tag, each as a text frame.
pub fn get_vorbis_comments_frames(items: &Vec<VorbisItem>) -> (out: Vec<Frame>)
    ensures
        frame_views(out@) == vorbis_listing(item_views(items@)),
{
    let mut out: Vec<Frame> = Vec::new();
    let mut i: usize = 0;
    while i < items.len()
        invariant
            i <= items@.len(),
            out@.len() == i,
            forall|j: int| 0 <= j < i ==> (#[trigger] out@[j])@ == vorbis_listed(items@[j]@),
        decreases items@.len() - i,
    {
        let frame = Frame::Text { id: items[i].key.clone(), value: items[i].value.clone() };
        out.push(frame);
        i = i + 1;
    }
    out
}

} // verus!
