//! The pictures of an ID3 tag among its frames: which frames hold them, and
//! what an edit of one frame does to the list of pictures.

use vstd::prelude::*;
use crate::id3_tag::{
    apic, first_with_id, frame_text, holds_picture, plain_views, Id3Content, Id3ContentView,
    Id3Frame, Id3FrameView, Id3PictureView,
};

verus! {

/// The picture that a frame holds, if it holds one.
pub open spec fn picture_of(frame: Id3FrameView) -> Option<Id3PictureView> {
    match frame.content {
        Id3ContentView::Picture(p) => Some(p),
        _ => None,
    }
}

/// The pictures among the frames, in the order of the frames.
pub open spec fn pictures_in(frames: Seq<Id3FrameView>) -> Seq<Id3PictureView> {
    frames.filter_map(|f: Id3FrameView| picture_of(f))
}

/// The positions of the frames that hold a picture, in rising order.
pub open spec fn picture_places(frames: Seq<Id3FrameView>) -> Seq<int>
    decreases frames.len(),
{
    if frames.len() == 0 {
        Seq::empty()
    } else if holds_picture(frames.last()) {
        picture_places(frames.drop_last()).push(frames.len() - 1)
    } else {
        picture_places(frames.drop_last())
    }
}

/// The places and the pictures go together: the picture at place `j` is
/// picture `j` of the list.
pub proof fn lemma_places(frames: Seq<Id3FrameView>)
    ensures
        picture_places(frames).len() == pictures_in(frames).len(),
        forall|j: int|
            0 <= j < picture_places(frames).len() ==> {
                &&& 0 <= #[trigger] picture_places(frames)[j] < frames.len()
                &&& picture_of(frames[picture_places(frames)[j]]) == Some(pictures_in(frames)[j])
            },
    decreases frames.len(),
{
    if frames.len() > 0 {
        let init = frames.drop_last();
        lemma_places(init);
        assert forall|j: int| 0 <= j < picture_places(frames).len() implies {
            &&& 0 <= #[trigger] picture_places(frames)[j] < frames.len()
            &&& picture_of(frames[picture_places(frames)[j]]) == Some(pictures_in(frames)[j])
        } by {}
    }
}

/// A frame added at the end adds its picture at the end of the list, if it
/// holds one.
pub proof fn lemma_pictures_after_push(frames: Seq<Id3FrameView>, frame: Id3FrameView)
    ensures
        pictures_in(frames.push(frame)) == match picture_of(frame) {
            Some(p) => pictures_in(frames).push(p),
            None => pictures_in(frames),
        },
{
    assert(frames.push(frame).drop_last() =~= frames);
}

/// Removing the frame of picture `j` removes picture `j` from the list.
pub proof fn lemma_pictures_after_remove(frames: Seq<Id3FrameView>, j: int)
    requires
        0 <= j < picture_places(frames).len(),
    ensures
        pictures_in(frames.remove(picture_places(frames)[j])) == pictures_in(frames).remove(j),
    decreases frames.len(),
{
    lemma_places(frames);
    let k = picture_places(frames)[j];
    let init = frames.drop_last();
    lemma_places(init);
    if k == frames.len() - 1 {
        assert(j == picture_places(init).len());
    } else {
        lemma_pictures_after_remove(init, j);
        assert(frames.remove(k).drop_last() =~= init.remove(k));
    }
}

/// Putting another picture frame in the place of picture `j` puts its
/// picture in the place of picture `j` of the list.
pub proof fn lemma_pictures_after_update(frames: Seq<Id3FrameView>, j: int, frame: Id3FrameView)
    requires
        0 <= j < picture_places(frames).len(),
        holds_picture(frame),
    ensures
        pictures_in(frames.update(picture_places(frames)[j], frame)) == pictures_in(frames).update(
            j,
            picture_of(frame).unwrap(),
        ),
    decreases frames.len(),
{
    lemma_places(frames);
    let k = picture_places(frames)[j];
    let init = frames.drop_last();
    lemma_places(init);
    if k == frames.len() - 1 {
        assert(j == picture_places(init).len());
        assert(frames.update(k, frame).drop_last() =~= init);
    } else {
        lemma_pictures_after_update(init, j, frame);
        assert(frames.update(k, frame).drop_last() =~= init.update(k, frame));
    }
}

/// The positions of the frames that hold a picture.
pub fn picture_positions(frames: &Vec<Id3Frame>) -> (places: Vec<usize>)
    ensures
        places@.len() == picture_places(plain_views(frames@)).len(),
        forall|j: int|
            0 <= j < places@.len() ==> places@[j] as int == picture_places(plain_views(frames@))[j],
{
    let ghost all = plain_views(frames@);
    let mut places: Vec<usize> = Vec::new();
    let mut i: usize = 0;
    while i < frames.len()
        invariant
            i <= frames@.len(),
            all == plain_views(frames@),
            places@.len() == picture_places(all.take(i as int)).len(),
            forall|j: int|
                0 <= j < places@.len() ==> places@[j] as int == picture_places(all.take(i as int))[j],
        decreases frames@.len() - i,
    {
        proof {
            assert(all.take(i + 1).drop_last() =~= all.take(i as int));
        }
        match &frames[i].content {
            Id3Content::Picture(_) => {
                places.push(i);
            },
            _ => {},
        }
        i = i + 1;
    }
    proof {
        assert(all.take(i as int) =~= all);
    }
    places
}

/// True where every frame that holds a picture has the identifier `APIC`.
pub open spec fn pictures_under_apic(frames: Seq<Id3FrameView>) -> bool {
    forall|k: int| 0 <= k < frames.len() && holds_picture(#[trigger] frames[k]) ==> frames[k].id == apic()
}

/// What is selected from two lists laid end to end is what is selected from
/// the first, followed by what is selected from the second.
pub proof fn lemma_filter_map_concat<A, B>(a: Seq<A>, b: Seq<A>, f: spec_fn(A) -> Option<B>)
    ensures
        (a + b).filter_map(f) == a.filter_map(f) + b.filter_map(f),
    decreases b.len(),
{
    if b.len() == 0 {
        assert(a + b =~= a);
    } else {
        lemma_filter_map_concat(a, b.drop_last(), f);
        assert((a + b).drop_last() =~= a + b.drop_last());
    }
}

/// From a list of which nothing is selected, nothing is selected.
pub proof fn lemma_filter_map_none<A, B>(a: Seq<A>, f: spec_fn(A) -> Option<B>)
    requires
        forall|i: int| 0 <= i < a.len() ==> f(#[trigger] a[i]) is None,
    ensures
        a.filter_map(f) == Seq::<B>::empty(),
    decreases a.len(),
{
    if a.len() > 0 {
        assert(f(a[a.len() - 1]) is None);
        assert forall|i: int| 0 <= i < a.drop_last().len() implies f(#[trigger] a.drop_last()[i]) is None by {
            assert(a.drop_last()[i] == a[i]);
        }
        lemma_filter_map_none(a.drop_last(), f);
    }
}

/// Putting items of which nothing is selected in the place of others of
/// which nothing is selected leaves the selection as it was.
pub proof fn lemma_filter_map_edit<A, B>(
    head: Seq<A>,
    before: Seq<A>,
    after: Seq<A>,
    tail: Seq<A>,
    f: spec_fn(A) -> Option<B>,
)
    requires
        forall|i: int| 0 <= i < before.len() ==> f(#[trigger] before[i]) is None,
        forall|i: int| 0 <= i < after.len() ==> f(#[trigger] after[i]) is None,
    ensures
        (head + before + tail).filter_map(f) == (head + after + tail).filter_map(f),
{
    lemma_filter_map_none(before, f);
    lemma_filter_map_none(after, f);
    lemma_filter_map_concat(head, before, f);
    lemma_filter_map_concat(head, after, f);
    lemma_filter_map_concat(head + before, tail, f);
    lemma_filter_map_concat(head + after, tail, f);
}

/// The first frame with an identifier lies among the frames or at their
/// end; no frame before it has the identifier, and where it lies among the
/// frames it has it.
pub proof fn lemma_first_with_id_bounds(frames: Seq<Id3FrameView>, id: Seq<char>)
    ensures
        0 <= first_with_id(frames, id) <= frames.len(),
        forall|i: int| 0 <= i < first_with_id(frames, id) ==> frames[i].id != id,
        first_with_id(frames, id) < frames.len() ==> frames[first_with_id(frames, id)].id == id,
    decreases frames.len(),
{
    if frames.len() != 0 && frames[0].id != id {
        let rest = frames.drop_first();
        lemma_first_with_id_bounds(rest, id);
        assert forall|i: int| 0 <= i < first_with_id(frames, id) implies frames[i].id != id by {
            if i > 0 {
                assert(frames[i] == rest[i - 1]);
            }
        }
    }
}

/// The first frame with an identifier is at `w` where the frame at `w` has
/// it and no frame before `w` does; it is the end where no frame has it.
pub proof fn lemma_first_with_id_is(frames: Seq<Id3FrameView>, id: Seq<char>, w: int)
    requires
        0 <= w <= frames.len(),
        forall|i: int| 0 <= i < w ==> frames[i].id != id,
        w < frames.len() ==> frames[w].id == id,
    ensures
        first_with_id(frames, id) == w,
{
    lemma_first_with_id_bounds(frames, id);
}

/// Removing a frame with another identifier leaves the text under `id` as
/// it was.
pub proof fn lemma_text_after_remove(frames: Seq<Id3FrameView>, k: int, id: Seq<char>)
    requires
        0 <= k < frames.len(),
        frames[k].id != id,
    ensures
        frame_text(frames.remove(k), id) == frame_text(frames, id),
{
    lemma_first_with_id_bounds(frames, id);
    let w = first_with_id(frames, id);
    let after = frames.remove(k);
    let moved = if w < k {
        w
    } else {
        w - 1
    };
    assert forall|i: int| 0 <= i < moved implies after[i].id != id by {
        if i < k {
            assert(after[i] == frames[i]);
        } else {
            assert(after[i] == frames[i + 1]);
        }
    }
    lemma_first_with_id_is(after, id, moved);
}

/// Putting a frame with another identifier in the place of one with another
/// identifier leaves the text under `id` as it was.
pub proof fn lemma_text_after_update(frames: Seq<Id3FrameView>, k: int, frame: Id3FrameView, id: Seq<char>)
    requires
        0 <= k < frames.len(),
        frames[k].id != id,
        frame.id != id,
    ensures
        frame_text(frames.update(k, frame), id) == frame_text(frames, id),
{
    lemma_first_with_id_bounds(frames, id);
    lemma_first_with_id_is(frames.update(k, frame), id, first_with_id(frames, id));
}

/// Adding a frame with another identifier at the end leaves the text under
/// `id` as it was.
pub proof fn lemma_text_after_push(frames: Seq<Id3FrameView>, frame: Id3FrameView, id: Seq<char>)
    requires
        frame.id != id,
    ensures
        frame_text(frames.push(frame), id) == frame_text(frames, id),
{
    lemma_first_with_id_bounds(frames, id);
    let w = first_with_id(frames, id);
    let after = frames.push(frame);
    if w < frames.len() {
        lemma_first_with_id_is(after, id, w);
    } else {
        lemma_first_with_id_is(after, id, after.len() as int);
    }
}

} // verus!
