use vstd::prelude::*;
use crate::layout::{PrefHolder, direction_order};
use crate::raster::{Raster, RasterView, direction_crop, split_view, views};
use crate::state::{Frame, IconStateRecord, RawImg, frame_major, is_state_of};

verus! {

proof fn lemma_split_view_len(v: RasterView, l: PrefHolder)
    ensures
        split_view(v, l).len() == 4,
        forall|j: int| 0 <= j < 4 ==> #[trigger] split_view(v, l)[j] == direction_crop(v, l, direction_order()[j]),
{
}

proof fn lemma_frame_major_len(fs: Seq<Frame>, l: PrefHolder)
    ensures
        frame_major(fs, l).len() == 4 * fs.len(),
    decreases fs.len(),
{
    if fs.len() > 0 {
        lemma_frame_major_len(fs.drop_last(), l);
        lemma_split_view_len(fs.last().image@, l);
    }
}

proof fn lemma_frame_major_index(fs: Seq<Frame>, l: PrefHolder, i: int, j: int)
    requires
        0 <= i < fs.len(),
        0 <= j < 4,
    ensures
        frame_major(fs, l)[4 * i + j] == split_view(fs[i].image@, l)[j],
    decreases fs.len(),
{
    let init = fs.drop_last();
    lemma_frame_major_len(init, l);
    if i < fs.len() - 1 {
        lemma_frame_major_index(init, l, i, j);
    }
}

/// A still image gives exactly four images: the crops of South, North, East
/// and West, in that order.
pub proof fn lemma_still_image_order(rec: IconStateRecord, img: Raster, name: Seq<char>, l: PrefHolder)
    requires
        is_state_of(rec, RawImg::Png(img), name, l),
    ensures
        rec.images@.len() == 4,
        forall|j: int| 0 <= j < 4 ==> (#[trigger] rec.images@[j])@ == direction_crop(img@, l, direction_order()[j]),
{
    lemma_split_view_len(img@, l);
    assert forall|j: int| 0 <= j < 4 implies (#[trigger] rec.images@[j])@ == direction_crop(img@, l, direction_order()[j]) by {
        assert(views(rec.images@)[j] == rec.images@[j]@);
    }
}

/// An animation of `k` frames gives `4k` images, frame after frame: those
/// at `4i .. 4i + 4` are the four direction crops of frame `i` in direction
/// order. It gives `k` delays.
pub proof fn lemma_animation_frame_major(rec: IconStateRecord, frame_vec: Vec<Frame>, name: Seq<char>, l: PrefHolder)
    requires
        is_state_of(rec, RawImg::Gif(frame_vec), name, l),
    ensures
        rec.images@.len() == 4 * frame_vec@.len(),
        forall|i: int, j: int| 0 <= i < frame_vec@.len() && 0 <= j < 4 ==>
            (#[trigger] rec.images@[4 * i + j])@ == direction_crop(frame_vec@[i].image@, l, direction_order()[j]),
        rec.delay is Some,
        rec.delay->Some_0@.len() == frame_vec@.len(),
        rec.frames == frame_vec@.len(),
{
    let frames = frame_vec@;
    lemma_frame_major_len(frames, l);
    assert(views(rec.images@) == frame_major(frames, l));
    assert forall|i: int, j: int| 0 <= i < frames.len() && 0 <= j < 4 implies
        (#[trigger] rec.images@[4 * i + j])@ == direction_crop(frames[i].image@, l, direction_order()[j]) by {
        lemma_frame_major_index(frames, l, i, j);
        lemma_split_view_len(frames[i].image@, l);
        assert(views(rec.images@)[4 * i + j] == rec.images@[4 * i + j]@);
    }
}

} // verus!
