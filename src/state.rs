use vstd::prelude::*;
use crate::layout::{PrefHolder, fits, required_height_of, required_width_of};
use crate::names::{derive_state_name, state_name};
use crate::raster::{Raster, RasterView, extract_four_dir_images, split_view, views};

verus! {

/// A frame's display time in milliseconds, as the ratio
/// `numer_ms / denom_ms`.
#[derive(Clone, Copy, PartialEq, Eq, Debug, Structural)]
pub struct FrameDelay {
    pub numer_ms: u32,
    pub denom_ms: u32,
}

/// A display time in centiseconds, as the ratio `numer / denom`.
#[derive(Clone, Copy, PartialEq, Eq, Debug, Structural)]
pub struct CentiDelay {
    pub numer: u32,
    pub denom: u64,
}

/// `d` in centiseconds: the same ratio divided by ten.
pub open spec fn to_centi(d: FrameDelay) -> CentiDelay {
    CentiDelay { numer: d.numer_ms, denom: (d.denom_ms * 10) as u64 }
}

impl FrameDelay {
    /// The same delay in centiseconds.
    pub fn to_centiseconds(&self) -> (r: CentiDelay)
        ensures
            r == to_centi(*self),
    {
        CentiDelay { numer: self.numer_ms, denom: self.denom_ms as u64 * 10 }
    }
}

/// One frame of an animation and how long it shows.
#[derive(Clone, Debug)]
pub struct Frame {
    pub image: Raster,
    pub delay: FrameDelay,
}

/// A decoded input: one still image, or the frames of an animation.
#[derive(Clone, Debug)]
pub enum RawImg {
    Png(Raster),
    Gif(Vec<Frame>),
}

/// Why one input image yields no icon state.
#[derive(Clone, Copy, PartialEq, Eq, Debug, Structural)]
pub enum SplitError {
    /// The animation has no frames.
    EmptyAnimation,
    /// The image is smaller than the layout needs, or a frame's size differs
    /// from the first frame's.
    DimensionMismatch { width: u32, height: u32, required_width: u64, required_height: u64 },
}

/// One icon state: every direction crop of every frame, frame by frame.
#[derive(Clone, Debug)]
pub struct IconStateRecord {
    pub name: String,
    pub dirs: u8,
    pub frames: u32,
    pub images: Vec<Raster>,
    pub delay: Option<Vec<CentiDelay>>,
}

/// The direction crops of every frame, frame after frame.
pub open spec fn frame_major(frames: Seq<Frame>, l: PrefHolder) -> Seq<RasterView>
    decreases frames.len(),
{
    if frames.len() == 0 {
        Seq::empty()
    } else {
        frame_major(frames.drop_last(), l) + split_view(frames.last().image@, l)
    }
}

/// The centisecond delays of the frames, in order.
pub open spec fn centi_delays(frames: Seq<Frame>) -> Seq<CentiDelay> {
    frames.map_values(|f: Frame| to_centi(f.delay))
}

impl RawImg {
    /// Every raster is well formed and holds the layout's rectangles.
    pub open spec fn ready_for(&self, l: PrefHolder) -> bool {
        match self {
            RawImg::Png(img) => img@.wf() && fits(l, img.width as int, img.height as int),
            RawImg::Gif(fs) => forall|i: int| 0 <= i < fs@.len() ==> {
                &&& (#[trigger] fs@[i]).image@.wf()
                &&& fits(l, fs@[i].image.width as int, fs@[i].image.height as int)
            },
        }
    }

    /// Every raster is well formed, and every frame delay has a positive
    /// denominator.
    pub open spec fn wf(&self) -> bool {
        match self {
            RawImg::Png(img) => img@.wf(),
            RawImg::Gif(fs) => forall|i: int| 0 <= i < fs@.len() ==> {
                &&& (#[trigger] fs@[i]).image@.wf()
                &&& fs@[i].delay.denom_ms > 0
            },
        }
    }

    /// The number of frames fits the container's frame count.
    pub open spec fn frame_count_fits(&self) -> bool {
        match self {
            RawImg::Png(_) => true,
            RawImg::Gif(fs) => fs@.len() <= u32::MAX,
        }
    }

    /// An animation without frames.
    pub open spec fn is_empty_animation(&self) -> bool {
        self is Gif && self->Gif_0@.len() == 0
    }

    /// The size of the image, or of the first frame of an animation.
    pub open spec fn first_size(&self) -> (u32, u32) {
        match self {
            RawImg::Png(img) => (img.width, img.height),
            RawImg::Gif(fs) => (fs@[0].image.width, fs@[0].image.height),
        }
    }

    /// The size of the image, or of the first frame of an animation.
    pub fn dimensions(&self) -> (r: Result<(u32, u32), SplitError>)
        ensures
            self.is_empty_animation() ==> r == Err::<(u32, u32), SplitError>(SplitError::EmptyAnimation),
            !self.is_empty_animation() ==> r == Ok::<(u32, u32), SplitError>(self.first_size()),
    {
        match self {
            RawImg::Png(img) => Ok((img.width, img.height)),
            RawImg::Gif(frame_vec) => {
                if frame_vec.len() == 0 {
                    return Err(SplitError::EmptyAnimation);
                }
                let sample_frame = &frame_vec[0];
                Ok((sample_frame.image.width, sample_frame.image.height))
            },
        }
    }
}

/// `rec` is the icon state named `name` that `raw` gives under layout `l`.
/// Every animation keeps one delay per frame, a one-frame animation too:
/// only a still image has no delays.
pub open spec fn is_state_of(rec: IconStateRecord, raw: RawImg, name: Seq<char>, l: PrefHolder) -> bool {
    &&& rec.name@ == name
    &&& rec.dirs == 4
    &&& forall|i: int| 0 <= i < rec.images@.len() ==> (#[trigger] rec.images@[i])@.wf()
    &&& match raw {
        RawImg::Png(img) => {
            &&& rec.frames == 1
            &&& views(rec.images@) == split_view(img@, l)
            &&& rec.delay is None
        },
        RawImg::Gif(fs) => {
            &&& rec.frames == fs@.len()
            &&& views(rec.images@) == frame_major(fs@, l)
            &&& (rec.delay matches Some(d) && d@ == centi_delays(fs@))
        },
    }
}

/// Builds the icon state named `file_name` from every frame of `raw_img`:
/// the four direction crops of each frame in turn, and for an animation
/// each frame's delay in centiseconds.
pub fn build_icon_state(raw_img: RawImg, file_name: String, prefs: &PrefHolder) -> (r: Result<IconStateRecord, SplitError>)
    requires
        raw_img.ready_for(*prefs),
        raw_img.frame_count_fits(),
    ensures
        raw_img.is_empty_animation() ==> r == Err::<IconStateRecord, SplitError>(SplitError::EmptyAnimation),
        !raw_img.is_empty_animation() ==> (r matches Ok(rec) && is_state_of(rec, raw_img, file_name@, *prefs)),
{
    match raw_img {
        RawImg::Png(image) => {
            let images = extract_four_dir_images(&image, prefs);
            Ok(IconStateRecord { name: file_name, dirs: 4, frames: 1, images, delay: None })
        },
        RawImg::Gif(frame_vec) => {
            if frame_vec.len() == 0 {
                return Err(SplitError::EmptyAnimation);
            }
            let frames_len = frame_vec.len() as u32;
            let mut images: Vec<Raster> = Vec::new();
            let mut delay: Vec<CentiDelay> = Vec::new();
            let mut i: usize = 0;
            while i < frame_vec.len()
                invariant
                    forall|j: int| 0 <= j < frame_vec@.len() ==> {
                        &&& (#[trigger] frame_vec@[j]).image@.wf()
                        &&& fits(*prefs, frame_vec@[j].image.width as int, frame_vec@[j].image.height as int)
                    },
                    i <= frame_vec@.len(),
                    views(images@) == frame_major(frame_vec@.subrange(0, i as int), *prefs),
                    forall|j: int| 0 <= j < images@.len() ==> (#[trigger] images@[j])@.wf(),
                    delay@ == centi_delays(frame_vec@.subrange(0, i as int)),
                decreases frame_vec@.len() - i,
            {
                let frame = &frame_vec[i];
                assert(frame_vec@[i as int].image@.wf());
                delay.push(frame.delay.to_centiseconds());
                let mut frame_dir_images = extract_four_dir_images(&frame.image, prefs);
                let ghost before = images@;
                let ghost crops = frame_dir_images@;
                images.append(&mut frame_dir_images);
                assert(images@ == before + crops);
                assert forall|j: int| 0 <= j < images@.len() implies (#[trigger] images@[j])@.wf() by {
                    if j >= before.len() {
                        assert(images@[j] == crops[j - before.len()]);
                    }
                }
                proof {
                    let s = frame_vec@.subrange(0, i + 1);
                    assert(s.drop_last() =~= frame_vec@.subrange(0, i as int));
                    assert(views(images@) =~= views(before) + views(crops));
                    assert(centi_delays(s) =~= centi_delays(frame_vec@.subrange(0, i as int)).push(to_centi(frame.delay)));
                    assert(delay@ =~= centi_delays(s));
                }
                i += 1;
            }
            assert(frame_vec@.subrange(0, frame_vec@.len() as int) =~= frame_vec@);
            Ok(IconStateRecord { name: file_name, dirs: 4, frames: frames_len, images, delay: Some(delay) })
        },
    }
}

/// Frame `k` is the first whose size differs from the first frame's.
pub open spec fn is_first_odd_frame(fs: Seq<Frame>, k: int) -> bool {
    &&& 0 <= k < fs.len()
    &&& (fs[k].image.width != fs[0].image.width || fs[k].image.height != fs[0].image.height)
    &&& forall|j: int| 0 <= j < k ==> #[trigger] fs[j].image.width == fs[0].image.width && fs[j].image.height == fs[0].image.height
}

/// Every frame has the first frame's size.
pub open spec fn uniform_frames(raw: RawImg) -> bool {
    raw matches RawImg::Gif(fs) ==> forall|j: int| 0 <= j < fs@.len() ==>
        #[trigger] fs@[j].image.width == fs@[0].image.width && fs@[j].image.height == fs@[0].image.height
}

/// Turns one decoded input into its icon state, named after `path`.
/// An empty animation, an image smaller than the layout needs, or an
/// animation whose frames differ in size yields an error instead.
pub fn process_image(raw_img: RawImg, path: &str, prefs: &PrefHolder) -> (r: Result<IconStateRecord, SplitError>)
    requires
        raw_img.wf(),
        raw_img.frame_count_fits(),
    ensures
        raw_img.is_empty_animation() ==> r == Err::<IconStateRecord, SplitError>(SplitError::EmptyAnimation),
        !raw_img.is_empty_animation() && !fits(*prefs, raw_img.first_size().0 as int, raw_img.first_size().1 as int)
            ==> r == Err::<IconStateRecord, SplitError>(SplitError::DimensionMismatch {
                width: raw_img.first_size().0,
                height: raw_img.first_size().1,
                required_width: required_width_of(*prefs) as u64,
                required_height: required_height_of(*prefs) as u64,
            }),
        !raw_img.is_empty_animation() && fits(*prefs, raw_img.first_size().0 as int, raw_img.first_size().1 as int)
            && !uniform_frames(raw_img) ==> exists|k: int| is_first_odd_frame(raw_img->Gif_0@, k)
            && r == Err::<IconStateRecord, SplitError>(SplitError::DimensionMismatch {
                width: raw_img->Gif_0@[k].image.width,
                height: raw_img->Gif_0@[k].image.height,
                required_width: required_width_of(*prefs) as u64,
                required_height: required_height_of(*prefs) as u64,
            }),
        !raw_img.is_empty_animation() && fits(*prefs, raw_img.first_size().0 as int, raw_img.first_size().1 as int)
            && uniform_frames(raw_img) ==> (r matches Ok(rec) && is_state_of(rec, raw_img, state_name(path@), *prefs)),
{
    let (width, height) = match raw_img.dimensions() {
        Ok(d) => d,
        Err(e) => return Err(e),
    };
    let (required_width, required_height) = prefs.required_size();
    if !prefs.validate(width, height) {
        return Err(SplitError::DimensionMismatch { width, height, required_width, required_height });
    }
    if let RawImg::Gif(frame_vec) = &raw_img {
        let mut i: usize = 0;
        while i < frame_vec.len()
            invariant
                frame_vec@.len() > 0,
                raw_img is Gif && raw_img->Gif_0@ == frame_vec@,
                fits(*prefs, width as int, height as int),
                required_width as int == required_width_of(*prefs),
                required_height as int == required_height_of(*prefs),
                width == frame_vec@[0].image.width,
                height == frame_vec@[0].image.height,
                i <= frame_vec@.len(),
                forall|j: int| 0 <= j < i ==> #[trigger] frame_vec@[j].image.width == width && frame_vec@[j].image.height == height,
            decreases frame_vec@.len() - i,
        {
            let img = &frame_vec[i].image;
            if img.width != width || img.height != height {
                assert(is_first_odd_frame(frame_vec@, i as int));
                return Err(SplitError::DimensionMismatch {
                    width: img.width,
                    height: img.height,
                    required_width,
                    required_height,
                });
            }
            i += 1;
        }
    }
    let name = derive_state_name(path);
    build_icon_state(raw_img, name, prefs)
}

} // verus!
