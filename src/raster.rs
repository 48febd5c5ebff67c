use vstd::prelude::*;
use crate::layout::{Direction, PrefHolder, direction_order, fits, origin, lemma_fits_iff_all_rects_within, rect_within};

verus! {

/// One RGBA pixel: red, green, blue, alpha.
pub type Rgba = [u8; 4];

/// A raster image held row by row: `rows[y][x]` is the pixel at column `x`
/// of row `y`.
#[derive(Clone, Debug)]
pub struct Raster {
    pub width: u32,
    pub height: u32,
    pub rows: Vec<Vec<Rgba>>,
}

/// What a raster is, mathematically.
pub struct RasterView {
    pub width: nat,
    pub height: nat,
    pub rows: Seq<Seq<Rgba>>,
}

impl View for Raster {
    type V = RasterView;

    open spec fn view(&self) -> RasterView {
        RasterView {
            width: self.width as nat,
            height: self.height as nat,
            rows: self.rows@.map_values(|r: Vec<Rgba>| r@),
        }
    }
}

impl RasterView {
    /// There are `height` rows of `width` pixels each.
    pub open spec fn wf(self) -> bool {
        &&& self.rows.len() == self.height
        &&& forall|y: int| 0 <= y < self.rows.len() ==> #[trigger] self.rows[y].len() == self.width
    }

    /// The pixel at column `x` of row `y`.
    pub open spec fn pixel(self, x: int, y: int) -> Rgba {
        self.rows[y][x]
    }
}

/// The `w` by `h` rectangle of `v` whose top-left corner is `(x0, y0)`.
pub open spec fn cropped(v: RasterView, x0: int, y0: int, w: nat, h: nat) -> RasterView {
    RasterView {
        width: w,
        height: h,
        rows: Seq::new(h, |y: int| v.rows[y0 + y].subrange(x0, x0 + w)),
    }
}

/// The crop of direction `d`'s rectangle.
pub open spec fn direction_crop(v: RasterView, l: PrefHolder, d: Direction) -> RasterView {
    cropped(v, origin(l, d).0 as int, origin(l, d).1 as int, l.x_step as nat, l.y_step as nat)
}

/// The four direction crops of `v`, in the container's direction order.
pub open spec fn split_view(v: RasterView, l: PrefHolder) -> Seq<RasterView> {
    direction_order().map_values(|d: Direction| direction_crop(v, l, d))
}

/// The views of a sequence of rasters.
pub open spec fn views(s: Seq<Raster>) -> Seq<RasterView> {
    s.map_values(|r: Raster| r@)
}

impl Raster {
    /// Whether the rows all have `width` pixels and there are `height` of them.
    pub fn is_well_formed(&self) -> (r: bool)
        ensures
            r == self@.wf(),
    {
        if self.rows.len() != self.height as usize {
            return false;
        }
        let mut y: usize = 0;
        while y < self.rows.len()
            invariant
                y <= self.rows@.len(),
                forall|j: int| 0 <= j < y ==> #[trigger] self.rows@[j]@.len() == self.width,
            decreases self.rows@.len() - y,
        {
            if self.rows[y].len() != self.width as usize {
                assert(self@.rows[y as int].len() != self.width);
                return false;
            }
            y += 1;
        }
        true
    }

    /// Copies the `w` by `h` rectangle whose top-left corner is `(x0, y0)`.
    pub fn crop(&self, x0: u32, y0: u32, w: u32, h: u32) -> (r: Raster)
        requires
            self@.wf(),
            x0 + w <= self.width,
            y0 + h <= self.height,
        ensures
            r@ == cropped(self@, x0 as int, y0 as int, w as nat, h as nat),
            r@.wf(),
    {
        let mut rows: Vec<Vec<Rgba>> = Vec::new();
        let mut y: u32 = 0;
        while y < h
            invariant
                self@.wf(),
                x0 + w <= self.width,
                y0 + h <= self.height,
                y <= h,
                rows@.len() == y,
                forall|j: int| 0 <= j < y ==> #[trigger] rows@[j]@ == self@.rows[y0 + j].subrange(x0 as int, x0 + w),
            decreases h - y,
        {
            let src = &self.rows[(y0 + y) as usize];
            assert(src@.len() == self.width) by {
                assert(self@.rows[(y0 + y) as int].len() == self.width);
            }
            let mut row: Vec<Rgba> = Vec::new();
            let mut x: u32 = 0;
            while x < w
                invariant
                    src@.len() == self.width,
                    x0 + w <= self.width,
                    x <= w,
                    row@ == src@.subrange(x0 as int, x0 + x),
                decreases w - x,
            {
                row.push(src[(x0 + x) as usize]);
                assert(row@ =~= src@.subrange(x0 as int, x0 + x + 1));
                x += 1;
            }
            rows.push(row);
            y += 1;
        }
        let r = Raster { width: w, height: h, rows };
        assert(r@.rows =~= cropped(self@, x0 as int, y0 as int, w as nat, h as nat).rows);
        r
    }

    /// Copies direction `d`'s rectangle.
    pub fn crop_direction(&self, prefs: &PrefHolder, d: Direction) -> (r: Raster)
        requires
            self@.wf(),
            fits(*prefs, self.width as int, self.height as int),
        ensures
            r@ == direction_crop(self@, *prefs, d),
            r@.wf(),
    {
        proof {
            lemma_fits_iff_all_rects_within(*prefs, self.width as int, self.height as int);
            assert(rect_within(*prefs, d, self.width as int, self.height as int));
        }
        let (x0, y0) = prefs.origin_of(d);
        self.crop(x0, y0, prefs.x_step, prefs.y_step)
    }
}

/// The four direction crops of `input_image`, in the order South, North,
/// East, West.
pub fn extract_four_dir_images(input_image: &Raster, prefs: &PrefHolder) -> (r: Vec<Raster>)
    requires
        input_image@.wf(),
        fits(*prefs, input_image.width as int, input_image.height as int),
    ensures
        views(r@) == split_view(input_image@, *prefs),
        forall|i: int| 0 <= i < r@.len() ==> (#[trigger] r@[i])@.wf(),
{
    let north_img = input_image.crop_direction(prefs, Direction::North);
    let east_img = input_image.crop_direction(prefs, Direction::East);
    let south_img = input_image.crop_direction(prefs, Direction::South);
    let west_img = input_image.crop_direction(prefs, Direction::West);
    let r = vec![south_img, north_img, east_img, west_img];
    assert(views(r@) =~= split_view(input_image@, *prefs));
    r
}

} // verus!
