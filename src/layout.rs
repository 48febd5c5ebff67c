use vstd::prelude::*;

verus! {

/// Where the four direction poses sit on a sprite sheet: a shared crop
/// size (`x_step` by `y_step`) and one top-left origin per direction.
#[derive(Clone, Copy, PartialEq, Eq, Debug, Default)]
pub struct PrefHolder {
    pub x_step: u32,
    pub y_step: u32,
    pub north_start_x: u32,
    pub north_start_y: u32,
    pub east_start_x: u32,
    pub east_start_y: u32,
    pub south_start_x: u32,
    pub south_start_y: u32,
    pub west_start_x: u32,
    pub west_start_y: u32,
}

/// One of the four poses of a sprite sheet.
#[derive(Clone, Copy, PartialEq, Eq, Debug, Structural)]
pub enum Direction {
    South,
    North,
    East,
    West,
}

/// The order in which the container format expects the directions.
pub open spec fn direction_order() -> Seq<Direction> {
    seq![Direction::South, Direction::North, Direction::East, Direction::West]
}

/// The top-left corner of a direction's crop rectangle.
pub open spec fn origin(l: PrefHolder, d: Direction) -> (u32, u32) {
    match d {
        Direction::South => (l.south_start_x, l.south_start_y),
        Direction::North => (l.north_start_x, l.north_start_y),
        Direction::East => (l.east_start_x, l.east_start_y),
        Direction::West => (l.west_start_x, l.west_start_y),
    }
}

/// The rectangle `[x, x + x_step) x [y, y + y_step)` of direction `d` lies
/// inside a `w` by `h` image.
pub open spec fn rect_within(l: PrefHolder, d: Direction, w: int, h: int) -> bool {
    &&& origin(l, d).0 + l.x_step <= w
    &&& origin(l, d).1 + l.y_step <= h
}

/// The largest of four integers.
pub open spec fn max4(a: int, b: int, c: int, d: int) -> int {
    let ab = if a >= b { a } else { b };
    let cd = if c >= d { c } else { d };
    if ab >= cd { ab } else { cd }
}

/// The smallest image width that holds every direction's rectangle.
pub open spec fn required_width_of(l: PrefHolder) -> int {
    max4(
        l.north_start_x as int,
        l.east_start_x as int,
        l.south_start_x as int,
        l.west_start_x as int,
    ) + l.x_step
}

/// The smallest image height that holds every direction's rectangle.
pub open spec fn required_height_of(l: PrefHolder) -> int {
    max4(
        l.north_start_y as int,
        l.east_start_y as int,
        l.south_start_y as int,
        l.west_start_y as int,
    ) + l.y_step
}

/// An image of `w` by `h` pixels holds all four crop rectangles.
pub open spec fn fits(l: PrefHolder, w: int, h: int) -> bool {
    required_width_of(l) <= w && required_height_of(l) <= h
}

fn max4_u32(a: u32, b: u32, c: u32, d: u32) -> (r: u32)
    ensures
        r as int == max4(a as int, b as int, c as int, d as int),
{
    let ab = if a >= b { a } else { b };
    let cd = if c >= d { c } else { d };
    if ab >= cd { ab } else { cd }
}

impl PrefHolder {
    /// The image width and height that the layout needs.
    pub fn required_size(&self) -> (r: (u64, u64))
        ensures
            r.0 as int == required_width_of(*self),
            r.1 as int == required_height_of(*self),
    {
        let mx = max4_u32(self.north_start_x, self.east_start_x, self.south_start_x, self.west_start_x);
        let my = max4_u32(self.north_start_y, self.east_start_y, self.south_start_y, self.west_start_y);
        (mx as u64 + self.x_step as u64, my as u64 + self.y_step as u64)
    }

    /// Whether an image of `width` by `height` pixels holds every
    /// direction's crop rectangle.
    pub fn validate(&self, width: u32, height: u32) -> (r: bool)
        ensures
            r == fits(*self, width as int, height as int),
    {
        let (rw, rh) = self.required_size();
        rw <= width as u64 && rh <= height as u64
    }

    /// The origin of direction `d`.
    pub fn origin_of(&self, d: Direction) -> (r: (u32, u32))
        ensures
            r == origin(*self, d),
    {
        match d {
            Direction::South => (self.south_start_x, self.south_start_y),
            Direction::North => (self.north_start_x, self.north_start_y),
            Direction::East => (self.east_start_x, self.east_start_y),
            Direction::West => (self.west_start_x, self.west_start_y),
        }
    }
}

/// A layout fits an image exactly when every direction's rectangle lies
/// inside it.
pub proof fn lemma_fits_iff_all_rects_within(l: PrefHolder, w: int, h: int)
    ensures
        fits(l, w, h) <==> forall|d: Direction| rect_within(l, d, w, h),
{
    if fits(l, w, h) {
        assert forall|d: Direction| rect_within(l, d, w, h) by {
            match d {
                Direction::South => {},
                Direction::North => {},
                Direction::East => {},
                Direction::West => {},
            }
        }
    }
    if forall|d: Direction| rect_within(l, d, w, h) {
        assert(rect_within(l, Direction::South, w, h));
        assert(rect_within(l, Direction::North, w, h));
        assert(rect_within(l, Direction::East, w, h));
        assert(rect_within(l, Direction::West, w, h));
    }
}

} // verus!
