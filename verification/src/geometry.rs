//! Units, sprite-sheet constants and axis-aligned rectangles.

use vstd::prelude::*;

verus! {

/// Edge of one sprite-sheet tile, in texels.
pub const TILE_SIZE: i64 = 16;

/// Screen lengths are counted in hundredths of a pixel.
pub const UNITS_PER_PIXEL: i64 = 100;

/// Magnification from sprite sheet to screen.
pub const SCALE: u32 = 3;

/// Edge of one grid cell on screen, in screen units.
pub const SCALED_TILE: i64 = 4800;

/// Slack added to a screen coordinate before it is mapped to a grid index.
pub const MARGIN_POS: i64 = 600;

/// Number of frames of the idle bomb animation.
pub const MAX_FRAME: usize = 3;

/// Time one animation frame is shown, in milliseconds.
pub const ANIM_DURATION: u64 = 220;

/// Number of outcomes of the roll that picks a tile variant.
pub const MAX_RAND_FRAME: usize = 15;

/// Horizontal texel offsets of the sprite-sheet columns.
pub const FRAMES: [i64; 14] = [0, 16, 32, 48, 64, 80, 96, 112, 128, 144, 160, 172, 188, 204];

/// A cell of the grid, as (first index, second index). The first index runs
/// along the screen's x axis.
pub type Position = (usize, usize);

#[derive(Clone, Copy, Debug, PartialEq, Eq, Structural)]
pub struct Rectangle {
    pub x: i64,
    pub y: i64,
    pub width: i64,
    pub height: i64,
}

impl Rectangle {
    pub fn new(x: i64, y: i64, width: i64, height: i64) -> (r: Rectangle)
        ensures
            r == (Rectangle { x, y, width, height }),
    {
        Rectangle { x, y, width, height }
    }

    /// The two rectangles share a region of positive area.
    pub open spec fn overlaps(self, other: Rectangle) -> bool {
        &&& self.x + self.width > other.x
        &&& self.x < other.x + other.width
        &&& self.y + self.height > other.y
        &&& self.y < other.y + other.height
    }

    /// `self` lies within `outer`, borders included.
    pub open spec fn inside(self, outer: Rectangle) -> bool {
        &&& outer.x <= self.x
        &&& self.x + self.width <= outer.x + outer.width
        &&& outer.y <= self.y
        &&& self.y + self.height <= outer.y + outer.height
    }

    pub fn check_collision(&self, other: &Rectangle) -> (b: bool)
        ensures
            b == self.overlaps(*other),
    {
        let ax: i128 = self.x as i128;
        let ay: i128 = self.y as i128;
        let bx: i128 = other.x as i128;
        let by: i128 = other.y as i128;
        ax + (self.width as i128) > bx && ax < bx + (other.width as i128) && ay + (
        self.height as i128) > by && ay < by + (other.height as i128)
    }
}

/// What to blit: a region of the sprite sheet and where it goes on screen.
#[derive(Clone, Copy, Debug, PartialEq, Eq, Structural)]
pub struct Sprite {
    pub src: Rectangle,
    pub dst: Rectangle,
}

/// Edge of a grid cell on screen at magnification `scale`.
pub open spec fn tile_len(scale: u32) -> int {
    TILE_SIZE * UNITS_PER_PIXEL * scale
}

/// Screen coordinate at which the cell with index `i` begins.
pub open spec fn tile_offset(i: usize, scale: u32) -> int {
    i * tile_len(scale)
}

pub fn tile_edge(scale: u32) -> (len: i64)
    ensures
        len == tile_len(scale),
{
    1600 * (scale as i64)
}

pub fn tile_origin(i: usize, scale: u32) -> (x: i64)
    requires
        tile_offset(i, scale) <= i64::MAX,
    ensures
        x == tile_offset(i, scale),
{
    let len: u128 = 1600 * (scale as u128);
    let wide: u128 = i as u128;
    assert(wide * len <= 0xffff_ffff_ffff_ffff * 0x640_0000_0000) by (nonlinear_arith)
        requires
            wide <= 0xffff_ffff_ffff_ffff,
            len <= 0x640_0000_0000,
    ;
    let prod: u128 = wide * len;
    prod as i64
}

/// `rec` moved so that its corner is the corner of cell `(i, j)`.
pub open spec fn placed(rec: Rectangle, i: usize, j: usize) -> Rectangle {
    Rectangle { x: (i * SCALED_TILE) as i64, y: (j * SCALED_TILE) as i64, ..rec }
}

/// Both screen coordinates of cell `(i, j)` fit the coordinate type.
pub open spec fn on_screen(i: usize, j: usize) -> bool {
    i * SCALED_TILE <= i64::MAX && j * SCALED_TILE <= i64::MAX
}

pub fn place(rec: &mut Rectangle, i: usize, j: usize)
    requires
        on_screen(i, j),
    ensures
        *final(rec) == placed(*old(rec), i, j),
{
    rec.x = tile_origin(i, SCALE);
    rec.y = tile_origin(j, SCALE);
}

/// Grid index under the screen coordinate `x`: the coordinate is shifted by
/// `MARGIN_POS`, divided by the cell edge and cut off toward zero; what falls
/// below zero is index 0.
pub open spec fn tile_index_of(x: int) -> int {
    if x + MARGIN_POS < 0 {
        0
    } else if (x + MARGIN_POS) / (SCALED_TILE as int) > usize::MAX {
        usize::MAX as int
    } else {
        (x + MARGIN_POS) / (SCALED_TILE as int)
    }
}

pub fn tile_index(x: i64) -> (i: usize)
    ensures
        i == tile_index_of(x as int),
{
    let shifted: i128 = x as i128 + 600;
    if shifted < 0 {
        0
    } else {
        let q: i128 = shifted / 4800;
        if q > usize::MAX as i128 {
            usize::MAX
        } else {
            q as usize
        }
    }
}

/// Grid cell under the top-left corner of the screen rectangle `rec`.
pub fn position_of(rec: &Rectangle) -> (p: Position)
    ensures
        p.0 == tile_index_of(rec.x as int),
        p.1 == tile_index_of(rec.y as int),
{
    (tile_index(rec.x), tile_index(rec.y))
}

/// The whole pixel of a screen coordinate, cut off toward zero.
pub open spec fn pixel_of(u: int) -> int {
    if u >= 0 {
        u / (UNITS_PER_PIXEL as int)
    } else {
        -((-u) / (UNITS_PER_PIXEL as int))
    }
}

pub fn to_pixel(u: i64) -> (p: i64)
    ensures
        p == pixel_of(u as int),
{
    if u >= 0 {
        u / 100
    } else {
        let up: i128 = -(u as i128);
        let q: i128 = up / 100;
        (-q) as i64
    }
}

/// `a + by`, held at the nearest end of the range where the sum does not
/// fit.
pub open spec fn shifted(a: i64, by: int) -> i64 {
    if a + by > i64::MAX {
        i64::MAX
    } else if a + by < i64::MIN {
        i64::MIN
    } else {
        (a + by) as i64
    }
}

pub fn shift(a: i64, by: i64) -> (b: i64)
    ensures
        b == shifted(a, by as int),
{
    let sum: i128 = a as i128 + by as i128;
    if sum > i64::MAX as i128 {
        i64::MAX
    } else if sum < i64::MIN as i128 {
        i64::MIN
    } else {
        sum as i64
    }
}

/// `a + b`, held at the largest value where the sum does not fit.
pub fn advance(a: u64, b: u32) -> (t: u64)
    ensures
        t == if a + b > u64::MAX { u64::MAX as int } else { a + b },
{
    a.saturating_add(b as u64)
}

} // verus!
