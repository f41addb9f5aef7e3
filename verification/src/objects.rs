//! Life-cycle states, destructible walls and the static tiles.

use vstd::prelude::*;
use rand::Rng;
use crate::bomb::{EXPLOSION, FLAME_MID_DOWN, FLAME_MID_LEFT, FLAME_MID_RIGHT, FLAME_MID_TOP};
use crate::geometry::{
    advance, on_screen, place, placed, tile_edge, tile_len, tile_offset, tile_origin, Rectangle,
    Sprite, ANIM_DURATION, FRAMES, MAX_RAND_FRAME, SCALED_TILE, TILE_SIZE,
};

verus! {

pub const EMPTY_Y: i64 = 32;
pub const GRASS_Y: i64 = 112;
pub const BLOCK_Y: i64 = 16;

/// Number of frames of the wall's destruction animation.
pub const MAX_WALL_FRAMES: usize = 7;

/// Life cycle of a bomb or a wall. It only ever moves forward:
/// `IDEAL`, then `EXPLOADING`, then `EXPLOADED`.
#[derive(Clone, Copy, Debug, PartialEq, Eq, Structural)]
pub enum State {
    IDEAL,
    EXPLOADING,
    EXPLOADED,
}

impl State {
    /// Position of the state in the life cycle.
    pub open spec fn rank(self) -> int {
        match self {
            State::IDEAL => 0,
            State::EXPLOADING => 1,
            State::EXPLOADED => 2,
        }
    }
}

/// A blast reaches the cell `(i, j)` from one of its four neighbours: the
/// neighbour holds the detonation itself, or a mid flame that travels toward
/// `(i, j)`.
pub open spec fn blast_reaches(cells: Seq<Seq<i8>>, i: int, j: int) -> bool {
    ||| cells[i - 1][j] == EXPLOSION || cells[i - 1][j] == FLAME_MID_RIGHT
    ||| cells[i + 1][j] == EXPLOSION || cells[i + 1][j] == FLAME_MID_LEFT
    ||| cells[i][j - 1] == EXPLOSION || cells[i][j - 1] == FLAME_MID_DOWN
    ||| cells[i][j + 1] == EXPLOSION || cells[i][j + 1] == FLAME_MID_TOP
}

/// The rows of a code matrix, each as a sequence.
pub open spec fn code_rows(cells: Vec<Vec<i8>>) -> Seq<Seq<i8>> {
    Seq::new(cells.len() as nat, |r: int| cells[r]@)
}

/// The four neighbours of `(i, j)` exist in `cells`.
pub open spec fn has_neighbours(cells: Seq<Seq<i8>>, i: int, j: int) -> bool {
    &&& 1 <= i
    &&& i + 1 < cells.len()
    &&& 1 <= j
    &&& j + 1 < cells[i - 1].len()
    &&& j + 1 < cells[i].len()
    &&& j + 1 < cells[i + 1].len()
}

pub fn blast_adjacent(i: usize, j: usize, cells: &Vec<Vec<i8>>) -> (hit: bool)
    requires
        has_neighbours(code_rows(*cells), i as int, j as int),
    ensures
        hit == blast_reaches(code_rows(*cells), i as int, j as int),
{
    proof {
        assert(j + 1 < cells[i as int].len());
    }
    let left = cells[i - 1][j];
    let right = cells[i + 1][j];
    let top = cells[i][j - 1];
    let down = cells[i][j + 1];
    left == EXPLOSION || left == FLAME_MID_RIGHT || right == EXPLOSION || right == FLAME_MID_LEFT
        || top == EXPLOSION || top == FLAME_MID_DOWN || down == EXPLOSION || down
        == FLAME_MID_TOP
}

#[derive(Clone, Copy, Debug, PartialEq, Eq, Structural)]
pub struct Wall {
    pub rec2: Rectangle,
    pub rec: Rectangle,
    pub frame: usize,
    pub time: u64,
    pub state: State,
}

impl Wall {
    pub open spec fn wf(&self) -> bool {
        self.frame < MAX_WALL_FRAMES
    }

    /// The wall as it is built at cell `(i, j)`.
    pub open spec fn fresh(i: usize, j: usize, scale: u32) -> Wall {
        Wall {
            rec2: Rectangle {
                x: tile_offset(i, scale) as i64,
                y: tile_offset(j, scale) as i64,
                width: tile_len(scale) as i64,
                height: tile_len(scale) as i64,
            },
            rec: Rectangle { x: 0, y: 0, width: TILE_SIZE, height: TILE_SIZE },
            frame: 0,
            time: 0,
            state: State::IDEAL,
        }
    }

    pub fn new(i: usize, j: usize, scale: u32) -> (w: Wall)
        requires
            tile_offset(i, scale) <= i64::MAX,
            tile_offset(j, scale) <= i64::MAX,
        ensures
            w == Wall::fresh(i, j, scale),
            w.wf(),
    {
        let edge = tile_edge(scale);
        Wall {
            rec2: Rectangle::new(tile_origin(i, scale), tile_origin(j, scale), edge, edge),
            rec: Rectangle::new(0, 0, TILE_SIZE, TILE_SIZE),
            frame: 0,
            time: 0,
            state: State::IDEAL,
        }
    }

    /// The wall after `update_state`: on the last frame it is destroyed.
    pub open spec fn settled(self) -> Wall {
        Wall { state: if self.frame >= 6 { State::EXPLOADED } else { self.state }, ..self }
    }

    /// The wall after `animate`: once a frame has been shown for longer than
    /// `ANIM_DURATION` the next one is taken and the clock starts again.
    pub open spec fn animated(self, frame_time: u32) -> Wall {
        let due = self.time > ANIM_DURATION;
        let shown = if due { self.frame + 1 } else { self.frame as int };
        let base: int = if due { 0 } else { self.time as int };
        Wall {
            rec: Rectangle { x: FRAMES[shown], ..self.rec },
            frame: (shown % (MAX_WALL_FRAMES as int)) as usize,
            time: if base + frame_time > u64::MAX { u64::MAX } else { (base + frame_time) as u64 },
            ..self
        }
    }

    /// The wall one tick later.
    pub open spec fn updated(self, frame_time: u32) -> Wall {
        if self.state == State::EXPLOADING {
            self.settled().animated(frame_time)
        } else {
            self
        }
    }

    pub fn update(&mut self, frame_time: u32)
        requires
            old(self).wf(),
        ensures
            *final(self) == old(self).updated(frame_time),
            final(self).wf(),
            old(self).state.rank() <= final(self).state.rank(),
    {
        match self.state {
            State::EXPLOADING => {
                self.update_state();
                self.animate(frame_time);
            },
            _ => {},
        }
    }

    pub fn update_state(&mut self)
        ensures
            *final(self) == old(self).settled(),
    {
        if self.frame >= 6 {
            self.state = State::EXPLOADED;
        }
    }

    pub fn animate(&mut self, frame_time: u32)
        requires
            old(self).wf(),
        ensures
            *final(self) == old(self).animated(frame_time),
            final(self).wf(),
    {
        if self.time > ANIM_DURATION {
            self.time = 0;
            self.frame += 1;
        }
        self.time = advance(self.time, frame_time);
        self.rec.x = FRAMES[self.frame];
        self.frame = self.frame % MAX_WALL_FRAMES;
    }

    /// An idle wall that a blast reaches starts to burn.
    pub open spec fn ignited(self, reached: bool) -> Wall {
        Wall {
            state: if self.state == State::IDEAL && reached {
                State::EXPLOADING
            } else {
                self.state
            },
            ..self
        }
    }

    pub fn exploade(&mut self, i: usize, j: usize, cells: &Vec<Vec<i8>>)
        requires
            has_neighbours(code_rows(*cells), i as int, j as int),
        ensures
            *final(self) == old(self).ignited(blast_reaches(code_rows(*cells), i as int, j as int)),
    {
        if self.state == State::IDEAL {
            if blast_adjacent(i, j, cells) {
                self.state = State::EXPLOADING;
            }
        }
    }

    pub fn draw(&self) -> (s: Sprite)
        ensures
            s == (Sprite { src: self.rec, dst: self.rec2 }),
    {
        Sprite { src: self.rec, dst: self.rec2 }
    }
}

/// Rolls a number below `bound`.
///
/// Calls `rand::Rng::gen_range` on `rand::thread_rng()` with the half-open
/// range from 0 to `bound`, which must not be empty. Taken on trust: the
/// value lies in that range. Nothing else is known of it, and two rolls may
/// differ.
#[verifier::external_body]
fn roll_below(bound: usize) -> (roll: usize)
    requires
        bound > 0,
    ensures
        roll < bound,
{
    rand::thread_rng().gen_range(0..bound)
}

/// The sheet column for a roll: rolls from `max` on all show column `min`.
pub open spec fn variant_of(roll: usize, max: usize, min: usize) -> usize {
    if roll >= max {
        min
    } else {
        roll
    }
}

pub fn pick_variant(roll: usize, max: usize, min: usize) -> (k: usize)
    ensures
        k == variant_of(roll, max, min),
{
    if roll >= max {
        min
    } else {
        roll
    }
}

/// Source and screen rectangles of a static tile at `(i, j)` that shows the
/// sheet column `k` of the sheet row at height `y`.
pub open spec fn static_tile(i: usize, j: usize, scale: u32, k: usize, y: i64) -> (
    Rectangle,
    Rectangle,
) {
    (
        Rectangle { x: FRAMES[k as int], y, width: TILE_SIZE, height: TILE_SIZE },
        Rectangle {
            x: tile_offset(i, scale) as i64,
            y: tile_offset(j, scale) as i64,
            width: SCALED_TILE,
            height: SCALED_TILE,
        },
    )
}

fn place_static(i: usize, j: usize, scale: u32, k: usize, y: i64) -> (recs: (Rectangle, Rectangle))
    requires
        tile_offset(i, scale) <= i64::MAX,
        tile_offset(j, scale) <= i64::MAX,
        k < FRAMES.len(),
    ensures
        recs == static_tile(i, j, scale, k, y),
{
    (
        Rectangle::new(FRAMES[k], y, TILE_SIZE, TILE_SIZE),
        Rectangle::new(tile_origin(i, scale), tile_origin(j, scale), SCALED_TILE, SCALED_TILE),
    )
}

/// Indestructible terrain.
#[derive(Clone, Copy, Debug, PartialEq, Eq, Structural)]
pub struct Block {
    pub rec: Rectangle,
    pub rec2: Rectangle,
}

/// The ground under every cell; its sprite is the shadow that falls on it.
#[derive(Clone, Copy, Debug, PartialEq, Eq, Structural)]
pub struct Empty {
    pub rec: Rectangle,
    pub rec2: Rectangle,
}

/// Decoration on free ground.
#[derive(Clone, Copy, Debug, PartialEq, Eq, Structural)]
pub struct Grass {
    pub rec: Rectangle,
    pub rec2: Rectangle,
}

impl Block {
    /// The block at `(i, j)` for a given roll.
    pub open spec fn rolled(i: usize, j: usize, scale: u32, roll: usize) -> Block {
        let recs = static_tile(i, j, scale, variant_of(roll, 4, 0), BLOCK_Y);
        Block { rec: recs.0, rec2: recs.1 }
    }

    pub fn with_roll(i: usize, j: usize, scale: u32, roll: usize) -> (b: Block)
        requires
            tile_offset(i, scale) <= i64::MAX,
            tile_offset(j, scale) <= i64::MAX,
        ensures
            b == Block::rolled(i, j, scale, roll),
    {
        let recs = place_static(i, j, scale, pick_variant(roll, 4, 0), BLOCK_Y);
        Block { rec: recs.0, rec2: recs.1 }
    }

    pub fn new(i: usize, j: usize, scale: u32) -> (b: Block)
        requires
            tile_offset(i, scale) <= i64::MAX,
            tile_offset(j, scale) <= i64::MAX,
        ensures
            exists|roll: usize| roll < MAX_RAND_FRAME && b == #[trigger] Block::rolled(i, j, scale, roll),
    {
        Block::with_roll(i, j, scale, roll_below(MAX_RAND_FRAME))
    }

    pub fn draw(&self) -> (s: Sprite)
        ensures
            s == (Sprite { src: self.rec, dst: self.rec2 }),
    {
        Sprite { src: self.rec, dst: self.rec2 }
    }
}

impl Grass {
    /// The grass at `(i, j)` for a given roll.
    pub open spec fn rolled(i: usize, j: usize, scale: u32, roll: usize) -> Grass {
        let recs = static_tile(i, j, scale, variant_of(roll, 8, 7), GRASS_Y);
        Grass { rec: recs.0, rec2: recs.1 }
    }

    pub fn with_roll(i: usize, j: usize, scale: u32, roll: usize) -> (g: Grass)
        requires
            tile_offset(i, scale) <= i64::MAX,
            tile_offset(j, scale) <= i64::MAX,
        ensures
            g == Grass::rolled(i, j, scale, roll),
    {
        let recs = place_static(i, j, scale, pick_variant(roll, 8, 7), GRASS_Y);
        Grass { rec: recs.0, rec2: recs.1 }
    }

    pub fn new(i: usize, j: usize, scale: u32) -> (g: Grass)
        requires
            tile_offset(i, scale) <= i64::MAX,
            tile_offset(j, scale) <= i64::MAX,
        ensures
            exists|roll: usize| roll < MAX_RAND_FRAME && g == #[trigger] Grass::rolled(i, j, scale, roll),
    {
        Grass::with_roll(i, j, scale, roll_below(MAX_RAND_FRAME))
    }

    pub fn draw(&self) -> (s: Sprite)
        ensures
            s == (Sprite { src: self.rec, dst: self.rec2 }),
    {
        Sprite { src: self.rec, dst: self.rec2 }
    }
}

impl Empty {
    /// The ground tile at `(i, j)` for a given roll.
    pub open spec fn rolled(i: usize, j: usize, scale: u32, roll: usize) -> Empty {
        let recs = static_tile(i, j, scale, variant_of(roll, 4, 0), EMPTY_Y);
        Empty { rec: recs.0, rec2: recs.1 }
    }

    pub fn with_roll(i: usize, j: usize, scale: u32, roll: usize) -> (e: Empty)
        requires
            tile_offset(i, scale) <= i64::MAX,
            tile_offset(j, scale) <= i64::MAX,
        ensures
            e == Empty::rolled(i, j, scale, roll),
    {
        let recs = place_static(i, j, scale, pick_variant(roll, 4, 0), EMPTY_Y);
        Empty { rec: recs.0, rec2: recs.1 }
    }

    pub fn new(i: usize, j: usize, scale: u32) -> (e: Empty)
        requires
            tile_offset(i, scale) <= i64::MAX,
            tile_offset(j, scale) <= i64::MAX,
        ensures
            exists|roll: usize| roll < MAX_RAND_FRAME && e == #[trigger] Empty::rolled(i, j, scale, roll),
    {
        Empty::with_roll(i, j, scale, roll_below(MAX_RAND_FRAME))
    }

    pub fn set_position(&mut self, i: usize, j: usize)
        requires
            on_screen(i, j),
        ensures
            *final(self) == (Empty { rec2: placed(old(self).rec2, i, j), ..*old(self) }),
    {
        place(&mut self.rec2, i, j);
    }

    pub fn draw(&self) -> (s: Sprite)
        ensures
            s == (Sprite { src: self.rec, dst: self.rec2 }),
    {
        Sprite { src: self.rec, dst: self.rec2 }
    }
}

} // verus!
