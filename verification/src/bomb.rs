//! Blast signal codes, flames and the bomb.

use vstd::prelude::*;
use crate::geometry::{
    advance, on_screen, place, placed, Rectangle, Sprite, ANIM_DURATION, FRAMES, MAX_FRAME,
    SCALED_TILE, TILE_SIZE,
};
use crate::objects::{blast_adjacent, blast_reaches, code_rows, has_neighbours, State};

verus! {

/// Blast radii of the bomb tiers, weakest first.
pub const BOMB_POWER_LEVEL: [usize; 3] = [2, 7, 10];

/// Largest blast radius, that of the last tier; retraction walks this far.
pub const MAX_BOMB_POWER: usize = 10;

/// Countdown of a fresh bomb, in milliseconds.
pub const EXP_TIME: i64 = 7000;

/// Where the countdown stands when the blast is over.
pub const EXP_END: i64 = -1000;

/// Time one frame of the idle bomb is shown: a third of the countdown, in
/// whole milliseconds.
pub const IDLE_FRAME_TIME: u64 = 2333;

/// Number of frames of a flame's animation.
pub const FLAME_FRAMES: usize = 4;

/// Texels between two frames of a flame on the sheet.
pub const FLAME_STRIDE: i64 = 80;

pub const BOMB_Y: i64 = 96;
pub const F_TOP_END_Y: i64 = 320;
pub const F_TOP_MID_Y: i64 = 336;
pub const F_DOWN_MID_Y: i64 = 368;
pub const F_DOWN_END_Y: i64 = 384;
pub const EXP_FLAME_LR_Y: i64 = 352;

pub const EXPLOSION: i8 = -1;
pub const FLAME_MID_LEFT: i8 = -2;
pub const FLAME_MID_RIGHT: i8 = -3;
pub const FLAME_MID_TOP: i8 = -4;
pub const FLAME_MID_DOWN: i8 = -5;
pub const FLAME_END_LEFT: i8 = -6;
pub const FLAME_END_RIGHT: i8 = -7;
pub const FLAME_END_TOP: i8 = -8;
pub const FLAME_END_DOWN: i8 = -9;

/// The four ways a blast travels. `Left` and `Right` lower and raise the
/// first index of a cell, `Top` and `Down` the second.
#[derive(Clone, Copy, Debug, PartialEq, Eq, Structural)]
pub enum Direction {
    Left,
    Right,
    Top,
    Down,
}

/// Whether a flame cell lies within a blast arm or is its tip.
#[derive(Clone, Copy, Debug, PartialEq, Eq, Structural)]
pub enum Extent {
    Mid,
    End,
}

/// The signal code of a flame of the given direction and extent.
pub open spec fn flame_code(dir: Direction, extent: Extent) -> i8 {
    match (dir, extent) {
        (Direction::Left, Extent::Mid) => FLAME_MID_LEFT,
        (Direction::Right, Extent::Mid) => FLAME_MID_RIGHT,
        (Direction::Top, Extent::Mid) => FLAME_MID_TOP,
        (Direction::Down, Extent::Mid) => FLAME_MID_DOWN,
        (Direction::Left, Extent::End) => FLAME_END_LEFT,
        (Direction::Right, Extent::End) => FLAME_END_RIGHT,
        (Direction::Top, Extent::End) => FLAME_END_TOP,
        (Direction::Down, Extent::End) => FLAME_END_DOWN,
    }
}

pub fn signal_code(dir: Direction, extent: Extent) -> (code: i8)
    ensures
        code == flame_code(dir, extent),
{
    match (dir, extent) {
        (Direction::Left, Extent::Mid) => FLAME_MID_LEFT,
        (Direction::Right, Extent::Mid) => FLAME_MID_RIGHT,
        (Direction::Top, Extent::Mid) => FLAME_MID_TOP,
        (Direction::Down, Extent::Mid) => FLAME_MID_DOWN,
        (Direction::Left, Extent::End) => FLAME_END_LEFT,
        (Direction::Right, Extent::End) => FLAME_END_RIGHT,
        (Direction::Top, Extent::End) => FLAME_END_TOP,
        (Direction::Down, Extent::End) => FLAME_END_DOWN,
    }
}

/// Sheet column of the first frame of a flame.
pub open spec fn flame_base_x(dir: Direction, extent: Extent) -> i64 {
    match (dir, extent) {
        (Direction::Left, Extent::End) => 0,
        (Direction::Right, Extent::End) => 64,
        (Direction::Left, Extent::Mid) => 16,
        (Direction::Right, Extent::Mid) => 48,
        _ => 32,
    }
}

/// Sheet row of a flame.
pub open spec fn flame_row_y(dir: Direction, extent: Extent) -> i64 {
    match (dir, extent) {
        (Direction::Top, Extent::End) => F_TOP_END_Y,
        (Direction::Top, Extent::Mid) => F_TOP_MID_Y,
        (Direction::Down, Extent::Mid) => F_DOWN_MID_Y,
        (Direction::Down, Extent::End) => F_DOWN_END_Y,
        _ => EXP_FLAME_LR_Y,
    }
}

/// Sheet column of frame `k` of a flame.
pub open spec fn flame_frame_x(dir: Direction, extent: Extent, k: int) -> int {
    flame_base_x(dir, extent) + FLAME_STRIDE * k
}

fn frame_x(dir: Direction, extent: Extent, k: usize) -> (x: i64)
    requires
        k < FLAME_FRAMES,
    ensures
        x == flame_frame_x(dir, extent, k as int),
{
    let base: i64 = match (dir, extent) {
        (Direction::Left, Extent::End) => 0,
        (Direction::Right, Extent::End) => 64,
        (Direction::Left, Extent::Mid) => 16,
        (Direction::Right, Extent::Mid) => 48,
        _ => 32,
    };
    base + FLAME_STRIDE * (k as i64)
}

fn row_y(dir: Direction, extent: Extent) -> (y: i64)
    ensures
        y == flame_row_y(dir, extent),
{
    match (dir, extent) {
        (Direction::Top, Extent::End) => F_TOP_END_Y,
        (Direction::Top, Extent::Mid) => F_TOP_MID_Y,
        (Direction::Down, Extent::Mid) => F_DOWN_MID_Y,
        (Direction::Down, Extent::End) => F_DOWN_END_Y,
        _ => EXP_FLAME_LR_Y,
    }
}

/// What one step of a four-frame animation does to its clock and frame:
/// once a frame has been shown for longer than `ANIM_DURATION` the next one
/// is taken, cyclically, and the clock starts again.
pub open spec fn next_clock(time: u64, frame_time: u32) -> u64 {
    let base: int = if time > ANIM_DURATION { 0 } else { time as int };
    if base + frame_time > u64::MAX {
        u64::MAX
    } else {
        (base + frame_time) as u64
    }
}

pub open spec fn next_frame(time: u64, frames: usize) -> usize {
    let shown = if time > ANIM_DURATION { frames + 1 } else { frames as int };
    (shown % (FLAME_FRAMES as int)) as usize
}

/// A flame entity. It has no life of its own: it moves only while its cell
/// holds its signal code.
#[derive(Clone, Copy, Debug, PartialEq, Eq, Structural)]
pub struct Flame {
    pub dir: Direction,
    pub extent: Extent,
    pub rec: Rectangle,
    pub rec2: Rectangle,
    pub frames: usize,
    pub time: u64,
    pub state: State,
}

impl Flame {
    pub open spec fn wf(&self) -> bool {
        self.frames < FLAME_FRAMES
    }

    /// The flame as it is spawned.
    pub open spec fn fresh(dir: Direction, extent: Extent) -> Flame {
        Flame {
            dir,
            extent,
            rec: Rectangle {
                x: flame_base_x(dir, extent),
                y: flame_row_y(dir, extent),
                width: TILE_SIZE,
                height: TILE_SIZE,
            },
            rec2: Rectangle { x: 0, y: 0, width: SCALED_TILE, height: SCALED_TILE },
            frames: 0,
            time: 0,
            state: State::IDEAL,
        }
    }

    pub fn new(dir: Direction, extent: Extent) -> (f: Flame)
        ensures
            f == Flame::fresh(dir, extent),
            f.wf(),
    {
        Flame {
            dir,
            extent,
            rec: Rectangle::new(frame_x(dir, extent, 0), row_y(dir, extent), TILE_SIZE, TILE_SIZE),
            rec2: Rectangle::new(0, 0, SCALED_TILE, SCALED_TILE),
            frames: 0,
            time: 0,
            state: State::IDEAL,
        }
    }

    /// The signal code this flame answers to.
    pub open spec fn code(&self) -> i8 {
        flame_code(self.dir, self.extent)
    }

    pub fn signal(&self) -> (code: i8)
        ensures
            code == self.code(),
    {
        signal_code(self.dir, self.extent)
    }

    /// The flame one tick later, where its cell holds `cell`.
    pub open spec fn animated(self, cell: i8, frame_time: u32) -> Flame {
        if cell == self.code() {
            let frames = next_frame(self.time, self.frames);
            Flame {
                rec: Rectangle {
                    x: flame_frame_x(self.dir, self.extent, frames as int) as i64,
                    ..self.rec
                },
                frames,
                time: next_clock(self.time, frame_time),
                ..self
            }
        } else {
            self
        }
    }

    pub fn anim(&mut self, cell: i8, frame_time: u32)
        requires
            old(self).wf(),
        ensures
            *final(self) == old(self).animated(cell, frame_time),
            final(self).wf(),
    {
        if cell == self.signal() {
            if self.time > ANIM_DURATION {
                self.time = 0;
                self.frames += 1;
            }
            self.time = advance(self.time, frame_time);
            self.frames = self.frames % FLAME_FRAMES;
            self.rec.x = frame_x(self.dir, self.extent, self.frames);
        }
    }

    /// The flame after `draw` at cell `(i, j)`: it moves there if its cell
    /// holds its code.
    pub open spec fn shown_at(self, i: usize, j: usize, cell: i8) -> Flame {
        if cell == self.code() {
            Flame { rec2: placed(self.rec2, i, j), ..self }
        } else {
            self
        }
    }

    /// Moves the flame to its cell and says what to blit, if anything.
    pub fn draw(&mut self, i: usize, j: usize, cell: i8) -> (s: Option<Sprite>)
        requires
            on_screen(i, j),
        ensures
            *final(self) == old(self).shown_at(i, j, cell),
            s == if cell == old(self).code() {
                Some(Sprite { src: final(self).rec, dst: final(self).rec2 })
            } else {
                None
            },
    {
        if cell == self.signal() {
            place(&mut self.rec2, i, j);
            Some(Sprite { src: self.rec, dst: self.rec2 })
        } else {
            None
        }
    }
}

#[derive(Clone, Copy, Debug, PartialEq, Eq, Structural)]
pub struct Bomb {
    pub rec2: Rectangle,
    pub exp_rec2: Rectangle,
    pub rec: Rectangle,
    pub exp_rec: Rectangle,
    pub exp_frames: usize,
    pub frames: usize,
    pub time: u64,
    pub exp_time: u64,
    /// Countdown in milliseconds: the blast starts at 0 and is over at
    /// `EXP_END`.
    pub exploading_time: i64,
    pub power: usize,
    pub state: State,
}

impl Bomb {
    pub open spec fn wf(&self) -> bool {
        self.frames < MAX_FRAME && self.exp_frames < FLAME_FRAMES
    }

    /// The bomb as it is built.
    pub open spec fn fresh() -> Bomb {
        Bomb {
            rec2: Rectangle { x: 0, y: 0, width: SCALED_TILE, height: SCALED_TILE },
            exp_rec2: Rectangle { x: 0, y: 0, width: SCALED_TILE, height: SCALED_TILE },
            rec: Rectangle { x: 0, y: BOMB_Y, width: TILE_SIZE, height: TILE_SIZE },
            exp_rec: Rectangle { x: 32, y: EXP_FLAME_LR_Y, width: TILE_SIZE, height: TILE_SIZE },
            exp_frames: 0,
            frames: 0,
            time: 0,
            exp_time: 0,
            exploading_time: EXP_TIME,
            power: 1,
            state: State::IDEAL,
        }
    }

    pub fn new() -> (b: Bomb)
        ensures
            b == Bomb::fresh(),
            b.wf(),
    {
        Bomb {
            rec2: Rectangle::new(0, 0, SCALED_TILE, SCALED_TILE),
            exp_rec2: Rectangle::new(0, 0, SCALED_TILE, SCALED_TILE),
            rec: Rectangle::new(0, BOMB_Y, TILE_SIZE, TILE_SIZE),
            exp_rec: Rectangle::new(32, EXP_FLAME_LR_Y, TILE_SIZE, TILE_SIZE),
            exp_frames: 0,
            frames: 0,
            time: 0,
            exp_time: 0,
            exploading_time: EXP_TIME,
            power: 1,
            state: State::IDEAL,
        }
    }

    /// The state that follows `state` when the countdown stands at `left`.
    pub open spec fn next_state(state: State, left: i64) -> State {
        match state {
            State::IDEAL => if left <= 0 {
                State::EXPLOADING
            } else {
                State::IDEAL
            },
            State::EXPLOADING => if left <= EXP_END {
                State::EXPLOADED
            } else {
                State::EXPLOADING
            },
            State::EXPLOADED => State::EXPLOADED,
        }
    }

    pub fn explode(&mut self)
        ensures
            *final(self) == (Bomb {
                state: Bomb::next_state(old(self).state, old(self).exploading_time),
                ..*old(self)
            }),
    {
        match self.state {
            State::EXPLOADED => {},
            State::IDEAL => {
                if self.exploading_time <= 0 {
                    self.state = State::EXPLOADING;
                }
            },
            State::EXPLOADING => {
                if self.exploading_time <= EXP_END {
                    self.state = State::EXPLOADED;
                }
            },
        }
    }

    /// Whether the blast is to be heard this tick.
    pub fn play_sound(&self) -> (wanted: bool)
        ensures
            wanted == (self.state == State::EXPLOADING),
    {
        self.state == State::EXPLOADING
    }

    /// The countdown `frame_time` later; it stops at the least value.
    pub open spec fn counted_down(left: i64, frame_time: u32) -> i64 {
        if left - frame_time < i64::MIN {
            i64::MIN
        } else {
            (left - frame_time) as i64
        }
    }

    pub fn detonating(&mut self, frame_time: u32)
        ensures
            *final(self) == (Bomb {
                exploading_time: Bomb::counted_down(old(self).exploading_time, frame_time),
                ..*old(self)
            }),
    {
        let dt: i64 = frame_time as i64;
        if self.exploading_time < i64::MIN + dt {
            self.exploading_time = i64::MIN;
        } else {
            self.exploading_time = self.exploading_time - dt;
        }
    }

    /// The idle bomb after one step of its animation; a bomb in another
    /// state is left alone.
    pub open spec fn animated(self, frame_time: u32) -> Bomb {
        if self.state == State::IDEAL {
            let due = self.time > IDLE_FRAME_TIME;
            let shown = if due { self.frames + 1 } else { self.frames as int };
            let base: int = if due { 0 } else { self.time as int };
            Bomb {
                rec: Rectangle { x: FRAMES[shown], ..self.rec },
                frames: (shown % (MAX_FRAME as int)) as usize,
                time: if base + frame_time > u64::MAX {
                    u64::MAX
                } else {
                    (base + frame_time) as u64
                },
                ..self
            }
        } else {
            self
        }
    }

    pub fn animate(&mut self, frame_time: u32)
        requires
            old(self).wf(),
        ensures
            *final(self) == old(self).animated(frame_time),
            final(self).wf(),
    {
        if self.state == State::IDEAL {
            if self.time > IDLE_FRAME_TIME {
                self.time = 0;
                self.frames += 1;
            }
            self.time = advance(self.time, frame_time);
            self.rec.x = FRAMES[self.frames];
            self.frames = self.frames % MAX_FRAME;
        }
    }

    /// The bomb one tick later: animated, counted down, then moved on in its
    /// life cycle.
    pub open spec fn updated(self, frame_time: u32) -> Bomb {
        let moved = self.animated(frame_time);
        let left = Bomb::counted_down(moved.exploading_time, frame_time);
        Bomb { exploading_time: left, state: Bomb::next_state(moved.state, left), ..moved }
    }

    /// Advances the bomb by one tick. The result says whether the blast is
    /// to be heard: it is while the bomb enters the tick exploding.
    pub fn update(&mut self, frame_time: u32) -> (sound: bool)
        requires
            old(self).wf(),
        ensures
            *final(self) == old(self).updated(frame_time),
            final(self).wf(),
            sound == (old(self).state == State::EXPLOADING),
            old(self).state.rank() <= final(self).state.rank() <= old(self).state.rank() + 1,
    {
        let sound = self.play_sound();
        self.animate(frame_time);
        self.detonating(frame_time);
        self.explode();
        sound
    }

    pub fn set_position(&mut self, i: usize, j: usize)
        requires
            on_screen(i, j),
        ensures
            *final(self) == (Bomb { rec2: placed(old(self).rec2, i, j), ..*old(self) }),
    {
        place(&mut self.rec2, i, j);
    }

    pub fn draw(&self) -> (s: Sprite)
        ensures
            s == (Sprite { src: self.rec, dst: self.rec2 }),
    {
        Sprite { src: self.rec, dst: self.rec2 }
    }

    /// The bomb after `draw_exp` at cell `(i, j)`: the blast sprite moves
    /// there if the cell holds `EXPLOSION`.
    pub open spec fn blast_shown_at(self, i: usize, j: usize, cell: i8) -> Bomb {
        if cell == EXPLOSION {
            Bomb { exp_rec2: placed(self.exp_rec2, i, j), ..self }
        } else {
            self
        }
    }

    /// Moves the blast sprite to the bomb's cell and says what to blit, if
    /// anything.
    pub fn draw_exp(&mut self, i: usize, j: usize, cell: i8) -> (s: Option<Sprite>)
        requires
            on_screen(i, j),
        ensures
            *final(self) == old(self).blast_shown_at(i, j, cell),
            s == if cell == EXPLOSION {
                Some(Sprite { src: final(self).exp_rec, dst: final(self).exp_rec2 })
            } else {
                None
            },
    {
        if cell == EXPLOSION {
            place(&mut self.exp_rec2, i, j);
            Some(Sprite { src: self.exp_rec, dst: self.exp_rec2 })
        } else {
            None
        }
    }

    /// The bomb after one step of the blast animation, which runs while its
    /// cell holds `EXPLOSION`.
    pub open spec fn blast_animated(self, cell: i8, frame_time: u32) -> Bomb {
        if cell == EXPLOSION {
            let frames = next_frame(self.exp_time, self.exp_frames);
            Bomb {
                exp_rec: Rectangle { x: (32 + FLAME_STRIDE * frames) as i64, ..self.exp_rec },
                exp_frames: frames,
                exp_time: next_clock(self.exp_time, frame_time),
                ..self
            }
        } else {
            self
        }
    }

    pub fn anim_exp(&mut self, cell: i8, frame_time: u32)
        requires
            old(self).wf(),
        ensures
            *final(self) == old(self).blast_animated(cell, frame_time),
            final(self).wf(),
    {
        if cell == EXPLOSION {
            if self.exp_time > ANIM_DURATION {
                self.exp_time = 0;
                self.exp_frames += 1;
            }
            self.exp_time = advance(self.exp_time, frame_time);
            self.exp_frames = self.exp_frames % FLAME_FRAMES;
            self.exp_rec.x = frame_x(Direction::Top, Extent::Mid, self.exp_frames);
        }
    }

    /// An idle bomb that a blast reaches goes off at once.
    pub open spec fn chained(self, reached: bool) -> Bomb {
        Bomb {
            state: if self.state == State::IDEAL && reached {
                State::EXPLOADING
            } else {
                self.state
            },
            ..self
        }
    }

    pub fn chain_exp(&mut self, i: usize, j: usize, cells: &Vec<Vec<i8>>)
        requires
            has_neighbours(code_rows(*cells), i as int, j as int),
        ensures
            *final(self) == old(self).chained(blast_reaches(code_rows(*cells), i as int, j as int)),
    {
        if self.state == State::IDEAL {
            if blast_adjacent(i, j, cells) {
                self.state = State::EXPLOADING;
            }
        }
    }
}

} // verus!
