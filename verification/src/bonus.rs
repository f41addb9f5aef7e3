//! Collectable bonuses.

use vstd::prelude::*;
use crate::geometry::{
    advance, position_of, tile_edge, tile_index_of, tile_len, tile_offset, tile_origin,
    Position, Rectangle, Sprite, ANIM_DURATION, TILE_SIZE,
};

verus! {

#[derive(Clone, Copy, Debug, PartialEq, Eq, Structural)]
pub enum BonusType {
    Default,
    Heart,
    Cash,
    SilverCoin,
    GoldCoin,
    Diamond,
}

/// Sheet columns of a bonus's animation, in the order they are shown.
pub open spec fn bonus_frames(bonus_type: BonusType) -> Seq<i64> {
    match bonus_type {
        BonusType::Heart => seq![48i64, 64, 80, 96],
        BonusType::Cash => seq![32i64, 48, 64, 80, 96, 112, 128, 144, 160, 176, 192, 208],
        BonusType::SilverCoin => seq![0i64, 16, 32, 48],
        BonusType::GoldCoin => seq![0i64, 16, 32, 48],
        BonusType::Diamond => seq![0i64, 16],
        BonusType::Default => seq![],
    }
}

/// What a bonus is worth: lives for a heart, points for the others.
pub open spec fn bonus_value(bonus_type: BonusType) -> usize {
    match bonus_type {
        BonusType::Heart => 1,
        BonusType::Cash => 10,
        BonusType::SilverCoin => 20,
        BonusType::GoldCoin => 50,
        BonusType::Diamond => 100,
        BonusType::Default => 0,
    }
}

/// Where a bonus's first frame lies on the sheet.
pub open spec fn bonus_rec(bonus_type: BonusType) -> Rectangle {
    match bonus_type {
        BonusType::Heart => Rectangle { x: 48, y: 192, width: TILE_SIZE, height: TILE_SIZE },
        BonusType::Cash => Rectangle { x: 32, y: 240, width: TILE_SIZE, height: TILE_SIZE },
        BonusType::SilverCoin => Rectangle { x: 0, y: 224, width: TILE_SIZE, height: TILE_SIZE },
        BonusType::GoldCoin => Rectangle { x: 0, y: 208, width: TILE_SIZE, height: TILE_SIZE },
        BonusType::Diamond => Rectangle { x: 0, y: 240, width: TILE_SIZE, height: TILE_SIZE },
        BonusType::Default => Rectangle { x: 0, y: 0, width: 0, height: 0 },
    }
}

pub struct Bonus {
    pub bonus_type: BonusType,
    pub val: usize,
    pub frame: usize,
    pub local_frames: Vec<i64>,
    pub time: u64,
    pub rec: Rectangle,
    pub rec2: Rectangle,
}

/// A bonus as plain values.
pub struct BonusView {
    pub bonus_type: BonusType,
    pub val: usize,
    pub frame: usize,
    pub local_frames: Seq<i64>,
    pub time: u64,
    pub rec: Rectangle,
    pub rec2: Rectangle,
}

impl View for Bonus {
    type V = BonusView;

    open spec fn view(&self) -> BonusView {
        BonusView {
            bonus_type: self.bonus_type,
            val: self.val,
            frame: self.frame,
            local_frames: self.local_frames@,
            time: self.time,
            rec: self.rec,
            rec2: self.rec2,
        }
    }
}

impl BonusView {
    /// The bonus has an animation and stands on one of its frames.
    pub open spec fn wf(self) -> bool {
        self.frame < self.local_frames.len()
    }

    /// The bonus of a kind as it is built at cell `(i, j)`.
    pub open spec fn fresh(bonus_type: BonusType, i: usize, j: usize, scale: u32) -> BonusView {
        BonusView {
            bonus_type,
            val: bonus_value(bonus_type),
            frame: 0,
            local_frames: bonus_frames(bonus_type),
            time: 0,
            rec: bonus_rec(bonus_type),
            rec2: Rectangle {
                x: tile_offset(i, scale) as i64,
                y: tile_offset(j, scale) as i64,
                width: tile_len(scale) as i64,
                height: tile_len(scale) as i64,
            },
        }
    }

    /// What to blit for the bonus; nothing once it has been taken.
    pub open spec fn sprite(self) -> Option<Sprite> {
        if self.bonus_type != BonusType::Default {
            Some(Sprite { src: self.rec, dst: self.rec2 })
        } else {
            None
        }
    }

    /// The bonus after one step of its animation: a frame shown for longer
    /// than `ANIM_DURATION` gives way to the next, cyclically.
    pub open spec fn animated(self, frame_time: u32) -> BonusView {
        let due = self.time > ANIM_DURATION;
        let shown = if due { self.frame + 1 } else { self.frame as int };
        let frame = (shown % (self.local_frames.len() as int)) as usize;
        let base: int = if due { 0 } else { self.time as int };
        BonusView {
            frame,
            rec: Rectangle { x: self.local_frames[frame as int], ..self.rec },
            time: if base + frame_time > u64::MAX {
                u64::MAX
            } else {
                (base + frame_time) as u64
            },
            ..self
        }
    }
}

impl Bonus {
    pub fn new(bonus_type: BonusType, i: usize, j: usize, scale: u32) -> (b: Bonus)
        requires
            tile_offset(i, scale) <= i64::MAX,
            tile_offset(j, scale) <= i64::MAX,
        ensures
            b@ == BonusView::fresh(bonus_type, i, j, scale),
            b@.wf() <==> bonus_type != BonusType::Default,
    {
        let edge = tile_edge(scale);
        let rec2 = Rectangle::new(tile_origin(i, scale), tile_origin(j, scale), edge, edge);
        let mut rec = Rectangle::new(0, 0, 0, 0);
        let mut val: usize = 0;
        let mut local_frames: Vec<i64> = Vec::new();
        match bonus_type {
            BonusType::Heart => {
                rec = Rectangle::new(48, 192, TILE_SIZE, TILE_SIZE);
                val = 1;
                local_frames = vec![48, 64, 80, 96];
            },
            BonusType::Cash => {
                rec = Rectangle::new(32, 240, TILE_SIZE, TILE_SIZE);
                val = 10;
                local_frames = vec![32, 48, 64, 80, 96, 112, 128, 144, 160, 176, 192, 208];
            },
            BonusType::SilverCoin => {
                rec = Rectangle::new(0, 224, TILE_SIZE, TILE_SIZE);
                val = 20;
                local_frames = vec![0, 16, 32, 48];
            },
            BonusType::GoldCoin => {
                rec = Rectangle::new(0, 208, TILE_SIZE, TILE_SIZE);
                val = 50;
                local_frames = vec![0, 16, 32, 48];
            },
            BonusType::Diamond => {
                rec = Rectangle::new(0, 240, TILE_SIZE, TILE_SIZE);
                val = 100;
                local_frames = vec![0, 16];
            },
            _ => {},
        }
        Bonus { bonus_type, val, frame: 0, local_frames, time: 0, rec, rec2 }
    }

    pub fn draw(&self) -> (s: Option<Sprite>)
        ensures
            s == self@.sprite(),
    {
        if self.bonus_type != BonusType::Default {
            Some(Sprite { src: self.rec, dst: self.rec2 })
        } else {
            None
        }
    }

    pub fn animate(&mut self, frame_time: u32)
        requires
            old(self)@.wf(),
        ensures
            final(self)@ == old(self)@.animated(frame_time),
            final(self)@.wf(),
    {
        let len = self.local_frames.len();
        if self.time > ANIM_DURATION {
            self.frame += 1;
            self.time = 0;
        }
        self.frame = self.frame % len;
        self.rec.x = self.local_frames[self.frame];
        self.time = advance(self.time, frame_time);
    }

    pub fn get_position(&self) -> (p: Position)
        ensures
            p.0 == tile_index_of(self.rec2.x as int),
            p.1 == tile_index_of(self.rec2.y as int),
    {
        position_of(&self.rec2)
    }
}

} // verus!
