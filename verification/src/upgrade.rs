//! Bomb upgrades that lie on the ground.

use vstd::prelude::*;
use crate::geometry::{
    pixel_of, position_of, tile_edge, tile_index_of, tile_len, tile_offset, tile_origin,
    to_pixel, Position, Rectangle, Sprite, FRAMES, TILE_SIZE,
};

verus! {

/// Height of the score line's text, in pixels.
pub const TEXT_SIZE: i64 = 60;

/// Height of an upgrade's label, a third of the score line's, in pixels.
pub const LABEL_SIZE: i64 = 20;

#[derive(Clone, Copy, Debug, PartialEq, Eq, Structural)]
pub enum UpgradeType {
    Default,
    BlackBomb,
    BlueBomb,
    PurpleBomb,
    RedBomb,
}

/// Sheet column of an upgrade's sprite; `None` for one that was taken.
pub open spec fn upgrade_column(up_type: UpgradeType) -> Option<int> {
    match up_type {
        UpgradeType::BlackBomb => Some(4),
        UpgradeType::BlueBomb => Some(7),
        UpgradeType::PurpleBomb => Some(10),
        UpgradeType::RedBomb => Some(13),
        UpgradeType::Default => None,
    }
}

/// The count written over an upgrade: the number, the pixel at which the text
/// starts and the text's height in pixels.
#[derive(Clone, Copy, Debug, PartialEq, Eq, Structural)]
pub struct Label {
    pub count: usize,
    pub x: i64,
    pub y: i64,
    pub size: i64,
}

#[derive(Clone, Copy, Debug, PartialEq, Eq, Structural)]
pub struct Upgrade {
    pub up_type: UpgradeType,
    pub val: usize,
    pub rec2: Rectangle,
}

impl Upgrade {
    /// The upgrade as it is built at cell `(i, j)`.
    pub open spec fn fresh(up_type: UpgradeType, val: usize, i: usize, j: usize, scale: u32)
        -> Upgrade {
        Upgrade {
            up_type,
            val,
            rec2: Rectangle {
                x: tile_offset(i, scale) as i64,
                y: tile_offset(j, scale) as i64,
                width: tile_len(scale) as i64,
                height: tile_len(scale) as i64,
            },
        }
    }

    pub fn new(up_type: UpgradeType, val: usize, i: usize, j: usize, scale: u32) -> (u: Upgrade)
        requires
            tile_offset(i, scale) <= i64::MAX,
            tile_offset(j, scale) <= i64::MAX,
        ensures
            u == Upgrade::fresh(up_type, val, i, j, scale),
    {
        let edge = tile_edge(scale);
        Upgrade {
            up_type,
            val,
            rec2: Rectangle::new(tile_origin(i, scale), tile_origin(j, scale), edge, edge),
        }
    }

    /// The label of an upgrade that is still there: its count, a third of
    /// the text height right of and below the pixel its tile starts at.
    pub open spec fn label(self) -> Option<Label> {
        if self.up_type != UpgradeType::Default {
            Some(
                Label {
                    count: self.val,
                    x: (pixel_of(self.rec2.x as int) + LABEL_SIZE) as i64,
                    y: (pixel_of(self.rec2.y as int) + LABEL_SIZE) as i64,
                    size: LABEL_SIZE,
                },
            )
        } else {
            None
        }
    }

    pub fn draw_val(&self) -> (l: Option<Label>)
        ensures
            l == self.label(),
    {
        if self.up_type != UpgradeType::Default {
            Some(
                Label {
                    count: self.val,
                    x: to_pixel(self.rec2.x) + LABEL_SIZE,
                    y: to_pixel(self.rec2.y) + LABEL_SIZE,
                    size: LABEL_SIZE,
                },
            )
        } else {
            None
        }
    }

    /// What to blit for the upgrade; nothing once it has been taken.
    pub open spec fn sprite(self) -> Option<Sprite> {
        match upgrade_column(self.up_type) {
            Some(k) => Some(
                Sprite {
                    src: Rectangle { x: FRAMES[k], y: 96, width: TILE_SIZE, height: TILE_SIZE },
                    dst: self.rec2,
                },
            ),
            None => None,
        }
    }

    pub fn draw(&self) -> (s: Option<Sprite>)
        ensures
            s == self.sprite(),
    {
        let k: usize = match self.up_type {
            UpgradeType::BlackBomb => 4,
            UpgradeType::BlueBomb => 7,
            UpgradeType::PurpleBomb => 10,
            UpgradeType::RedBomb => 13,
            UpgradeType::Default => {
                return None;
            },
        };
        Some(Sprite { src: Rectangle::new(FRAMES[k], 96, TILE_SIZE, TILE_SIZE), dst: self.rec2 })
    }

    pub fn get_position(&self) -> (p: Position)
        ensures
            p.0 == tile_index_of(self.rec2.x as int),
            p.1 == tile_index_of(self.rec2.y as int),
    {
        position_of(&self.rec2)
    }
}

} // verus!
