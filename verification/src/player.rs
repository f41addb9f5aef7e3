//! The player: movement, bomb planting, pickups and the life cycle.

use vstd::prelude::*;
use crate::blast::within;
use crate::bomb::Bomb;
use crate::bonus::{Bonus, BonusType, BonusView};
use crate::geometry::{
    advance, on_screen, placed, position_of, shift, shifted, tile_index_of, Position, Rectangle,
    Sprite, ANIM_DURATION, MAX_FRAME, SCALED_TILE, TILE_SIZE,
};
use crate::grid::{fatal_hit, neutral_hit, GameObjs, Grid};
use crate::noise::{BOMB, EMPTY};
use crate::tick::{lemma_plant_wf, put};
use crate::upgrade::{Upgrade, UpgradeType};

verus! {

/// Screen units the player moves per millisecond.
pub const SPEED: i64 = 9;

/// Number of frames of the player's animations.
pub const MAX_PLAYER_FRAME: usize = 4;

/// How far a collision pushes the player back, in screen units.
pub const MARGIN: i64 = 210;

/// Time between two bombs, in milliseconds.
pub const BOMB_RELOAD_TIME: u64 = 1000;

/// Delay of a frame while the player spawns or dies, in milliseconds.
pub const SLOW_DELAY: u64 = 110;

/// How long the player waits before spawning, in milliseconds.
pub const SPAWN_WAIT: u64 = 2000;

pub const LD_Y: i64 = 48;
pub const RT_Y: i64 = 64;
pub const DS_Y: i64 = 80;

pub const COLL_MARGIN_X: i64 = 900;
pub const COLL_MARGIN_Y: i64 = 600;
pub const PLAYER_HEIGHT: i64 = 3900;
pub const PLAYER_WIDTH: i64 = 2700;

/// Where the player faces, or, after a collision, where it may not go.
#[derive(Clone, Copy, Debug, PartialEq, Eq, Structural)]
pub enum DIR {
    Up,
    Down,
    Right,
    Left,
    NotUp,
    NotDown,
    NotRight,
    NotLeft,
}

impl DIR {
    /// A direction turned into its ban and back.
    pub open spec fn flipped(self) -> DIR {
        match self {
            DIR::Down => DIR::NotDown,
            DIR::Up => DIR::NotUp,
            DIR::Left => DIR::NotLeft,
            DIR::Right => DIR::NotRight,
            DIR::NotDown => DIR::Down,
            DIR::NotUp => DIR::Up,
            DIR::NotLeft => DIR::Left,
            DIR::NotRight => DIR::Right,
        }
    }

    pub fn flip(&self) -> (d: DIR)
        ensures
            d == self.flipped(),
    {
        match self {
            DIR::Down => DIR::NotDown,
            DIR::Up => DIR::NotUp,
            DIR::Left => DIR::NotLeft,
            DIR::Right => DIR::NotRight,
            DIR::NotDown => DIR::Down,
            DIR::NotUp => DIR::Up,
            DIR::NotLeft => DIR::Left,
            DIR::NotRight => DIR::Right,
        }
    }
}

/// Life cycle of the player.
#[derive(Clone, Copy, Debug, PartialEq, Eq, Structural)]
pub enum State2 {
    SPAWN,
    SPAWNING,
    ALIVE,
    DYING,
    DEAD,
}

/// Colour the player's sprite is drawn in.
#[derive(Clone, Copy, Debug, PartialEq, Eq, Structural)]
pub enum Tint {
    Red,
    Yellow,
    White,
}

/// The keys that steer the player: the four arrows as held, the bomb key as
/// pressed in this tick.
#[derive(Clone, Copy, Debug, PartialEq, Eq, Structural)]
pub struct Keys {
    pub up: bool,
    pub down: bool,
    pub left: bool,
    pub right: bool,
    pub plant: bool,
}

/// How often each pickup sound is to be played.
#[derive(Clone, Copy, Debug, PartialEq, Eq, Structural)]
pub struct Pickups {
    pub bonus: usize,
    pub upgrade: usize,
}

#[derive(Clone, Copy, Debug, PartialEq, Eq, Structural)]
pub struct Player {
    pub dir: DIR,
    pub weapon: UpgradeType,
    pub lifes: usize,
    pub cash: usize,
    pub silver_coin: usize,
    pub gold_coin: usize,
    pub diamond: usize,
    pub black_bombs: usize,
    pub blue_bombs: usize,
    pub purple_bombs: usize,
    pub red_bombs: usize,
    pub delay_bool: bool,
    pub temp_score: usize,
    pub score: usize,
    pub moving: bool,
    pub tint: Tint,
    pub rec2: Rectangle,
    pub rec_up: Rectangle,
    pub rec_down: Rectangle,
    pub rec_right: Rectangle,
    pub rec_left: Rectangle,
    pub rec_spawn: Rectangle,
    pub rec_death: Rectangle,
    pub rec_shadow: Rectangle,
    pub state: State2,
    pub frames: usize,
    pub time: u64,
    pub delay: u64,
    pub bomb_reload_time: u64,
}

/// Sheet column of frame `k` of the animations that start at the left edge.
pub open spec fn lrd_frame(k: int) -> int {
    16 * k
}

/// Sheet column of frame `k` of the animations that start four tiles in.
pub open spec fn tds_frame(k: int) -> int {
    64 + 16 * k
}

/// The frame on which a standing player rests after frame `k`.
pub open spec fn stand_frame(k: int) -> int {
    if k % 2 == 0 {
        0
    } else {
        3
    }
}

/// `a + b`, held at the largest count where the sum does not fit.
pub open spec fn tally(a: usize, b: int) -> usize {
    if a + b > usize::MAX {
        usize::MAX
    } else {
        (a + b) as usize
    }
}

impl Player {
    pub open spec fn wf(&self) -> bool {
        self.frames < MAX_PLAYER_FRAME
    }

    /// The player as the game starts.
    pub open spec fn fresh() -> Player {
        Player {
            dir: DIR::Down,
            weapon: UpgradeType::Default,
            lifes: 3,
            cash: 0,
            silver_coin: 0,
            gold_coin: 0,
            diamond: 0,
            black_bombs: 0,
            blue_bombs: 0,
            purple_bombs: 0,
            red_bombs: 0,
            delay_bool: true,
            temp_score: 0,
            score: 0,
            moving: false,
            tint: Tint::White,
            rec2: Rectangle {
                x: SCALED_TILE,
                y: SCALED_TILE,
                width: SCALED_TILE,
                height: SCALED_TILE,
            },
            rec_up: Rectangle { x: 0, y: RT_Y, width: TILE_SIZE, height: TILE_SIZE },
            rec_down: Rectangle { x: 64, y: LD_Y, width: TILE_SIZE, height: TILE_SIZE },
            rec_right: Rectangle { x: 0, y: RT_Y, width: TILE_SIZE, height: TILE_SIZE },
            rec_left: Rectangle { x: 64, y: LD_Y, width: TILE_SIZE, height: TILE_SIZE },
            rec_spawn: Rectangle { x: 64, y: DS_Y, width: TILE_SIZE, height: TILE_SIZE },
            rec_death: Rectangle { x: 0, y: DS_Y, width: TILE_SIZE, height: TILE_SIZE },
            rec_shadow: Rectangle { x: 80, y: 32, width: TILE_SIZE, height: TILE_SIZE },
            state: State2::SPAWN,
            frames: 0,
            time: 0,
            delay: SLOW_DELAY,
            bomb_reload_time: BOMB_RELOAD_TIME,
        }
    }

    pub fn new() -> (p: Player)
        ensures
            p == Player::fresh(),
            p.wf(),
    {
        Player {
            dir: DIR::Down,
            weapon: UpgradeType::Default,
            lifes: 3,
            cash: 0,
            silver_coin: 0,
            gold_coin: 0,
            diamond: 0,
            black_bombs: 0,
            blue_bombs: 0,
            purple_bombs: 0,
            red_bombs: 0,
            delay_bool: true,
            temp_score: 0,
            score: 0,
            moving: false,
            tint: Tint::White,
            rec2: Rectangle::new(SCALED_TILE, SCALED_TILE, SCALED_TILE, SCALED_TILE),
            rec_up: Rectangle::new(0, RT_Y, TILE_SIZE, TILE_SIZE),
            rec_down: Rectangle::new(64, LD_Y, TILE_SIZE, TILE_SIZE),
            rec_right: Rectangle::new(0, RT_Y, TILE_SIZE, TILE_SIZE),
            rec_left: Rectangle::new(64, LD_Y, TILE_SIZE, TILE_SIZE),
            rec_spawn: Rectangle::new(64, DS_Y, TILE_SIZE, TILE_SIZE),
            rec_death: Rectangle::new(0, DS_Y, TILE_SIZE, TILE_SIZE),
            rec_shadow: Rectangle::new(80, 32, TILE_SIZE, TILE_SIZE),
            state: State2::SPAWN,
            frames: 0,
            time: 0,
            delay: SLOW_DELAY,
            bomb_reload_time: BOMB_RELOAD_TIME,
        }
    }

    /// The box that collisions are tested with: narrower than the sprite and
    /// set in from its corner.
    pub open spec fn coll_shape(&self) -> Rectangle {
        Rectangle {
            x: shifted(self.rec2.x, COLL_MARGIN_X as int),
            y: shifted(self.rec2.y, COLL_MARGIN_Y as int),
            width: PLAYER_WIDTH,
            height: PLAYER_HEIGHT,
        }
    }

    pub fn get_coll_shape(&self) -> (rec: Rectangle)
        ensures
            rec == self.coll_shape(),
    {
        Rectangle::new(
            shift(self.rec2.x, COLL_MARGIN_X),
            shift(self.rec2.y, COLL_MARGIN_Y),
            PLAYER_WIDTH,
            PLAYER_HEIGHT,
        )
    }

    /// The cell the player stands on.
    pub open spec fn position(&self) -> (int, int) {
        (tile_index_of(self.rec2.x as int), tile_index_of(self.rec2.y as int))
    }

    pub fn get_position(&self) -> (p: Position)
        ensures
            (p.0 as int, p.1 as int) == self.position(),
    {
        position_of(&self.rec2)
    }

    /// The player after `go`. On a collision a player that faces one of the
    /// four ways is pushed back by `MARGIN` and may not go that way again.
    /// Without one, a moving player advances by `SPEED` per millisecond the
    /// way it faces.
    pub open spec fn gone(self, collision: bool, frame_time: u32) -> Player {
        if collision {
            match self.dir {
                DIR::Down => Player {
                    dir: DIR::NotDown,
                    rec2: Rectangle { y: shifted(self.rec2.y, -MARGIN), ..self.rec2 },
                    ..self
                },
                DIR::Up => Player {
                    dir: DIR::NotUp,
                    rec2: Rectangle { y: shifted(self.rec2.y, MARGIN as int), ..self.rec2 },
                    ..self
                },
                DIR::Right => Player {
                    dir: DIR::NotRight,
                    rec2: Rectangle { x: shifted(self.rec2.x, -MARGIN), ..self.rec2 },
                    ..self
                },
                DIR::Left => Player {
                    dir: DIR::NotLeft,
                    rec2: Rectangle { x: shifted(self.rec2.x, MARGIN as int), ..self.rec2 },
                    ..self
                },
                _ => self,
            }
        } else if self.moving {
            match self.dir {
                DIR::Down => Player {
                    rec2: Rectangle { y: shifted(self.rec2.y, SPEED * frame_time), ..self.rec2 },
                    ..self
                },
                DIR::Up => Player {
                    rec2: Rectangle { y: shifted(self.rec2.y, -SPEED * frame_time), ..self.rec2 },
                    ..self
                },
                DIR::Right => Player {
                    rec2: Rectangle { x: shifted(self.rec2.x, SPEED * frame_time), ..self.rec2 },
                    ..self
                },
                DIR::Left => Player {
                    rec2: Rectangle { x: shifted(self.rec2.x, -SPEED * frame_time), ..self.rec2 },
                    ..self
                },
                _ => self,
            }
        } else {
            self
        }
    }

    pub fn go(&mut self, collision: bool, frame_time: u32)
        ensures
            *final(self) == old(self).gone(collision, frame_time),
    {
        let step: i64 = SPEED * (frame_time as i64);
        if collision {
            match self.dir {
                DIR::Down => {
                    self.dir = self.dir.flip();
                    self.rec2.y = shift(self.rec2.y, -MARGIN);
                },
                DIR::Up => {
                    self.dir = self.dir.flip();
                    self.rec2.y = shift(self.rec2.y, MARGIN);
                },
                DIR::Right => {
                    self.dir = self.dir.flip();
                    self.rec2.x = shift(self.rec2.x, -MARGIN);
                },
                DIR::Left => {
                    self.dir = self.dir.flip();
                    self.rec2.x = shift(self.rec2.x, MARGIN);
                },
                _ => {},
            }
        } else if self.moving {
            match self.dir {
                DIR::Down => {
                    self.rec2.y = shift(self.rec2.y, step);
                },
                DIR::Up => {
                    self.rec2.y = shift(self.rec2.y, -step);
                },
                DIR::Right => {
                    self.rec2.x = shift(self.rec2.x, step);
                },
                DIR::Left => {
                    self.rec2.x = shift(self.rec2.x, -step);
                },
                _ => {},
            }
        }
    }

    /// A bomb can be planted: the player's cell is empty and the last bomb
    /// is long enough ago.
    pub open spec fn can_plant(&self, cells: Seq<Seq<i8>>) -> bool {
        cells[self.position().0][self.position().1] == EMPTY && self.bomb_reload_time
            >= BOMB_RELOAD_TIME
    }

    /// The bomb that the player plants on cell `(i, j)`.
    pub open spec fn planted(i: usize, j: usize) -> Bomb {
        Bomb { rec2: placed(Bomb::fresh().rec2, i, j), ..Bomb::fresh() }
    }

    /// Plants a bomb on the player's cell, where one can be planted: the
    /// cell then holds `BOMB` and a fresh bomb, and the reload time starts
    /// again. Otherwise nothing changes.
    pub fn plant_bomb(&mut self, grid: &mut Grid)
        requires
            within(old(grid).codes(), old(self).position().0, old(self).position().1),
            within(old(grid).entities(), old(self).position().0, old(self).position().1),
            on_screen(old(self).position().0 as usize, old(self).position().1 as usize),
        ensures
            old(grid).wf() ==> final(grid).wf(),
            ({
                let (i, j) = old(self).position();
                if old(self).can_plant(old(grid).codes()) {
                    &&& *final(self) == (Player { bomb_reload_time: 0, ..*old(self) })
                    &&& final(grid).codes() == put(old(grid).codes(), i, j, BOMB)
                    &&& final(grid).entities() == put(
                        old(grid).entities(),
                        i,
                        j,
                        GameObjs::Bomb(Player::planted(i as usize, j as usize)),
                    )
                } else {
                    &&& *final(self) == *old(self)
                    &&& final(grid).codes() == old(grid).codes()
                    &&& final(grid).entities() == old(grid).entities()
                }
            }),
            final(grid).same_lists(old(grid)),
    {
        let (i, j) = self.get_position();
        if grid.code(i, j) != EMPTY || self.bomb_reload_time < BOMB_RELOAD_TIME {
            return ;
        }
        let mut new_bomb = Bomb::new();
        new_bomb.set_position(i, j);
        self.bomb_reload_time = 0;
        grid.set_code(i, j, BOMB);
        grid.set_obj(i, j, GameObjs::Bomb(new_bomb));
        proof {
            if old(grid).wf() {
                lemma_plant_wf(old(grid).board(), i as int, j as int, new_bomb);
            }
        }
    }

    /// The time since the last bomb, one tick later: it runs until it has
    /// passed `BOMB_RELOAD_TIME`.
    pub open spec fn reloaded(self, frame_time: u32) -> Player {
        if self.bomb_reload_time <= BOMB_RELOAD_TIME {
            Player {
                bomb_reload_time: (self.bomb_reload_time + frame_time) as u64,
                ..self
            }
        } else {
            self
        }
    }

    pub fn bomb_reload(&mut self, frame_time: u32)
        ensures
            *final(self) == old(self).reloaded(frame_time),
    {
        if self.bomb_reload_time <= BOMB_RELOAD_TIME {
            self.bomb_reload_time = self.bomb_reload_time + (frame_time as u64);
        }
    }

    /// The score one tick later: every other tick one point moves from the
    /// points that wait to the points that show.
    pub open spec fn scored(self) -> Player {
        if self.temp_score > 0 && self.delay_bool {
            Player {
                score: tally(self.score, 1),
                temp_score: (self.temp_score - 1) as usize,
                delay_bool: false,
                ..self
            }
        } else {
            Player { delay_bool: !self.delay_bool, ..self }
        }
    }

    pub fn update_score(&mut self)
        ensures
            *final(self) == old(self).scored(),
    {
        if self.temp_score > 0 && self.delay_bool {
            self.score = self.score.saturating_add(1);
            self.temp_score -= 1;
        }
        self.delay_bool = !self.delay_bool;
    }
}

/// The screen rectangle `rec` starts on the cell `pos`.
pub open spec fn at_cell(rec: Rectangle, pos: (int, int)) -> bool {
    tile_index_of(rec.x as int) == pos.0 && tile_index_of(rec.y as int) == pos.1
}

/// The bonuses of a list as plain values.
pub open spec fn bonus_views(list: Vec<Bonus>) -> Seq<BonusView> {
    Seq::new(list.len() as nat, |k: int| list[k]@)
}

/// The upgrades after those among the first `k` that lie on `pos` were
/// taken.
pub open spec fn marked_upgrades(list: Seq<Upgrade>, pos: (int, int), k: int) -> Seq<Upgrade> {
    Seq::new(
        list.len(),
        |m: int|
            if m < k && at_cell(list[m].rec2, pos) {
                Upgrade { up_type: UpgradeType::Default, ..list[m] }
            } else {
                list[m]
            },
    )
}

/// The bonuses after those among the first `k` that lie on `pos` were taken.
pub open spec fn marked_bonuses(list: Seq<BonusView>, pos: (int, int), k: int) -> Seq<BonusView> {
    Seq::new(
        list.len(),
        |m: int|
            if m < k && at_cell(list[m].rec2, pos) {
                BonusView { bonus_type: BonusType::Default, ..list[m] }
            } else {
                list[m]
            },
    )
}

/// How many of the first `k` upgrades lie on `pos` and are still there.
pub open spec fn upgrade_rings(list: Seq<Upgrade>, pos: (int, int), k: int) -> nat
    decreases k,
{
    if k <= 0 {
        0
    } else {
        upgrade_rings(list, pos, k - 1) + if at_cell(list[k - 1].rec2, pos) && list[k
            - 1].up_type != UpgradeType::Default {
            1nat
        } else {
            0nat
        }
    }
}

/// How many of the first `k` bonuses lie on `pos` and are still there.
pub open spec fn bonus_rings(list: Seq<BonusView>, pos: (int, int), k: int) -> nat
    decreases k,
{
    if k <= 0 {
        0
    } else {
        bonus_rings(list, pos, k - 1) + if at_cell(list[k - 1].rec2, pos) && list[k
            - 1].bonus_type != BonusType::Default {
            1nat
        } else {
            0nat
        }
    }
}

impl Player {
    /// The player with an upgrade added to its stock.
    pub open spec fn with_upgrade(self, upgrade: Upgrade) -> Player {
        match upgrade.up_type {
            UpgradeType::BlackBomb => Player {
                black_bombs: tally(self.black_bombs, upgrade.val as int),
                ..self
            },
            UpgradeType::BlueBomb => Player {
                blue_bombs: tally(self.blue_bombs, upgrade.val as int),
                ..self
            },
            UpgradeType::PurpleBomb => Player {
                purple_bombs: tally(self.purple_bombs, upgrade.val as int),
                ..self
            },
            UpgradeType::RedBomb => Player {
                red_bombs: tally(self.red_bombs, upgrade.val as int),
                ..self
            },
            UpgradeType::Default => self,
        }
    }

    /// The player with a bonus added: a heart gives lives, the others count
    /// one of their kind and add their worth to the points that wait.
    pub open spec fn with_bonus(self, kind: BonusType, val: usize) -> Player {
        match kind {
            BonusType::Heart => Player { lifes: tally(self.lifes, val as int), ..self },
            BonusType::Cash => Player {
                cash: tally(self.cash, 1),
                temp_score: tally(self.temp_score, val as int),
                ..self
            },
            BonusType::SilverCoin => Player {
                silver_coin: tally(self.silver_coin, 1),
                temp_score: tally(self.temp_score, val as int),
                ..self
            },
            BonusType::GoldCoin => Player {
                gold_coin: tally(self.gold_coin, 1),
                temp_score: tally(self.temp_score, val as int),
                ..self
            },
            BonusType::Diamond => Player {
                diamond: tally(self.diamond, 1),
                temp_score: tally(self.temp_score, val as int),
                ..self
            },
            BonusType::Default => self,
        }
    }

    /// The player after it took those of the first `k` upgrades that lie on
    /// its cell.
    pub open spec fn took_upgrades(self, list: Seq<Upgrade>, k: int) -> Player
        decreases k,
    {
        if k <= 0 {
            self
        } else {
            let before = self.took_upgrades(list, k - 1);
            if at_cell(list[k - 1].rec2, self.position()) {
                before.with_upgrade(list[k - 1])
            } else {
                before
            }
        }
    }

    /// The player after it took those of the first `k` bonuses that lie on
    /// its cell.
    pub open spec fn took_bonuses(self, list: Seq<BonusView>, k: int) -> Player
        decreases k,
    {
        if k <= 0 {
            self
        } else {
            let before = self.took_bonuses(list, k - 1);
            if at_cell(list[k - 1].rec2, self.position()) {
                before.with_bonus(list[k - 1].bonus_type, list[k - 1].val)
            } else {
                before
            }
        }
    }

    fn add_upgrade(&mut self, upgrade: Upgrade) -> (ring: bool)
        ensures
            *final(self) == old(self).with_upgrade(upgrade),
            ring == (upgrade.up_type != UpgradeType::Default),
    {
        match upgrade.up_type {
            UpgradeType::BlackBomb => {
                self.black_bombs = self.black_bombs.saturating_add(upgrade.val);
                true
            },
            UpgradeType::BlueBomb => {
                self.blue_bombs = self.blue_bombs.saturating_add(upgrade.val);
                true
            },
            UpgradeType::PurpleBomb => {
                self.purple_bombs = self.purple_bombs.saturating_add(upgrade.val);
                true
            },
            UpgradeType::RedBomb => {
                self.red_bombs = self.red_bombs.saturating_add(upgrade.val);
                true
            },
            UpgradeType::Default => false,
        }
    }

    fn add_bonus(&mut self, kind: BonusType, val: usize) -> (ring: bool)
        ensures
            *final(self) == old(self).with_bonus(kind, val),
            ring == (kind != BonusType::Default),
    {
        match kind {
            BonusType::Heart => {
                self.lifes = self.lifes.saturating_add(val);
                true
            },
            BonusType::Cash => {
                self.cash = self.cash.saturating_add(1);
                self.temp_score = self.temp_score.saturating_add(val);
                true
            },
            BonusType::SilverCoin => {
                self.silver_coin = self.silver_coin.saturating_add(1);
                self.temp_score = self.temp_score.saturating_add(val);
                true
            },
            BonusType::GoldCoin => {
                self.gold_coin = self.gold_coin.saturating_add(1);
                self.temp_score = self.temp_score.saturating_add(val);
                true
            },
            BonusType::Diamond => {
                self.diamond = self.diamond.saturating_add(1);
                self.temp_score = self.temp_score.saturating_add(val);
                true
            },
            BonusType::Default => false,
        }
    }

    /// Takes every upgrade and every bonus that lies on the player's cell,
    /// upgrades first, each list in order: the player gets what they give
    /// and they are marked as taken. The result says how often each pickup
    /// sound is to be played: once for each that was still there.
    pub fn take(&mut self, grid: &mut Grid) -> (rings: Pickups)
        ensures
            *final(self) == old(self).took_upgrades(
                old(grid).upgrade_vec@,
                old(grid).upgrade_vec.len() as int,
            ).took_bonuses(bonus_views(old(grid).bonus_vec), old(grid).bonus_vec.len() as int),
            final(grid).upgrade_vec@ == marked_upgrades(
                old(grid).upgrade_vec@,
                old(self).position(),
                old(grid).upgrade_vec.len() as int,
            ),
            bonus_views(final(grid).bonus_vec) == marked_bonuses(
                bonus_views(old(grid).bonus_vec),
                old(self).position(),
                old(grid).bonus_vec.len() as int,
            ),
            rings.upgrade == upgrade_rings(
                old(grid).upgrade_vec@,
                old(self).position(),
                old(grid).upgrade_vec.len() as int,
            ),
            rings.bonus == bonus_rings(
                bonus_views(old(grid).bonus_vec),
                old(self).position(),
                old(grid).bonus_vec.len() as int,
            ),
            final(grid).cells == old(grid).cells,
            final(grid).game_objs == old(grid).game_objs,
            final(grid).empty_vec == old(grid).empty_vec,
            final(grid).grass_vec == old(grid).grass_vec,
            old(grid).wf() ==> final(grid).wf(),
            final(self).rec2 == old(self).rec2,
            final(self).frames == old(self).frames,
            final(self).state == old(self).state,
    {
        let p_pos = self.get_position();
        let ghost pos = self.position();
        let ghost ups = grid.upgrade_vec@;
        let ghost bons = bonus_views(grid.bonus_vec);
        let mut rings = Pickups { bonus: 0, upgrade: 0 };
        let n = grid.upgrade_vec.len();
        let mut i: usize = 0;
        while i < n
            invariant
                i <= n,
                n == ups.len(),
                ups == old(grid).upgrade_vec@,
                pos == old(self).position(),
                (p_pos.0 as int, p_pos.1 as int) == pos,
                *self == old(self).took_upgrades(ups, i as int),
                self.rec2 == old(self).rec2,
                self.frames == old(self).frames,
                self.state == old(self).state,
                grid.upgrade_vec@ == marked_upgrades(ups, pos, i as int),
                rings.upgrade == upgrade_rings(ups, pos, i as int),
                rings.upgrade <= i,
                rings.bonus == 0,
                grid.cells == old(grid).cells,
                grid.game_objs == old(grid).game_objs,
                grid.empty_vec == old(grid).empty_vec,
                grid.grass_vec == old(grid).grass_vec,
                grid.bonus_vec == old(grid).bonus_vec,
            decreases n - i,
        {
            let upgrade = grid.upgrade_vec[i];
            let u_pos = upgrade.get_position();
            if p_pos.0 == u_pos.0 && p_pos.1 == u_pos.1 {
                if self.add_upgrade(upgrade) {
                    rings.upgrade += 1;
                }
                grid.rm_upgrade_obj(i);
            }
            i += 1;
        }
        let ghost mid = *self;
        let m = grid.bonus_vec.len();
        let mut k: usize = 0;
        while k < m
            invariant
                k <= m,
                m == bons.len(),
                m == grid.bonus_vec.len(),
                bons == bonus_views(old(grid).bonus_vec),
                pos == old(self).position(),
                pos == mid.position(),
                (p_pos.0 as int, p_pos.1 as int) == pos,
                *self == mid.took_bonuses(bons, k as int),
                self.rec2 == old(self).rec2,
                self.frames == old(self).frames,
                self.state == old(self).state,
                bonus_views(grid.bonus_vec) == marked_bonuses(bons, pos, k as int),
                rings.bonus == bonus_rings(bons, pos, k as int),
                rings.bonus <= k,
                rings.upgrade == upgrade_rings(ups, pos, ups.len() as int),
                grid.upgrade_vec@ == marked_upgrades(ups, pos, ups.len() as int),
                grid.cells == old(grid).cells,
                grid.game_objs == old(grid).game_objs,
                grid.empty_vec == old(grid).empty_vec,
                grid.grass_vec == old(grid).grass_vec,
            decreases m - k,
        {
            let ghost before = bonus_views(grid.bonus_vec);
            assert(before[k as int] == grid.bonus_vec[k as int]@);
            let b_pos = grid.bonus_vec[k].get_position();
            if p_pos.0 == b_pos.0 && p_pos.1 == b_pos.1 {
                let kind = grid.bonus_vec[k].bonus_type;
                let val = grid.bonus_vec[k].val;
                if self.add_bonus(kind, val) {
                    rings.bonus += 1;
                }
                grid.rm_bonus_obj(k);
            }
            proof {
                let now = bonus_views(grid.bonus_vec);
                let want = marked_bonuses(bons, pos, k + 1);
                assert forall|x: int| 0 <= x < want.len() implies #[trigger] now[x] == want[x] by {
                    assert(before[x] == marked_bonuses(bons, pos, k as int)[x]);
                }
            }
            k += 1;
        }
        proof {
            if old(grid).wf() {
                let now = bonus_views(grid.bonus_vec);
                assert forall|x: int| 0 <= x < grid.bonus_vec.len() implies (
                #[trigger] grid.bonus_vec[x])@.wf() by {
                    assert(now[x] == grid.bonus_vec[x]@);
                }
            }
        }
        rings
    }

    /// The sheet column of frame `k` for a player that faces `dir`.
    pub open spec fn walk_frame(dir: DIR, k: int) -> int {
        match dir {
            DIR::Right | DIR::Left => lrd_frame(k),
            _ => tds_frame(k),
        }
    }

    /// The player with the sprite of the way it faces set to the sheet
    /// column `x`.
    pub open spec fn faced(self, x: i64) -> Player {
        match self.dir {
            DIR::Up => Player { rec_up: Rectangle { x, ..self.rec_up }, ..self },
            DIR::Right => Player { rec_right: Rectangle { x, ..self.rec_right }, ..self },
            DIR::Left => Player { rec_left: Rectangle { x, ..self.rec_left }, ..self },
            _ => Player { rec_down: Rectangle { x, ..self.rec_down }, ..self },
        }
    }

    /// The player with the sprite of its state set up: a dying player
    /// flickers red and yellow, a spawning one is white.
    pub open spec fn posed(self) -> Player {
        match self.state {
            State2::DYING => Player {
                rec_death: Rectangle { x: lrd_frame(self.frames as int) as i64, ..self.rec_death },
                tint: if self.frames % 2 == 0 {
                    Tint::Red
                } else {
                    Tint::Yellow
                },
                ..self
            },
            State2::SPAWNING => Player {
                rec_spawn: Rectangle { x: tds_frame(self.frames as int) as i64, ..self.rec_spawn },
                tint: Tint::White,
                ..self
            },
            _ => self,
        }
    }

    /// The player with its clock advanced: unless it is dead, a frame shown
    /// for longer than `ANIM_DURATION` and the player's delay gives way to
    /// the next, cyclically.
    pub open spec fn clocked(self, frame_time: u32) -> Player {
        let due = self.time > ANIM_DURATION + self.delay && self.state != State2::DEAD;
        let shown = if due { self.frames + 1 } else { self.frames as int };
        let base: int = if due { 0 } else { self.time as int };
        Player {
            frames: (shown % (MAX_PLAYER_FRAME as int)) as usize,
            time: if base + frame_time > u64::MAX {
                u64::MAX
            } else {
                (base + frame_time) as u64
            },
            ..self
        }
    }

    /// The living player with the sprite of the way it faces moved on: a
    /// moving player shows its frame, a standing one rests on a stand frame.
    pub open spec fn stepped(self) -> Player {
        if self.state == State2::ALIVE {
            if self.moving {
                self.faced(Player::walk_frame(self.dir, self.frames as int) as i64)
            } else {
                let frames = stand_frame(self.frames as int) as usize;
                (Player { frames, ..self }).faced(
                    Player::walk_frame(self.dir, frames as int) as i64,
                )
            }
        } else {
            self
        }
    }

    /// The player one step of its animation later.
    pub open spec fn animated(self, frame_time: u32) -> Player {
        self.posed().clocked(frame_time).stepped()
    }

    fn face(&mut self, x: i64)
        ensures
            *final(self) == old(self).faced(x),
    {
        match self.dir {
            DIR::Up => {
                self.rec_up.x = x;
            },
            DIR::Right => {
                self.rec_right.x = x;
            },
            DIR::Left => {
                self.rec_left.x = x;
            },
            _ => {
                self.rec_down.x = x;
            },
        }
    }

    fn frame_column(dir: DIR, k: usize) -> (x: i64)
        requires
            k < MAX_PLAYER_FRAME,
        ensures
            x == Player::walk_frame(dir, k as int),
    {
        match dir {
            DIR::Right | DIR::Left => 16 * (k as i64),
            _ => 64 + 16 * (k as i64),
        }
    }

    pub fn animate(&mut self, frame_time: u32)
        requires
            old(self).wf(),
        ensures
            *final(self) == old(self).animated(frame_time),
            final(self).wf(),
    {
        match self.state {
            State2::DYING => {
                self.rec_death.x = 16 * (self.frames as i64);
                self.tint = if self.frames % 2 == 0 {
                    Tint::Red
                } else {
                    Tint::Yellow
                };
            },
            State2::SPAWNING => {
                self.tint = Tint::White;
                self.rec_spawn.x = 64 + 16 * (self.frames as i64);
            },
            _ => {},
        }
        if self.time > ANIM_DURATION.saturating_add(self.delay) && self.state != State2::DEAD {
            self.time = 0;
            self.frames += 1;
        }
        self.time = advance(self.time, frame_time);
        self.frames = self.frames % MAX_PLAYER_FRAME;
        if self.state == State2::ALIVE {
            if !self.moving {
                self.frames = if self.frames % 2 == 0 {
                    0
                } else {
                    3
                };
            }
            let x = Self::frame_column(self.dir, self.frames);
            self.face(x);
        }
    }

    /// The player's life cycle one tick later, where `fatal` says whether it
    /// touches a blast. A waiting player spawns after `SPAWN_WAIT`. A
    /// spawning player lives once its animation has run. A living player
    /// that touches a blast loses a life and dies. A dying player whose
    /// animation has run is dead if it has no life left, and waits to spawn
    /// again if it has.
    pub open spec fn cycled(self, fatal: bool, frame_time: u32) -> Player {
        match self.state {
            State2::SPAWN => {
                let waited: u64 = if self.delay + frame_time > u64::MAX {
                    u64::MAX
                } else {
                    (self.delay + frame_time) as u64
                };
                if waited > SPAWN_WAIT {
                    Player { delay: SLOW_DELAY, state: State2::SPAWNING, ..self }
                } else {
                    Player { delay: waited, ..self }
                }
            },
            State2::SPAWNING => if self.frames >= MAX_FRAME {
                Player { state: State2::ALIVE, dir: DIR::Down, frames: 0, delay: 0, ..self }
            } else {
                self
            },
            State2::ALIVE => if fatal {
                Player {
                    lifes: if self.lifes > 0 {
                        (self.lifes - 1) as usize
                    } else {
                        0
                    },
                    state: State2::DYING,
                    delay: SLOW_DELAY,
                    frames: 0,
                    ..self
                }
            } else {
                self
            },
            State2::DYING => if self.frames >= MAX_FRAME {
                if self.lifes == 0 {
                    Player { state: State2::DEAD, ..self }
                } else {
                    Player {
                        frames: 0,
                        delay: 0,
                        state: State2::SPAWN,
                        tint: Tint::White,
                        ..self
                    }
                }
            } else {
                self
            },
            State2::DEAD => self,
        }
    }

    pub fn update_state(&mut self, grid: &Grid, frame_time: u32)
        requires
            within(grid.codes(), old(self).position().0, old(self).position().1 + 1),
            within(grid.codes(), old(self).position().0 + 1, old(self).position().1 + 1),
        ensures
            *final(self) == old(self).cycled(
                fatal_hit(
                    grid.codes(),
                    old(self).position().0,
                    old(self).position().1,
                    old(self).coll_shape(),
                ),
                frame_time,
            ),
            old(self).wf() ==> final(self).wf(),
    {
        let position = self.get_position();
        let obj_rec = self.get_coll_shape();
        let fatal_coll = grid.get_collisions(position, obj_rec).0;
        match self.state {
            State2::SPAWN => {
                self.delay = advance(self.delay, frame_time);
                if self.delay > SPAWN_WAIT {
                    self.delay = SLOW_DELAY;
                    self.state = State2::SPAWNING;
                }
            },
            State2::SPAWNING => {
                if self.frames >= MAX_FRAME {
                    self.state = State2::ALIVE;
                    self.dir = DIR::Down;
                    self.frames = 0;
                    self.delay = 0;
                }
            },
            State2::ALIVE => {
                if fatal_coll {
                    self.lifes = self.lifes.saturating_sub(1);
                    self.state = State2::DYING;
                    self.delay = SLOW_DELAY;
                    self.frames = 0;
                }
            },
            State2::DYING => {
                if self.frames >= MAX_FRAME {
                    if self.lifes == 0 {
                        self.state = State2::DEAD;
                    } else {
                        self.frames = 0;
                        self.delay = 0;
                        self.state = State2::SPAWN;
                        self.tint = Tint::White;
                    }
                }
            },
            _ => {},
        }
    }

    /// The way an arrow key turns a living player, if one is held that the
    /// player may follow. Up goes before down, down before left, left before
    /// right.
    pub open spec fn turn(self, keys: Keys) -> Option<DIR> {
        if keys.up && self.dir != DIR::NotUp {
            Some(DIR::Up)
        } else if keys.down && self.dir != DIR::NotDown {
            Some(DIR::Down)
        } else if keys.left && self.dir != DIR::NotLeft {
            Some(DIR::Left)
        } else if keys.right && self.dir != DIR::NotRight {
            Some(DIR::Right)
        } else {
            None
        }
    }

    /// The keys make the player plant a bomb: it lives, follows no arrow
    /// and the bomb key was pressed.
    pub open spec fn plants(self, keys: Keys) -> bool {
        self.state == State2::ALIVE && self.turn(keys) is None && keys.plant
    }

    /// The player after the keys were obeyed, where `neutral` says whether
    /// it touches terrain and `may_plant` whether a bomb can be planted. A
    /// living player turns to the arrow it follows and goes; without an
    /// arrow it stands, and plants a bomb if the key was pressed.
    pub open spec fn steered(self, keys: Keys, neutral: bool, may_plant: bool, frame_time: u32)
        -> Player {
        if self.state == State2::ALIVE {
            match self.turn(keys) {
                Some(dir) => (Player { dir, moving: true, ..self }).gone(neutral, frame_time),
                None => Player {
                    moving: false,
                    bomb_reload_time: if keys.plant && may_plant {
                        0
                    } else {
                        self.bomb_reload_time
                    },
                    ..self
                },
            }
        } else {
            self
        }
    }

    fn turn_for(&self, keys: Keys) -> (dir: Option<DIR>)
        ensures
            dir == self.turn(keys),
    {
        if keys.up && self.dir != DIR::NotUp {
            Some(DIR::Up)
        } else if keys.down && self.dir != DIR::NotDown {
            Some(DIR::Down)
        } else if keys.left && self.dir != DIR::NotLeft {
            Some(DIR::Left)
        } else if keys.right && self.dir != DIR::NotRight {
            Some(DIR::Right)
        } else {
            None
        }
    }

    /// Obeys the keys: a living player turns and goes, or stands and plants
    /// a bomb.
    pub fn control(&mut self, keys: Keys, frame_time: u32, grid: &mut Grid)
        requires
            within(old(grid).codes(), old(self).position().0, old(self).position().1 + 1),
            within(old(grid).codes(), old(self).position().0 + 1, old(self).position().1 + 1),
            within(old(grid).entities(), old(self).position().0, old(self).position().1),
            on_screen(old(self).position().0 as usize, old(self).position().1 as usize),
        ensures
            ({
                let (i, j) = old(self).position();
                let neutral = neutral_hit(old(grid).codes(), i, j, old(self).coll_shape());
                let may_plant = old(self).can_plant(old(grid).codes());
                &&& *final(self) == old(self).steered(keys, neutral, may_plant, frame_time)
                &&& if old(self).plants(keys) && may_plant {
                    &&& final(grid).codes() == put(old(grid).codes(), i, j, BOMB)
                    &&& final(grid).entities() == put(
                        old(grid).entities(),
                        i,
                        j,
                        GameObjs::Bomb(Player::planted(i as usize, j as usize)),
                    )
                } else {
                    &&& final(grid).codes() == old(grid).codes()
                    &&& final(grid).entities() == old(grid).entities()
                }
            }),
            final(grid).same_lists(old(grid)),
            old(grid).wf() ==> final(grid).wf(),
            old(self).wf() ==> final(self).wf(),
    {
        let obj_rec = self.get_coll_shape();
        let position = self.get_position();
        let neutral_coll = grid.get_collisions(position, obj_rec).1;
        match self.state {
            State2::ALIVE => {
                match self.turn_for(keys) {
                    Some(dir) => {
                        self.dir = dir;
                        self.moving = true;
                        self.go(neutral_coll, frame_time);
                    },
                    None => {
                        self.moving = false;
                        if keys.plant {
                            self.plant_bomb(grid);
                        }
                    },
                }
            },
            _ => {},
        }
    }

    /// The player after one tick on a grid with the codes `cells`, the
    /// upgrades `upgrades` and the bonuses `bonuses`: it takes what lies on
    /// its cell, its score moves on, then its life cycle, then it obeys the
    /// keys, its reload time runs and its animation moves on.
    pub open spec fn updated(
        self,
        keys: Keys,
        cells: Seq<Seq<i8>>,
        upgrades: Seq<Upgrade>,
        bonuses: Seq<BonusView>,
        frame_time: u32,
    ) -> Player {
        let (i, j) = self.position();
        let scored = self.took_upgrades(upgrades, upgrades.len() as int).took_bonuses(
            bonuses,
            bonuses.len() as int,
        ).scored();
        let cycled = scored.cycled(fatal_hit(cells, i, j, self.coll_shape()), frame_time);
        cycled.steered(
            keys,
            neutral_hit(cells, i, j, self.coll_shape()),
            cycled.can_plant(cells),
            frame_time,
        ).reloaded(frame_time).animated(frame_time)
    }

    /// The player plants a bomb in the tick that `updated` describes.
    pub open spec fn plants_in_tick(
        self,
        keys: Keys,
        cells: Seq<Seq<i8>>,
        upgrades: Seq<Upgrade>,
        bonuses: Seq<BonusView>,
        frame_time: u32,
    ) -> bool {
        let (i, j) = self.position();
        let scored = self.took_upgrades(upgrades, upgrades.len() as int).took_bonuses(
            bonuses,
            bonuses.len() as int,
        ).scored();
        let cycled = scored.cycled(fatal_hit(cells, i, j, self.coll_shape()), frame_time);
        cycled.plants(keys) && cycled.can_plant(cells)
    }

    /// Advances the player by one tick. The result says how often each
    /// pickup sound is to be played.
    pub fn update(&mut self, keys: Keys, grid: &mut Grid, frame_time: u32) -> (rings: Pickups)
        requires
            old(self).wf(),
            within(old(grid).codes(), old(self).position().0, old(self).position().1 + 1),
            within(old(grid).codes(), old(self).position().0 + 1, old(self).position().1 + 1),
            within(old(grid).entities(), old(self).position().0, old(self).position().1),
            on_screen(old(self).position().0 as usize, old(self).position().1 as usize),
        ensures
            final(self).wf(),
            old(grid).wf() ==> final(grid).wf(),
            ({
                let (i, j) = old(self).position();
                let cells = old(grid).codes();
                let upgrades = old(grid).upgrade_vec@;
                let bonuses = bonus_views(old(grid).bonus_vec);
                &&& *final(self) == old(self).updated(keys, cells, upgrades, bonuses, frame_time)
                &&& final(grid).upgrade_vec@ == marked_upgrades(
                    upgrades,
                    (i, j),
                    upgrades.len() as int,
                )
                &&& bonus_views(final(grid).bonus_vec) == marked_bonuses(
                    bonuses,
                    (i, j),
                    bonuses.len() as int,
                )
                &&& rings.upgrade == upgrade_rings(upgrades, (i, j), upgrades.len() as int)
                &&& rings.bonus == bonus_rings(bonuses, (i, j), bonuses.len() as int)
                &&& if old(self).plants_in_tick(keys, cells, upgrades, bonuses, frame_time) {
                    &&& final(grid).codes() == put(cells, i, j, BOMB)
                    &&& final(grid).entities() == put(
                        old(grid).entities(),
                        i,
                        j,
                        GameObjs::Bomb(Player::planted(i as usize, j as usize)),
                    )
                } else {
                    &&& final(grid).codes() == cells
                    &&& final(grid).entities() == old(grid).entities()
                }
            }),
            final(grid).empty_vec == old(grid).empty_vec,
            final(grid).grass_vec == old(grid).grass_vec,
    {
        let rings = self.take(grid);
        self.update_score();
        self.update_state(grid, frame_time);
        self.control(keys, frame_time, grid);
        self.bomb_reload(frame_time);
        self.animate(frame_time);
        rings
    }

    /// What to blit for the player, in order: a living player has its shadow
    /// and the sprite of the way it faces, a spawning or dying one the
    /// sprite of its state, any other nothing.
    pub open spec fn sprites(&self) -> Seq<Sprite> {
        match self.state {
            State2::ALIVE => seq![
                Sprite { src: self.rec_shadow, dst: self.rec2 },
                Sprite {
                    src: match self.dir {
                        DIR::Down | DIR::NotDown => self.rec_down,
                        DIR::Up | DIR::NotUp => self.rec_up,
                        DIR::Right | DIR::NotRight => self.rec_right,
                        DIR::Left | DIR::NotLeft => self.rec_left,
                    },
                    dst: self.rec2,
                },
            ],
            State2::SPAWNING => seq![Sprite { src: self.rec_spawn, dst: self.rec2 }],
            State2::DYING => seq![Sprite { src: self.rec_death, dst: self.rec2 }],
            _ => seq![],
        }
    }

    pub fn draw(&self) -> (list: Vec<Sprite>)
        ensures
            list@ == self.sprites(),
    {
        let mut list: Vec<Sprite> = Vec::new();
        match self.state {
            State2::ALIVE => {
                list.push(Sprite { src: self.rec_shadow, dst: self.rec2 });
                let src = match self.dir {
                    DIR::Down | DIR::NotDown => self.rec_down,
                    DIR::Up | DIR::NotUp => self.rec_up,
                    DIR::Right | DIR::NotRight => self.rec_right,
                    DIR::Left | DIR::NotLeft => self.rec_left,
                };
                list.push(Sprite { src, dst: self.rec2 });
            },
            State2::SPAWNING => {
                list.push(Sprite { src: self.rec_spawn, dst: self.rec2 });
            },
            State2::DYING => {
                list.push(Sprite { src: self.rec_death, dst: self.rec2 });
            },
            _ => {},
        }
        list
    }
}

} // verus!
