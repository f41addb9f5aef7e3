//! The game around the grid and the player: its states, its banners and
//! the score line.

use vstd::prelude::*;
use crate::blast::{same_shape, within};
use crate::bonus::{Bonus, BonusType, BonusView};
use crate::geometry::{
    advance, on_screen, pixel_of, shift, shifted, to_pixel, Position, Rectangle, Sprite,
    ANIM_DURATION, MAX_FRAME, SCALE, SCALED_TILE, TILE_SIZE,
};
use crate::grid::{GameObjs, Grid};
use crate::noise::{sample_rows, terrain, BOMB};

use crate::player::{
    bonus_rings, bonus_views, marked_bonuses, marked_upgrades, upgrade_rings, Keys, Pickups,
    Player, State2, Tint,
};
use crate::render::{
    all_on_screen, blocks_first, bonus_draws, grass_draws, ground_draws, laid, not_block,
    object_draws, shown_upto, upgrade_draws, Draw,
};
use crate::setup::{built_from, scan, COLS, ROWS};
use crate::tick::{put, Board};
use crate::upgrade::{Label, TEXT_SIZE};

verus! {

/// Time one frame of the countdown banner is shown, in milliseconds.
pub const COUNT_DURATION: u64 = 350;

#[derive(Clone, Copy, Debug, PartialEq, Eq, Structural)]
pub enum GameState {
    STARTING,
    RUNNING,
    PAUSED,
    GAMEOVER,
}

/// The three banners that are shown over the grid.
#[derive(Clone, Copy, Debug, PartialEq, Eq, Structural)]
pub enum BannerKind {
    GameOver,
    Paused,
    CountDown,
}

/// What the keys ask of the game: pause and restart as pressed in this
/// tick, the menu key as held.
#[derive(Clone, Copy, Debug, PartialEq, Eq, Structural)]
pub struct Commands {
    pub pause: bool,
    pub menu: bool,
    pub restart: bool,
}

/// What one frame puts on screen, part by part in the order of drawing. The
/// player's sprites are drawn in the colour `tint`.
pub struct Frame {
    pub grid: Vec<Draw>,
    pub player: Vec<Sprite>,
    pub tint: Tint,
    pub banner: Option<Sprite>,
    pub score: (Vec<u8>, Label),
    pub icons: Vec<Option<Sprite>>,
    pub labels: Vec<Label>,
}

/// What is to be heard after a tick.
pub struct Sounds {
    pub rings: Pickups,
    pub blasts: Vec<Position>,
}

impl BannerKind {
    /// Width of the banner on the sheet, in texels.
    pub open spec fn width(self) -> i64 {
        match self {
            BannerKind::GameOver => 144,
            BannerKind::Paused => 112,
            BannerKind::CountDown => 48,
        }
    }

    /// Sheet columns of the banner's frames.
    pub open spec fn columns(self) -> Seq<i64> {
        match self {
            BannerKind::GameOver => seq![0i64, 144],
            BannerKind::Paused => seq![0i64, 112],
            BannerKind::CountDown => seq![0i64, 32, 64, 108, 180],
        }
    }

    /// Sheet rows of the banner's frames, used in turn.
    pub open spec fn rows(self) -> Seq<i64> {
        match self {
            BannerKind::GameOver => seq![288i64],
            BannerKind::Paused => seq![304i64],
            BannerKind::CountDown => seq![256i64, 272],
        }
    }

    /// Time one frame is shown, in milliseconds.
    pub open spec fn duration(self) -> u64 {
        match self {
            BannerKind::CountDown => COUNT_DURATION,
            _ => ANIM_DURATION,
        }
    }

    fn sheet_width(self) -> (w: i64)
        ensures
            w == self.width(),
    {
        match self {
            BannerKind::GameOver => 144,
            BannerKind::Paused => 112,
            BannerKind::CountDown => 48,
        }
    }

    fn frame_count(self) -> (n: usize)
        ensures
            n == self.columns().len(),
    {
        match self {
            BannerKind::CountDown => 5,
            _ => 2,
        }
    }

    fn column(self, k: usize) -> (x: i64)
        requires
            k < self.columns().len(),
        ensures
            x == self.columns()[k as int],
    {
        match self {
            BannerKind::GameOver => if k == 0 {
                0
            } else {
                144
            },
            BannerKind::Paused => if k == 0 {
                0
            } else {
                112
            },
            BannerKind::CountDown => if k == 0 {
                0
            } else if k == 1 {
                32
            } else if k == 2 {
                64
            } else if k == 3 {
                108
            } else {
                180
            },
        }
    }

    fn row(self, k: usize) -> (y: i64)
        ensures
            y == self.rows()[k as int % self.rows().len() as int],
    {
        match self {
            BannerKind::GameOver => 288,
            BannerKind::Paused => 304,
            BannerKind::CountDown => if k % 2 == 0 {
                256
            } else {
                272
            },
        }
    }

    fn frame_time(self) -> (t: u64)
        ensures
            t == self.duration(),
    {
        match self {
            BannerKind::CountDown => COUNT_DURATION,
            _ => ANIM_DURATION,
        }
    }
}

/// A banner: an animated strip in the middle of the screen.
#[derive(Clone, Copy, Debug, PartialEq, Eq, Structural)]
pub struct Banner {
    pub kind: BannerKind,
    pub rec: Rectangle,
    pub rec2: Rectangle,
    pub frames: usize,
    pub time: u64,
}

impl Banner {
    pub open spec fn wf(&self) -> bool {
        self.frames < self.kind.columns().len()
    }

    /// The banner as it is built for a screen of `w` by `h` pixels: centred.
    pub open spec fn fresh(kind: BannerKind, w: i32, h: i32) -> Banner {
        Banner {
            kind,
            rec: Rectangle { x: 0, y: kind.rows()[0], width: kind.width(), height: TILE_SIZE },
            rec2: Rectangle {
                x: (50 * w - 150 * kind.width()) as i64,
                y: (50 * h - 2400) as i64,
                width: (300 * kind.width()) as i64,
                height: SCALED_TILE,
            },
            frames: 0,
            time: 0,
        }
    }

    pub fn new(kind: BannerKind, w: i32, h: i32) -> (b: Banner)
        ensures
            b == Banner::fresh(kind, w, h),
            b.wf(),
    {
        let width = kind.sheet_width();
        Banner {
            kind,
            rec: Rectangle::new(0, kind.row(0), width, TILE_SIZE),
            rec2: Rectangle::new(
                50 * (w as i64) - 150 * width,
                50 * (h as i64) - 2400,
                300 * width,
                SCALED_TILE,
            ),
            frames: 0,
            time: 0,
        }
    }

    /// The banner one step of its animation later.
    pub open spec fn animated(self, frame_time: u32) -> Banner {
        let due = self.time > self.kind.duration();
        let shown = if due { self.frames + 1 } else { self.frames as int };
        let frames = shown % (self.kind.columns().len() as int);
        let base: int = if due { 0 } else { self.time as int };
        Banner {
            rec: Rectangle {
                x: self.kind.columns()[frames],
                y: self.kind.rows()[frames % (self.kind.rows().len() as int)],
                ..self.rec
            },
            frames: frames as usize,
            time: if base + frame_time > u64::MAX {
                u64::MAX
            } else {
                (base + frame_time) as u64
            },
            ..self
        }
    }

    /// Says what to blit for the banner as it stands, then moves it on.
    pub fn draw_animate(&mut self, frame_time: u32) -> (s: Sprite)
        requires
            old(self).wf(),
        ensures
            s == (Sprite { src: old(self).rec, dst: old(self).rec2 }),
            *final(self) == old(self).animated(frame_time),
            final(self).wf(),
    {
        let s = Sprite { src: self.rec, dst: self.rec2 };
        if self.time > self.kind.frame_time() {
            self.time = 0;
            self.frames += 1;
        }
        self.frames = self.frames % self.kind.frame_count();
        self.time = advance(self.time, frame_time);
        self.rec.x = self.kind.column(self.frames);
        self.rec.y = self.kind.row(self.frames);
        s
    }
}

/// The decimal digits of `n` as characters, the most significant first.
pub open spec fn decimal(n: nat) -> Seq<u8>
    decreases n,
{
    if n < 10 {
        seq![(48 + n) as u8]
    } else {
        decimal(n / 10).push((48 + n % 10) as u8)
    }
}

/// The score as it is written: its decimal digits, with zeros in front
/// where there are fewer than five.
pub open spec fn score_digits(score: nat) -> Seq<u8> {
    let digits = decimal(score);
    if digits.len() >= 5 {
        digits
    } else {
        Seq::new((5 - digits.len()) as nat, |k: int| 48u8) + digits
    }
}

pub fn digits_of(n: usize) -> (digits: Vec<u8>)
    ensures
        digits@ == decimal(n as nat),
    decreases n,
{
    if n < 10 {
        let mut digits: Vec<u8> = Vec::new();
        digits.push(48 + (n as u8));
        digits
    } else {
        let mut digits = digits_of(n / 10);
        digits.push(48 + ((n % 10) as u8));
        digits
    }
}

pub fn score_text(score: usize) -> (text: Vec<u8>)
    ensures
        text@ == score_digits(score as nat),
{
    let digits = digits_of(score);
    let n = digits.len();
    if n >= 5 {
        digits
    } else {
        let mut text: Vec<u8> = Vec::new();
        let mut k: usize = 0;
        while k < 5 - n
            invariant
                n < 5,
                k <= 5 - n,
                text@ == Seq::new(k as nat, |i: int| 48u8),
            decreases 5 - n - k,
        {
            text.push(48);
            k += 1;
        }
        let mut i: usize = 0;
        while i < n
            invariant
                n == digits.len(),
                n < 5,
                i <= n,
                text@ == Seq::new((5 - n) as nat, |i: int| 48u8) + digits@.subrange(0, i as int),
            decreases n - i,
        {
            text.push(digits[i]);
            assert(text@ =~= Seq::new((5 - n) as nat, |i: int| 48u8) + digits@.subrange(
                0,
                i + 1,
            ));
            i += 1;
        }
        text
    }
}

/// Half the edge of a grid cell on screen, in screen units.
pub const HALF_TILE: i64 = 2400;

/// Height of the text beside an icon, half the score line's, in pixels.
pub const ICON_TEXT_SIZE: i64 = 30;

/// Index of the row under the grid, where the icons stand.
pub const ICON_ROW: usize = 18;

pub struct Game {
    pub state: GameState,
    pub menu_enable: bool,
    /// Width of the screen in pixels.
    pub screen_w: i32,
    /// Height of the screen in pixels.
    pub screen_h: i32,
    pub player: Player,
    pub grid: Grid,
    pub heart: Bonus,
    pub cash: Bonus,
    pub silver_coin: Bonus,
    pub gold_coin: Bonus,
    pub diamond: Bonus,
    pub game_over_text: Banner,
    pub paused_text: Banner,
    pub count_down: Banner,
    pub frames: usize,
    pub time: u64,
}

/// The samples are one per cell of the standard grid.
pub open spec fn standard(samples: Vec<Vec<i32>>) -> bool {
    samples.len() == ROWS && forall|i: int| 0 <= i < ROWS ==> (#[trigger] samples[i]).len() == COLS
}

/// The game state that the player's life cycle calls for, unless the game
/// is paused.
pub open spec fn state_for(state: GameState, player: State2) -> GameState {
    if state != GameState::PAUSED {
        match player {
            State2::SPAWN => GameState::STARTING,
            State2::ALIVE => GameState::RUNNING,
            State2::DEAD => GameState::GAMEOVER,
            _ => state,
        }
    } else {
        state
    }
}

/// The label beside an icon: the count, half a tile right of and below the
/// icon's corner, in pixels.
pub open spec fn icon_label(icon: Rectangle, count: usize) -> Label {
    Label {
        count,
        x: pixel_of(shifted(icon.x, HALF_TILE as int) as int) as i64,
        y: pixel_of(shifted(icon.y, HALF_TILE as int) as int) as i64,
        size: ICON_TEXT_SIZE,
    }
}

fn label_for(icon: &Rectangle, count: usize) -> (l: Label)
    ensures
        l == icon_label(*icon, count),
{
    Label {
        count,
        x: to_pixel(shift(icon.x, HALF_TILE)),
        y: to_pixel(shift(icon.y, HALF_TILE)),
        size: ICON_TEXT_SIZE,
    }
}

impl Game {
    pub open spec fn wf(&self) -> bool {
        &&& self.grid.wf()
        &&& self.player.wf()
        &&& self.heart@.wf()
        &&& self.cash@.wf()
        &&& self.silver_coin@.wf()
        &&& self.gold_coin@.wf()
        &&& self.diamond@.wf()
        &&& self.game_over_text.wf()
        &&& self.paused_text.wf()
        &&& self.count_down.wf()
        &&& self.frames < 2
    }

    /// The player can be updated on the grid: the four cells from its own
    /// on exist, and its cell has screen coordinates.
    pub open spec fn playable(&self) -> bool {
        let (i, j) = self.player.position();
        &&& within(self.grid.codes(), i, j + 1)
        &&& within(self.grid.codes(), i + 1, j + 1)
        &&& within(self.grid.entities(), i, j)
        &&& on_screen(i as usize, j as usize)
    }

    /// Builds the game on the standard grid, for one noise sample per cell.
    pub fn new(samples: &Vec<Vec<i32>>) -> (game: Game)
        requires
            standard(*samples),
        ensures
            game.state == GameState::STARTING,
            !game.menu_enable,
            game.screen_w == 1536,
            game.screen_h == 912,
            game.player == Player::fresh(),
            built_from(terrain(ROWS as int, COLS as int, sample_rows(*samples)), &game.grid),
            game.heart@ == BonusView::fresh(BonusType::Heart, 30, ICON_ROW, SCALE),
            game.cash@ == BonusView::fresh(BonusType::Cash, 4, ICON_ROW, SCALE),
            game.silver_coin@ == BonusView::fresh(BonusType::SilverCoin, 6, ICON_ROW, SCALE),
            game.gold_coin@ == BonusView::fresh(BonusType::GoldCoin, 8, ICON_ROW, SCALE),
            game.diamond@ == BonusView::fresh(BonusType::Diamond, 10, ICON_ROW, SCALE),
            game.game_over_text == Banner::fresh(BannerKind::GameOver, 1536, 912),
            game.paused_text == Banner::fresh(BannerKind::Paused, 1536, 912),
            game.count_down == Banner::fresh(BannerKind::CountDown, 1536, 912),
            game.frames == 0,
            game.time == 0,
            game.wf(),
            game.playable(),
    {
        let grid = Grid::new(samples);
        let screen_w: i32 = 1536;
        let screen_h: i32 = 912;
        proof {
            let input = terrain(ROWS as int, COLS as int, sample_rows(*samples));
            assert(grid.codes()[1].len() == input[1].len());
            assert(crate::geometry::tile_offset(ICON_ROW, SCALE) == 18 * 4800);
        }
        Game {
            state: GameState::STARTING,
            menu_enable: false,
            screen_w,
            screen_h,
            player: Player::new(),
            grid,
            heart: Bonus::new(BonusType::Heart, 30, ICON_ROW, SCALE),
            cash: Bonus::new(BonusType::Cash, 4, ICON_ROW, SCALE),
            silver_coin: Bonus::new(BonusType::SilverCoin, 6, ICON_ROW, SCALE),
            gold_coin: Bonus::new(BonusType::GoldCoin, 8, ICON_ROW, SCALE),
            diamond: Bonus::new(BonusType::Diamond, 10, ICON_ROW, SCALE),
            game_over_text: Banner::new(BannerKind::GameOver, screen_w, screen_h),
            paused_text: Banner::new(BannerKind::Paused, screen_w, screen_h),
            count_down: Banner::new(BannerKind::CountDown, screen_w, screen_h),
            frames: 0,
            time: 0,
        }
    }

    /// The game after the countdown banner took its sheet row, which
    /// changes every `ANIM_DURATION`.
    pub open spec fn count_stepped(self, frame_time: u32) -> Game {
        let due = self.time > ANIM_DURATION;
        let shown = if due { self.frames + 1 } else { self.frames as int };
        let base: int = if due { 0 } else { self.time as int };
        Game {
            frames: (shown % 2) as usize,
            time: if base + frame_time > u64::MAX {
                u64::MAX
            } else {
                (base + frame_time) as u64
            },
            count_down: Banner {
                rec: Rectangle {
                    y: if shown % 2 == 0 {
                        256
                    } else {
                        272
                    },
                    ..self.count_down.rec
                },
                ..self.count_down
            },
            ..self
        }
    }

    pub fn anim_count_down(&mut self, frame_time: u32)
        requires
            old(self).frames < 2,
        ensures
            *final(self) == old(self).count_stepped(frame_time),
            final(self).frames < 2,
    {
        if self.time > ANIM_DURATION {
            self.frames += 1;
            self.time = 0;
        }
        self.time = advance(self.time, frame_time);
        self.frames = self.frames % 2;
        self.count_down.rec.y = if self.frames == 0 {
            256
        } else {
            272
        };
    }

    /// Moves the five icons on in their animations.
    pub fn update_icons(&mut self, frame_time: u32)
        requires
            old(self).heart@.wf(),
            old(self).cash@.wf(),
            old(self).silver_coin@.wf(),
            old(self).gold_coin@.wf(),
            old(self).diamond@.wf(),
        ensures
            final(self).heart@ == old(self).heart@.animated(frame_time),
            final(self).cash@ == old(self).cash@.animated(frame_time),
            final(self).silver_coin@ == old(self).silver_coin@.animated(frame_time),
            final(self).gold_coin@ == old(self).gold_coin@.animated(frame_time),
            final(self).diamond@ == old(self).diamond@.animated(frame_time),
            final(self).heart@.wf(),
            final(self).cash@.wf(),
            final(self).silver_coin@.wf(),
            final(self).gold_coin@.wf(),
            final(self).diamond@.wf(),
            final(self).state == old(self).state,
            final(self).menu_enable == old(self).menu_enable,
            final(self).screen_w == old(self).screen_w,
            final(self).screen_h == old(self).screen_h,
            final(self).player == old(self).player,
            final(self).grid == old(self).grid,
            final(self).game_over_text == old(self).game_over_text,
            final(self).paused_text == old(self).paused_text,
            final(self).count_down == old(self).count_down,
            final(self).frames == old(self).frames,
            final(self).time == old(self).time,
    {
        self.heart.animate(frame_time);
        self.cash.animate(frame_time);
        self.silver_coin.animate(frame_time);
        self.gold_coin.animate(frame_time);
        self.diamond.animate(frame_time);
    }

    /// The countdown has run and the game is about to start.
    pub open spec fn counted_down(&self) -> bool {
        self.count_down.frames > MAX_FRAME && state_for(self.state, self.player.state)
            == GameState::STARTING
    }

    /// The game after it followed the player's life cycle: once the
    /// countdown has run in a starting game, the game runs and the player
    /// spawns.
    pub open spec fn followed(self) -> Game {
        if self.counted_down() {
            Game {
                state: GameState::RUNNING,
                player: Player { state: State2::SPAWNING, ..self.player },
                ..self
            }
        } else {
            Game { state: state_for(self.state, self.player.state), ..self }
        }
    }

    pub fn update_game_state(&mut self)
        ensures
            *final(self) == old(self).followed(),
    {
        if self.state != GameState::PAUSED {
            match self.player.state {
                State2::SPAWN => {
                    self.state = GameState::STARTING;
                },
                State2::ALIVE => {
                    self.state = GameState::RUNNING;
                },
                State2::DEAD => {
                    self.state = GameState::GAMEOVER;
                },
                _ => {},
            }
        }
        if self.count_down.frames > MAX_FRAME && self.state == GameState::STARTING {
            self.state = GameState::RUNNING;
            self.player.state = State2::SPAWNING;
        }
    }

    /// The commands toggle the pause: the key was pressed and the game is
    /// not over.
    pub open spec fn pauses(&self, cmds: Commands) -> bool {
        cmds.pause && self.state != GameState::GAMEOVER
    }

    /// The commands restart the game: neither pause nor menu goes before.
    pub open spec fn restarts(&self, cmds: Commands) -> bool {
        !self.pauses(cmds) && !cmds.menu && cmds.restart
    }

    /// Obeys the commands, the first that applies: pause toggles the pause
    /// unless the game is over, menu toggles the menu, restart builds grid
    /// and player anew and rewinds the countdown.
    pub fn handle_game_state(&mut self, cmds: Commands, samples: &Vec<Vec<i32>>)
        requires
            standard(*samples),
        ensures
            final(self).state == if old(self).pauses(cmds) {
                if old(self).state == GameState::PAUSED {
                    GameState::STARTING
                } else {
                    GameState::PAUSED
                }
            } else {
                old(self).state
            },
            final(self).menu_enable == if !old(self).pauses(cmds) && cmds.menu {
                !old(self).menu_enable
            } else {
                old(self).menu_enable
            },
            if old(self).restarts(cmds) {
                &&& built_from(
                    terrain(ROWS as int, COLS as int, sample_rows(*samples)),
                    &final(self).grid,
                )
                &&& final(self).grid.wf()
                &&& final(self).player == Player::fresh()
                &&& final(self).count_down == (Banner { frames: 0, ..old(self).count_down })
            } else {
                &&& final(self).grid == old(self).grid
                &&& final(self).player == old(self).player
                &&& final(self).count_down == old(self).count_down
            },
            final(self).screen_w == old(self).screen_w,
            final(self).screen_h == old(self).screen_h,
            final(self).heart == old(self).heart,
            final(self).cash == old(self).cash,
            final(self).silver_coin == old(self).silver_coin,
            final(self).gold_coin == old(self).gold_coin,
            final(self).diamond == old(self).diamond,
            final(self).game_over_text == old(self).game_over_text,
            final(self).paused_text == old(self).paused_text,
            final(self).frames == old(self).frames,
            final(self).time == old(self).time,
    {
        if cmds.pause && self.state != GameState::GAMEOVER {
            self.state = if self.state == GameState::PAUSED {
                GameState::STARTING
            } else {
                GameState::PAUSED
            };
        } else if cmds.menu {
            self.menu_enable = !self.menu_enable;
        } else if cmds.restart {
            self.grid = Grid::new(samples);
            self.player = Player::new();
            self.count_down.frames = 0;
        }
    }

    /// The banner of the game's state as it stands, if the state has one.
    pub open spec fn banner_sprite(self) -> Option<Sprite> {
        match self.state {
            GameState::GAMEOVER => Some(
                Sprite { src: self.game_over_text.rec, dst: self.game_over_text.rec2 },
            ),
            GameState::PAUSED => Some(
                Sprite { src: self.paused_text.rec, dst: self.paused_text.rec2 },
            ),
            GameState::STARTING => Some(
                Sprite { src: self.count_down.rec, dst: self.count_down.rec2 },
            ),
            GameState::RUNNING => None,
        }
    }

    /// The game after the banner of its state was drawn: that banner has
    /// moved on, and the countdown banner has taken its sheet row.
    pub open spec fn banner_drawn(self, frame_time: u32) -> Game {
        match self.state {
            GameState::GAMEOVER => Game {
                game_over_text: self.game_over_text.animated(frame_time),
                ..self
            },
            GameState::PAUSED => Game {
                paused_text: self.paused_text.animated(frame_time),
                ..self
            },
            GameState::STARTING => (Game {
                count_down: self.count_down.animated(frame_time),
                ..self
            }).count_stepped(frame_time),
            GameState::RUNNING => self,
        }
    }

    /// Says what banner to blit for the game's state, if any, and moves
    /// that banner on.
    pub fn draw_game_state(&mut self, frame_time: u32) -> (s: Option<Sprite>)
        requires
            old(self).game_over_text.wf(),
            old(self).paused_text.wf(),
            old(self).count_down.wf(),
            old(self).frames < 2,
        ensures
            s == old(self).banner_sprite(),
            *final(self) == old(self).banner_drawn(frame_time),
            final(self).game_over_text.wf(),
            final(self).paused_text.wf(),
            final(self).count_down.wf(),
            final(self).frames < 2,
    {
        match self.state {
            GameState::GAMEOVER => Some(self.game_over_text.draw_animate(frame_time)),
            GameState::PAUSED => Some(self.paused_text.draw_animate(frame_time)),
            GameState::STARTING => {
                let s = self.count_down.draw_animate(frame_time);
                self.anim_count_down(frame_time);
                Some(s)
            },
            _ => None,
        }
    }

    /// The area that a blur covers: the screen without the icon row, in
    /// pixels.
    pub fn draw_blur(&self) -> (area: Rectangle)
        ensures
            area == (Rectangle {
                x: 0,
                y: 0,
                width: self.screen_w as i64,
                height: (self.screen_h - 48) as i64,
            }),
    {
        Rectangle::new(0, 0, self.screen_w as i64, (self.screen_h as i64) - 48)
    }

    /// The score line: the digits of the score, where the text starts and
    /// how high it is, in pixels.
    pub fn draw_score(&self) -> (line: (Vec<u8>, Label))
        ensures
            line.0@ == score_digits(self.player.score as nat),
            line.1 == (Label {
                count: self.player.score,
                x: 0,
                y: (self.screen_h - 50) as i64,
                size: TEXT_SIZE,
            }),
    {
        (
            score_text(self.player.score),
            Label {
                count: self.player.score,
                x: 0,
                y: (self.screen_h as i64) - TEXT_SIZE + TEXT_SIZE / 6,
                size: TEXT_SIZE,
            },
        )
    }

    /// What to blit for the five icons, in order: heart, cash, silver coin,
    /// gold coin, diamond.
    pub fn draw_icons(&self) -> (list: Vec<Option<Sprite>>)
        ensures
            list@ == seq![
                self.heart@.sprite(),
                self.cash@.sprite(),
                self.silver_coin@.sprite(),
                self.gold_coin@.sprite(),
                self.diamond@.sprite(),
            ],
    {
        let mut list: Vec<Option<Sprite>> = Vec::new();
        list.push(self.heart.draw());
        list.push(self.cash.draw());
        list.push(self.silver_coin.draw());
        list.push(self.gold_coin.draw());
        list.push(self.diamond.draw());
        assert(list@ =~= seq![
            self.heart@.sprite(),
            self.cash@.sprite(),
            self.silver_coin@.sprite(),
            self.gold_coin@.sprite(),
            self.diamond@.sprite(),
        ]);
        list
    }

    /// The counts written beside the five icons, in the icons' order: the
    /// player's lives, then how many it has of each kind.
    pub fn draw_text(&self) -> (list: Vec<Label>)
        ensures
            list@ == seq![
                icon_label(self.heart.rec2, self.player.lifes),
                icon_label(self.cash.rec2, self.player.cash),
                icon_label(self.silver_coin.rec2, self.player.silver_coin),
                icon_label(self.gold_coin.rec2, self.player.gold_coin),
                icon_label(self.diamond.rec2, self.player.diamond),
            ],
    {
        let mut list: Vec<Label> = Vec::new();
        list.push(label_for(&self.heart.rec2, self.player.lifes));
        list.push(label_for(&self.cash.rec2, self.player.cash));
        list.push(label_for(&self.silver_coin.rec2, self.player.silver_coin));
        list.push(label_for(&self.gold_coin.rec2, self.player.gold_coin));
        list.push(label_for(&self.diamond.rec2, self.player.diamond));
        assert(list@ =~= seq![
            icon_label(self.heart.rec2, self.player.lifes),
            icon_label(self.cash.rec2, self.player.cash),
            icon_label(self.silver_coin.rec2, self.player.silver_coin),
            icon_label(self.gold_coin.rec2, self.player.gold_coin),
            icon_label(self.diamond.rec2, self.player.diamond),
        ]);
        list
    }

    /// The game state after the commands were obeyed and the player's life
    /// cycle was followed.
    pub open spec fn next_state(&self, cmds: Commands) -> GameState {
        let toggled = if self.pauses(cmds) {
            if self.state == GameState::PAUSED {
                GameState::STARTING
            } else {
                GameState::PAUSED
            }
        } else {
            self.state
        };
        let followed = state_for(
            toggled,
            if self.restarts(cmds) {
                State2::SPAWN
            } else {
                self.player.state
            },
        );
        if self.spawns(cmds) {
            GameState::RUNNING
        } else {
            followed
        }
    }

    /// The commands leave a game whose countdown has run and that is about
    /// to start, so that the player spawns.
    pub open spec fn spawns(&self, cmds: Commands) -> bool {
        let toggled = if self.pauses(cmds) {
            if self.state == GameState::PAUSED {
                GameState::STARTING
            } else {
                GameState::PAUSED
            }
        } else {
            self.state
        };
        &&& !self.restarts(cmds)
        &&& self.count_down.frames > MAX_FRAME
        &&& state_for(toggled, self.player.state) == GameState::STARTING
    }

    /// The player as it enters its own update in a tick without restart.
    pub open spec fn entering(&self, cmds: Commands) -> Player {
        if self.spawns(cmds) {
            Player { state: State2::SPAWNING, ..self.player }
        } else {
            self.player
        }
    }

    /// The board as the grid's own update finds it in a running tick: with
    /// the bomb that the player planted, if it planted one.
    pub open spec fn board_entering(&self, cmds: Commands, keys: Keys, frame_time: u32) -> Board {
        let (i, j) = self.player.position();
        if self.entering(cmds).plants_in_tick(
            keys,
            self.grid.codes(),
            self.grid.upgrade_vec@,
            bonus_views(self.grid.bonus_vec),
            frame_time,
        ) {
            Board {
                cells: put(self.grid.codes(), i, j, BOMB),
                objs: put(
                    self.grid.entities(),
                    i,
                    j,
                    GameObjs::Bomb(Player::planted(i as usize, j as usize)),
                ),
            }
        } else {
            self.grid.board()
        }
    }

    /// Advances the game by one tick of `frame_time` milliseconds: obeys the
    /// commands, follows the player's life cycle and, if the game then runs,
    /// updates the player, the grid and the icons, in that order. The result
    /// says what is to be heard.
    pub fn update(
        &mut self,
        cmds: Commands,
        keys: Keys,
        samples: &Vec<Vec<i32>>,
        frame_time: u32,
    ) -> (sounds: Sounds)
        requires
            old(self).wf(),
            old(self).playable(),
            standard(*samples),
        ensures
            final(self).wf(),
            final(self).state == old(self).next_state(cmds),
            final(self).menu_enable == if !old(self).pauses(cmds) && cmds.menu {
                !old(self).menu_enable
            } else {
                old(self).menu_enable
            },
            old(self).restarts(cmds) ==> {
                &&& built_from(
                    terrain(ROWS as int, COLS as int, sample_rows(*samples)),
                    &final(self).grid,
                )
                &&& final(self).player == Player::fresh()
                &&& final(self).count_down == (Banner { frames: 0, ..old(self).count_down })
                &&& final(self).state != GameState::RUNNING
            },
            !old(self).restarts(cmds) ==> final(self).count_down == old(self).count_down,
            !old(self).restarts(cmds) && old(self).next_state(cmds) != GameState::RUNNING ==> {
                &&& final(self).player == old(self).entering(cmds)
                &&& final(self).grid == old(self).grid
            },
            old(self).next_state(cmds) != GameState::RUNNING ==> {
                &&& sounds.rings == (Pickups { bonus: 0, upgrade: 0 })
                &&& sounds.blasts@ == Seq::<Position>::empty()
                &&& final(self).heart == old(self).heart
                &&& final(self).cash == old(self).cash
                &&& final(self).silver_coin == old(self).silver_coin
                &&& final(self).gold_coin == old(self).gold_coin
                &&& final(self).diamond == old(self).diamond
            },
            old(self).next_state(cmds) == GameState::RUNNING ==> {
                let entering = old(self).entering(cmds);
                let pos = old(self).player.position();
                let cells = old(self).grid.codes();
                let upgrades = old(self).grid.upgrade_vec@;
                let bonuses = bonus_views(old(self).grid.bonus_vec);
                let board = old(self).board_entering(cmds, keys, frame_time);
                &&& final(self).player == entering.updated(
                    keys,
                    cells,
                    upgrades,
                    bonuses,
                    frame_time,
                )
                &&& final(self).grid.board() == board.after_tick(frame_time)
                &&& final(self).grid.upgrade_vec@ == marked_upgrades(
                    upgrades,
                    pos,
                    upgrades.len() as int,
                )
                &&& final(self).grid.bonus_vec.len() == bonuses.len()
                &&& forall|k: int|
                    0 <= k < bonuses.len() ==> (#[trigger] final(self).grid.bonus_vec[k])@
                        == marked_bonuses(bonuses, pos, bonuses.len() as int)[k].animated(
                        frame_time,
                    )
                &&& final(self).grid.empty_vec == old(self).grid.empty_vec
                &&& final(self).grid.grass_vec == old(self).grid.grass_vec
                &&& sounds.rings.upgrade == upgrade_rings(upgrades, pos, upgrades.len() as int)
                &&& sounds.rings.bonus == bonus_rings(bonuses, pos, bonuses.len() as int)
                &&& sounds.blasts@ == board.rung(board.cells.len() as int, 0, frame_time)
                &&& final(self).heart@ == old(self).heart@.animated(frame_time)
                &&& final(self).cash@ == old(self).cash@.animated(frame_time)
                &&& final(self).silver_coin@ == old(self).silver_coin@.animated(frame_time)
                &&& final(self).gold_coin@ == old(self).gold_coin@.animated(frame_time)
                &&& final(self).diamond@ == old(self).diamond@.animated(frame_time)
            },
            final(self).screen_w == old(self).screen_w,
            final(self).screen_h == old(self).screen_h,
            final(self).game_over_text == old(self).game_over_text,
            final(self).paused_text == old(self).paused_text,
            final(self).frames == old(self).frames,
            final(self).time == old(self).time,
    {
        self.handle_game_state(cmds, samples);
        self.update_game_state();
        if self.state == GameState::RUNNING {
            let rings = self.player.update(keys, &mut self.grid, frame_time);
            let ghost marked = bonus_views(self.grid.bonus_vec);
            let ghost taken = self.grid.bonus_vec;
            proof {
                assert(marked.len() == taken.len());
            }
            let blasts = self.grid.update(frame_time);
            self.update_icons(frame_time);
            Sounds { rings, blasts }
        } else {
            Sounds { rings: Pickups { bonus: 0, upgrade: 0 }, blasts: Vec::new() }
        }
    }

    /// Says what one frame puts on screen and moves on what is animated by
    /// being drawn: the grid, the player, the banner of the game's state, the
    /// score line, the icons and their counts, to be put on screen in this
    /// order.
    pub fn draw(&mut self, frame_time: u32) -> (frame: Frame)
        requires
            blocks_first(old(self).grid.codes()),
            all_on_screen(old(self).grid.codes()),
            same_shape(old(self).grid.codes(), old(self).grid.entities()),
            scan(
                old(self).grid.codes(),
                not_block(),
                old(self).grid.codes().len() as int,
                0,
            ).len() <= old(self).grid.empty_vec.len(),
            old(self).game_over_text.wf(),
            old(self).paused_text.wf(),
            old(self).count_down.wf(),
            old(self).frames < 2,
        ensures
            ({
                let cells = old(self).grid.codes();
                let rows = cells.len() as int;
                let at = scan(cells, not_block(), rows, 0);
                &&& final(self).grid.empty_vec@ == laid(old(self).grid.empty_vec@, cells, at)
                &&& final(self).grid.entities() == shown_upto(
                    old(self).grid.entities(),
                    cells,
                    rows,
                    0,
                )
                &&& frame.grid@ == ground_draws(final(self).grid.empty_vec@, at.len() as int)
                    + grass_draws(
                    old(self).grid.grass_vec@,
                    old(self).grid.grass_vec.len() as int,
                ) + bonus_draws(
                    bonus_views(old(self).grid.bonus_vec),
                    old(self).grid.bonus_vec.len() as int,
                ) + upgrade_draws(
                    old(self).grid.upgrade_vec@,
                    old(self).grid.upgrade_vec.len() as int,
                ) + object_draws(old(self).grid.entities(), cells, rows, 0)
            }),
            final(self).grid.cells == old(self).grid.cells,
            final(self).grid.grass_vec == old(self).grid.grass_vec,
            final(self).grid.bonus_vec == old(self).grid.bonus_vec,
            final(self).grid.upgrade_vec == old(self).grid.upgrade_vec,
            frame.player@ == old(self).player.sprites(),
            frame.tint == old(self).player.tint,
            frame.banner == old(self).banner_sprite(),
            frame.score.0@ == score_digits(old(self).player.score as nat),
            frame.score.1 == (Label {
                count: old(self).player.score,
                x: 0,
                y: (old(self).screen_h - 50) as i64,
                size: TEXT_SIZE,
            }),
            frame.icons@ == seq![
                old(self).heart@.sprite(),
                old(self).cash@.sprite(),
                old(self).silver_coin@.sprite(),
                old(self).gold_coin@.sprite(),
                old(self).diamond@.sprite(),
            ],
            frame.labels@ == seq![
                icon_label(old(self).heart.rec2, old(self).player.lifes),
                icon_label(old(self).cash.rec2, old(self).player.cash),
                icon_label(old(self).silver_coin.rec2, old(self).player.silver_coin),
                icon_label(old(self).gold_coin.rec2, old(self).player.gold_coin),
                icon_label(old(self).diamond.rec2, old(self).player.diamond),
            ],
            final(self).game_over_text == old(self).banner_drawn(frame_time).game_over_text,
            final(self).paused_text == old(self).banner_drawn(frame_time).paused_text,
            final(self).count_down == old(self).banner_drawn(frame_time).count_down,
            final(self).frames == old(self).banner_drawn(frame_time).frames,
            final(self).time == old(self).banner_drawn(frame_time).time,
            final(self).state == old(self).state,
            final(self).menu_enable == old(self).menu_enable,
            final(self).screen_w == old(self).screen_w,
            final(self).screen_h == old(self).screen_h,
            final(self).player == old(self).player,
            final(self).heart == old(self).heart,
            final(self).cash == old(self).cash,
            final(self).silver_coin == old(self).silver_coin,
            final(self).gold_coin == old(self).gold_coin,
            final(self).diamond == old(self).diamond,
    {
        let grid = self.grid.draw();
        let player = self.player.draw();
        let tint = self.player.tint;
        let banner = self.draw_game_state(frame_time);
        let score = self.draw_score();
        let icons = self.draw_icons();
        let labels = self.draw_text();
        Frame { grid, player, tint, banner, score, icons, labels }
    }
}

} // verus!
