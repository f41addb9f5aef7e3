//! What the grid puts on screen.

use vstd::prelude::*;
use crate::blast::within;
use crate::geometry::{on_screen, placed, Rectangle, Sprite, FRAMES};
use crate::grid::{GameObjs, Grid};
use crate::noise::{BLOCK, WALL};
use crate::objects::{Empty, State};
use crate::blast::same_shape;
use crate::bonus::BonusView;
use crate::objects::Grass;
use crate::player::bonus_views;
use crate::setup::scan;
use crate::tick::put;
use crate::upgrade::{Label, Upgrade};

verus! {

/// One thing to put on screen.
#[derive(Clone, Copy, Debug, PartialEq, Eq, Structural)]
pub enum Draw {
    Sprite(Sprite),
    Label(Label),
}

/// The cell holds terrain that casts a shadow.
pub open spec fn casts(cells: Seq<Seq<i8>>, x: int, y: int) -> bool {
    cells[x][y] == WALL || cells[x][y] == BLOCK
}

/// The sheet column of the shadow that falls on cell `(i, j)` from the
/// terrain before it, above it and diagonally before and above it.
pub open spec fn shadow_of(cells: Seq<Seq<i8>>, i: int, j: int) -> i64 {
    let left = casts(cells, i - 1, j);
    let top = casts(cells, i, j - 1);
    let top_left = casts(cells, i - 1, j - 1);
    if !left && !top && !top_left {
        0
    } else if left && top {
        64
    } else if top {
        32
    } else if left {
        48
    } else {
        16
    }
}

/// The codes that are not `BLOCK`.
pub open spec fn not_block() -> spec_fn(i8) -> bool {
    |code: i8| code != BLOCK
}

/// The ground tile with the shadow of cell `p` on it, moved to that cell.
pub open spec fn shaded(tile: Empty, cells: Seq<Seq<i8>>, p: (int, int)) -> Empty {
    Empty {
        rec: Rectangle { x: shadow_of(cells, p.0, p.1), ..tile.rec },
        rec2: placed(tile.rec2, p.0 as usize, p.1 as usize),
    }
}

/// The ground tiles after the first `at.len()` of them were laid under the
/// cells `at`, one each and in order.
pub open spec fn laid(tiles: Seq<Empty>, cells: Seq<Seq<i8>>, at: Seq<(int, int)>) -> Seq<Empty> {
    Seq::new(
        tiles.len(),
        |k: int|
            if k < at.len() {
                shaded(tiles[k], cells, at[k])
            } else {
                tiles[k]
            },
    )
}

/// Every cell that is not a `BLOCK` has cells before and above it.
pub open spec fn blocks_first(cells: Seq<Seq<i8>>) -> bool {
    forall|x: int, y: int|
        within(cells, x, y) && #[trigger] cells[x][y] != BLOCK ==> x >= 1 && y >= 1 && y
            < cells[x - 1].len()
}

/// Every cell has screen coordinates.
pub open spec fn all_on_screen(cells: Seq<Seq<i8>>) -> bool {
    forall|x: int, y: int|
        within(cells, x, y) ==> #[trigger] on_screen(x as usize, y as usize)
}

/// A scan only grows as it goes on.
pub proof fn lemma_scan_grows(
    cells: Seq<Seq<i8>>,
    keep: spec_fn(i8) -> bool,
    i: int,
    j: int,
    i2: int,
    j2: int,
)
    requires
        0 <= i <= i2 <= cells.len(),
        0 <= j,
        0 <= j2,
        i < cells.len() ==> j <= cells[i].len(),
        i == cells.len() ==> j == 0,
        i2 < cells.len() ==> j2 <= cells[i2].len(),
        i2 == cells.len() ==> j2 == 0,
        i == i2 ==> j <= j2,
    ensures
        scan(cells, keep, i, j).len() <= scan(cells, keep, i2, j2).len(),
    decreases i2, j2,
{
    if i == i2 && j == j2 {
    } else if j2 > 0 {
        lemma_scan_grows(cells, keep, i, j, i2, j2 - 1);
    } else {
        lemma_scan_grows(cells, keep, i, j, i2 - 1, cells[i2 - 1].len() as int);
    }
}

/// The blits of the first `n` ground tiles, in order.
pub open spec fn ground_draws(tiles: Seq<Empty>, n: int) -> Seq<Draw> {
    Seq::new(n as nat, |k: int| Draw::Sprite(Sprite { src: tiles[k].rec, dst: tiles[k].rec2 }))
}

/// The blits of the first `n` grass tiles, in order.
pub open spec fn grass_draws(tiles: Seq<Grass>, n: int) -> Seq<Draw> {
    Seq::new(n as nat, |k: int| Draw::Sprite(Sprite { src: tiles[k].rec, dst: tiles[k].rec2 }))
}

/// The blits of those of the first `n` bonuses that are still there, in
/// order.
pub open spec fn bonus_draws(list: Seq<BonusView>, n: int) -> Seq<Draw>
    decreases n,
{
    if n <= 0 {
        seq![]
    } else {
        let before = bonus_draws(list, n - 1);
        match list[n - 1].sprite() {
            Some(s) => before.push(Draw::Sprite(s)),
            None => before,
        }
    }
}

/// What an upgrade puts on screen: its sprite, then its label, each if the
/// upgrade is still there.
pub open spec fn upgrade_draw(upgrade: Upgrade) -> Seq<Draw> {
    (match upgrade.sprite() {
        Some(s) => seq![Draw::Sprite(s)],
        None => seq![],
    }) + (match upgrade.label() {
        Some(l) => seq![Draw::Label(l)],
        None => seq![],
    })
}

/// What the first `n` upgrades put on screen, in order.
pub open spec fn upgrade_draws(list: Seq<Upgrade>, n: int) -> Seq<Draw>
    decreases n,
{
    if n <= 0 {
        seq![]
    } else {
        upgrade_draws(list, n - 1) + upgrade_draw(list[n - 1])
    }
}

/// The blits of the entities of the cells before `(i, j)`, in row-major
/// order.
pub open spec fn object_draws(objs: Seq<Seq<GameObjs>>, cells: Seq<Seq<i8>>, i: int, j: int)
    -> Seq<Draw>
    decreases i, j,
{
    if i < 0 || j < 0 {
        seq![]
    } else if j > 0 {
        let before = object_draws(objs, cells, i, j - 1);
        match objs[i][j - 1].sprite_at(i as usize, (j - 1) as usize, cells[i][j - 1]) {
            Some(s) => before.push(Draw::Sprite(s)),
            None => before,
        }
    } else if i > 0 {
        object_draws(objs, cells, i - 1, objs[i - 1].len() as int)
    } else {
        seq![]
    }
}

/// The entities after those of the cells before `(i, j)` were drawn.
pub open spec fn shown_upto(objs: Seq<Seq<GameObjs>>, cells: Seq<Seq<i8>>, i: int, j: int) -> Seq<
    Seq<GameObjs>,
> {
    Seq::new(
        objs.len(),
        |x: int|
            Seq::new(
                objs[x].len(),
                |y: int|
                    if x < i || (x == i && y < j) {
                        objs[x][y].shown_at(x as usize, y as usize, cells[x][y])
                    } else {
                        objs[x][y]
                    },
            ),
    )
}

impl GameObjs {
    /// The entity after `draw` at cell `(i, j)`, where the cell holds
    /// `cell`: an exploding bomb and a flame move their sprite there if the
    /// cell holds their signal.
    pub open spec fn shown_at(self, i: usize, j: usize, cell: i8) -> GameObjs {
        match self {
            GameObjs::Bomb(bomb) => if bomb.state == State::EXPLOADING {
                GameObjs::Bomb(bomb.blast_shown_at(i, j, cell))
            } else {
                self
            },
            GameObjs::Flame(flame) => GameObjs::Flame(flame.shown_at(i, j, cell)),
            _ => self,
        }
    }

    /// What to blit for the entity. A block always shows. A wall shows
    /// until it is destroyed. A bomb shows idle, or as a blast while it
    /// explodes and its cell holds `EXPLOSION`. A flame shows while its cell
    /// holds its code.
    pub open spec fn sprite_at(self, i: usize, j: usize, cell: i8) -> Option<Sprite> {
        match self {
            GameObjs::Block(block) => Some(Sprite { src: block.rec, dst: block.rec2 }),
            GameObjs::Wall(wall) => if wall.state != State::EXPLOADED {
                Some(Sprite { src: wall.rec, dst: wall.rec2 })
            } else {
                None
            },
            GameObjs::Bomb(bomb) => match bomb.state {
                State::IDEAL => Some(Sprite { src: bomb.rec, dst: bomb.rec2 }),
                State::EXPLOADING => if cell == crate::bomb::EXPLOSION {
                    Some(
                        Sprite { src: bomb.exp_rec, dst: bomb.blast_shown_at(i, j, cell).exp_rec2 },
                    )
                } else {
                    None
                },
                State::EXPLOADED => None,
            },
            GameObjs::Flame(flame) => if cell == flame.code() {
                Some(Sprite { src: flame.rec, dst: flame.shown_at(i, j, cell).rec2 })
            } else {
                None
            },
            GameObjs::Default => None,
        }
    }

    /// Moves the entity's sprite to its cell where it has to, and says what
    /// to blit, if anything.
    pub fn draw(&mut self, i: usize, j: usize, cell: i8) -> (s: Option<Sprite>)
        requires
            on_screen(i, j),
        ensures
            *final(self) == old(self).shown_at(i, j, cell),
            s == old(self).sprite_at(i, j, cell),
    {
        match *self {
            GameObjs::Block(block) => Some(block.draw()),
            GameObjs::Wall(wall) => match wall.state {
                State::EXPLOADED => None,
                _ => Some(wall.draw()),
            },
            GameObjs::Bomb(bomb) => match bomb.state {
                State::IDEAL => Some(bomb.draw()),
                State::EXPLOADING => {
                    let mut b = bomb;
                    let s = b.draw_exp(i, j, cell);
                    *self = GameObjs::Bomb(b);
                    s
                },
                State::EXPLOADED => None,
            },
            GameObjs::Flame(flame) => {
                let mut f = flame;
                let s = f.draw(i, j, cell);
                *self = GameObjs::Flame(f);
                s
            },
            GameObjs::Default => None,
        }
    }
}

impl Grid {
    /// Picks the shadow for the inner cell `(i, j)`.
    pub fn get_shadow_val(&self, i: usize, j: usize) -> (x: i64)
        requires
            i >= 1,
            j >= 1,
            within(self.codes(), i as int, j as int),
            within(self.codes(), i - 1, j as int),
        ensures
            x == shadow_of(self.codes(), i as int, j as int),
    {
        let a = self.code(i - 1, j);
        let b = self.code(i, j - 1);
        let c = self.code(i - 1, j - 1);
        let left = a == WALL || a == BLOCK;
        let top = b == WALL || b == BLOCK;
        let top_left = c == WALL || c == BLOCK;
        if !left && !top && !top_left {
            FRAMES[0]
        } else if left && top {
            FRAMES[4]
        } else if top {
            FRAMES[2]
        } else if left {
            FRAMES[3]
        } else {
            FRAMES[1]
        }
    }

    /// Lays the ground tiles under the cells that are not `BLOCK`, in
    /// row-major order, each with the shadow that falls on its cell. The
    /// result says how many tiles were laid: those are to be blitted.
    pub fn lay_shadows(&mut self) -> (count: usize)
        requires
            blocks_first(old(self).codes()),
            all_on_screen(old(self).codes()),
            scan(old(self).codes(), not_block(), old(self).codes().len() as int, 0).len() <= old(
                self,
            ).empty_vec.len(),
        ensures
            count == scan(
                old(self).codes(),
                not_block(),
                old(self).codes().len() as int,
                0,
            ).len(),
            final(self).empty_vec@ == laid(
                old(self).empty_vec@,
                old(self).codes(),
                scan(old(self).codes(), not_block(), old(self).codes().len() as int, 0),
            ),
            final(self).cells == old(self).cells,
            final(self).game_objs == old(self).game_objs,
            final(self).grass_vec == old(self).grass_vec,
            final(self).bonus_vec == old(self).bonus_vec,
            final(self).upgrade_vec == old(self).upgrade_vec,
    {
        let ghost cells = self.codes();
        let ghost tiles = self.empty_vec@;
        let ghost rows_all = cells.len() as int;
        let mut count: usize = 0;
        let rows = self.cells.len();
        let mut i: usize = 0;
        while i < rows
            invariant
                i <= rows,
                rows == cells.len(),
                rows_all == cells.len(),
                cells == self.codes(),
                cells == old(self).codes(),
                tiles == old(self).empty_vec@,
                blocks_first(cells),
                all_on_screen(cells),
                scan(cells, not_block(), rows_all, 0).len() <= tiles.len(),
                self.empty_vec.len() == tiles.len(),
                count == scan(cells, not_block(), i as int, 0).len(),
                self.empty_vec@ == laid(tiles, cells, scan(cells, not_block(), i as int, 0)),
                self.cells == old(self).cells,
                self.game_objs == old(self).game_objs,
                self.grass_vec == old(self).grass_vec,
                self.bonus_vec == old(self).bonus_vec,
                self.upgrade_vec == old(self).upgrade_vec,
            decreases rows - i,
        {
            let cols = self.cells[i].len();
            let mut j: usize = 0;
            while j < cols
                invariant
                    i < rows,
                    j <= cols,
                    rows == cells.len(),
                    rows_all == cells.len(),
                    cols == cells[i as int].len(),
                    cells == self.codes(),
                    cells == old(self).codes(),
                    tiles == old(self).empty_vec@,
                    blocks_first(cells),
                    all_on_screen(cells),
                    scan(cells, not_block(), rows_all, 0).len() <= tiles.len(),
                    self.empty_vec.len() == tiles.len(),
                    count == scan(cells, not_block(), i as int, j as int).len(),
                    self.empty_vec@ == laid(
                        tiles,
                        cells,
                        scan(cells, not_block(), i as int, j as int),
                    ),
                    self.cells == old(self).cells,
                    self.game_objs == old(self).game_objs,
                    self.grass_vec == old(self).grass_vec,
                    self.bonus_vec == old(self).bonus_vec,
                    self.upgrade_vec == old(self).upgrade_vec,
                decreases cols - j,
            {
                let ghost (x, y) = (i as int, j as int);
                let code = self.code(i, j);
                if code != BLOCK {
                    proof {
                        assert(on_screen(x as usize, y as usize));
                        if x + 1 < rows_all {
                            lemma_scan_grows(cells, not_block(), x, y + 1, rows_all, 0);
                        } else {
                            lemma_scan_grows(cells, not_block(), x, y + 1, x, cols as int);
                        }
                    }
                    let frame_val = self.get_shadow_val(i, j);
                    let mut tile = self.empty_vec[count];
                    tile.rec.x = frame_val;
                    tile.set_position(i, j);
                    self.empty_vec[count] = tile;
                    count += 1;
                }
                j += 1;
            }
            i += 1;
        }
        count
    }

    /// Says what the grid puts on screen, in order: the ground under every
    /// cell that is not a `BLOCK`, with its shadow; the grass; the bonuses
    /// and the upgrades that are still there, each upgrade with its label;
    /// and the entities, row by row. Ground tiles, bombs and flames are moved
    /// to their cells on the way.
    pub fn draw(&mut self) -> (list: Vec<Draw>)
        requires
            blocks_first(old(self).codes()),
            all_on_screen(old(self).codes()),
            same_shape(old(self).codes(), old(self).entities()),
            scan(old(self).codes(), not_block(), old(self).codes().len() as int, 0).len() <= old(
                self,
            ).empty_vec.len(),
        ensures
            ({
                let cells = old(self).codes();
                let rows = cells.len() as int;
                let at = scan(cells, not_block(), rows, 0);
                &&& final(self).empty_vec@ == laid(old(self).empty_vec@, cells, at)
                &&& final(self).entities() == shown_upto(old(self).entities(), cells, rows, 0)
                &&& list@ == ground_draws(final(self).empty_vec@, at.len() as int) + grass_draws(
                    old(self).grass_vec@,
                    old(self).grass_vec.len() as int,
                ) + bonus_draws(
                    bonus_views(old(self).bonus_vec),
                    old(self).bonus_vec.len() as int,
                ) + upgrade_draws(old(self).upgrade_vec@, old(self).upgrade_vec.len() as int)
                    + object_draws(old(self).entities(), cells, rows, 0)
            }),
            final(self).cells == old(self).cells,
            final(self).grass_vec == old(self).grass_vec,
            final(self).bonus_vec == old(self).bonus_vec,
            final(self).upgrade_vec == old(self).upgrade_vec,
    {
        let ghost cells = self.codes();
        let ghost objs = self.entities();
        let count = self.lay_shadows();
        let mut list: Vec<Draw> = Vec::new();
        let mut k: usize = 0;
        let ghost tiles = self.empty_vec@;
        while k < count
            invariant
                k <= count,
                count <= self.empty_vec.len(),
                tiles == self.empty_vec@,
                list@ == ground_draws(tiles, k as int),
            decreases count - k,
        {
            list.push(Draw::Sprite(self.empty_vec[k].draw()));
            k += 1;
        }
        let ghost part1 = list@;
        let n = self.grass_vec.len();
        let mut k: usize = 0;
        while k < n
            invariant
                k <= n,
                n == self.grass_vec.len(),
                list@ == part1 + grass_draws(self.grass_vec@, k as int),
            decreases n - k,
        {
            list.push(Draw::Sprite(self.grass_vec[k].draw()));
            k += 1;
        }
        let ghost part2 = list@;
        let ghost bons = bonus_views(self.bonus_vec);
        let n = self.bonus_vec.len();
        let mut k: usize = 0;
        while k < n
            invariant
                k <= n,
                n == self.bonus_vec.len(),
                bons == bonus_views(self.bonus_vec),
                list@ == part2 + bonus_draws(bons, k as int),
            decreases n - k,
        {
            match self.bonus_vec[k].draw() {
                Some(s) => {
                    list.push(Draw::Sprite(s));
                },
                None => {},
            }
            k += 1;
        }
        let ghost part3 = list@;
        let n = self.upgrade_vec.len();
        let mut k: usize = 0;
        while k < n
            invariant
                k <= n,
                n == self.upgrade_vec.len(),
                list@ == part3 + upgrade_draws(self.upgrade_vec@, k as int),
            decreases n - k,
        {
            match self.upgrade_vec[k].draw() {
                Some(s) => {
                    list.push(Draw::Sprite(s));
                },
                None => {},
            }
            match self.upgrade_vec[k].draw_val() {
                Some(l) => {
                    list.push(Draw::Label(l));
                },
                None => {},
            }
            k += 1;
        }
        let ghost part4 = list@;
        let rows = self.game_objs.len();
        let mut i: usize = 0;
        proof {
            assert forall|x: int| 0 <= x < objs.len() implies #[trigger] objs[x] == shown_upto(
                objs,
                cells,
                0,
                0,
            )[x] by {}
        }
        while i < rows
            invariant
                i <= rows,
                rows == objs.len(),
                rows == self.game_objs.len(),
                cells == self.codes(),
                same_shape(cells, objs),
                all_on_screen(cells),
                self.entities() == shown_upto(objs, cells, i as int, 0),
                list@ == part4 + object_draws(objs, cells, i as int, 0),
                self.cells == old(self).cells,
                self.empty_vec@ == tiles,
                self.grass_vec == old(self).grass_vec,
                self.bonus_vec == old(self).bonus_vec,
                self.upgrade_vec == old(self).upgrade_vec,
            decreases rows - i,
        {
            proof {
                assert(self.entities()[i as int] == self.game_objs[i as int]@);
            }
            let cols = self.game_objs[i].len();
            let mut j: usize = 0;
            while j < cols
                invariant
                    i < rows,
                    j <= cols,
                    rows == objs.len(),
                    rows == self.game_objs.len(),
                    cols == objs[i as int].len(),
                    cells == self.codes(),
                    same_shape(cells, objs),
                    all_on_screen(cells),
                    self.entities() == shown_upto(objs, cells, i as int, j as int),
                    list@ == part4 + object_draws(objs, cells, i as int, j as int),
                    self.cells == old(self).cells,
                    self.empty_vec@ == tiles,
                    self.grass_vec == old(self).grass_vec,
                    self.bonus_vec == old(self).bonus_vec,
                    self.upgrade_vec == old(self).upgrade_vec,
                decreases cols - j,
            {
                let ghost (x, y) = (i as int, j as int);
                let cell = self.code(i, j);
                let mut obj = self.obj(i, j);
                match obj.draw(i, j, cell) {
                    Some(s) => {
                        list.push(Draw::Sprite(s));
                    },
                    None => {},
                }
                self.set_obj(i, j, obj);
                proof {
                    let now = self.entities();
                    let want = shown_upto(objs, cells, x, y + 1);
                    assert forall|a: int| 0 <= a < want.len() implies #[trigger] now[a]
                        == want[a] by {}
                    assert(now =~= want);
                }
                j += 1;
            }
            proof {
                let now = self.entities();
                let want = shown_upto(objs, cells, i + 1, 0);
                assert forall|a: int| 0 <= a < want.len() implies #[trigger] now[a] == want[a] by {}
            }
            i += 1;
        }
        list
    }
}

} // verus!
