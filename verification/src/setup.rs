//! Building a grid from terrain.

use vstd::prelude::*;
use crate::blast::{code_is_empty, rectangular, same_shape, vacancies, within};
use crate::bonus::{Bonus, BonusType, BonusView};
use crate::geometry::{MAX_RAND_FRAME, SCALE, SCALED_TILE};
use crate::grid::{obj_rows, GameObjs, Grid};
use crate::noise::{
    noise, on_border, sample_rows, terrain, BLOCK, BOMB_BLACK_2X, BOMB_BLACK_3X, BOMB_PURPLE_2X,
    BOMB_PURPLE_3X, CASH, DIAMOND, EMPTY, GOLD_COIN, HEART, SILVER_COIN, WALL, WIN_CELL,
};
use crate::objects::{code_rows, Block, Empty, Grass, Wall};
use crate::upgrade::{Upgrade, UpgradeType};

verus! {

/// Number of rows of the standard grid.
pub const ROWS: usize = 32;

/// Number of cells in a row of the standard grid.
pub const COLS: usize = 18;

/// The bonus that a terrain code stands for.
pub open spec fn bonus_of(code: i8) -> Option<BonusType> {
    if code == HEART {
        Some(BonusType::Heart)
    } else if code == CASH {
        Some(BonusType::Cash)
    } else if code == SILVER_COIN {
        Some(BonusType::SilverCoin)
    } else if code == GOLD_COIN {
        Some(BonusType::GoldCoin)
    } else if code == DIAMOND {
        Some(BonusType::Diamond)
    } else {
        None
    }
}

/// The upgrade that a terrain code stands for, with its count.
pub open spec fn upgrade_of(code: i8) -> Option<(UpgradeType, usize)> {
    if code == BOMB_BLACK_2X {
        Some((UpgradeType::BlackBomb, 2))
    } else if code == BOMB_BLACK_3X {
        Some((UpgradeType::BlackBomb, 3))
    } else if code == BOMB_PURPLE_2X {
        Some((UpgradeType::PurpleBomb, 2))
    } else if code == BOMB_PURPLE_3X {
        Some((UpgradeType::PurpleBomb, 3))
    } else {
        None
    }
}

/// What a terrain code leaves in its cell: the code of a bonus, of an
/// upgrade or of the goal gives way to `EMPTY`.
pub open spec fn settled_code(code: i8) -> i8 {
    if bonus_of(code) is Some || upgrade_of(code) is Some || code == WIN_CELL {
        EMPTY
    } else {
        code
    }
}

/// The occupancy codes that a terrain leaves.
pub open spec fn resolved(input: Seq<Seq<i8>>) -> Seq<Seq<i8>> {
    Seq::new(input.len(), |x: int| Seq::new(input[x].len(), |y: int| settled_code(input[x][y])))
}

/// `obj` is the entity that the terrain code `code` puts on cell `(x, y)`:
/// a fresh wall for `WALL`, a block in one of its variants for `BLOCK`,
/// nothing for any other code.
pub open spec fn entity_fits(code: i8, x: usize, y: usize, obj: GameObjs) -> bool {
    if code == WALL {
        obj == GameObjs::Wall(Wall::fresh(x, y, SCALE))
    } else if code == BLOCK {
        exists|roll: usize|
            roll < MAX_RAND_FRAME && obj == GameObjs::Block(
                #[trigger] Block::rolled(x, y, SCALE, roll),
            )
    } else {
        obj is Default
    }
}

/// `tile` is the ground tile of cell `p` in one of its variants.
pub open spec fn ground_fits(p: (int, int), tile: Empty) -> bool {
    exists|roll: usize|
        roll < MAX_RAND_FRAME && tile == #[trigger] Empty::rolled(
            p.0 as usize,
            p.1 as usize,
            SCALE,
            roll,
        )
}

/// `tile` is the grass of cell `p` in one of its variants.
pub open spec fn grass_fits(p: (int, int), tile: Grass) -> bool {
    exists|roll: usize|
        roll < MAX_RAND_FRAME && tile == #[trigger] Grass::rolled(
            p.0 as usize,
            p.1 as usize,
            SCALE,
            roll,
        )
}

/// Every code.
pub open spec fn any_code() -> spec_fn(i8) -> bool {
    |code: i8| true
}

/// The codes that stand for a bonus.
pub open spec fn bonus_code() -> spec_fn(i8) -> bool {
    |code: i8| bonus_of(code) is Some
}

/// The codes that stand for an upgrade.
pub open spec fn upgrade_code() -> spec_fn(i8) -> bool {
    |code: i8| upgrade_of(code) is Some
}

/// The cells before `(i, j)` in row-major order whose code `keep` holds of,
/// in that order.
pub open spec fn scan(cells: Seq<Seq<i8>>, keep: spec_fn(i8) -> bool, i: int, j: int) -> Seq<
    (int, int),
>
    decreases i, j,
{
    if i < 0 || j < 0 {
        seq![]
    } else if j > 0 {
        let before = scan(cells, keep, i, j - 1);
        if keep(cells[i][j - 1]) {
            before.push((i, j - 1))
        } else {
            before
        }
    } else if i > 0 {
        scan(cells, keep, i - 1, cells[i - 1].len() as int)
    } else {
        seq![]
    }
}

/// All cells whose code `keep` holds of, in row-major order.
pub open spec fn scan_all(cells: Seq<Seq<i8>>, keep: spec_fn(i8) -> bool) -> Seq<(int, int)> {
    scan(cells, keep, cells.len() as int, 0)
}

/// Every cell of the terrain has screen coordinates.
pub open spec fn fits_screen(input: Seq<Seq<i8>>) -> bool {
    &&& input.len() * SCALED_TILE <= i64::MAX
    &&& forall|x: int| 0 <= x < input.len() ==> (#[trigger] input[x]).len() * SCALED_TILE
        <= i64::MAX
}

/// The terrain is a rectangle whose outermost cells all hold `BLOCK`.
pub open spec fn bordered(input: Seq<Seq<i8>>) -> bool {
    &&& rectangular(input)
    &&& forall|x: int, y: int|
        within(input, x, y) && on_border(x, y, input.len() as int, input[0].len() as int)
            ==> #[trigger] input[x][y] == BLOCK
}

/// The ground tiles stand for the cells `at`, one each and in order.
pub open spec fn grounds_fit(at: Seq<(int, int)>, tiles: Seq<Empty>) -> bool {
    tiles.len() == at.len() && forall|k: int|
        0 <= k < at.len() ==> ground_fits(at[k], #[trigger] tiles[k])
}

/// The grass tiles stand for the cells `at`, one each and in order.
pub open spec fn grasses_fit(at: Seq<(int, int)>, tiles: Seq<Grass>) -> bool {
    tiles.len() == at.len() && forall|k: int|
        0 <= k < at.len() ==> grass_fits(at[k], #[trigger] tiles[k])
}

/// The bonuses are those of the cells `at`, one each and in order, as built.
pub open spec fn bonuses_fit(input: Seq<Seq<i8>>, at: Seq<(int, int)>, list: Seq<Bonus>)
    -> bool {
    list.len() == at.len() && forall|k: int|
        0 <= k < at.len() ==> (#[trigger] list[k])@ == BonusView::fresh(
            bonus_of(input[at[k].0][at[k].1]).unwrap(),
            at[k].0 as usize,
            at[k].1 as usize,
            SCALE,
        )
}

/// The upgrades are those of the cells `at`, one each and in order, as
/// built.
pub open spec fn upgrades_fit(input: Seq<Seq<i8>>, at: Seq<(int, int)>, list: Seq<Upgrade>)
    -> bool {
    list.len() == at.len() && forall|k: int|
        0 <= k < at.len() ==> #[trigger] list[k] == Upgrade::fresh(
            upgrade_of(input[at[k].0][at[k].1]).unwrap().0,
            upgrade_of(input[at[k].0][at[k].1]).unwrap().1,
            at[k].0 as usize,
            at[k].1 as usize,
            SCALE,
        )
}

/// The entities of the first `rows` rows are those that the terrain puts
/// there.
pub open spec fn entities_fit(input: Seq<Seq<i8>>, objs: Seq<Seq<GameObjs>>, rows: int) -> bool {
    forall|x: int, y: int|
        0 <= x < rows && 0 <= y < input[x].len() ==> entity_fits(
            input[x][y],
            x as usize,
            y as usize,
            #[trigger] objs[x][y],
        )
}

/// `grid` is a grid built from the terrain `input`. Its codes are the
/// terrain's with bonuses, upgrades and the goal taken out. Walls and blocks
/// have their entities. Every cell has a ground tile, every cell that the
/// terrain left `EMPTY` has grass, and every bonus and upgrade of the terrain
/// is in its list, all in row-major order.
pub open spec fn built_from(input: Seq<Seq<i8>>, grid: &Grid) -> bool {
    &&& grid.codes() == resolved(input)
    &&& same_shape(input, grid.entities())
    &&& entities_fit(input, grid.entities(), input.len() as int)
    &&& grounds_fit(scan_all(input, any_code()), grid.empty_vec@)
    &&& grasses_fit(scan_all(input, code_is_empty()), grid.grass_vec@)
    &&& bonuses_fit(input, scan_all(input, bonus_code()), grid.bonus_vec@)
    &&& upgrades_fit(input, scan_all(input, upgrade_code()), grid.upgrade_vec@)
}

/// A grid built from bordered terrain is well formed.
pub proof fn lemma_built_wf(input: Seq<Seq<i8>>, grid: &Grid)
    requires
        built_from(input, grid),
        bordered(input),
    ensures
        grid.wf(),
{
    let objs = grid.entities();
    let v = vacancies(objs);
    let rows = input.len() as int;
    assert forall|x: int| 0 <= x < v.len() implies (#[trigger] v[x]).len() == v[0].len() by {
        assert(input[x].len() == input[0].len());
    }
    assert forall|k: int| 0 <= k < grid.bonus_vec.len() implies (
    #[trigger] grid.bonus_vec[k])@.wf() by {
        lemma_scan_keeps(input, bonus_code(), rows, 0, k);
    }
}

/// Every cell that a scan lists is a cell before `(i, j)` whose code `keep`
/// holds of.
pub proof fn lemma_scan_keeps(
    cells: Seq<Seq<i8>>,
    keep: spec_fn(i8) -> bool,
    i: int,
    j: int,
    k: int,
)
    requires
        0 <= k < scan(cells, keep, i, j).len(),
        i <= cells.len(),
        i < cells.len() ==> j <= cells[i].len(),
        i == cells.len() ==> j == 0,
    ensures
        ({
            let p = scan(cells, keep, i, j)[k];
            within(cells, p.0, p.1) && keep(cells[p.0][p.1])
        }),
    decreases i, j,
{
    if i < 0 || j < 0 {
    } else if j > 0 {
        let before = scan(cells, keep, i, j - 1);
        if k < before.len() {
            lemma_scan_keeps(cells, keep, i, j - 1, k);
        }
    } else if i > 0 {
        lemma_scan_keeps(cells, keep, i - 1, cells[i - 1].len() as int, k);
    }
}

fn bonus_kind(code: i8) -> (kind: Option<BonusType>)
    ensures
        kind == bonus_of(code),
{
    if code == HEART {
        Some(BonusType::Heart)
    } else if code == CASH {
        Some(BonusType::Cash)
    } else if code == SILVER_COIN {
        Some(BonusType::SilverCoin)
    } else if code == GOLD_COIN {
        Some(BonusType::GoldCoin)
    } else if code == DIAMOND {
        Some(BonusType::Diamond)
    } else {
        None
    }
}

fn upgrade_kind(code: i8) -> (kind: Option<(UpgradeType, usize)>)
    ensures
        kind == upgrade_of(code),
{
    if code == BOMB_BLACK_2X {
        Some((UpgradeType::BlackBomb, 2))
    } else if code == BOMB_BLACK_3X {
        Some((UpgradeType::BlackBomb, 3))
    } else if code == BOMB_PURPLE_2X {
        Some((UpgradeType::PurpleBomb, 2))
    } else if code == BOMB_PURPLE_3X {
        Some((UpgradeType::PurpleBomb, 3))
    } else {
        None
    }
}

impl Grid {
    /// Builds the grid for a terrain: resolves every code into what stays
    /// in the cell, the entity that stands on it and the tiles, bonuses and
    /// upgrades that go into the lists.
    pub fn from_cells(cells: Vec<Vec<i8>>) -> (grid: Grid)
        requires
            fits_screen(code_rows(cells)),
        ensures
            built_from(code_rows(cells), &grid),
            bordered(code_rows(cells)) ==> grid.wf(),
    {
        let ghost input = code_rows(cells);
        let mut empty_vec: Vec<Empty> = Vec::new();
        let mut grass_vec: Vec<Grass> = Vec::new();
        let mut bonus_vec: Vec<Bonus> = Vec::new();
        let mut upgrade_vec: Vec<Upgrade> = Vec::new();
        let mut codes: Vec<Vec<i8>> = Vec::new();
        let mut game_objs: Vec<Vec<GameObjs>> = Vec::new();
        let rows = cells.len();
        let mut i: usize = 0;
        while i < rows
            invariant
                i <= rows,
                rows == cells.len(),
                input == code_rows(cells),
                fits_screen(input),
                codes.len() == i,
                game_objs.len() == i,
                forall|x: int| 0 <= x < i ==> (#[trigger] codes[x])@ == resolved(input)[x],
                forall|x: int| 0 <= x < i ==> (#[trigger] game_objs[x]).len() == input[x].len(),
                entities_fit(input, obj_rows(game_objs), i as int),
                grounds_fit(scan(input, any_code(), i as int, 0), empty_vec@),
                grasses_fit(scan(input, code_is_empty(), i as int, 0), grass_vec@),
                bonuses_fit(input, scan(input, bonus_code(), i as int, 0), bonus_vec@),
                upgrades_fit(input, scan(input, upgrade_code(), i as int, 0), upgrade_vec@),
            decreases rows - i,
        {
            let cols = cells[i].len();
            let mut row: Vec<i8> = Vec::new();
            let mut row_objs: Vec<GameObjs> = Vec::new();
            let mut j: usize = 0;
            while j < cols
                invariant
                    i < rows,
                    j <= cols,
                    rows == cells.len(),
                    cols == cells[i as int].len(),
                    input == code_rows(cells),
                    input[i as int] == cells[i as int]@,
                    fits_screen(input),
                    row.len() == j,
                    row_objs.len() == j,
                    forall|y: int| 0 <= y < j ==> #[trigger] row[y] == settled_code(input[i as int][y]),
                    forall|y: int|
                        0 <= y < j ==> entity_fits(
                            input[i as int][y],
                            i,
                            y as usize,
                            #[trigger] row_objs[y],
                        ),
                    grounds_fit(scan(input, any_code(), i as int, j as int), empty_vec@),
                    grasses_fit(scan(input, code_is_empty(), i as int, j as int), grass_vec@),
                    bonuses_fit(input, scan(input, bonus_code(), i as int, j as int), bonus_vec@),
                    upgrades_fit(
                        input,
                        scan(input, upgrade_code(), i as int, j as int),
                        upgrade_vec@,
                    ),
                decreases cols - j,
            {
                let code = cells[i][j];
                let mut left = code;
                let mut obj = GameObjs::Default;
                let ghost (x, y) = (i as int, j as int);
                if code == WALL {
                    obj = GameObjs::Wall(Wall::new(i, j, SCALE));
                } else if code == BLOCK {
                    obj = GameObjs::Block(Block::new(i, j, SCALE));
                } else if code == EMPTY {
                    let grass = Grass::new(i, j, SCALE);
                    grass_vec.push(grass);
                } else if code == WIN_CELL {
                    left = EMPTY;
                } else {
                    match bonus_kind(code) {
                        Some(kind) => {
                            bonus_vec.push(Bonus::new(kind, i, j, SCALE));
                            left = EMPTY;
                        },
                        None => {
                            match upgrade_kind(code) {
                                Some((kind, val)) => {
                                    upgrade_vec.push(Upgrade::new(kind, val, i, j, SCALE));
                                    left = EMPTY;
                                },
                                None => {},
                            }
                        },
                    }
                }
                let ground = Empty::new(i, j, SCALE);
                proof {
                    let roll = choose|roll: usize|
                        roll < MAX_RAND_FRAME && ground == #[trigger] Empty::rolled(
                            i,
                            j,
                            SCALE,
                            roll,
                        );
                    assert(ground == Empty::rolled(x as usize, y as usize, SCALE, roll));
                }
                empty_vec.push(ground);
                row.push(left);
                row_objs.push(obj);
                j += 1;
            }
            let ghost done = obj_rows(game_objs);
            codes.push(row);
            game_objs.push(row_objs);
            proof {
                let now = obj_rows(game_objs);
                assert forall|x: int, y: int|
                    0 <= x < i + 1 && 0 <= y < input[x].len() implies entity_fits(
                    input[x][y],
                    x as usize,
                    y as usize,
                    #[trigger] now[x][y],
                ) by {
                    if x < i {
                        assert(now[x] == done[x]);
                    }
                }
            }
            i += 1;
        }
        let grid = Grid { empty_vec, grass_vec, bonus_vec, upgrade_vec, cells: codes, game_objs };
        proof {
            assert(grid.codes() =~= resolved(input));
            if bordered(input) {
                lemma_built_wf(input, &grid);
            }
        }
        grid
    }

    /// Builds the standard grid of `ROWS` by `COLS` cells from one noise
    /// sample per cell, given in millionths.
    pub fn new(samples: &Vec<Vec<i32>>) -> (grid: Grid)
        requires
            samples.len() == ROWS,
            forall|i: int| 0 <= i < ROWS ==> (#[trigger] samples[i]).len() == COLS,
        ensures
            built_from(terrain(ROWS as int, COLS as int, sample_rows(*samples)), &grid),
            grid.wf(),
    {
        let cells = noise(ROWS, COLS, samples);
        Grid::from_cells(cells)
    }
}

} // verus!
