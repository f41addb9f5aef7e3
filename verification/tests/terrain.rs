use bomberman::bonus::{Bonus, BonusType};
use bomberman::geometry::{Rectangle, SCALE};
use bomberman::grid::{GameObjs, Grid};
use bomberman::noise::{
    noise, BLOCK, BOMB, BOMB_BLACK_2X, BOMB_BLACK_3X, BOMB_BLUE_2X, BOMB_BLUE_3X,
    BOMB_PURPLE_2X, BOMB_PURPLE_3X, BOMB_RED_2X, BOMB_RED_3X, CASH,
    CASH_THRESHOLD, DIAMOND, EMPTY, GOLD_COIN, HEART, SILVER_COIN, WALL, WALL_THRESHOLD,
    WIN_CELL,
};
use bomberman::objects::Wall;
use bomberman::setup::{COLS, ROWS};
use bomberman::upgrade::{Upgrade, UpgradeType};

#[test]
fn terrain_codes_have_their_values() {
    assert_eq!((EMPTY, BLOCK, WALL, BOMB, WIN_CELL), (0, 1, 2, 3, 100));
    assert_eq!((HEART, SILVER_COIN, GOLD_COIN, DIAMOND, CASH), (8, 9, 10, 11, 12));
    assert_eq!(
        (BOMB_BLACK_2X, BOMB_PURPLE_2X, BOMB_BLACK_3X, BOMB_PURPLE_3X),
        (4, 5, 6, 7)
    );
    assert_eq!((BOMB_BLUE_2X, BOMB_RED_2X, BOMB_BLUE_3X, BOMB_RED_3X), (4, 5, 6, 7));
}

#[test]
fn noise_walls_in_the_grid_and_sets_pillars() {
    let samples = vec![vec![0; 7]; 7];
    let grid = noise(7, 7, &samples);
    assert_eq!(grid.len(), 7);
    for i in 0..7 {
        assert_eq!(grid[i].len(), 7);
        for j in 0..7 {
            let border = i == 0 || j == 0 || i == 6 || j == 6;
            let pillar = i % 2 == 0 && j % 2 == 0 && i != 5 && j != 5;
            let want = if border || pillar { BLOCK } else { EMPTY };
            assert_eq!(grid[i][j], want, "cell ({}, {})", i, j);
        }
    }
    assert_eq!(grid[2][2], BLOCK);
    assert_eq!(grid[4][4], BLOCK);
    assert_eq!(grid[3][3], EMPTY);
}

#[test]
fn noise_leaves_out_the_pillars_of_the_last_but_one_row() {
    let samples = vec![vec![0; 6]; 6];
    let grid = noise(6, 6, &samples);
    assert_eq!(grid[2][2], BLOCK);
    assert_eq!(grid[4][4], EMPTY);
    assert_eq!(grid[2][4], EMPTY);
    assert_eq!(grid[4][2], EMPTY);
}

#[test]
fn noise_turns_samples_into_walls_and_upgrades_at_the_thresholds() {
    let mut samples = vec![vec![0; 5]; 5];
    samples[1][1] = WALL_THRESHOLD;
    samples[1][2] = WALL_THRESHOLD - 1;
    samples[1][3] = CASH_THRESHOLD + 1;
    samples[2][1] = CASH_THRESHOLD;
    samples[3][1] = -5;
    samples[3][3] = 1_000_000;
    samples[2][2] = 1_000_000;
    samples[0][0] = 1_000_000;
    let grid = noise(5, 5, &samples);
    assert_eq!(grid[1][1], WALL);
    assert_eq!(grid[1][2], BOMB_BLACK_2X);
    assert_eq!(grid[1][3], BOMB_BLACK_2X);
    assert_eq!(grid[2][1], EMPTY);
    assert_eq!(grid[3][1], EMPTY);
    assert_eq!(grid[3][3], WALL);
    assert_eq!(grid[2][2], BLOCK);
    assert_eq!(grid[0][0], BLOCK);
    assert_eq!((WALL_THRESHOLD, CASH_THRESHOLD), (20_000, 200));
}

#[test]
fn noise_of_no_cells_is_empty() {
    let grid = noise(0, 0, &vec![]);
    assert!(grid.is_empty());
    let grid = noise(2, 0, &vec![vec![], vec![]]);
    assert_eq!(grid, vec![Vec::<i8>::new(), Vec::<i8>::new()]);
}

fn sample_terrain() -> Vec<Vec<i8>> {
    vec![
        vec![BLOCK, BLOCK, BLOCK, BLOCK, BLOCK],
        vec![BLOCK, WALL, HEART, BOMB_BLACK_2X, BLOCK],
        vec![BLOCK, EMPTY, WIN_CELL, BOMB_BLACK_3X, BLOCK],
        vec![BLOCK, CASH, BOMB_PURPLE_2X, BOMB_PURPLE_3X, BLOCK],
        vec![BLOCK, BLOCK, BLOCK, BLOCK, BLOCK],
    ]
}

#[test]
fn from_cells_resolves_codes_and_entities() {
    let grid = Grid::from_cells(sample_terrain());
    assert_eq!(
        grid.cells,
        vec![
            vec![BLOCK, BLOCK, BLOCK, BLOCK, BLOCK],
            vec![BLOCK, WALL, EMPTY, EMPTY, BLOCK],
            vec![BLOCK, EMPTY, EMPTY, EMPTY, BLOCK],
            vec![BLOCK, EMPTY, EMPTY, EMPTY, BLOCK],
            vec![BLOCK, BLOCK, BLOCK, BLOCK, BLOCK],
        ]
    );
    assert_eq!(grid.game_objs.len(), 5);
    for i in 0..5 {
        assert_eq!(grid.game_objs[i].len(), 5);
        for j in 0..5 {
            let border = i == 0 || j == 0 || i == 4 || j == 4;
            match grid.game_objs[i][j] {
                GameObjs::Block(block) => {
                    assert!(border);
                    assert_eq!(
                        block.rec2,
                        Rectangle {
                            x: 4800 * i as i64,
                            y: 4800 * j as i64,
                            width: 4800,
                            height: 4800
                        }
                    );
                }
                GameObjs::Wall(wall) => {
                    assert_eq!((i, j), (1, 1));
                    assert_eq!(wall, Wall::new(1, 1, SCALE));
                }
                GameObjs::Default => assert!(!border && (i, j) != (1, 1)),
                _ => panic!("unexpected entity"),
            }
        }
    }
}

#[test]
fn from_cells_lists_tiles_bonuses_and_upgrades_in_row_major_order() {
    let grid = Grid::from_cells(sample_terrain());
    assert_eq!(grid.empty_vec.len(), 25);
    for k in 0..25 {
        let (i, j) = (k / 5, k % 5);
        assert_eq!(grid.empty_vec[k].rec2.x, 4800 * i as i64);
        assert_eq!(grid.empty_vec[k].rec2.y, 4800 * j as i64);
        assert_eq!(grid.empty_vec[k].rec.y, 32);
    }
    assert_eq!(grid.grass_vec.len(), 1);
    assert_eq!(
        grid.grass_vec[0].rec2,
        Rectangle { x: 9600, y: 4800, width: 4800, height: 4800 }
    );
    assert_eq!(grid.grass_vec[0].rec.y, 112);

    assert_eq!(grid.bonus_vec.len(), 2);
    assert_eq!(grid.bonus_vec[0].bonus_type, BonusType::Heart);
    assert_eq!(grid.bonus_vec[0].get_position(), (1, 2));
    assert_eq!(grid.bonus_vec[1].bonus_type, BonusType::Cash);
    assert_eq!(grid.bonus_vec[1].get_position(), (3, 1));

    assert_eq!(
        grid.upgrade_vec,
        vec![
            Upgrade::new(UpgradeType::BlackBomb, 2, 1, 3, SCALE),
            Upgrade::new(UpgradeType::BlackBomb, 3, 2, 3, SCALE),
            Upgrade::new(UpgradeType::PurpleBomb, 2, 3, 2, SCALE),
            Upgrade::new(UpgradeType::PurpleBomb, 3, 3, 3, SCALE),
        ]
    );
}

#[test]
fn from_cells_keeps_codes_it_does_not_know() {
    let grid = Grid::from_cells(vec![vec![BOMB, -3, 50], vec![SILVER_COIN, GOLD_COIN, DIAMOND]]);
    assert_eq!(grid.cells, vec![vec![BOMB, -3, 50], vec![EMPTY, EMPTY, EMPTY]]);
    assert_eq!(grid.game_objs, vec![vec![GameObjs::Default; 3]; 2]);
    assert_eq!(grid.grass_vec.len(), 0);
    let kinds: Vec<BonusType> = grid.bonus_vec.iter().map(|b: &Bonus| b.bonus_type).collect();
    assert_eq!(kinds, vec![BonusType::SilverCoin, BonusType::GoldCoin, BonusType::Diamond]);
}

#[test]
fn standard_grid_is_walled_in() {
    let mut samples = vec![vec![0; COLS]; ROWS];
    samples[1][1] = 30_000;
    samples[1][2] = 300;
    let grid = Grid::new(&samples);
    assert_eq!((ROWS, COLS), (32, 18));
    assert_eq!(grid.cells.len(), ROWS);
    assert_eq!(grid.game_objs.len(), ROWS);
    for i in 0..ROWS {
        assert_eq!(grid.cells[i].len(), COLS);
        assert_eq!(grid.game_objs[i].len(), COLS);
        for j in 0..COLS {
            if i == 0 || j == 0 || i == ROWS - 1 || j == COLS - 1 {
                assert_eq!(grid.cells[i][j], BLOCK);
                assert!(matches!(grid.game_objs[i][j], GameObjs::Block(_)));
            }
        }
    }
    assert_eq!(grid.cells[1][1], WALL);
    assert_eq!(grid.game_objs[1][1], GameObjs::Wall(Wall::new(1, 1, SCALE)));
    assert_eq!(grid.cells[1][2], EMPTY);
    assert_eq!(grid.upgrade_vec, vec![Upgrade::new(UpgradeType::BlackBomb, 2, 1, 2, SCALE)]);
    assert_eq!(grid.cells[2][2], BLOCK);
    assert_eq!(grid.cells[30][16], EMPTY);
    assert_eq!(grid.empty_vec.len(), ROWS * COLS);
}

#[test]
fn a_tick_on_the_standard_grid_leaves_idle_terrain_alone() {
    let samples = vec![vec![25_000; COLS]; ROWS];
    let mut grid = Grid::new(&samples);
    let cells = grid.cells.clone();
    let objs = grid.game_objs.clone();
    let heard = grid.update(16);
    assert!(heard.is_empty());
    assert_eq!(grid.cells, cells);
    assert_eq!(grid.game_objs, objs);
}
