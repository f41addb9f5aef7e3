use bomberman::bomb::{
    Bomb, Direction, Extent, Flame, EXPLOSION, FLAME_END_DOWN, FLAME_END_LEFT, FLAME_END_RIGHT,
    FLAME_END_TOP, FLAME_MID_DOWN, FLAME_MID_LEFT, FLAME_MID_RIGHT, FLAME_MID_TOP,
    MAX_BOMB_POWER,
};
use bomberman::geometry::SCALE;
use bomberman::grid::{GameObjs, Grid};
use bomberman::noise::{BLOCK, BOMB, EMPTY, WALL};
use bomberman::objects::{Block, State, Wall};

fn bordered(n: usize) -> Grid {
    let mut cells = vec![vec![EMPTY; n]; n];
    let mut game_objs = vec![vec![GameObjs::Default; n]; n];
    for i in 0..n {
        for j in 0..n {
            if i == 0 || j == 0 || i == n - 1 || j == n - 1 {
                cells[i][j] = BLOCK;
                game_objs[i][j] = GameObjs::Block(Block::with_roll(i, j, SCALE, 0));
            }
        }
    }
    Grid {
        empty_vec: vec![],
        grass_vec: vec![],
        bonus_vec: vec![],
        upgrade_vec: vec![],
        cells,
        game_objs,
    }
}

fn lit(grid: &mut Grid, r: usize, c: usize, power: usize) {
    let mut bomb = Bomb::new();
    bomb.power = power;
    bomb.state = State::EXPLOADING;
    bomb.set_position(r, c);
    grid.cells[r][c] = EXPLOSION;
    grid.game_objs[r][c] = GameObjs::Bomb(bomb);
}

fn wall(grid: &mut Grid, r: usize, c: usize) {
    grid.cells[r][c] = WALL;
    grid.game_objs[r][c] = GameObjs::Wall(Wall::new(r, c, SCALE));
}

#[test]
fn inject_writes_a_cross_of_power_two() {
    let mut grid = bordered(7);
    lit(&mut grid, 3, 3, 2);
    grid.inject_flames(2, 3, 3);
    assert_eq!(grid.cells[3][3], EXPLOSION);
    assert_eq!(grid.cells[2][3], FLAME_MID_LEFT);
    assert_eq!(grid.cells[1][3], FLAME_END_LEFT);
    assert_eq!(grid.cells[4][3], FLAME_MID_RIGHT);
    assert_eq!(grid.cells[5][3], FLAME_END_RIGHT);
    assert_eq!(grid.cells[3][2], FLAME_MID_TOP);
    assert_eq!(grid.cells[3][1], FLAME_END_TOP);
    assert_eq!(grid.cells[3][4], FLAME_MID_DOWN);
    assert_eq!(grid.cells[3][5], FLAME_END_DOWN);
    assert_eq!(grid.cells[2][2], EMPTY);
    assert_eq!(grid.cells[0][3], BLOCK);
}

#[test]
fn inject_in_the_open_changes_four_times_power_cells() {
    let power = 3;
    let mut grid = bordered(11);
    lit(&mut grid, 5, 5, power);
    let before = grid.cells.clone();
    grid.inject_flames(power, 5, 5);
    let mut changed = 0;
    for i in 0..11 {
        for j in 0..11 {
            if grid.cells[i][j] != before[i][j] {
                changed += 1;
            }
        }
    }
    assert_eq!(changed, 4 * power);
    for k in 1..power {
        assert_eq!(grid.cells[5 - k][5], FLAME_MID_LEFT);
        assert_eq!(grid.cells[5 + k][5], FLAME_MID_RIGHT);
        assert_eq!(grid.cells[5][5 - k], FLAME_MID_TOP);
        assert_eq!(grid.cells[5][5 + k], FLAME_MID_DOWN);
    }
    assert_eq!(grid.cells[5 - power][5], FLAME_END_LEFT);
    assert_eq!(grid.cells[5 + power][5], FLAME_END_RIGHT);
    assert_eq!(grid.cells[5][5 - power], FLAME_END_TOP);
    assert_eq!(grid.cells[5][5 + power], FLAME_END_DOWN);
}

#[test]
fn inject_does_nothing_without_a_detonation() {
    let mut grid = bordered(7);
    grid.cells[3][3] = BOMB;
    grid.game_objs[3][3] = GameObjs::Bomb(Bomb::new());
    let before = grid.cells.clone();
    grid.inject_flames(2, 3, 3);
    grid.inject_flames_obj(2, 3, 3);
    assert_eq!(grid.cells, before);
    assert_eq!(grid.game_objs[2][3], GameObjs::Default);
}

#[test]
fn a_wall_absorbs_the_blast() {
    let mut grid = bordered(9);
    lit(&mut grid, 4, 4, 3);
    wall(&mut grid, 4, 6);
    grid.inject_flames(3, 4, 4);
    assert_eq!(grid.cells[4][5], FLAME_MID_DOWN);
    assert_eq!(grid.cells[4][6], WALL);
    assert_eq!(grid.cells[4][7], EMPTY);
    assert_eq!(grid.cells[4][3], FLAME_MID_TOP);
    assert_eq!(grid.cells[4][2], FLAME_MID_TOP);
    assert_eq!(grid.cells[4][1], FLAME_END_TOP);
}

#[test]
fn a_block_next_to_the_bomb_absorbs_the_whole_arm() {
    let mut grid = bordered(9);
    lit(&mut grid, 4, 4, 3);
    grid.cells[3][4] = BLOCK;
    grid.game_objs[3][4] = GameObjs::Block(Block::with_roll(3, 4, SCALE, 1));
    grid.inject_flames_obj(3, 4, 4);
    grid.inject_flames(3, 4, 4);
    assert_eq!(grid.cells[3][4], BLOCK);
    assert_eq!(grid.cells[2][4], EMPTY);
    assert_eq!(grid.cells[1][4], EMPTY);
    assert_eq!(grid.game_objs[2][4], GameObjs::Default);
    assert_eq!(grid.cells[5][4], FLAME_MID_RIGHT);
}

#[test]
fn the_border_stops_an_arm_before_its_tip() {
    let mut grid = bordered(5);
    lit(&mut grid, 2, 2, 4);
    grid.inject_flames(4, 2, 2);
    assert_eq!(grid.cells[1][2], FLAME_MID_LEFT);
    assert_eq!(grid.cells[0][2], BLOCK);
    assert_eq!(grid.cells[3][2], FLAME_MID_RIGHT);
    assert_eq!(grid.cells[4][2], BLOCK);
}

#[test]
fn inject_obj_spawns_the_flames_that_match_the_codes() {
    let mut grid = bordered(7);
    lit(&mut grid, 3, 3, 2);
    grid.inject_flames_obj(2, 3, 3);
    grid.inject_flames(2, 3, 3);
    assert_eq!(
        grid.game_objs[2][3],
        GameObjs::Flame(Flame::new(Direction::Left, Extent::Mid))
    );
    assert_eq!(
        grid.game_objs[1][3],
        GameObjs::Flame(Flame::new(Direction::Left, Extent::End))
    );
    assert_eq!(
        grid.game_objs[3][5],
        GameObjs::Flame(Flame::new(Direction::Down, Extent::End))
    );
    for i in 1..6 {
        for j in 1..6 {
            match grid.game_objs[i][j] {
                GameObjs::Flame(flame) => assert_eq!(flame.signal(), grid.cells[i][j]),
                GameObjs::Default => assert_eq!(grid.cells[i][j], EMPTY),
                GameObjs::Bomb(_) => assert_eq!(grid.cells[i][j], EXPLOSION),
                _ => panic!("unexpected entity"),
            }
        }
    }
}

#[test]
fn a_second_injection_writes_nothing() {
    let mut grid = bordered(9);
    lit(&mut grid, 4, 4, 2);
    wall(&mut grid, 4, 6);
    grid.inject_flames_obj(2, 4, 4);
    grid.inject_flames(2, 4, 4);
    let cells = grid.cells.clone();
    let objs = grid.game_objs.clone();
    grid.inject_flames_obj(2, 4, 4);
    grid.inject_flames(2, 4, 4);
    assert_eq!(grid.cells, cells);
    assert_eq!(grid.game_objs, objs);
}

#[test]
fn eject_clears_what_inject_wrote() {
    let mut grid = bordered(7);
    lit(&mut grid, 3, 3, 2);
    grid.inject_flames_obj(2, 3, 3);
    grid.inject_flames(2, 3, 3);
    grid.eject_flames(3, 3);
    for i in 1..6 {
        for j in 1..6 {
            assert_eq!(grid.cells[i][j], EMPTY);
            if (i, j) != (3, 3) {
                assert_eq!(grid.game_objs[i][j], GameObjs::Default);
            }
        }
    }
    assert!(matches!(grid.game_objs[3][3], GameObjs::Bomb(_)));
    assert_eq!(grid.cells[0][3], BLOCK);
}

#[test]
fn eject_clears_every_power_up_to_the_largest() {
    let n = 2 * MAX_BOMB_POWER + 3;
    let mid = MAX_BOMB_POWER + 1;
    let mut grid = bordered(n);
    lit(&mut grid, mid, mid, MAX_BOMB_POWER);
    grid.inject_flames_obj(MAX_BOMB_POWER, mid, mid);
    grid.inject_flames(MAX_BOMB_POWER, mid, mid);
    assert_eq!(grid.cells[1][mid], FLAME_END_LEFT);
    grid.eject_flames(mid, mid);
    for i in 1..n - 1 {
        for j in 1..n - 1 {
            assert_eq!(grid.cells[i][j], EMPTY);
        }
    }
}

#[test]
fn eject_stops_at_solid_cells() {
    let mut grid = bordered(9);
    lit(&mut grid, 4, 4, 1);
    wall(&mut grid, 4, 6);
    grid.cells[4][7] = FLAME_MID_DOWN;
    grid.game_objs[4][7] = GameObjs::Flame(Flame::new(Direction::Down, Extent::Mid));
    grid.eject_flames(4, 4);
    assert_eq!(grid.cells[4][6], WALL);
    assert!(matches!(grid.game_objs[4][6], GameObjs::Wall(_)));
    assert_eq!(grid.cells[4][7], FLAME_MID_DOWN);
    assert!(matches!(grid.game_objs[4][7], GameObjs::Flame(_)));
}

#[test]
fn eject_unwinds_a_chain_of_detonations() {
    let mut grid = bordered(9);
    lit(&mut grid, 2, 2, 1);
    lit(&mut grid, 3, 2, 1);
    lit(&mut grid, 3, 3, 1);
    grid.cells[3][4] = FLAME_END_DOWN;
    grid.game_objs[3][4] = GameObjs::Flame(Flame::new(Direction::Down, Extent::End));
    grid.cells[6][6] = FLAME_END_DOWN;
    grid.game_objs[6][6] = GameObjs::Flame(Flame::new(Direction::Down, Extent::End));
    grid.eject_flames(2, 2);
    assert_eq!(grid.cells[2][2], EMPTY);
    assert_eq!(grid.cells[3][2], EMPTY);
    assert_eq!(grid.game_objs[3][2], GameObjs::Default);
    assert_eq!(grid.cells[3][3], EMPTY);
    assert_eq!(grid.game_objs[3][3], GameObjs::Default);
    assert_eq!(grid.cells[3][4], EMPTY);
    assert_eq!(grid.game_objs[3][4], GameObjs::Default);
    assert_eq!(grid.game_objs[2][2], GameObjs::Default);
    assert_eq!(grid.cells[6][6], FLAME_END_DOWN);
    assert!(matches!(grid.game_objs[6][6], GameObjs::Flame(_)));
}

#[test]
fn eject_reaches_no_further_than_the_largest_power() {
    let n = MAX_BOMB_POWER + 5;
    let mut grid = bordered(n);
    lit(&mut grid, 1, 1, 1);
    grid.cells[MAX_BOMB_POWER + 1][1] = FLAME_MID_RIGHT;
    grid.cells[MAX_BOMB_POWER + 2][1] = FLAME_END_RIGHT;
    grid.eject_flames(1, 1);
    assert_eq!(grid.cells[MAX_BOMB_POWER + 1][1], EMPTY);
    assert_eq!(grid.cells[MAX_BOMB_POWER + 2][1], FLAME_END_RIGHT);
}

#[test]
fn rm_game_obj_clears_code_and_entity_together() {
    let mut grid = bordered(5);
    wall(&mut grid, 2, 2);
    grid.rm_game_obj(2, 2);
    assert_eq!(grid.cells[2][2], EMPTY);
    assert_eq!(grid.game_objs[2][2], GameObjs::Default);
    assert_eq!(grid.cells[0][0], BLOCK);
}
