use bomberman::bomb::{
    Bomb, EXPLOSION, FLAME_END_DOWN, FLAME_END_LEFT, FLAME_END_RIGHT, FLAME_END_TOP,
    FLAME_MID_DOWN, FLAME_MID_LEFT, FLAME_MID_RIGHT, FLAME_MID_TOP,
};
use bomberman::geometry::SCALE;
use bomberman::grid::{GameObjs, Grid};
use bomberman::noise::{BLOCK, BOMB, EMPTY, WALL};
use bomberman::objects::{Block, State, Wall};

fn arena(n: usize) -> Grid {
    let mut cells = vec![vec![EMPTY; n]; n];
    let mut game_objs = vec![vec![GameObjs::Default; n]; n];
    for i in 0..n {
        for j in 0..n {
            if i == 0 || j == 0 || i == n - 1 || j == n - 1 {
                cells[i][j] = BLOCK;
                game_objs[i][j] = GameObjs::Block(Block::with_roll(i, j, SCALE, 0));
            }
        }
    }
    Grid {
        empty_vec: vec![],
        grass_vec: vec![],
        bonus_vec: vec![],
        upgrade_vec: vec![],
        cells,
        game_objs,
    }
}

fn plant(grid: &mut Grid, r: usize, c: usize, power: usize) {
    let mut bomb = Bomb::new();
    bomb.power = power;
    bomb.set_position(r, c);
    grid.cells[r][c] = BOMB;
    grid.game_objs[r][c] = GameObjs::Bomb(bomb);
}

fn bomb_at(grid: &Grid, r: usize, c: usize) -> Bomb {
    match grid.game_objs[r][c] {
        GameObjs::Bomb(bomb) => bomb,
        _ => panic!("no bomb"),
    }
}

#[test]
fn bomb_of_power_two_lives_and_dies_in_a_seven_by_seven_grid() {
    let mut grid = arena(7);
    plant(&mut grid, 3, 3, 2);

    let heard = grid.update(6999);
    assert!(heard.is_empty());
    assert_eq!(grid.cells[3][3], BOMB);
    assert_eq!(bomb_at(&grid, 3, 3).state, State::IDEAL);

    let heard = grid.update(1);
    assert!(heard.is_empty());
    assert_eq!(bomb_at(&grid, 3, 3).state, State::EXPLOADING);
    assert_eq!(grid.cells[3][3], EXPLOSION);
    assert_eq!(grid.cells[4][3], FLAME_MID_RIGHT);
    assert_eq!(grid.cells[2][3], FLAME_MID_LEFT);
    assert_eq!(grid.cells[5][3], FLAME_END_RIGHT);
    assert_eq!(grid.cells[1][3], FLAME_END_LEFT);
    assert_eq!(grid.cells[3][4], FLAME_MID_DOWN);
    assert_eq!(grid.cells[3][2], FLAME_MID_TOP);
    assert_eq!(grid.cells[3][5], FLAME_END_DOWN);
    assert_eq!(grid.cells[3][1], FLAME_END_TOP);
    for (i, j) in [(1, 1), (2, 2), (4, 4), (5, 5), (2, 4), (4, 2)] {
        assert_eq!(grid.cells[i][j], EMPTY);
    }

    let heard = grid.update(999);
    assert_eq!(heard, vec![(3, 3)]);
    assert_eq!(bomb_at(&grid, 3, 3).state, State::EXPLOADING);
    assert_eq!(grid.cells[5][3], FLAME_END_RIGHT);

    let heard = grid.update(1);
    assert_eq!(heard, vec![(3, 3)]);
    for i in 1..6 {
        for j in 1..6 {
            assert_eq!(grid.cells[i][j], EMPTY);
            assert_eq!(grid.game_objs[i][j], GameObjs::Default);
        }
    }
    for k in 0..7 {
        assert_eq!(grid.cells[0][k], BLOCK);
        assert_eq!(grid.cells[6][k], BLOCK);
        assert_eq!(grid.cells[k][0], BLOCK);
        assert_eq!(grid.cells[k][6], BLOCK);
    }
}

#[test]
fn an_idle_bomb_beside_a_detonation_goes_off_early() {
    let mut grid = arena(7);
    plant(&mut grid, 3, 3, 1);
    plant(&mut grid, 4, 3, 1);
    let mut a = bomb_at(&grid, 3, 3);
    a.exploading_time = 0;
    a.state = State::EXPLOADING;
    grid.game_objs[3][3] = GameObjs::Bomb(a);
    grid.cells[3][3] = EXPLOSION;
    let mut b = bomb_at(&grid, 4, 3);
    b.exploading_time = 1_000_000;
    grid.game_objs[4][3] = GameObjs::Bomb(b);

    let sound = grid.update_cell(4, 3, 16);
    assert!(!sound);
    let b = bomb_at(&grid, 4, 3);
    assert_eq!(b.state, State::EXPLOADING);
    assert_eq!(b.exploading_time, 999_984);
    assert_eq!(grid.cells[4][3], BOMB);
}

#[test]
fn a_chain_reaction_runs_through_the_sweep_of_one_tick() {
    let mut grid = arena(7);
    plant(&mut grid, 3, 3, 1);
    plant(&mut grid, 4, 3, 1);
    let mut a = bomb_at(&grid, 3, 3);
    a.exploading_time = 10;
    grid.game_objs[3][3] = GameObjs::Bomb(a);

    let heard = grid.update(10);
    assert!(heard.is_empty());
    assert_eq!(grid.cells[3][3], EXPLOSION);
    assert_eq!(grid.cells[2][3], FLAME_END_LEFT);
    assert_eq!(grid.cells[4][3], BOMB);
    let b = bomb_at(&grid, 4, 3);
    assert_eq!(b.state, State::EXPLOADING);
    assert_eq!(b.exploading_time, 6990);

    let heard = grid.update(10);
    assert_eq!(heard, vec![(3, 3), (4, 3)]);
    assert_eq!(grid.cells[4][3], EXPLOSION);
    assert_eq!(grid.cells[5][3], FLAME_END_RIGHT);
    assert_eq!(grid.cells[4][2], FLAME_END_TOP);
    assert_eq!(grid.cells[4][4], FLAME_END_DOWN);
}

#[test]
fn an_idle_bomb_at_the_tip_of_a_blast_does_not_chain() {
    let mut grid = arena(9);
    plant(&mut grid, 2, 4, 2);
    plant(&mut grid, 5, 4, 1);
    let mut a = bomb_at(&grid, 2, 4);
    a.exploading_time = 5;
    grid.game_objs[2][4] = GameObjs::Bomb(a);
    grid.update(5);
    assert_eq!(grid.cells[3][4], FLAME_MID_RIGHT);
    assert_eq!(grid.cells[4][4], FLAME_END_RIGHT);
    assert_eq!(bomb_at(&grid, 5, 4).state, State::IDEAL);
    grid.update(5);
    assert_eq!(bomb_at(&grid, 5, 4).state, State::IDEAL);
}

#[test]
fn an_idle_bomb_behind_a_mid_flame_chains() {
    let mut grid = arena(9);
    plant(&mut grid, 2, 4, 3);
    plant(&mut grid, 4, 4, 1);
    let mut a = bomb_at(&grid, 2, 4);
    a.exploading_time = 5;
    grid.game_objs[2][4] = GameObjs::Bomb(a);
    grid.update(5);
    assert_eq!(grid.cells[3][4], FLAME_MID_RIGHT);
    assert_eq!(grid.cells[4][4], BOMB);
    assert_eq!(bomb_at(&grid, 4, 4).state, State::EXPLOADING);
}

#[test]
fn a_wall_beside_a_detonation_burns_down_and_is_cleared() {
    let mut grid = arena(7);
    grid.cells[3][4] = WALL;
    grid.game_objs[3][4] = GameObjs::Wall(Wall::new(3, 4, SCALE));
    plant(&mut grid, 3, 3, 1);
    let mut a = bomb_at(&grid, 3, 3);
    a.exploading_time = 1;
    grid.game_objs[3][3] = GameObjs::Bomb(a);

    grid.update(1);
    assert_eq!(grid.cells[3][3], EXPLOSION);
    match grid.game_objs[3][4] {
        GameObjs::Wall(wall) => assert_eq!(wall.state, State::EXPLOADING),
        _ => panic!("no wall"),
    }
    assert_eq!(grid.cells[3][4], WALL);

    let mut ticks = 0;
    while grid.cells[3][4] == WALL {
        grid.update(221);
        ticks += 1;
        assert!(ticks < 40);
    }
    assert_eq!(grid.cells[3][4], EMPTY);
    assert_eq!(grid.game_objs[3][4], GameObjs::Default);
}

#[test]
fn a_wall_away_from_any_blast_stays_idle() {
    let mut grid = arena(7);
    grid.cells[2][2] = WALL;
    grid.game_objs[2][2] = GameObjs::Wall(Wall::new(2, 2, SCALE));
    grid.update(500);
    assert_eq!(grid.game_objs[2][2], GameObjs::Wall(Wall::new(2, 2, SCALE)));
}

#[test]
fn a_flame_left_of_a_wall_that_points_right_sets_it_on_fire() {
    let mut grid = arena(9);
    grid.cells[4][4] = WALL;
    grid.game_objs[4][4] = GameObjs::Wall(Wall::new(4, 4, SCALE));
    grid.cells[3][4] = FLAME_MID_RIGHT;
    let sound = grid.update_cell(4, 4, 10);
    assert!(!sound);
    match grid.game_objs[4][4] {
        GameObjs::Wall(wall) => assert_eq!(wall.state, State::EXPLOADING),
        _ => panic!("no wall"),
    }
}

#[test]
fn a_flame_left_of_a_wall_that_points_left_leaves_it_alone() {
    let mut grid = arena(9);
    grid.cells[4][4] = WALL;
    grid.game_objs[4][4] = GameObjs::Wall(Wall::new(4, 4, SCALE));
    grid.cells[3][4] = FLAME_MID_LEFT;
    grid.cells[5][4] = FLAME_MID_RIGHT;
    grid.cells[4][3] = FLAME_MID_TOP;
    grid.cells[4][5] = FLAME_MID_DOWN;
    grid.update_cell(4, 4, 10);
    match grid.game_objs[4][4] {
        GameObjs::Wall(wall) => assert_eq!(wall.state, State::IDEAL),
        _ => panic!("no wall"),
    }
}

#[test]
fn every_mirrored_mid_flame_chains_a_bomb() {
    let cases = [
        (3usize, 4usize, FLAME_MID_RIGHT),
        (5, 4, FLAME_MID_LEFT),
        (4, 3, FLAME_MID_DOWN),
        (4, 5, FLAME_MID_TOP),
    ];
    for (r, c, code) in cases {
        let mut grid = arena(9);
        plant(&mut grid, 4, 4, 1);
        grid.cells[r][c] = code;
        grid.update_cell(4, 4, 1);
        assert_eq!(bomb_at(&grid, 4, 4).state, State::EXPLOADING);
    }
    let ends = [
        (3usize, 4usize, FLAME_END_RIGHT),
        (5, 4, FLAME_END_LEFT),
        (4, 3, FLAME_END_DOWN),
        (4, 5, FLAME_END_TOP),
    ];
    for (r, c, code) in ends {
        let mut grid = arena(9);
        plant(&mut grid, 4, 4, 1);
        grid.cells[r][c] = code;
        grid.update_cell(4, 4, 1);
        assert_eq!(bomb_at(&grid, 4, 4).state, State::IDEAL);
    }
}
