use bomberman::bomb::{Bomb, Direction, Extent, Flame, EXPLOSION, FLAME_END_LEFT, FLAME_MID_LEFT};
use bomberman::geometry::{Rectangle, Sprite, SCALE};
use bomberman::grid::{GameObjs, Grid};
use bomberman::noise::{
    BLOCK, BOMB, BOMB_BLACK_2X, BOMB_BLACK_3X, BOMB_PURPLE_2X, BOMB_PURPLE_3X, CASH, EMPTY,
    HEART, WALL, WIN_CELL,
};
use bomberman::objects::{Block, State, Wall};
use bomberman::render::Draw;
use bomberman::upgrade::Label;

fn small() -> Grid {
    Grid::from_cells(vec![
        vec![BLOCK, BLOCK, BLOCK, BLOCK, BLOCK],
        vec![BLOCK, WALL, HEART, BOMB_BLACK_2X, BLOCK],
        vec![BLOCK, EMPTY, WIN_CELL, BOMB_BLACK_3X, BLOCK],
        vec![BLOCK, CASH, BOMB_PURPLE_2X, BOMB_PURPLE_3X, BLOCK],
        vec![BLOCK, BLOCK, BLOCK, BLOCK, BLOCK],
    ])
}

#[test]
fn the_shadow_depends_on_the_terrain_before_and_above() {
    let mut grid = small();
    assert_eq!(grid.get_shadow_val(1, 1), 64);
    assert_eq!(grid.get_shadow_val(1, 2), 64);
    assert_eq!(grid.get_shadow_val(2, 1), 64);
    assert_eq!(grid.get_shadow_val(2, 2), 16);
    assert_eq!(grid.get_shadow_val(2, 3), 0);
    assert_eq!(grid.get_shadow_val(1, 3), 48);
    assert_eq!(grid.get_shadow_val(3, 1), 32);
    grid.cells[1][1] = BOMB;
    assert_eq!(grid.get_shadow_val(2, 2), 0);
    assert_eq!(grid.get_shadow_val(2, 1), 32);
}

#[test]
fn ground_tiles_are_laid_under_every_cell_that_is_no_block() {
    let mut grid = small();
    let last = grid.empty_vec[9];
    let count = grid.lay_shadows();
    assert_eq!(count, 9);
    let cells = [(1, 1), (1, 2), (1, 3), (2, 1), (2, 2), (2, 3), (3, 1), (3, 2), (3, 3)];
    let shadows = [64, 64, 48, 64, 16, 0, 32, 0, 0];
    for k in 0..9 {
        let (i, j) = cells[k];
        assert_eq!(
            grid.empty_vec[k].rec2,
            Rectangle { x: 4800 * i, y: 4800 * j, width: 4800, height: 4800 }
        );
        assert_eq!(
            grid.empty_vec[k].rec,
            Rectangle { x: shadows[k], y: 32, width: 16, height: 16 }
        );
    }
    assert_eq!(grid.empty_vec[9], last);
    assert_eq!(grid.empty_vec.len(), 25);
}

#[test]
fn entities_are_drawn_by_their_kind_and_state() {
    let mut none = GameObjs::Default;
    assert_eq!(none.draw(1, 1, EMPTY), None);

    let block = Block::with_roll(0, 1, SCALE, 2);
    let mut obj = GameObjs::Block(block);
    assert_eq!(obj.draw(0, 1, BLOCK), Some(Sprite { src: block.rec, dst: block.rec2 }));
    assert_eq!(obj, GameObjs::Block(block));

    let mut wall = Wall::new(1, 1, SCALE);
    for (state, shown) in
        [(State::IDEAL, true), (State::EXPLOADING, true), (State::EXPLOADED, false)]
    {
        wall.state = state;
        let mut obj = GameObjs::Wall(wall);
        let want = if shown { Some(Sprite { src: wall.rec, dst: wall.rec2 }) } else { None };
        assert_eq!(obj.draw(1, 1, WALL), want);
        assert_eq!(obj, GameObjs::Wall(wall));
    }

    let mut bomb = Bomb::new();
    bomb.set_position(2, 2);
    let mut obj = GameObjs::Bomb(bomb);
    assert_eq!(obj.draw(2, 2, BOMB), Some(Sprite { src: bomb.rec, dst: bomb.rec2 }));
    bomb.state = State::EXPLOADING;
    let mut obj = GameObjs::Bomb(bomb);
    assert_eq!(obj.draw(2, 2, BOMB), None);
    assert_eq!(obj, GameObjs::Bomb(bomb));
    assert_eq!(
        obj.draw(2, 2, EXPLOSION),
        Some(Sprite {
            src: bomb.exp_rec,
            dst: Rectangle { x: 9600, y: 9600, width: 4800, height: 4800 }
        })
    );
    match obj {
        GameObjs::Bomb(moved) => assert_eq!(moved.exp_rec2.x, 9600),
        _ => panic!("no bomb"),
    }
    bomb.state = State::EXPLOADED;
    let mut obj = GameObjs::Bomb(bomb);
    assert_eq!(obj.draw(2, 2, EXPLOSION), None);

    let flame = Flame::new(Direction::Left, Extent::Mid);
    let mut obj = GameObjs::Flame(flame);
    assert_eq!(obj.draw(3, 1, FLAME_END_LEFT), None);
    assert_eq!(obj, GameObjs::Flame(flame));
    assert_eq!(
        obj.draw(3, 1, FLAME_MID_LEFT),
        Some(Sprite {
            src: flame.rec,
            dst: Rectangle { x: 14400, y: 4800, width: 4800, height: 4800 }
        })
    );
}

#[test]
fn the_grid_is_drawn_layer_by_layer() {
    let mut grid = small();
    let list = grid.draw();
    assert_eq!(list.len(), 9 + 1 + 2 + 8 + 17);
    assert_eq!(
        list[0],
        Draw::Sprite(Sprite {
            src: Rectangle { x: 64, y: 32, width: 16, height: 16 },
            dst: Rectangle { x: 4800, y: 4800, width: 4800, height: 4800 }
        })
    );
    assert_eq!(
        list[5],
        Draw::Sprite(Sprite {
            src: Rectangle { x: 0, y: 32, width: 16, height: 16 },
            dst: Rectangle { x: 9600, y: 14400, width: 4800, height: 4800 }
        })
    );
    assert_eq!(list[9], Draw::Sprite(grid.grass_vec[0].draw()));
    assert_eq!(list[10], Draw::Sprite(grid.bonus_vec[0].draw().unwrap()));
    assert_eq!(list[11], Draw::Sprite(grid.bonus_vec[1].draw().unwrap()));
    for k in 0..4 {
        assert_eq!(list[12 + 2 * k], Draw::Sprite(grid.upgrade_vec[k].draw().unwrap()));
        assert_eq!(list[13 + 2 * k], Draw::Label(grid.upgrade_vec[k].draw_val().unwrap()));
    }
    assert_eq!(list[13], Draw::Label(Label { count: 2, x: 68, y: 164, size: 20 }));
    for k in 0..5 {
        match (list[20 + k], grid.game_objs[0][k]) {
            (Draw::Sprite(sprite), GameObjs::Block(block)) => {
                assert_eq!(sprite, Sprite { src: block.rec, dst: block.rec2 })
            }
            _ => panic!("no block"),
        }
    }
    let wall = Wall::new(1, 1, SCALE);
    assert_eq!(list[26], Draw::Sprite(Sprite { src: wall.rec, dst: wall.rec2 }));
}

#[test]
fn taken_pickups_and_spent_entities_are_left_out() {
    let mut grid = small();
    grid.rm_bonus_obj(0);
    grid.rm_upgrade_obj(2);
    match grid.game_objs[1][1] {
        GameObjs::Wall(mut wall) => {
            wall.state = State::EXPLOADED;
            grid.game_objs[1][1] = GameObjs::Wall(wall);
        }
        _ => panic!("no wall"),
    }
    grid.cells[2][2] = FLAME_MID_LEFT;
    grid.game_objs[2][2] = GameObjs::Flame(Flame::new(Direction::Left, Extent::Mid));
    grid.cells[3][3] = EMPTY;
    grid.game_objs[3][3] = GameObjs::Flame(Flame::new(Direction::Left, Extent::End));
    let list = grid.draw();
    assert_eq!(list.len(), 9 + 1 + 1 + 6 + 16 + 1);
    match grid.game_objs[2][2] {
        GameObjs::Flame(flame) => {
            assert_eq!(
                flame.rec2,
                Rectangle { x: 9600, y: 9600, width: 4800, height: 4800 }
            );
            assert_eq!(
                list[9 + 1 + 1 + 6 + 8],
                Draw::Sprite(Sprite { src: flame.rec, dst: flame.rec2 })
            );
        }
        _ => panic!("no flame"),
    }
    match grid.game_objs[3][3] {
        GameObjs::Flame(flame) => assert_eq!(flame.rec2.x, 0),
        _ => panic!("no flame"),
    }
}
