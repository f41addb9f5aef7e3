//! What holds of every blast, every retraction and every collision query.

use vstd::prelude::*;
use crate::blast::{
    arm_of, clear_run, empties, extent_at, injected, passable, reached, same_shape, spawned,
    step_c, step_free, step_r, vacancies, within,
};
use crate::bomb::{flame_code, Bomb, Direction, EXPLOSION, MAX_BOMB_POWER};
use crate::geometry::{Rectangle, SCALED_TILE};
use crate::grid::{fatal_hit, neutral_hit, GameObjs};
use crate::noise::{BLOCK, EMPTY, WALL};
use crate::objects::State;
use crate::retract::{chained, ejected, in_arm, lemma_arm_swept, opened, swept, vacated};
use crate::tick::{put, Board};

verus! {

/// Obstacles absorb a blast: where a `BLOCK` or a `WALL` stands `k` steps
/// out on an arm, injection writes nothing into that cell nor into any cell
/// of the arm beyond it.
pub proof fn lemma_obstacle_absorbs(
    cells: Seq<Seq<i8>>,
    power: int,
    r: int,
    c: int,
    dir: Direction,
    k: int,
    j: int,
)
    requires
        1 <= k <= j,
        within(cells, step_r(r, dir, k), step_c(c, dir, k)),
        cells[step_r(r, dir, k)][step_c(c, dir, k)] == BLOCK || cells[step_r(r, dir, k)][step_c(
            c,
            dir,
            k,
        )] == WALL,
        within(cells, step_r(r, dir, j), step_c(c, dir, j)),
    ensures
        injected(cells, power, r, c)[step_r(r, dir, j)][step_c(c, dir, j)] == cells[step_r(
            r,
            dir,
            j,
        )][step_c(c, dir, j)],
{
    if clear_run(empties(cells), r, c, dir, j) {
        assert(step_free(empties(cells), r, c, dir, k));
    }
}

/// Every arm of the blast around `(r, c)` has `power` empty cells before it.
pub open spec fn open_field(cells: Seq<Seq<i8>>, power: int, r: int, c: int) -> bool {
    forall|dir: Direction| #[trigger] clear_run(empties(cells), r, c, dir, power)
}

/// A blast in the open is a cross: with nothing in its way, injection
/// around a detonation writes, on each of the four arms, the mid code into
/// the cells less than `power` steps out and the end code into the cell
/// `power` steps out, and leaves every other cell as it is.
pub proof fn lemma_open_blast_is_a_cross(
    cells: Seq<Seq<i8>>,
    power: int,
    r: int,
    c: int,
    x: int,
    y: int,
)
    requires
        within(cells, r, c),
        cells[r][c] == EXPLOSION,
        open_field(cells, power, r, c),
        within(cells, x, y),
    ensures
        injected(cells, power, r, c)[x][y] == match arm_of(r, c, x, y) {
            Some((dir, k)) => if k <= power {
                flame_code(dir, extent_at(k, power))
            } else {
                cells[x][y]
            },
            None => cells[x][y],
        },
{
    match arm_of(r, c, x, y) {
        Some((dir, k)) => {
            if k <= power {
                assert(clear_run(empties(cells), r, c, dir, power));
            }
        },
        None => {},
    }
}

/// Retraction is complete: after a blast of a power up to `MAX_BOMB_POWER`
/// was injected and spawned in the open, retraction leaves the detonation's
/// cell `EMPTY` and every cell of the blast `EMPTY` and without an entity.
pub proof fn lemma_retraction_complete(
    cells: Seq<Seq<i8>>,
    objs: Seq<Seq<GameObjs>>,
    power: int,
    r: int,
    c: int,
    dir: Direction,
    k: int,
)
    requires
        within(cells, r, c),
        same_shape(cells, objs),
        cells[r][c] == EXPLOSION,
        power <= MAX_BOMB_POWER,
        open_field(cells, power, r, c),
        1 <= k <= power,
    ensures
        ({
            let lit = injected(cells, power, r, c);
            let flames = spawned(objs, true, power, r, c);
            let x = step_r(r, dir, k);
            let y = step_c(c, dir, k);
            &&& ejected(lit, r, c)[r][c] == EMPTY
            &&& ejected(lit, r, c)[x][y] == EMPTY
            &&& vacated(flames, lit, r, c)[x][y] is Default
        }),
{
    let lit = injected(cells, power, r, c);
    let start = opened(lit, r, c);
    let open = passable(start);
    assert(clear_run(empties(cells), r, c, dir, power));
    assert forall|m: int| 1 <= m <= k implies #[trigger] step_free(open, r, c, dir, m) by {
        assert(step_free(empties(cells), r, c, dir, m));
    }
    lemma_arm_swept(start, r, c, dir, k);
    assert(within(objs, step_r(r, dir, k), step_c(c, dir, k))) by {
        assert(step_free(empties(cells), r, c, dir, k));
    }
}

/// Retraction covers injection: whatever the blast of a bomb of a power up
/// to `MAX_BOMB_POWER` wrote, around obstacles or in the open, retraction
/// around the same cell leaves every cell that was written `EMPTY` and
/// without an entity.
pub proof fn lemma_retraction_covers_injection(
    cells: Seq<Seq<i8>>,
    objs: Seq<Seq<GameObjs>>,
    power: int,
    r: int,
    c: int,
    x: int,
    y: int,
)
    requires
        within(cells, r, c),
        same_shape(cells, objs),
        power <= MAX_BOMB_POWER,
        within(cells, x, y),
        injected(cells, power, r, c)[x][y] != cells[x][y],
    ensures
        ({
            let lit = injected(cells, power, r, c);
            let flames = spawned(objs, cells[r][c] == EXPLOSION, power, r, c);
            &&& ejected(lit, r, c)[x][y] == EMPTY
            &&& vacated(flames, lit, r, c)[x][y] is Default
        }),
{
    let lit = injected(cells, power, r, c);
    let start = opened(lit, r, c);
    let open = passable(start);
    let free = empties(cells);
    let (dir, k) = arm_of(r, c, x, y).unwrap();
    assert forall|m: int| 1 <= m <= k implies #[trigger] step_free(open, r, c, dir, m) by {
        assert(step_free(free, r, c, dir, m));
    }
    lemma_arm_swept(start, r, c, dir, k);
}

/// Injection is idempotent: a second injection around the same cell, with
/// nothing else changed in between, writes nothing.
pub proof fn lemma_injection_idempotent(cells: Seq<Seq<i8>>, power: int, r: int, c: int)
    requires
        within(cells, r, c),
    ensures
        injected(injected(cells, power, r, c), power, r, c) == injected(cells, power, r, c),
{
    let a = injected(cells, power, r, c);
    let b = injected(a, power, r, c);
    if cells[r][c] == EXPLOSION {
        assert forall|x: int| 0 <= x < a.len() implies #[trigger] b[x] == a[x] by {
            assert forall|y: int| 0 <= y < a[x].len() implies #[trigger] b[x][y] == a[x][y] by {
                match reached(empties(a), power, r, c, x, y) {
                    Some((dir, k)) => {
                        let sx = step_r(r, dir, 1);
                        let sy = step_c(c, dir, 1);
                        assert(step_free(empties(a), r, c, dir, 1));
                    },
                    None => {},
                }
            }
        }
    }
}

/// The box lies within the screen square of cell `(i, j)` and has an area.
pub open spec fn box_in_cell(rec: Rectangle, i: int, j: int) -> bool {
    &&& rec.width > 0
    &&& rec.height > 0
    &&& i * SCALED_TILE <= rec.x
    &&& rec.x + rec.width <= (i + 1) * SCALED_TILE
    &&& j * SCALED_TILE <= rec.y
    &&& rec.y + rec.height <= (j + 1) * SCALED_TILE
}

/// A box within one cell collides as that cell says: with terrain exactly
/// if the cell holds `BLOCK` or `WALL`, fatally exactly if it holds a blast
/// signal. So a box in a `WALL` cell is stopped and not hurt, a box in a
/// flame is hurt, and a box in an `EMPTY` cell is neither.
pub proof fn lemma_collision_classes(cells: Seq<Seq<i8>>, i: int, j: int, rec: Rectangle)
    requires
        box_in_cell(rec, i, j),
    ensures
        fatal_hit(cells, i, j, rec) == (cells[i][j] < EMPTY),
        neutral_hit(cells, i, j, rec) == (cells[i][j] == BLOCK || cells[i][j] == WALL),
        cells[i][j] == WALL ==> neutral_hit(cells, i, j, rec) && !fatal_hit(cells, i, j, rec),
        cells[i][j] < EMPTY ==> fatal_hit(cells, i, j, rec),
        cells[i][j] == EMPTY ==> !neutral_hit(cells, i, j, rec) && !fatal_hit(cells, i, j, rec),
{
}

/// The bomb at `(x, y)`, if one stands there.
pub open spec fn bomb_at(objs: Seq<Seq<GameObjs>>, x: int, y: int) -> Option<Bomb> {
    match objs[x][y] {
        GameObjs::Bomb(bomb) => Some(bomb),
        _ => None,
    }
}

/// Chain reaction: an idle bomb at `(r + 1, c)` beside a detonation at
/// `(r, c)` is exploding once it has had its turn, however much of its
/// countdown is left. Where the countdown would not have run out in this
/// tick, it has only gone down by the tick's length: the bomb went off early.
pub proof fn lemma_chain_reaction(b: Board, r: int, c: int, frame_time: u32)
    requires
        within(b.cells, r, c),
        within(b.objs, r + 1, c),
        b.cells[r][c] == EXPLOSION,
        bomb_at(b.objs, r + 1, c) is Some,
        bomb_at(b.objs, r + 1, c).unwrap().state == State::IDEAL,
    ensures
        ({
            let before = bomb_at(b.objs, r + 1, c).unwrap();
            let after = bomb_at(b.ticked_cell(r + 1, c, frame_time).objs, r + 1, c);
            &&& after is Some
            &&& after.unwrap().state == State::EXPLOADING
            &&& before.exploading_time > frame_time ==> after.unwrap().exploading_time
                == before.exploading_time - frame_time
        }),
{
}

/// The two grids are paired: they have one shape, and a cell holds `EMPTY`
/// exactly if no entity stands on it.
pub open spec fn paired(cells: Seq<Seq<i8>>, objs: Seq<Seq<GameObjs>>) -> bool {
    &&& same_shape(cells, objs)
    &&& forall|x: int, y: int|
        within(cells, x, y) ==> ((#[trigger] cells[x][y] == EMPTY) == (objs[x][y] is Default))
}

/// In paired grids the empty cells are the vacant slots.
pub proof fn lemma_paired_maps(cells: Seq<Seq<i8>>, objs: Seq<Seq<GameObjs>>)
    requires
        paired(cells, objs),
    ensures
        empties(cells) == vacancies(objs),
{
    let e = empties(cells);
    let v = vacancies(objs);
    assert forall|x: int| 0 <= x < e.len() implies #[trigger] e[x] == v[x] by {}
}

/// Injection keeps the grids paired: spawning and injecting around the same
/// cell write the same cells, and each flame that is spawned answers to the
/// code that is injected into its cell.
pub proof fn lemma_injection_keeps_pairs(
    cells: Seq<Seq<i8>>,
    objs: Seq<Seq<GameObjs>>,
    power: int,
    r: int,
    c: int,
)
    requires
        paired(cells, objs),
        within(cells, r, c),
    ensures
        paired(
            injected(cells, power, r, c),
            spawned(objs, cells[r][c] == EXPLOSION, power, r, c),
        ),
        forall|x: int, y: int|
            within(cells, x, y) && #[trigger] injected(cells, power, r, c)[x][y] != cells[x][y]
                ==> match spawned(objs, cells[r][c] == EXPLOSION, power, r, c)[x][y] {
                GameObjs::Flame(flame) => flame.code() == injected(cells, power, r, c)[x][y],
                _ => false,
            },
{
    lemma_paired_maps(cells, objs);
}

/// Retraction keeps the grids paired, once the cell it started from is
/// cleared of its entity.
pub proof fn lemma_retraction_keeps_pairs(
    cells: Seq<Seq<i8>>,
    objs: Seq<Seq<GameObjs>>,
    r: int,
    c: int,
)
    requires
        same_shape(cells, objs),
        within(cells, r, c),
        forall|x: int, y: int|
            within(cells, x, y) && !(x == r && y == c) ==> ((#[trigger] cells[x][y] == EMPTY) == (
            objs[x][y] is Default)),
    ensures
        paired(ejected(cells, r, c), put(vacated(objs, cells, r, c), r, c, GameObjs::Default)),
{
}

/// The pairing of the two grids survives every turn: whatever entity has
/// its turn, if codes and entities were paired before, they are after.
pub proof fn lemma_turn_keeps_pairs(b: Board, i: int, j: int, frame_time: u32)
    requires
        paired(b.cells, b.objs),
        within(b.cells, i, j),
    ensures
        paired(b.ticked_cell(i, j, frame_time).cells, b.ticked_cell(i, j, frame_time).objs),
        same_shape(b.cells, b.ticked_cell(i, j, frame_time).cells),
{
    match b.objs[i][j] {
        GameObjs::Bomb(bomb) => {
            let moved = bomb.updated(frame_time);
            match moved.state {
                State::EXPLOADING => {
                    let lit = moved.blast_animated(b.cells[i][j], frame_time);
                    let cells = put(b.cells, i, j, EXPLOSION);
                    let objs = put(b.objs, i, j, GameObjs::Bomb(lit));
                    lemma_injection_keeps_pairs(cells, objs, bomb.power as int, i, j);
                },
                State::EXPLOADED => {
                },
                State::IDEAL => {
                },
            }
        },
        GameObjs::Wall(wall) => {
        },
        GameObjs::Flame(flame) => {
        },
        _ => {},
    }
}

/// Replacing an entity by another leaves the grids paired.
pub proof fn lemma_swap_keeps_pairs(
    cells: Seq<Seq<i8>>,
    objs: Seq<Seq<GameObjs>>,
    i: int,
    j: int,
    obj: GameObjs,
)
    requires
        paired(cells, objs),
        within(cells, i, j),
        !(objs[i][j] is Default),
        !(obj is Default),
    ensures
        paired(cells, put(objs, i, j, obj)),
{
}

/// The pairing of the two grids survives the sweep of a tick up to any
/// cell, and the sweep keeps the grid's shape.
pub proof fn lemma_sweep_keeps_pairs(b: Board, i: int, j: int, frame_time: u32)
    requires
        paired(b.cells, b.objs),
        0 <= i <= b.cells.len(),
        0 <= j,
        i < b.cells.len() ==> j <= b.cells[i].len(),
        i == b.cells.len() ==> j == 0,
    ensures
        paired(b.ticked(i, j, frame_time).cells, b.ticked(i, j, frame_time).objs),
        same_shape(b.cells, b.ticked(i, j, frame_time).cells),
    decreases i, j,
{
    if j > 0 {
        lemma_sweep_keeps_pairs(b, i, j - 1, frame_time);
        let before = b.ticked(i, j - 1, frame_time);
        lemma_turn_keeps_pairs(before, i, j - 1, frame_time);
    } else if i > 0 {
        lemma_sweep_keeps_pairs(b, i - 1, b.cells[i - 1].len() as int, frame_time);
    }
}

/// The pairing of the two grids survives every tick.
pub proof fn lemma_tick_keeps_pairs(b: Board, frame_time: u32)
    requires
        paired(b.cells, b.objs),
    ensures
        paired(b.after_tick(frame_time).cells, b.after_tick(frame_time).objs),
        same_shape(b.cells, b.after_tick(frame_time).cells),
{
    lemma_sweep_keeps_pairs(b, b.cells.len() as int, 0, frame_time);
}

/// Injection writes into empty cells only: a cell that holds anything else
/// keeps its code.
pub proof fn lemma_injection_spares_what_stands(
    cells: Seq<Seq<i8>>,
    power: int,
    r: int,
    c: int,
    x: int,
    y: int,
)
    requires
        within(cells, x, y),
        cells[x][y] != EMPTY,
    ensures
        injected(cells, power, r, c)[x][y] == cells[x][y],
{
    match arm_of(r, c, x, y) {
        Some((dir, k)) => {
            if clear_run(empties(cells), r, c, dir, k) {
                assert(step_free(empties(cells), r, c, dir, k));
            }
        },
        None => {},
    }
}

/// The state of the wall at `(x, y)`, if one stands there.
pub open spec fn wall_state(objs: Seq<Seq<GameObjs>>, x: int, y: int) -> Option<State> {
    match objs[x][y] {
        GameObjs::Wall(wall) => Some(wall.state),
        _ => None,
    }
}

/// Life cycles only move forward: a bomb or a wall that is still there
/// after its turn is in the state it was in, or in a later one.
pub proof fn lemma_turn_moves_forward(b: Board, i: int, j: int, frame_time: u32)
    requires
        within(b.objs, i, j),
    ensures
        ({
            let after = b.ticked_cell(i, j, frame_time).objs;
            &&& bomb_at(b.objs, i, j) is Some && bomb_at(after, i, j) is Some ==> bomb_at(
                b.objs,
                i,
                j,
            ).unwrap().state.rank() <= bomb_at(after, i, j).unwrap().state.rank()
            &&& wall_state(b.objs, i, j) is Some && wall_state(after, i, j) is Some ==> wall_state(
                b.objs,
                i,
                j,
            ).unwrap().rank() <= wall_state(after, i, j).unwrap().rank()
        }),
{
}

/// A turn spares what is solid: when the entity at `(i, j)` has its turn,
/// every other cell that holds something solid keeps its code, and keeps
/// its entity if it has one.
pub proof fn lemma_turn_spares_solid_cells(
    b: Board,
    i: int,
    j: int,
    x: int,
    y: int,
    frame_time: u32,
)
    requires
        same_shape(b.cells, b.objs),
        within(b.cells, i, j),
        within(b.cells, x, y),
        !(x == i && y == j),
        b.cells[x][y] > EMPTY,
    ensures
        b.ticked_cell(i, j, frame_time).cells[x][y] == b.cells[x][y],
        !(b.objs[x][y] is Default) ==> b.ticked_cell(i, j, frame_time).objs[x][y] == b.objs[x][y],
{
    match b.objs[i][j] {
        GameObjs::Bomb(bomb) => {
            let moved = bomb.updated(frame_time);
            match moved.state {
                State::EXPLOADING => {
                    let cells = put(b.cells, i, j, EXPLOSION);
                    lemma_injection_spares_what_stands(cells, bomb.power as int, i, j, x, y);
                    let lit = moved.blast_animated(b.cells[i][j], frame_time);
                    let objs = put(b.objs, i, j, GameObjs::Bomb(lit));
                    match arm_of(i, j, x, y) {
                        Some((dir, k)) => {
                            if clear_run(vacancies(objs), i, j, dir, k) {
                                assert(step_free(vacancies(objs), i, j, dir, k));
                            }
                        },
                        None => {},
                    }
                },
                State::EXPLOADED => {
                    let start = opened(b.cells, i, j);
                    if swept(start, i, j, x, y) {
                        let (er, ec, n) = choose|er: int, ec: int, n: nat| #[trigger]
                            chained(start, i, j, er, ec, n) && in_arm(
                                passable(start),
                                er,
                                ec,
                                x,
                                y,
                            );
                        let (dir, k) = arm_of(er, ec, x, y).unwrap();
                        assert(step_free(passable(start), er, ec, dir, k));
                    }
                },
                State::IDEAL => {},
            }
        },
        _ => {},
    }
}

} // verus!
