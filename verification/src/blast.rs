//! The mathematics of a blast: where flames are written around a detonation
//! and what a retraction sweeps clean.

use vstd::prelude::*;
use crate::bomb::{flame_code, Direction, Extent, Flame, EXPLOSION};
use crate::grid::GameObjs;
use crate::noise::EMPTY;

verus! {

/// First index of the cell `m` steps from a cell with first index `r`.
pub open spec fn step_r(r: int, dir: Direction, m: int) -> int {
    match dir {
        Direction::Left => r - m,
        Direction::Right => r + m,
        _ => r,
    }
}

/// Second index of the cell `m` steps from a cell with second index `c`.
pub open spec fn step_c(c: int, dir: Direction, m: int) -> int {
    match dir {
        Direction::Top => c - m,
        Direction::Down => c + m,
        _ => c,
    }
}

/// Where `(x, y)` lies as seen from `(r, c)`: on which of the four axes
/// through `(r, c)` and how many steps out; `None` off the axes and at
/// `(r, c)` itself.
pub open spec fn arm_of(r: int, c: int, x: int, y: int) -> Option<(Direction, int)> {
    if y == c && x < r {
        Some((Direction::Left, r - x))
    } else if y == c && x > r {
        Some((Direction::Right, x - r))
    } else if x == r && y < c {
        Some((Direction::Top, c - y))
    } else if x == r && y > c {
        Some((Direction::Down, y - c))
    } else {
        None
    }
}

/// `(x, y)` is a cell of the matrix.
pub open spec fn within<T>(m: Seq<Seq<T>>, x: int, y: int) -> bool {
    0 <= x < m.len() && 0 <= y < m[x].len()
}

/// All rows of the matrix are as long as the first.
pub open spec fn rectangular<T>(m: Seq<Seq<T>>) -> bool {
    forall|x: int| 0 <= x < m.len() ==> (#[trigger] m[x]).len() == m[0].len()
}

/// Two matrices have the same shape.
pub open spec fn same_shape<S, T>(a: Seq<Seq<S>>, b: Seq<Seq<T>>) -> bool {
    a.len() == b.len() && forall|x: int| 0 <= x < a.len() ==> (#[trigger] a[x]).len() == b[x].len()
}

/// The cell `(x, y)` exists and a blast may enter it.
pub open spec fn free_at(free: Seq<Seq<bool>>, x: int, y: int) -> bool {
    within(free, x, y) && free[x][y]
}

/// The cell `m` steps from `(r, c)` exists and a blast may enter it.
pub open spec fn step_free(free: Seq<Seq<bool>>, r: int, c: int, dir: Direction, m: int) -> bool {
    free_at(free, step_r(r, dir, m), step_c(c, dir, m))
}

/// Every one of the first `k` cells from `(r, c)` along `dir` is free.
pub open spec fn clear_run(free: Seq<Seq<bool>>, r: int, c: int, dir: Direction, k: int) -> bool {
    forall|m: int| 1 <= m <= k ==> #[trigger] step_free(free, r, c, dir, m)
}

/// The matrix is a rectangle whose outermost cells are all closed to a
/// blast, so that no walk over free cells leaves it.
pub open spec fn walled(free: Seq<Seq<bool>>) -> bool {
    &&& rectangular(free)
    &&& forall|x: int, y: int| #[trigger]
        free_at(free, x, y) ==> 0 < x < free.len() - 1 && 0 < y < free[0].len() - 1
}

/// A walk from `(r, c)` that takes at most `reach` steps over free cells
/// arrives at `(x, y)`: the direction and the number of steps.
pub open spec fn reached(free: Seq<Seq<bool>>, reach: int, r: int, c: int, x: int, y: int)
    -> Option<(Direction, int)> {
    match arm_of(r, c, x, y) {
        Some((dir, k)) => if k <= reach && clear_run(free, r, c, dir, k) {
            Some((dir, k))
        } else {
            None
        },
        None => None,
    }
}

/// The map of the cells of `m` that `is_free` holds of.
pub open spec fn free_map<T>(m: Seq<Seq<T>>, is_free: spec_fn(T) -> bool) -> Seq<Seq<bool>> {
    Seq::new(m.len(), |x: int| Seq::new(m[x].len(), |y: int| is_free(m[x][y])))
}

/// The code is `EMPTY`.
pub open spec fn code_is_empty() -> spec_fn(i8) -> bool {
    |code: i8| code == EMPTY
}

/// The code is not solid: it is `EMPTY` or a blast signal.
pub open spec fn code_is_passable() -> spec_fn(i8) -> bool {
    |code: i8| code <= EMPTY
}

/// The slot holds no entity.
pub open spec fn slot_is_vacant() -> spec_fn(GameObjs) -> bool {
    |obj: GameObjs| obj is Default
}

/// The signal code of a flame.
pub open spec fn code_paint() -> spec_fn(Direction, Extent) -> i8 {
    |dir: Direction, extent: Extent| flame_code(dir, extent)
}

/// The fresh flame entity.
pub open spec fn flame_paint() -> spec_fn(Direction, Extent) -> GameObjs {
    |dir: Direction, extent: Extent| GameObjs::Flame(Flame::fresh(dir, extent))
}

/// Which cells hold `EMPTY`.
pub open spec fn empties(cells: Seq<Seq<i8>>) -> Seq<Seq<bool>> {
    free_map(cells, code_is_empty())
}

/// Which cells hold no solid thing.
pub open spec fn passable(cells: Seq<Seq<i8>>) -> Seq<Seq<bool>> {
    free_map(cells, code_is_passable())
}

/// Which cells hold no entity.
pub open spec fn vacancies(objs: Seq<Seq<GameObjs>>) -> Seq<Seq<bool>> {
    free_map(objs, slot_is_vacant())
}

/// A blast arm's cell `k` steps out is its tip when `k` is the power.
pub open spec fn extent_at(k: int, power: int) -> Extent {
    if k == power {
        Extent::End
    } else {
        Extent::Mid
    }
}

/// Place of a direction in the order in which the arms are written.
pub open spec fn arm_index(dir: Direction) -> int {
    match dir {
        Direction::Left => 0,
        Direction::Right => 1,
        Direction::Top => 2,
        Direction::Down => 3,
    }
}

/// The matrix after the first `arms` arms of a blast around `(r, c)` were
/// painted into it. Each arm runs from `(r, c)` over cells that `free` marks,
/// for up to `power` steps, and stops before the first cell that is not
/// marked. The cell at step `power` is painted as the arm's end, the others
/// as its middle. Every other cell stays as it is.
pub open spec fn painted_arms<T>(
    m: Seq<Seq<T>>,
    free: Seq<Seq<bool>>,
    paint: spec_fn(Direction, Extent) -> T,
    power: int,
    r: int,
    c: int,
    arms: int,
) -> Seq<Seq<T>> {
    Seq::new(
        m.len(),
        |x: int|
            Seq::new(
                m[x].len(),
                |y: int|
                    match reached(free, power, r, c, x, y) {
                        Some((dir, k)) => if arm_index(dir) < arms {
                            paint(dir, extent_at(k, power))
                        } else {
                            m[x][y]
                        },
                        None => m[x][y],
                    },
            ),
    )
}

/// The matrix after all four arms of a blast were painted into it, if `lit`
/// holds; the matrix itself if not.
pub open spec fn painted<T>(
    m: Seq<Seq<T>>,
    free: Seq<Seq<bool>>,
    paint: spec_fn(Direction, Extent) -> T,
    lit: bool,
    power: int,
    r: int,
    c: int,
) -> Seq<Seq<T>> {
    if lit {
        painted_arms(m, free, paint, power, r, c, 4)
    } else {
        m
    }
}

/// The codes after flames were injected around `(r, c)`: if that cell holds
/// `EXPLOSION`, each arm runs over `EMPTY` cells for up to `power` steps and
/// stops before the first cell that holds anything else; the cell at step
/// `power` gets the end code of its direction, the others the mid code. All
/// other cells stay as they are.
pub open spec fn injected(cells: Seq<Seq<i8>>, power: int, r: int, c: int) -> Seq<Seq<i8>> {
    painted(cells, empties(cells), code_paint(), cells[r][c] == EXPLOSION, power, r, c)
}

/// The entities after flames were spawned around `(r, c)`, where `lit` says
/// whether that cell holds `EXPLOSION`: as `injected`, with vacant slots in
/// place of `EMPTY` cells and fresh flames in place of codes.
pub open spec fn spawned(objs: Seq<Seq<GameObjs>>, lit: bool, power: int, r: int, c: int) -> Seq<
    Seq<GameObjs>,
> {
    painted(objs, vacancies(objs), flame_paint(), lit, power, r, c)
}

/// The matrix after one arm alone was painted, `upto` steps far.
pub open spec fn arm_painted<T>(
    m: Seq<Seq<T>>,
    free: Seq<Seq<bool>>,
    paint: spec_fn(Direction, Extent) -> T,
    power: int,
    r: int,
    c: int,
    dir: Direction,
    upto: int,
) -> Seq<Seq<T>> {
    Seq::new(
        m.len(),
        |x: int|
            Seq::new(
                m[x].len(),
                |y: int|
                    match reached(free, upto, r, c, x, y) {
                        Some((d, k)) => if d == dir && k <= power {
                            paint(d, extent_at(k, power))
                        } else {
                            m[x][y]
                        },
                        None => m[x][y],
                    },
            ),
    )
}

/// A matrix has the shape of its free map.
pub proof fn lemma_free_shape<T>(m: Seq<Seq<T>>, is_free: spec_fn(T) -> bool)
    ensures
        same_shape(m, free_map(m, is_free)),
        rectangular(free_map(m, is_free)) ==> rectangular(m),
{
    let f = free_map(m, is_free);
    if rectangular(f) {
        assert forall|x: int| 0 <= x < m.len() implies (#[trigger] m[x]).len() == m[0].len() by {}
    }
}

/// The cell `m` steps out along `dir` lies on that arm, `m` steps out.
pub proof fn lemma_step_on_arm(r: int, c: int, dir: Direction, m: int)
    requires
        m >= 1,
    ensures
        arm_of(r, c, step_r(r, dir, m), step_c(c, dir, m)) == Some((dir, m)),
{
}

/// An arm painted no step far is the matrix itself.
pub proof fn lemma_arm_start<T>(
    m: Seq<Seq<T>>,
    free: Seq<Seq<bool>>,
    paint: spec_fn(Direction, Extent) -> T,
    power: int,
    r: int,
    c: int,
    dir: Direction,
)
    ensures
        arm_painted(m, free, paint, power, r, c, dir, 0) == m,
{
    let a = arm_painted(m, free, paint, power, r, c, dir, 0);
    assert forall|x: int| 0 <= x < a.len() implies #[trigger] a[x] == m[x] by {}
}

/// An arm that meets a cell that is not free at step `i + 1` is complete
/// after `i` steps.
pub proof fn lemma_arm_blocked<T>(
    m: Seq<Seq<T>>,
    free: Seq<Seq<bool>>,
    paint: spec_fn(Direction, Extent) -> T,
    power: int,
    r: int,
    c: int,
    dir: Direction,
    i: int,
)
    requires
        0 <= i <= power,
        !step_free(free, r, c, dir, i + 1),
    ensures
        arm_painted(m, free, paint, power, r, c, dir, i) == arm_painted(
            m,
            free,
            paint,
            power,
            r,
            c,
            dir,
            power,
        ),
{
    let a = arm_painted(m, free, paint, power, r, c, dir, i);
    let b = arm_painted(m, free, paint, power, r, c, dir, power);
    assert forall|x: int| 0 <= x < a.len() implies #[trigger] a[x] == b[x] by {}
}

/// Painting the cell at step `i + 1`, which is free as all cells before it,
/// takes an arm from `i` steps to `i + 1`.
pub proof fn lemma_arm_extend<T>(
    m: Seq<Seq<T>>,
    free: Seq<Seq<bool>>,
    paint: spec_fn(Direction, Extent) -> T,
    power: int,
    r: int,
    c: int,
    dir: Direction,
    i: int,
)
    requires
        0 <= i < power,
        clear_run(free, r, c, dir, i + 1),
        within(m, step_r(r, dir, i + 1), step_c(c, dir, i + 1)),
    ensures
        ({
            let x = step_r(r, dir, i + 1);
            let y = step_c(c, dir, i + 1);
            let a = arm_painted(m, free, paint, power, r, c, dir, i);
            a.update(x, a[x].update(y, paint(dir, extent_at(i + 1, power)))) == arm_painted(
                m,
                free,
                paint,
                power,
                r,
                c,
                dir,
                i + 1,
            )
        }),
{
    let nx = step_r(r, dir, i + 1);
    let ny = step_c(c, dir, i + 1);
    let a = arm_painted(m, free, paint, power, r, c, dir, i);
    let b = arm_painted(m, free, paint, power, r, c, dir, i + 1);
    let w = a.update(nx, a[nx].update(ny, paint(dir, extent_at(i + 1, power))));
    assert forall|x: int| 0 <= x < b.len() implies #[trigger] w[x] == b[x] by {}
}

/// Painting never frees a cell: with the first arms painted, the matrix is
/// still walled.
pub proof fn lemma_painted_walled<T>(
    m: Seq<Seq<T>>,
    is_free: spec_fn(T) -> bool,
    paint: spec_fn(Direction, Extent) -> T,
    power: int,
    r: int,
    c: int,
    arms: int,
)
    requires
        walled(free_map(m, is_free)),
        forall|dir: Direction, extent: Extent| !is_free(#[trigger] paint(dir, extent)),
    ensures
        walled(free_map(painted_arms(m, free_map(m, is_free), paint, power, r, c, arms), is_free)),
{
    let f = free_map(m, is_free);
    let p = painted_arms(m, f, paint, power, r, c, arms);
    let g = free_map(p, is_free);
    assert forall|x: int| 0 <= x < g.len() implies (#[trigger] g[x]).len() == g[0].len() by {
        assert(f[x].len() == f[0].len());
    }
    assert forall|x: int, y: int| #[trigger] free_at(g, x, y) implies 0 < x < g.len() - 1 && 0 < y
        < g[0].len() - 1 by {
        assert(free_at(f, x, y));
    }
}

/// Painting one arm into a matrix that holds the arms before it gives the
/// matrix that holds the arms up to and including it.
pub proof fn lemma_next_arm<T>(
    m: Seq<Seq<T>>,
    is_free: spec_fn(T) -> bool,
    paint: spec_fn(Direction, Extent) -> T,
    power: int,
    r: int,
    c: int,
    dir: Direction,
)
    ensures
        ({
            let f = free_map(m, is_free);
            let p = painted_arms(m, f, paint, power, r, c, arm_index(dir));
            arm_painted(p, free_map(p, is_free), paint, power, r, c, dir, power) == painted_arms(
                m,
                f,
                paint,
                power,
                r,
                c,
                arm_index(dir) + 1,
            )
        }),
{
    let f = free_map(m, is_free);
    let p = painted_arms(m, f, paint, power, r, c, arm_index(dir));
    let g = free_map(p, is_free);
    let a = arm_painted(p, g, paint, power, r, c, dir, power);
    let b = painted_arms(m, f, paint, power, r, c, arm_index(dir) + 1);
    assert forall|j: int| j >= 1 implies #[trigger] step_free(g, r, c, dir, j) == step_free(
        f,
        r,
        c,
        dir,
        j,
    ) by {
        lemma_step_on_arm(r, c, dir, j);
    }
    assert forall|k: int| k >= 0 implies #[trigger] clear_run(g, r, c, dir, k) == clear_run(
        f,
        r,
        c,
        dir,
        k,
    ) by {
        if clear_run(g, r, c, dir, k) {
            assert forall|j: int| 1 <= j <= k implies #[trigger] step_free(f, r, c, dir, j) by {
                assert(step_free(g, r, c, dir, j));
            }
        }
    }
    assert forall|x: int| 0 <= x < a.len() implies #[trigger] a[x] == b[x] by {}
}

/// With no arm painted the matrix is as it was.
pub proof fn lemma_no_arm<T>(
    m: Seq<Seq<T>>,
    free: Seq<Seq<bool>>,
    paint: spec_fn(Direction, Extent) -> T,
    power: int,
    r: int,
    c: int,
)
    ensures
        painted_arms(m, free, paint, power, r, c, 0) == m,
{
    let a = painted_arms(m, free, paint, power, r, c, 0);
    assert forall|x: int| 0 <= x < a.len() implies #[trigger] a[x] == m[x] by {}
}

} // verus!
