//! The mathematics of a retraction: which cells a chain of detonations
//! sweeps clean.

use vstd::prelude::*;
use crate::blast::{
    lemma_free_shape, code_is_passable, slot_is_vacant, vacancies, walled, clear_run, free_at,
    passable, reached, same_shape, step_c, step_free, step_r, within,
};
use crate::bomb::{Direction, EXPLOSION, MAX_BOMB_POWER};
use crate::grid::GameObjs;
use crate::noise::EMPTY;

verus! {

/// A retraction that starts at `(r, c)` walks over `(x, y)`: the cell lies on
/// an axis through `(r, c)`, at most `MAX_BOMB_POWER` steps out, and nothing
/// solid stands on the way or in it.
pub open spec fn in_arm(open: Seq<Seq<bool>>, r: int, c: int, x: int, y: int) -> bool {
    reached(open, MAX_BOMB_POWER as int, r, c, x, y) is Some
}

/// A retraction at `(r, c)` passes on to `(x, y)`: it walks over that cell
/// and finds a detonation there.
pub open spec fn hop(cells: Seq<Seq<i8>>, r: int, c: int, x: int, y: int) -> bool {
    within(cells, x, y) && cells[x][y] == EXPLOSION && in_arm(passable(cells), r, c, x, y)
}

/// The retraction at `(r, c)` leads to one at `(er, ec)` over at most `n`
/// detonations, each found on an arm of the one before.
pub open spec fn chained(cells: Seq<Seq<i8>>, r: int, c: int, er: int, ec: int, n: nat) -> bool
    decreases n,
{
    (r == er && c == ec) || (n > 0 && exists|x: int, y: int|
        #[trigger] hop(cells, r, c, x, y) && chained(cells, x, y, er, ec, (n - 1) as nat))
}

/// The retraction at `(r, c)` sweeps `(x, y)`: the cell lies on an arm of
/// `(r, c)` or of a detonation that the retraction leads to.
pub open spec fn swept(cells: Seq<Seq<i8>>, r: int, c: int, x: int, y: int) -> bool {
    exists|er: int, ec: int, n: nat| #[trigger]
        chained(cells, r, c, er, ec, n) && in_arm(passable(cells), er, ec, x, y)
}

/// The codes with the cell `(r, c)` emptied.
pub open spec fn opened(cells: Seq<Seq<i8>>, r: int, c: int) -> Seq<Seq<i8>> {
    cells.update(r, cells[r].update(c, EMPTY))
}

/// The codes after the flames around `(r, c)` were retracted: that cell is
/// emptied, and so is every cell that the retraction sweeps. All other cells
/// stay as they are.
pub open spec fn ejected(cells: Seq<Seq<i8>>, r: int, c: int) -> Seq<Seq<i8>> {
    let start = opened(cells, r, c);
    Seq::new(
        start.len(),
        |x: int|
            Seq::new(
                start[x].len(),
                |y: int|
                    if swept(start, r, c, x, y) {
                        EMPTY
                    } else {
                        start[x][y]
                    },
            ),
    )
}

/// The entities after the flames around `(r, c)` were retracted: every cell
/// that the retraction sweeps loses its entity. All others keep theirs,
/// also the cell `(r, c)` itself unless a chained detonation sweeps it.
pub open spec fn vacated(objs: Seq<Seq<GameObjs>>, cells: Seq<Seq<i8>>, r: int, c: int) -> Seq<
    Seq<GameObjs>,
> {
    let start = opened(cells, r, c);
    Seq::new(
        objs.len(),
        |x: int|
            Seq::new(
                objs[x].len(),
                |y: int|
                    if swept(start, r, c, x, y) {
                        GameObjs::Default
                    } else {
                        objs[x][y]
                    },
            ),
    )
}

/// Number of detonations in a row.
pub open spec fn row_blasts(row: Seq<i8>) -> nat
    decreases row.len(),
{
    if row.len() == 0 {
        0
    } else {
        row_blasts(row.drop_last()) + if row.last() == EXPLOSION {
            1nat
        } else {
            0nat
        }
    }
}

/// Number of detonations in the grid.
pub open spec fn blasts(cells: Seq<Seq<i8>>) -> nat
    decreases cells.len(),
{
    if cells.len() == 0 {
        0
    } else {
        blasts(cells.drop_last()) + row_blasts(cells.last())
    }
}

/// `after` comes from `before` by emptying cells that held nothing solid.
pub open spec fn quieter(before: Seq<Seq<i8>>, after: Seq<Seq<i8>>) -> bool {
    &&& same_shape(before, after)
    &&& passable(before) == passable(after)
    &&& forall|x: int, y: int|
        within(before, x, y) ==> #[trigger] after[x][y] == before[x][y] || after[x][y] == EMPTY
}

/// `after` comes from `before` by taking entities away.
pub open spec fn emptier(before: Seq<Seq<GameObjs>>, after: Seq<Seq<GameObjs>>) -> bool {
    &&& same_shape(before, after)
    &&& forall|x: int, y: int|
        within(before, x, y) ==> #[trigger] after[x][y] == before[x][y] || after[x][y] is Default
}

/// The cell holds `EMPTY` and no entity.
pub open spec fn bare(cells: Seq<Seq<i8>>, objs: Seq<Seq<GameObjs>>, x: int, y: int) -> bool {
    &&& within(cells, x, y)
    &&& within(objs, x, y)
    &&& cells[x][y] == EMPTY
    &&& objs[x][y] is Default
}

/// Every cell on the arms of `(r, c)` is bare.
pub open spec fn settled(
    cells: Seq<Seq<i8>>,
    objs: Seq<Seq<GameObjs>>,
    open: Seq<Seq<bool>>,
    r: int,
    c: int,
) -> bool {
    forall|x: int, y: int| #[trigger] in_arm(open, r, c, x, y) ==> bare(cells, objs, x, y)
}

/// Every detonation of `before` that is gone in `after` has its arms bare.
pub open spec fn quenched(
    before: Seq<Seq<i8>>,
    after: Seq<Seq<i8>>,
    objs: Seq<Seq<GameObjs>>,
) -> bool {
    forall|x: int, y: int|
        within(before, x, y) && before[x][y] == EXPLOSION && #[trigger] after[x][y] != EXPLOSION
            ==> settled(after, objs, passable(before), x, y)
}

/// Whatever differs between the two states lies where the retraction at
/// `(r, c)` sweeps.
pub open spec fn confined(
    before: Seq<Seq<i8>>,
    objs_before: Seq<Seq<GameObjs>>,
    after: Seq<Seq<i8>>,
    objs_after: Seq<Seq<GameObjs>>,
    r: int,
    c: int,
) -> bool {
    forall|x: int, y: int|
        within(before, x, y) && (after[x][y] != before[x][y] || objs_after[x][y]
            != objs_before[x][y]) ==> #[trigger] swept(before, r, c, x, y)
}

/// The first `upto` cells of the arm `dir` of `(r, c)` are bare.
pub open spec fn arm_bare(
    cells: Seq<Seq<i8>>,
    objs: Seq<Seq<GameObjs>>,
    r: int,
    c: int,
    dir: Direction,
    upto: int,
) -> bool {
    forall|k: int|
        1 <= k <= upto ==> bare(cells, objs, #[trigger] step_r(r, dir, k), step_c(c, dir, k))
}

/// Every cell on the arm `dir` of `(r, c)` that the retraction walks over
/// is bare.
pub open spec fn arm_settled(
    cells: Seq<Seq<i8>>,
    objs: Seq<Seq<GameObjs>>,
    open: Seq<Seq<bool>>,
    r: int,
    c: int,
    dir: Direction,
) -> bool {
    forall|k: int|
        1 <= k <= MAX_BOMB_POWER && #[trigger] clear_run(open, r, c, dir, k) ==> bare(
            cells,
            objs,
            step_r(r, dir, k),
            step_c(c, dir, k),
        )
}

/// How a retraction at `(r, c)` has taken the grid from one state to a
/// later one: it has only emptied cells and taken entities away, only where
/// it sweeps, and every detonation that it emptied has its arms bare.
pub open spec fn ebbed(
    before: Seq<Seq<i8>>,
    objs_before: Seq<Seq<GameObjs>>,
    after: Seq<Seq<i8>>,
    objs_after: Seq<Seq<GameObjs>>,
    r: int,
    c: int,
) -> bool {
    &&& same_shape(before, objs_before)
    &&& quieter(before, after)
    &&& emptier(objs_before, objs_after)
    &&& confined(before, objs_before, after, objs_after, r, c)
    &&& quenched(before, after, objs_after)
}

/// A row in which cells were emptied holds no more detonations than
/// before, and fewer if one of the emptied cells held one.
pub proof fn lemma_row_blasts(a: Seq<i8>, b: Seq<i8>)
    requires
        a.len() == b.len(),
        forall|i: int| 0 <= i < a.len() && b[i] == EXPLOSION ==> a[i] == EXPLOSION,
    ensures
        row_blasts(b) <= row_blasts(a),
        (exists|i: int| 0 <= i < a.len() && a[i] == EXPLOSION && b[i] != EXPLOSION) ==> row_blasts(
            b,
        ) < row_blasts(a),
    decreases a.len(),
{
    if a.len() > 0 {
        let a1 = a.drop_last();
        let b1 = b.drop_last();
        lemma_row_blasts(a1, b1);
        if exists|i: int| 0 <= i < a.len() && a[i] == EXPLOSION && b[i] != EXPLOSION {
            let i = choose|i: int| 0 <= i < a.len() && a[i] == EXPLOSION && b[i] != EXPLOSION;
            if i < a.len() - 1 {
                assert(a1[i] == EXPLOSION && b1[i] != EXPLOSION);
            }
        }
    }
}

/// Emptying cells never adds a detonation, and emptying one that holds a
/// detonation takes one away.
pub proof fn lemma_blasts(a: Seq<Seq<i8>>, b: Seq<Seq<i8>>)
    requires
        same_shape(a, b),
        forall|x: int, y: int| within(a, x, y) && b[x][y] == EXPLOSION ==> a[x][y] == EXPLOSION,
    ensures
        blasts(b) <= blasts(a),
        (exists|x: int, y: int| within(a, x, y) && a[x][y] == EXPLOSION && b[x][y] != EXPLOSION)
            ==> blasts(b) < blasts(a),
    decreases a.len(),
{
    if a.len() > 0 {
        let a1 = a.drop_last();
        let b1 = b.drop_last();
        let last = a.len() - 1;
        assert forall|x: int, y: int| within(a1, x, y) && b1[x][y] == EXPLOSION implies a1[x][y]
            == EXPLOSION by {
            assert(within(a, x, y));
        }
        lemma_blasts(a1, b1);
        assert forall|i: int| 0 <= i < a[last].len() && b[last][i] == EXPLOSION implies a[last][i]
            == EXPLOSION by {
            assert(within(a, last, i));
        }
        lemma_row_blasts(a[last], b[last]);
        if exists|x: int, y: int| within(a, x, y) && a[x][y] == EXPLOSION && b[x][y] != EXPLOSION {
            let (x, y) = choose|x: int, y: int|
                within(a, x, y) && a[x][y] == EXPLOSION && b[x][y] != EXPLOSION;
            if x < last {
                assert(within(a1, x, y) && a1[x][y] == EXPLOSION && b1[x][y] != EXPLOSION);
            }
        }
    }
}

/// Emptying a cell that holds `EMPTY` changes nothing.
pub proof fn lemma_opened_same(cells: Seq<Seq<i8>>, r: int, c: int)
    requires
        within(cells, r, c),
        cells[r][c] == EMPTY,
    ensures
        opened(cells, r, c) == cells,
{
    assert(cells[r].update(c, EMPTY) =~= cells[r]);
}

/// Emptying a passable cell and taking its entity gives a quieter grid.
pub proof fn lemma_clear_cell(cells: Seq<Seq<i8>>, objs: Seq<Seq<GameObjs>>, x: int, y: int)
    requires
        within(cells, x, y),
        within(objs, x, y),
        cells[x][y] <= EMPTY,
    ensures
        quieter(cells, opened(cells, x, y)),
        emptier(objs, objs.update(x, objs[x].update(y, GameObjs::Default))),
{
    let after = opened(cells, x, y);
    let p = passable(cells);
    let q = passable(after);
    assert forall|i: int| 0 <= i < p.len() implies #[trigger] p[i] == q[i] by {}
    assert(p =~= q);
}

/// A cell on a clear run from `(r, c)` of at most `MAX_BOMB_POWER` steps is
/// on an arm of `(r, c)`, and the retraction at `(r, c)` sweeps it.
pub proof fn lemma_arm_swept(cells: Seq<Seq<i8>>, r: int, c: int, dir: Direction, k: int)
    requires
        1 <= k <= MAX_BOMB_POWER,
        clear_run(passable(cells), r, c, dir, k),
    ensures
        in_arm(passable(cells), r, c, step_r(r, dir, k), step_c(c, dir, k)),
        swept(cells, r, c, step_r(r, dir, k), step_c(c, dir, k)),
{
    assert(chained(cells, r, c, r, c, 0));
}

/// A chain of detonations in a quieter grid is one in the grid before.
pub proof fn lemma_chained_mono(
    h0: Seq<Seq<i8>>,
    h: Seq<Seq<i8>>,
    r: int,
    c: int,
    er: int,
    ec: int,
    n: nat,
)
    requires
        quieter(h0, h),
        chained(h, r, c, er, ec, n),
    ensures
        chained(h0, r, c, er, ec, n),
    decreases n,
{
    reveal_with_fuel(chained, 2);
    if r == er && c == ec {
    } else {
        let (x, y) = choose|x: int, y: int| #[trigger]
            hop(h, r, c, x, y) && chained(h, x, y, er, ec, (n - 1) as nat);
        lemma_chained_mono(h0, h, x, y, er, ec, (n - 1) as nat);
        assert(hop(h0, r, c, x, y) && chained(h0, x, y, er, ec, (n - 1) as nat));
    }
}

/// What a retraction sweeps in a quieter grid it sweeps in the grid before.
pub proof fn lemma_swept_mono(h0: Seq<Seq<i8>>, h: Seq<Seq<i8>>, r: int, c: int, x: int, y: int)
    requires
        quieter(h0, h),
        swept(h, r, c, x, y),
    ensures
        swept(h0, r, c, x, y),
{
    let (er, ec, n) = choose|er: int, ec: int, n: nat| #[trigger]
        chained(h, r, c, er, ec, n) && in_arm(passable(h), er, ec, x, y);
    lemma_chained_mono(h0, h, r, c, er, ec, n);
}

/// What a retraction sweeps, one that passes on to it sweeps too.
pub proof fn lemma_swept_prepend(
    cells: Seq<Seq<i8>>,
    r: int,
    c: int,
    mx: int,
    my: int,
    x: int,
    y: int,
)
    requires
        hop(cells, r, c, mx, my),
        swept(cells, mx, my, x, y),
    ensures
        swept(cells, r, c, x, y),
{
    let (er, ec, n) = choose|er: int, ec: int, n: nat| #[trigger]
        chained(cells, mx, my, er, ec, n) && in_arm(passable(cells), er, ec, x, y);
    reveal_with_fuel(chained, 2);
    assert(chained(cells, r, c, er, ec, n + 1));
}

/// Two stretches of one retraction make one.
pub proof fn lemma_ebb_next(
    h0: Seq<Seq<i8>>,
    o0: Seq<Seq<GameObjs>>,
    h1: Seq<Seq<i8>>,
    o1: Seq<Seq<GameObjs>>,
    h2: Seq<Seq<i8>>,
    o2: Seq<Seq<GameObjs>>,
    r: int,
    c: int,
)
    requires
        ebbed(h0, o0, h1, o1, r, c),
        ebbed(h1, o1, h2, o2, r, c),
    ensures
        ebbed(h0, o0, h2, o2, r, c),
{
    assert forall|i: int, j: int|
        within(h0, i, j) && (h2[i][j] != h0[i][j] || o2[i][j] != o0[i][j]) implies #[trigger] swept(
        h0,
        r,
        c,
        i,
        j,
    ) by {
        if h1[i][j] != h0[i][j] || o1[i][j] != o0[i][j] {
        } else {
            lemma_swept_mono(h0, h1, r, c, i, j);
        }
    }
}

/// The retraction at `(r, c)` finds a detonation at `(x, y)` on its arm,
/// clears the cell and lets a retraction run from there; what that one did
/// counts as done by the one at `(r, c)`.
pub proof fn lemma_ebb_chain(
    h0: Seq<Seq<i8>>,
    o0: Seq<Seq<GameObjs>>,
    h: Seq<Seq<i8>>,
    o: Seq<Seq<GameObjs>>,
    h2: Seq<Seq<i8>>,
    o2: Seq<Seq<GameObjs>>,
    r: int,
    c: int,
    x: int,
    y: int,
)
    requires
        ebbed(h0, o0, h, o, r, c),
        within(h, x, y),
        h[x][y] == EXPLOSION,
        in_arm(passable(h0), r, c, x, y),
        swept(h0, r, c, x, y),
        ebbed(
            opened(h, x, y),
            o.update(x, o[x].update(y, GameObjs::Default)),
            h2,
            o2,
            x,
            y,
        ),
        settled(h2, o2, passable(h0), x, y),
    ensures
        ebbed(h0, o0, h2, o2, r, c),
{
    let h1 = opened(h, x, y);
    lemma_clear_cell(h, o, x, y);
    assert forall|i: int, j: int|
        within(h0, i, j) && (h2[i][j] != h0[i][j] || o2[i][j] != o0[i][j]) implies #[trigger] swept(
        h0,
        r,
        c,
        i,
        j,
    ) by {
        if h[i][j] != h0[i][j] || o[i][j] != o0[i][j] {
        } else if i == x && j == y {
        } else {
            lemma_swept_mono(h0, h1, x, y, i, j);
            lemma_swept_prepend(h0, r, c, x, y, i, j);
        }
    }
}

/// An arm that is bare up to a cell that is not passable is settled.
pub proof fn lemma_arm_stopped(
    h: Seq<Seq<i8>>,
    o: Seq<Seq<GameObjs>>,
    open: Seq<Seq<bool>>,
    r: int,
    c: int,
    dir: Direction,
    i: int,
)
    requires
        0 <= i,
        arm_bare(h, o, r, c, dir, i),
        !step_free(open, r, c, dir, i + 1),
    ensures
        arm_settled(h, o, open, r, c, dir),
{
}

/// An arm that is bare up to a cell whose own arms are bare is settled.
pub proof fn lemma_arm_handed_on(
    h: Seq<Seq<i8>>,
    o: Seq<Seq<GameObjs>>,
    open: Seq<Seq<bool>>,
    r: int,
    c: int,
    dir: Direction,
    i: int,
)
    requires
        1 <= i,
        arm_bare(h, o, r, c, dir, i),
        settled(h, o, open, step_r(r, dir, i), step_c(c, dir, i)),
    ensures
        arm_settled(h, o, open, r, c, dir),
{
    let mr = step_r(r, dir, i);
    let mc = step_c(c, dir, i);
    assert forall|k: int| 1 <= k <= MAX_BOMB_POWER && #[trigger] clear_run(
        open,
        r,
        c,
        dir,
        k,
    ) implies bare(h, o, step_r(r, dir, k), step_c(c, dir, k)) by {
        if k > i {
            let x = step_r(r, dir, k);
            let y = step_c(c, dir, k);
            assert forall|j: int| 1 <= j <= k - i implies #[trigger] step_free(
                open,
                mr,
                mc,
                dir,
                j,
            ) by {
                assert(step_free(open, r, c, dir, i + j));
            }
            assert(in_arm(open, mr, mc, x, y));
        }
    }
}

/// The two grids are rectangles of one shape, closed all round.
pub open spec fn closed_in(cells: Seq<Seq<i8>>, objs: Seq<Seq<GameObjs>>) -> bool {
    &&& walled(passable(cells))
    &&& walled(vacancies(objs))
    &&& same_shape(cells, objs)
}

/// Emptying an inner cell leaves the grids closed all round.
pub proof fn lemma_open_closed(cells: Seq<Seq<i8>>, objs: Seq<Seq<GameObjs>>, x: int, y: int)
    requires
        closed_in(cells, objs),
        0 < x < cells.len() - 1,
        0 < y < cells[0].len() - 1,
    ensures
        closed_in(opened(cells, x, y), objs),
        within(cells, x, y),
{
    let p = passable(cells);
    let after = opened(cells, x, y);
    let q = passable(after);
    lemma_free_shape(cells, code_is_passable());
    assert forall|i: int, j: int| #[trigger] free_at(q, i, j) implies 0 < i < q.len() - 1 && 0 < j
        < q[0].len() - 1 by {
        if i == x && j == y {
        } else {
            assert(free_at(p, i, j));
        }
    }
}

/// Clearing a passable cell leaves the grids closed all round.
pub proof fn lemma_clear_closed(cells: Seq<Seq<i8>>, objs: Seq<Seq<GameObjs>>, x: int, y: int)
    requires
        closed_in(cells, objs),
        within(cells, x, y),
        cells[x][y] <= EMPTY,
    ensures
        closed_in(opened(cells, x, y), objs.update(x, objs[x].update(y, GameObjs::Default))),
        0 < x < cells.len() - 1,
        0 < y < cells[0].len() - 1,
{
    let p = passable(cells);
    let v = vacancies(objs);
    let after = objs.update(x, objs[x].update(y, GameObjs::Default));
    let w = vacancies(after);
    lemma_free_shape(objs, slot_is_vacant());
    assert(free_at(p, x, y));
    lemma_open_closed(cells, objs, x, y);
    assert forall|i: int, j: int| #[trigger] free_at(w, i, j) implies 0 < i < w.len() - 1 && 0 < j
        < w[0].len() - 1 by {
        if i == x && j == y {
        } else {
            assert(free_at(v, i, j));
        }
    }
}

/// Where a retraction has settled its own cell and every detonation it
/// emptied, every detonation it leads to is settled.
pub proof fn lemma_chain_settled(
    h0: Seq<Seq<i8>>,
    h: Seq<Seq<i8>>,
    o: Seq<Seq<GameObjs>>,
    r: int,
    c: int,
    er: int,
    ec: int,
    n: nat,
)
    requires
        quenched(h0, h, o),
        settled(h, o, passable(h0), r, c),
        chained(h0, r, c, er, ec, n),
    ensures
        settled(h, o, passable(h0), er, ec),
    decreases n,
{
    if r == er && c == ec {
    } else {
        let (x, y) = choose|x: int, y: int| #[trigger]
            hop(h0, r, c, x, y) && chained(h0, x, y, er, ec, (n - 1) as nat);
        lemma_chain_settled(h0, h, o, x, y, er, ec, (n - 1) as nat);
    }
}

/// A retraction that has run to its end has emptied exactly what it sweeps.
pub proof fn lemma_ejected_exact(
    cells: Seq<Seq<i8>>,
    objs: Seq<Seq<GameObjs>>,
    h: Seq<Seq<i8>>,
    o: Seq<Seq<GameObjs>>,
    r: int,
    c: int,
)
    requires
        within(cells, r, c),
        ebbed(opened(cells, r, c), objs, h, o, r, c),
        settled(h, o, passable(opened(cells, r, c)), r, c),
    ensures
        h == ejected(cells, r, c),
        o == vacated(objs, cells, r, c),
{
    let start = opened(cells, r, c);
    let e = ejected(cells, r, c);
    let v = vacated(objs, cells, r, c);
    assert forall|x: int| 0 <= x < h.len() implies #[trigger] h[x] == e[x] && o[x] == v[x] by {
        assert forall|y: int| 0 <= y < h[x].len() implies h[x][y] == e[x][y] && #[trigger] o[x][y]
            == v[x][y] by {
            if swept(start, r, c, x, y) {
                let (er, ec, n) = choose|er: int, ec: int, n: nat| #[trigger]
                    chained(start, r, c, er, ec, n) && in_arm(passable(start), er, ec, x, y);
                lemma_chain_settled(start, h, o, r, c, er, ec, n);
            }
        }
        assert forall|y: int| 0 <= y < h[x].len() implies #[trigger] h[x][y] == e[x][y] by {
            assert(o[x][y] == v[x][y]);
        }
    }
    assert forall|x: int| 0 <= x < o.len() implies #[trigger] o[x] == v[x] by {}
}

} // verus!
