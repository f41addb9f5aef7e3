//! The occupancy grid and the entity grid that mirrors it.

use vstd::prelude::*;
use crate::blast::{
    arm_painted, clear_run, code_is_empty, code_is_passable, code_paint, empties, flame_paint,
    free_at, injected, lemma_arm_blocked, lemma_arm_extend, lemma_arm_start, lemma_free_shape,
    lemma_next_arm, lemma_no_arm, lemma_painted_walled, passable, rectangular, slot_is_vacant,
    spawned, step_c, step_r, vacancies, walled, within,
};
use crate::bomb::{
    flame_code, signal_code, Bomb, Direction, Extent, Flame, EXPLOSION, MAX_BOMB_POWER,
};
use crate::bonus::{Bonus, BonusType};
use crate::retract::{
    arm_bare, arm_settled, blasts, closed_in, ebbed, ejected, lemma_arm_handed_on,
    lemma_arm_stopped, lemma_arm_swept, lemma_blasts, lemma_clear_cell, lemma_clear_closed,
    lemma_ebb_chain, lemma_ebb_next, lemma_ejected_exact, lemma_open_closed, lemma_opened_same,
    opened, quieter, settled, vacated,
};
use crate::geometry::{Position, Rectangle, SCALED_TILE};
use crate::noise::{BLOCK, EMPTY, WALL};
use crate::objects::{code_rows, Block, Empty, Grass, Wall};
use crate::upgrade::{Upgrade, UpgradeType};

verus! {

/// How a box stands to the terrain: whether it touches a blast, whether it
/// touches solid terrain, and three signals that the grid never raises
/// (bonus, upgrade, goal).
pub type CollisonBools = (bool, bool, bool, bool, bool);

/// What stands in a cell.
#[derive(Clone, Copy, Debug, PartialEq, Eq, Structural)]
pub enum GameObjs {
    Default,
    Wall(Wall),
    Block(Block),
    Bomb(Bomb),
    Flame(Flame),
}

impl GameObjs {
    pub open spec fn wf(&self) -> bool {
        match *self {
            GameObjs::Wall(w) => w.wf(),
            GameObjs::Bomb(b) => b.wf(),
            GameObjs::Flame(f) => f.wf(),
            _ => true,
        }
    }

    pub fn is_default(&self) -> (b: bool)
        ensures
            b == (*self is Default),
    {
        match self {
            GameObjs::Default => true,
            _ => false,
        }
    }
}

/// The rows of an entity matrix, each as a sequence.
pub open spec fn obj_rows(objs: Vec<Vec<GameObjs>>) -> Seq<Seq<GameObjs>> {
    Seq::new(objs.len() as nat, |r: int| objs[r]@)
}

/// Where the passable cells are walled in, so are the empty cells.
pub proof fn lemma_walled_narrower(cells: Seq<Seq<i8>>)
    requires
        walled(passable(cells)),
    ensures
        walled(empties(cells)),
{
    let p = passable(cells);
    let e = empties(cells);
    assert forall|x: int| 0 <= x < e.len() implies (#[trigger] e[x]).len() == e[0].len() by {
        assert(p[x].len() == p[0].len());
    }
    assert forall|x: int, y: int| #[trigger] free_at(e, x, y) implies 0 < x < e.len() - 1 && 0 < y
        < e[0].len() - 1 by {
        assert(free_at(p, x, y));
    }
}

/// The screen square of cell `(x, y)` overlaps `rec`.
pub open spec fn tile_touches(x: int, y: int, rec: Rectangle) -> bool {
    &&& x * SCALED_TILE + SCALED_TILE > rec.x
    &&& x * SCALED_TILE < rec.x + rec.width
    &&& y * SCALED_TILE + SCALED_TILE > rec.y
    &&& y * SCALED_TILE < rec.y + rec.height
}

/// The cell `(x, y)` overlaps `rec` and holds a blast signal.
pub open spec fn burns(cells: Seq<Seq<i8>>, x: int, y: int, rec: Rectangle) -> bool {
    tile_touches(x, y, rec) && cells[x][y] < EMPTY
}

/// The cell `(x, y)` overlaps `rec` and holds terrain.
pub open spec fn blocks(cells: Seq<Seq<i8>>, x: int, y: int, rec: Rectangle) -> bool {
    tile_touches(x, y, rec) && (cells[x][y] == BLOCK || cells[x][y] == WALL)
}

/// The box `rec` overlaps a blast signal in one of the four cells whose
/// least corner is `(i, j)`.
pub open spec fn fatal_hit(cells: Seq<Seq<i8>>, i: int, j: int, rec: Rectangle) -> bool {
    ||| burns(cells, i, j, rec)
    ||| burns(cells, i, j + 1, rec)
    ||| burns(cells, i + 1, j, rec)
    ||| burns(cells, i + 1, j + 1, rec)
}

/// The box `rec` overlaps terrain in one of the four cells whose least
/// corner is `(i, j)`.
pub open spec fn neutral_hit(cells: Seq<Seq<i8>>, i: int, j: int, rec: Rectangle) -> bool {
    ||| blocks(cells, i, j, rec)
    ||| blocks(cells, i, j + 1, rec)
    ||| blocks(cells, i + 1, j, rec)
    ||| blocks(cells, i + 1, j + 1, rec)
}

pub struct Grid {
    pub empty_vec: Vec<Empty>,
    pub grass_vec: Vec<Grass>,
    pub bonus_vec: Vec<Bonus>,
    pub upgrade_vec: Vec<Upgrade>,
    pub cells: Vec<Vec<i8>>,
    pub game_objs: Vec<Vec<GameObjs>>,
}

impl Grid {
    /// The occupancy codes, row by row.
    pub open spec fn codes(&self) -> Seq<Seq<i8>> {
        code_rows(self.cells)
    }

    /// The entities, row by row.
    pub open spec fn entities(&self) -> Seq<Seq<GameObjs>> {
        obj_rows(self.game_objs)
    }

    /// The two grids are rectangles of one shape, closed all round: every
    /// outermost cell holds something solid and an entity.
    pub open spec fn enclosed(&self) -> bool {
        closed_in(self.codes(), self.entities())
    }

    /// Everything but the two grids is the same in `self` and `other`.
    pub open spec fn same_lists(&self, other: &Grid) -> bool {
        &&& self.empty_vec == other.empty_vec
        &&& self.grass_vec == other.grass_vec
        &&& self.bonus_vec == other.bonus_vec
        &&& self.upgrade_vec == other.upgrade_vec
    }

    pub(crate) fn set_code(&mut self, x: usize, y: usize, code: i8)
        requires
            within(old(self).codes(), x as int, y as int),
        ensures
            final(self).codes() == old(self).codes().update(
                x as int,
                old(self).codes()[x as int].update(y as int, code),
            ),
            final(self).game_objs == old(self).game_objs,
            final(self).same_lists(old(self)),
    {
        self.cells[x][y] = code;
        proof {
            let want = old(self).codes().update(
                x as int,
                old(self).codes()[x as int].update(y as int, code),
            );
            assert forall|r: int| 0 <= r < want.len() implies self.codes()[r] == want[r] by {}
        }
    }

    pub(crate) fn set_obj(&mut self, x: usize, y: usize, obj: GameObjs)
        requires
            within(old(self).entities(), x as int, y as int),
        ensures
            final(self).entities() == old(self).entities().update(
                x as int,
                old(self).entities()[x as int].update(y as int, obj),
            ),
            final(self).cells == old(self).cells,
            final(self).same_lists(old(self)),
    {
        self.game_objs[x][y] = obj;
        proof {
            let want = old(self).entities().update(
                x as int,
                old(self).entities()[x as int].update(y as int, obj),
            );
        }
    }

    pub(crate) fn code(&self, x: usize, y: usize) -> (code: i8)
        requires
            within(self.codes(), x as int, y as int),
        ensures
            code == self.codes()[x as int][y as int],
    {
        self.cells[x][y]
    }

    pub(crate) fn obj(&self, x: usize, y: usize) -> (obj: GameObjs)
        requires
            within(self.entities(), x as int, y as int),
        ensures
            obj == self.entities()[x as int][y as int],
    {
        self.game_objs[x][y]
    }

    /// The cell one step from `(row, col)`.
    fn step(row: usize, col: usize, dir: Direction) -> (p: (usize, usize))
        requires
            0 < row < usize::MAX,
            0 < col < usize::MAX,
        ensures
            p.0 == step_r(row as int, dir, 1),
            p.1 == step_c(col as int, dir, 1),
    {
        match dir {
            Direction::Left => (row - 1, col),
            Direction::Right => (row + 1, col),
            Direction::Top => (row, col - 1),
            Direction::Down => (row, col + 1),
        }
    }

    /// Writes the flame codes of one arm of the blast around `(r, c)`.
    fn inject_arm(&mut self, power: usize, r: usize, c: usize, dir: Direction)
        requires
            walled(empties(old(self).codes())),
            0 < r < old(self).codes().len() - 1,
            0 < c < old(self).codes()[0].len() - 1,
        ensures
            final(self).codes() == arm_painted(
                old(self).codes(),
                empties(old(self).codes()),
                code_paint(),
                power as int,
                r as int,
                c as int,
                dir,
                power as int,
            ),
            final(self).game_objs == old(self).game_objs,
            final(self).same_lists(old(self)),
    {
        let ghost start = self.codes();
        let ghost free = empties(start);
        let mid = signal_code(dir, Extent::Mid);
        let end = signal_code(dir, Extent::End);
        let mut i: usize = 0;
        let mut row = r;
        let mut col = c;
        proof {
            lemma_free_shape(start, code_is_empty());
            assert(start[0].len() == self.cells[0].len());
            lemma_arm_start(start, free, code_paint(), power as int, r as int, c as int, dir);
        }
        while i < power
            invariant
                i <= power,
                rectangular(start),
                start.len() <= usize::MAX,
                start[0].len() <= usize::MAX,
                start == old(self).codes(),
                free == empties(start),
                walled(free),
                row == step_r(r as int, dir, i as int),
                col == step_c(c as int, dir, i as int),
                0 < row < start.len() - 1,
                0 < col < start[0].len() - 1,
                clear_run(free, r as int, c as int, dir, i as int),
                self.codes() == arm_painted(
                    start,
                    free,
                    code_paint(),
                    power as int,
                    r as int,
                    c as int,
                    dir,
                    i as int,
                ),
                self.game_objs == old(self).game_objs,
                self.same_lists(old(self)),
                mid == flame_code(dir, Extent::Mid),
                end == flame_code(dir, Extent::End),
            ensures
                self.codes() == arm_painted(
                    start,
                    free,
                    code_paint(),
                    power as int,
                    r as int,
                    c as int,
                    dir,
                    power as int,
                ),
                self.game_objs == old(self).game_objs,
                self.same_lists(old(self)),
            decreases power - i,
        {
            let (nr, nc) = Self::step(row, col, dir);
            let cur = self.code(nr, nc);
            if cur != EMPTY {
                proof {
                    lemma_arm_blocked(
                        start,
                        free,
                        code_paint(),
                        power as int,
                        r as int,
                        c as int,
                        dir,
                        i as int,
                    );
                }
                break ;
            }
            let code = if i + 1 == power {
                end
            } else {
                mid
            };
            self.set_code(nr, nc, code);
            proof {
                assert(free_at(free, nr as int, nc as int));
                lemma_arm_extend(
                    start,
                    free,
                    code_paint(),
                    power as int,
                    r as int,
                    c as int,
                    dir,
                    i as int,
                );
            }
            row = nr;
            col = nc;
            i += 1;
        }
    }

    /// Spawns the flame entities of one arm of the blast around `(r, c)`.
    fn inject_arm_obj(&mut self, power: usize, r: usize, c: usize, dir: Direction)
        requires
            walled(vacancies(old(self).entities())),
            0 < r < old(self).entities().len() - 1,
            0 < c < old(self).entities()[0].len() - 1,
        ensures
            final(self).entities() == arm_painted(
                old(self).entities(),
                vacancies(old(self).entities()),
                flame_paint(),
                power as int,
                r as int,
                c as int,
                dir,
                power as int,
            ),
            final(self).cells == old(self).cells,
            final(self).same_lists(old(self)),
    {
        let ghost start = self.entities();
        let ghost free = vacancies(start);
        let mut i: usize = 0;
        let mut row = r;
        let mut col = c;
        proof {
            lemma_free_shape(start, slot_is_vacant());
            assert(start[0].len() == self.game_objs[0].len());
            lemma_arm_start(start, free, flame_paint(), power as int, r as int, c as int, dir);
        }
        while i < power
            invariant
                i <= power,
                rectangular(start),
                start.len() <= usize::MAX,
                start[0].len() <= usize::MAX,
                start == old(self).entities(),
                free == vacancies(start),
                walled(free),
                row == step_r(r as int, dir, i as int),
                col == step_c(c as int, dir, i as int),
                0 < row < start.len() - 1,
                0 < col < start[0].len() - 1,
                clear_run(free, r as int, c as int, dir, i as int),
                self.entities() == arm_painted(
                    start,
                    free,
                    flame_paint(),
                    power as int,
                    r as int,
                    c as int,
                    dir,
                    i as int,
                ),
                self.cells == old(self).cells,
                self.same_lists(old(self)),
            ensures
                self.entities() == arm_painted(
                    start,
                    free,
                    flame_paint(),
                    power as int,
                    r as int,
                    c as int,
                    dir,
                    power as int,
                ),
                self.cells == old(self).cells,
                self.same_lists(old(self)),
            decreases power - i,
        {
            let (nr, nc) = Self::step(row, col, dir);
            let cur = self.obj(nr, nc);
            if !cur.is_default() {
                proof {
                    lemma_arm_blocked(
                        start,
                        free,
                        flame_paint(),
                        power as int,
                        r as int,
                        c as int,
                        dir,
                        i as int,
                    );
                }
                break ;
            }
            let extent = if i + 1 == power {
                Extent::End
            } else {
                Extent::Mid
            };
            self.set_obj(nr, nc, GameObjs::Flame(Flame::new(dir, extent)));
            proof {
                assert(free_at(free, nr as int, nc as int));
                lemma_arm_extend(
                    start,
                    free,
                    flame_paint(),
                    power as int,
                    r as int,
                    c as int,
                    dir,
                    i as int,
                );
            }
            row = nr;
            col = nc;
            i += 1;
        }
    }

    /// Writes the flame codes of a blast of power `l` around `(r, c)`, if
    /// that cell holds `EXPLOSION`.
    pub fn inject_flames(&mut self, l: usize, r: usize, c: usize)
        requires
            walled(passable(old(self).codes())),
            within(old(self).codes(), r as int, c as int),
        ensures
            final(self).codes() == injected(old(self).codes(), l as int, r as int, c as int),
            final(self).game_objs == old(self).game_objs,
            final(self).same_lists(old(self)),
    {
        let ghost m = self.codes();
        let ghost f = empties(m);
        let ghost (p, ri, ci) = (l as int, r as int, c as int);
        if self.code(r, c) == EXPLOSION {
            proof {
                lemma_walled_narrower(m);
                assert(free_at(passable(m), ri, ci));
                lemma_no_arm(m, f, code_paint(), p, ri, ci);
            }
            self.inject_arm(l, r, c, Direction::Left);
            proof {
                lemma_next_arm(m, code_is_empty(), code_paint(), p, ri, ci, Direction::Left);
                lemma_painted_walled(m, code_is_empty(), code_paint(), p, ri, ci, 1);
            }
            self.inject_arm(l, r, c, Direction::Right);
            proof {
                lemma_next_arm(m, code_is_empty(), code_paint(), p, ri, ci, Direction::Right);
                lemma_painted_walled(m, code_is_empty(), code_paint(), p, ri, ci, 2);
            }
            self.inject_arm(l, r, c, Direction::Top);
            proof {
                lemma_next_arm(m, code_is_empty(), code_paint(), p, ri, ci, Direction::Top);
                lemma_painted_walled(m, code_is_empty(), code_paint(), p, ri, ci, 3);
            }
            self.inject_arm(l, r, c, Direction::Down);
            proof {
                lemma_next_arm(m, code_is_empty(), code_paint(), p, ri, ci, Direction::Down);
            }
        }
    }

    /// Spawns the flame entities of a blast of power `l` around `(r, c)`,
    /// if that cell holds `EXPLOSION`. The walk is the one of
    /// `inject_flames`, over vacant slots in place of `EMPTY` cells.
    pub fn inject_flames_obj(&mut self, l: usize, r: usize, c: usize)
        requires
            old(self).enclosed(),
            within(old(self).codes(), r as int, c as int),
        ensures
            final(self).entities() == spawned(
                old(self).entities(),
                old(self).codes()[r as int][c as int] == EXPLOSION,
                l as int,
                r as int,
                c as int,
            ),
            final(self).cells == old(self).cells,
            final(self).same_lists(old(self)),
    {
        let ghost m = self.entities();
        let ghost f = vacancies(m);
        let ghost (p, ri, ci) = (l as int, r as int, c as int);
        if self.code(r, c) == EXPLOSION {
            proof {
                assert(free_at(passable(self.codes()), ri, ci));
                lemma_no_arm(m, f, flame_paint(), p, ri, ci);
            }
            self.inject_arm_obj(l, r, c, Direction::Left);
            proof {
                lemma_next_arm(m, slot_is_vacant(), flame_paint(), p, ri, ci, Direction::Left);
                lemma_painted_walled(m, slot_is_vacant(), flame_paint(), p, ri, ci, 1);
            }
            self.inject_arm_obj(l, r, c, Direction::Right);
            proof {
                lemma_next_arm(m, slot_is_vacant(), flame_paint(), p, ri, ci, Direction::Right);
                lemma_painted_walled(m, slot_is_vacant(), flame_paint(), p, ri, ci, 2);
            }
            self.inject_arm_obj(l, r, c, Direction::Top);
            proof {
                lemma_next_arm(m, slot_is_vacant(), flame_paint(), p, ri, ci, Direction::Top);
                lemma_painted_walled(m, slot_is_vacant(), flame_paint(), p, ri, ci, 3);
            }
            self.inject_arm_obj(l, r, c, Direction::Down);
            proof {
                lemma_next_arm(m, slot_is_vacant(), flame_paint(), p, ri, ci, Direction::Down);
            }
        }
    }

    /// Retracts one arm of the flames around `(r, c)`: walks outward, clears
    /// what is not solid, stops at the first solid cell, and hands over to a
    /// detonation that it meets.
    fn retract_arm(&mut self, r: usize, c: usize, dir: Direction)
        requires
            old(self).enclosed(),
            within(old(self).codes(), r as int, c as int),
            old(self).codes()[r as int][c as int] == EMPTY,
        ensures
            final(self).enclosed(),
            final(self).same_lists(old(self)),
            ebbed(
                old(self).codes(),
                old(self).entities(),
                final(self).codes(),
                final(self).entities(),
                r as int,
                c as int,
            ),
            arm_settled(
                final(self).codes(),
                final(self).entities(),
                passable(old(self).codes()),
                r as int,
                c as int,
                dir,
            ),
        decreases blasts(old(self).codes()), 0int,
    {
        let ghost h0 = self.codes();
        let ghost o0 = self.entities();
        let ghost open = passable(h0);
        let ghost (ri, ci) = (r as int, c as int);
        let mut i: usize = 0;
        let mut row = r;
        let mut col = c;
        proof {
            lemma_free_shape(h0, code_is_passable());
            assert(free_at(open, ri, ci));
            assert(h0[0].len() == self.cells[0].len());
        }
        while i < MAX_BOMB_POWER
            invariant
                i <= MAX_BOMB_POWER,
                h0 == old(self).codes(),
                o0 == old(self).entities(),
                open == passable(h0),
                ri == r && ci == c,
                rectangular(h0),
                h0.len() <= usize::MAX,
                h0[0].len() <= usize::MAX,
                self.enclosed(),
                self.same_lists(old(self)),
                ebbed(h0, o0, self.codes(), self.entities(), ri, ci),
                arm_bare(self.codes(), self.entities(), ri, ci, dir, i as int),
                clear_run(open, ri, ci, dir, i as int),
                row == step_r(ri, dir, i as int),
                col == step_c(ci, dir, i as int),
                0 < row < h0.len() - 1,
                0 < col < h0[0].len() - 1,
                i == MAX_BOMB_POWER ==> arm_settled(
                    self.codes(),
                    self.entities(),
                    open,
                    ri,
                    ci,
                    dir,
                ),
            ensures
                self.enclosed(),
                self.same_lists(old(self)),
                ebbed(h0, o0, self.codes(), self.entities(), ri, ci),
                arm_settled(self.codes(), self.entities(), open, ri, ci, dir),
            decreases MAX_BOMB_POWER - i,
        {
            let ghost h = self.codes();
            let ghost o = self.entities();
            let (nr, nc) = Self::step(row, col, dir);
            let ghost (x, y) = (nr as int, nc as int);
            proof {
                assert(h0[x].len() == h0[0].len());
            }
            let code = self.code(nr, nc);
            if code > EMPTY {
                proof {
                    lemma_arm_stopped(h, o, open, ri, ci, dir, i as int);
                }
                break ;
            }
            proof {
                lemma_arm_swept(h0, ri, ci, dir, i + 1);
                lemma_clear_closed(h, o, x, y);
                lemma_clear_cell(h, o, x, y);
            }
            if code == EXPLOSION {
                self.rm_game_obj(nr, nc);
                let ghost h1 = self.codes();
                proof {
                    assert(within(h0, x, y) && h0[x][y] == EXPLOSION && h1[x][y] != EXPLOSION);
                    lemma_blasts(h0, h1);
                    lemma_opened_same(h1, x, y);
                }
                self.retract(nr, nc);
                proof {
                    let h2 = self.codes();
                    let o2 = self.entities();
                    lemma_ebb_chain(h0, o0, h, o, h2, o2, ri, ci, x, y);
                    lemma_arm_handed_on(h2, o2, open, ri, ci, dir, i + 1);
                }
                break ;
            }
            self.rm_game_obj(nr, nc);
            row = nr;
            col = nc;
            i += 1;
        }
    }

    /// Retracts the flames around `(r, c)`, arm by arm.
    fn retract(&mut self, r: usize, c: usize)
        requires
            old(self).enclosed(),
            0 < r < old(self).codes().len() - 1,
            0 < c < old(self).codes()[0].len() - 1,
        ensures
            final(self).enclosed(),
            final(self).same_lists(old(self)),
            ebbed(
                opened(old(self).codes(), r as int, c as int),
                old(self).entities(),
                final(self).codes(),
                final(self).entities(),
                r as int,
                c as int,
            ),
            settled(
                final(self).codes(),
                final(self).entities(),
                passable(opened(old(self).codes(), r as int, c as int)),
                r as int,
                c as int,
            ),
        decreases blasts(old(self).codes()), 1int,
    {
        let ghost cells = self.codes();
        let ghost o0 = self.entities();
        let ghost (ri, ci) = (r as int, c as int);
        proof {
            lemma_open_closed(cells, o0, ri, ci);
        }
        self.set_code(r, c, EMPTY);
        let ghost start = self.codes();
        proof {
            lemma_blasts(cells, start);
        }
        self.retract_arm(r, c, Direction::Right);
        let ghost h1 = self.codes();
        let ghost o1 = self.entities();
        proof {
            Self::lemma_fewer_blasts(start, h1);
        }
        self.retract_arm(r, c, Direction::Left);
        let ghost h2 = self.codes();
        let ghost o2 = self.entities();
        proof {
            lemma_ebb_next(start, o0, h1, o1, h2, o2, ri, ci);
            Self::lemma_fewer_blasts(start, h2);
        }
        self.retract_arm(r, c, Direction::Down);
        let ghost h3 = self.codes();
        let ghost o3 = self.entities();
        proof {
            lemma_ebb_next(start, o0, h2, o2, h3, o3, ri, ci);
            Self::lemma_fewer_blasts(start, h3);
        }
        self.retract_arm(r, c, Direction::Top);
        proof {
            let h4 = self.codes();
            let o4 = self.entities();
            lemma_ebb_next(start, o0, h3, o3, h4, o4, ri, ci);
        }
    }

    /// A quieter grid holds no more detonations.
    proof fn lemma_fewer_blasts(before: Seq<Seq<i8>>, after: Seq<Seq<i8>>)
        requires
            quieter(before, after),
        ensures
            blasts(after) <= blasts(before),
    {
        lemma_blasts(before, after);
    }

    /// Retracts the flames around the inner cell `(r, c)`. The cell itself
    /// is emptied; then each of the four arms is walked for up to
    /// `MAX_BOMB_POWER` steps. A solid cell ends an arm. A cell that holds
    /// `EXPLOSION` is cleared, retracted in turn, and ends the arm. Any other
    /// cell is cleared, code and entity. In all, exactly the cells that the
    /// retraction sweeps are cleared.
    pub fn eject_flames(&mut self, r: usize, c: usize)
        requires
            old(self).enclosed(),
            0 < r < old(self).codes().len() - 1,
            0 < c < old(self).codes()[0].len() - 1,
        ensures
            final(self).codes() == ejected(old(self).codes(), r as int, c as int),
            final(self).entities() == vacated(
                old(self).entities(),
                old(self).codes(),
                r as int,
                c as int,
            ),
            final(self).enclosed(),
            final(self).same_lists(old(self)),
    {
        proof {
            lemma_open_closed(self.codes(), self.entities(), r as int, c as int);
        }
        self.retract(r, c);
        proof {
            lemma_ejected_exact(
                old(self).codes(),
                old(self).entities(),
                self.codes(),
                self.entities(),
                r as int,
                c as int,
            );
        }
    }

    /// Clears the cell `(i, j)`: its code becomes `EMPTY` and its entity
    /// leaves, both at once.
    pub fn rm_game_obj(&mut self, i: usize, j: usize)
        requires
            within(old(self).codes(), i as int, j as int),
            within(old(self).entities(), i as int, j as int),
        ensures
            final(self).codes() == old(self).codes().update(
                i as int,
                old(self).codes()[i as int].update(j as int, EMPTY),
            ),
            final(self).entities() == old(self).entities().update(
                i as int,
                old(self).entities()[i as int].update(j as int, GameObjs::Default),
            ),
            final(self).same_lists(old(self)),
    {
        self.set_code(i, j, EMPTY);
        self.set_obj(i, j, GameObjs::Default);
    }

    /// Marks the bonus with index `i` as taken.
    pub fn rm_bonus_obj(&mut self, i: usize)
        requires
            i < old(self).bonus_vec.len(),
        ensures
            final(self).bonus_vec@.len() == old(self).bonus_vec@.len(),
            final(self).bonus_vec[i as int]@ == (crate::bonus::BonusView {
                bonus_type: BonusType::Default,
                ..old(self).bonus_vec[i as int]@
            }),
            forall|k: int|
                0 <= k < old(self).bonus_vec.len() && k != i ==> final(self).bonus_vec[k] == old(
                    self,
                ).bonus_vec[k],
            final(self).cells == old(self).cells,
            final(self).game_objs == old(self).game_objs,
            final(self).empty_vec == old(self).empty_vec,
            final(self).grass_vec == old(self).grass_vec,
            final(self).upgrade_vec == old(self).upgrade_vec,
    {
        self.bonus_vec[i].bonus_type = BonusType::Default;
    }

    /// Marks the upgrade with index `i` as taken.
    pub fn rm_upgrade_obj(&mut self, i: usize)
        requires
            i < old(self).upgrade_vec.len(),
        ensures
            final(self).upgrade_vec@ == old(self).upgrade_vec@.update(
                i as int,
                Upgrade { up_type: UpgradeType::Default, ..old(self).upgrade_vec[i as int] },
            ),
            final(self).cells == old(self).cells,
            final(self).game_objs == old(self).game_objs,
            final(self).empty_vec == old(self).empty_vec,
            final(self).grass_vec == old(self).grass_vec,
            final(self).bonus_vec == old(self).bonus_vec,
    {
        self.upgrade_vec[i].up_type = UpgradeType::Default;
    }

    fn touches(x: usize, y: usize, rec: &Rectangle) -> (b: bool)
        ensures
            b == tile_touches(x as int, y as int, *rec),
    {
        let cx: i128 = (x as i128) * 4800;
        let cy: i128 = (y as i128) * 4800;
        let rx: i128 = rec.x as i128;
        let ry: i128 = rec.y as i128;
        cx + 4800 > rx && cx < rx + (rec.width as i128) && cy + 4800 > ry && cy < ry + (
        rec.height as i128)
    }

    /// Classifies how the box `obj_rec` stands to the four cells whose
    /// least corner is `position`: the first result says whether it overlaps
    /// a cell that holds a blast signal, the second whether it overlaps a
    /// cell that holds `BLOCK` or `WALL`. The other three are never raised.
    pub fn get_collisions(&self, position: Position, obj_rec: Rectangle) -> (hit: CollisonBools)
        requires
            within(self.codes(), position.0 as int, position.1 as int + 1),
            within(self.codes(), position.0 as int + 1, position.1 as int + 1),
        ensures
            hit == (
                fatal_hit(self.codes(), position.0 as int, position.1 as int, obj_rec),
                neutral_hit(self.codes(), position.0 as int, position.1 as int, obj_rec),
                false,
                false,
                false,
            ),
    {
        let (i, j) = position;
        proof {
            assert(j + 1 < self.cells[i as int].len());
        }
        let mut fatal_coll = false;
        let mut neutral_coll = false;
        let a = self.code(i, j);
        let b = self.code(i, j + 1);
        let c = self.code(i + 1, j);
        let d = self.code(i + 1, j + 1);
        if Self::touches(i, j, &obj_rec) {
            neutral_coll = neutral_coll || a == BLOCK || a == WALL;
            fatal_coll = fatal_coll || a < EMPTY;
        }
        if Self::touches(i, j + 1, &obj_rec) {
            neutral_coll = neutral_coll || b == BLOCK || b == WALL;
            fatal_coll = fatal_coll || b < EMPTY;
        }
        if Self::touches(i + 1, j, &obj_rec) {
            neutral_coll = neutral_coll || c == BLOCK || c == WALL;
            fatal_coll = fatal_coll || c < EMPTY;
        }
        if Self::touches(i + 1, j + 1, &obj_rec) {
            neutral_coll = neutral_coll || d == BLOCK || d == WALL;
            fatal_coll = fatal_coll || d < EMPTY;
        }
        (fatal_coll, neutral_coll, false, false, false)
    }
}

} // verus!
