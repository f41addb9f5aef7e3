//! One tick of the simulation: every cell's entity, in row-major order.

use vstd::prelude::*;
use crate::blast::{
    arm_of, step_free, code_is_passable, empties, flame_paint, free_at, injected,
    lemma_free_shape, lemma_painted_walled, passable, same_shape, slot_is_vacant, spawned,
    vacancies, within,
};
use crate::bomb::{Bomb, Flame, EXPLOSION};
use crate::geometry::Position;
use crate::grid::{GameObjs, Grid};
use crate::noise::EMPTY;
use crate::objects::{blast_reaches, State, Wall};
use crate::retract::{closed_in, ejected, lemma_open_closed, lemma_opened_same, opened, vacated};

verus! {

/// The matrix with the cell `(x, y)` set to `v`.
pub open spec fn put<T>(m: Seq<Seq<T>>, x: int, y: int, v: T) -> Seq<Seq<T>> {
    m.update(x, m[x].update(y, v))
}

/// The two grids as plain values.
pub struct Board {
    pub cells: Seq<Seq<i8>>,
    pub objs: Seq<Seq<GameObjs>>,
}

impl Board {
    /// `(x, y)` is a cell that is not outermost.
    pub open spec fn inner(self, x: int, y: int) -> bool {
        0 < x < self.cells.len() - 1 && 0 < y < self.cells[0].len() - 1
    }

    /// The grids are closed all round, every entity is well formed, and
    /// walls and bombs stand on inner cells only.
    pub open spec fn wf(self) -> bool {
        &&& closed_in(self.cells, self.objs)
        &&& forall|x: int, y: int|
            within(self.objs, x, y) ==> (#[trigger] self.objs[x][y]).wf() && ((self.objs[x][y]
                 is Wall || self.objs[x][y] is Bomb) ==> self.inner(x, y))
    }

    /// The bomb at `(i, j)` enters the tick exploding, so its blast is to
    /// be heard.
    pub open spec fn sounds_at(self, i: int, j: int) -> bool {
        self.objs[i][j] matches GameObjs::Bomb(bomb) && bomb.state == State::EXPLOADING
    }

    /// The board after the entity at `(i, j)` had its turn.
    ///
    /// An idle wall starts to burn if a blast reaches it; a burning wall
    /// moves on in its animation; a destroyed wall is cleared away. A bomb is
    /// advanced first. If it is still idle it goes off when a blast reaches
    /// it. If it is exploding its cell is set to `EXPLOSION`, and flames are
    /// spawned and injected around it. If it is spent its flames are
    /// retracted and it is cleared away. A flame moves on in its animation
    /// while its cell holds its code.
    pub open spec fn ticked_cell(self, i: int, j: int, frame_time: u32) -> Board {
        match self.objs[i][j] {
            GameObjs::Wall(wall) => match wall.state {
                State::IDEAL => Board {
                    objs: put(
                        self.objs,
                        i,
                        j,
                        GameObjs::Wall(wall.ignited(blast_reaches(self.cells, i, j))),
                    ),
                    ..self
                },
                State::EXPLOADING => Board {
                    objs: put(self.objs, i, j, GameObjs::Wall(wall.updated(frame_time))),
                    ..self
                },
                State::EXPLOADED => Board {
                    cells: opened(self.cells, i, j),
                    objs: put(self.objs, i, j, GameObjs::Default),
                },
            },
            GameObjs::Bomb(bomb) => {
                let moved = bomb.updated(frame_time);
                match moved.state {
                    State::IDEAL => Board {
                        objs: put(
                            self.objs,
                            i,
                            j,
                            GameObjs::Bomb(moved.chained(blast_reaches(self.cells, i, j))),
                        ),
                        ..self
                    },
                    State::EXPLOADING => {
                        let lit = moved.blast_animated(self.cells[i][j], frame_time);
                        Board {
                            cells: injected(
                                put(self.cells, i, j, EXPLOSION),
                                bomb.power as int,
                                i,
                                j,
                            ),
                            objs: spawned(
                                put(self.objs, i, j, GameObjs::Bomb(lit)),
                                true,
                                bomb.power as int,
                                i,
                                j,
                            ),
                        }
                    },
                    State::EXPLOADED => Board {
                        cells: ejected(self.cells, i, j),
                        objs: put(
                            vacated(put(self.objs, i, j, GameObjs::Bomb(moved)), self.cells, i, j),
                            i,
                            j,
                            GameObjs::Default,
                        ),
                    },
                }
            },
            GameObjs::Flame(flame) => Board {
                objs: put(
                    self.objs,
                    i,
                    j,
                    GameObjs::Flame(flame.animated(self.cells[i][j], frame_time)),
                ),
                ..self
            },
            _ => self,
        }
    }

    /// The board after every cell before `(i, j)` had its turn, row by row
    /// and within a row from the first cell on.
    pub open spec fn ticked(self, i: int, j: int, frame_time: u32) -> Board
        decreases i, j,
    {
        if i < 0 || j < 0 {
            self
        } else if j > 0 {
            self.ticked(i, j - 1, frame_time).ticked_cell(i, j - 1, frame_time)
        } else if i > 0 {
            self.ticked(i - 1, self.cells[i - 1].len() as int, frame_time)
        } else {
            self
        }
    }

    /// The bombs whose blast is to be heard among the cells before `(i, j)`,
    /// in the order of their turns.
    pub open spec fn rung(self, i: int, j: int, frame_time: u32) -> Seq<Position>
        decreases i, j,
    {
        if i < 0 || j < 0 {
            seq![]
        } else if j > 0 {
            let before = self.rung(i, j - 1, frame_time);
            if self.ticked(i, j - 1, frame_time).sounds_at(i, j - 1) {
                before.push((i as usize, (j - 1) as usize))
            } else {
                before
            }
        } else if i > 0 {
            self.rung(i - 1, self.cells[i - 1].len() as int, frame_time)
        } else {
            seq![]
        }
    }

    /// The board after a whole tick.
    pub open spec fn after_tick(self, frame_time: u32) -> Board {
        self.ticked(self.cells.len() as int, 0, frame_time)
    }
}

/// Replacing an entity by one of its kind keeps the board well formed.
pub proof fn lemma_swap_obj(b: Board, x: int, y: int, obj: GameObjs)
    requires
        b.wf(),
        within(b.objs, x, y),
        obj.wf(),
        (obj is Default) == (b.objs[x][y] is Default),
        (obj is Wall || obj is Bomb) ==> b.inner(x, y),
    ensures
        (Board { objs: put(b.objs, x, y, obj), ..b }).wf(),
        vacancies(put(b.objs, x, y, obj)) == vacancies(b.objs),
{
    let after = put(b.objs, x, y, obj);
    let v = vacancies(b.objs);
    let w = vacancies(after);
    assert forall|i: int| 0 <= i < v.len() implies #[trigger] v[i] == w[i] by {}
    assert(v =~= w);
}

/// Clearing an inner cell keeps the board well formed.
pub proof fn lemma_clear_inner(b: Board, x: int, y: int)
    requires
        b.wf(),
        b.inner(x, y),
    ensures
        (Board { cells: opened(b.cells, x, y), objs: put(b.objs, x, y, GameObjs::Default) }).wf(),
        within(b.cells, x, y),
        within(b.objs, x, y),
{
    let after = put(b.objs, x, y, GameObjs::Default);
    let v = vacancies(b.objs);
    let w = vacancies(after);
    lemma_open_closed(b.cells, b.objs, x, y);
    lemma_free_shape(b.objs, slot_is_vacant());
    assert forall|i: int, j: int| #[trigger] free_at(w, i, j) implies 0 < i < w.len() - 1 && 0 < j
        < w[0].len() - 1 by {
        if i == x && j == y {
        } else {
            assert(free_at(v, i, j));
        }
    }
}

/// Writing a blast signal into an inner cell keeps the board well formed.
pub proof fn lemma_signal_inner(b: Board, x: int, y: int, code: i8)
    requires
        b.wf(),
        b.inner(x, y),
        code <= EMPTY,
    ensures
        (Board { cells: put(b.cells, x, y, code), ..b }).wf(),
        within(b.cells, x, y),
{
    let cells = put(b.cells, x, y, code);
    let p = passable(b.cells);
    let q = passable(cells);
    lemma_free_shape(b.cells, code_is_passable());
    assert forall|i: int, j: int| #[trigger] free_at(q, i, j) implies 0 < i < q.len() - 1 && 0 < j
        < q[0].len() - 1 by {
        if i == x && j == y {
        } else {
            assert(free_at(p, i, j));
        }
    }
}

/// Injected flames stand where cells were empty, so they change nothing in
/// what is passable, and the board stays well formed.
pub proof fn lemma_inject_wf(b: Board, power: int, r: int, c: int)
    requires
        b.wf(),
    ensures
        (Board { cells: injected(b.cells, power, r, c), ..b }).wf(),
        passable(injected(b.cells, power, r, c)) == passable(b.cells),
{
    let cells = injected(b.cells, power, r, c);
    let p = passable(b.cells);
    let q = passable(cells);
    assert forall|i: int| 0 <= i < p.len() implies #[trigger] p[i] == q[i] by {
        assert forall|j: int| 0 <= j < p[i].len() implies #[trigger] p[i][j] == q[i][j] by {
            if cells[i][j] != b.cells[i][j] {
                let (dir, k) = arm_of(r, c, i, j).unwrap();
                assert(step_free(empties(b.cells), r, c, dir, k));
            }
        }
    }
    assert(p =~= q);
}

/// Spawned flames fill vacant slots, and the board stays well formed.
pub proof fn lemma_spawn_wf(b: Board, lit: bool, power: int, r: int, c: int)
    requires
        b.wf(),
    ensures
        (Board { objs: spawned(b.objs, lit, power, r, c), ..b }).wf(),
{
    if lit {
        lemma_painted_walled(b.objs, slot_is_vacant(), flame_paint(), power, r, c, 4);
    }
}

/// A bomb planted on an empty cell keeps the board well formed.
pub proof fn lemma_plant_wf(b: Board, x: int, y: int, bomb: Bomb)
    requires
        b.wf(),
        within(b.cells, x, y),
        b.cells[x][y] == EMPTY,
        bomb.wf(),
    ensures
        (Board {
            cells: put(b.cells, x, y, crate::noise::BOMB),
            objs: put(b.objs, x, y, GameObjs::Bomb(bomb)),
        }).wf(),
{
    let cells = put(b.cells, x, y, crate::noise::BOMB);
    let objs = put(b.objs, x, y, GameObjs::Bomb(bomb));
    let p = passable(b.cells);
    let q = passable(cells);
    let v = vacancies(b.objs);
    let w = vacancies(objs);
    lemma_free_shape(b.objs, slot_is_vacant());
    assert(free_at(p, x, y));
    assert forall|i: int, j: int| #[trigger] free_at(q, i, j) implies 0 < i < q.len() - 1 && 0 < j
        < q[0].len() - 1 by {
        assert(free_at(p, i, j));
    }
    assert forall|i: int, j: int| #[trigger] free_at(w, i, j) implies 0 < i < w.len() - 1 && 0 < j
        < w[0].len() - 1 by {
        assert(free_at(v, i, j));
    }
}

impl Grid {
    /// The two grids as plain values.
    pub open spec fn board(&self) -> Board {
        Board { cells: self.codes(), objs: self.entities() }
    }

    /// The board is well formed and every bonus stands on a frame of its
    /// animation.
    pub open spec fn wf(&self) -> bool {
        &&& self.board().wf()
        &&& forall|k: int| 0 <= k < self.bonus_vec.len() ==> (#[trigger] self.bonus_vec[k])@.wf()
    }

    /// Gives the entity at `(i, j)` its turn. The result says whether a
    /// blast is to be heard.
    pub fn update_cell(&mut self, i: usize, j: usize, frame_time: u32) -> (sound: bool)
        requires
            old(self).board().wf(),
            within(old(self).codes(), i as int, j as int),
        ensures
            final(self).board() == old(self).board().ticked_cell(i as int, j as int, frame_time),
            final(self).board().wf(),
            same_shape(old(self).codes(), final(self).codes()),
            final(self).same_lists(old(self)),
            sound == old(self).board().sounds_at(i as int, j as int),
    {
        let ghost b0 = self.board();
        let ghost (x, y) = (i as int, j as int);
        proof {
            lemma_free_shape(b0.cells, code_is_passable());
        }
        let obj = self.obj(i, j);
        match obj {
            GameObjs::Wall(wall) => {
                let mut w = wall;
                match w.state {
                    State::IDEAL => {
                        w.exploade(i, j, &self.cells);
                        self.set_obj(i, j, GameObjs::Wall(w));
                        proof {
                            lemma_swap_obj(b0, x, y, GameObjs::Wall(w));
                        }
                    },
                    State::EXPLOADING => {
                        w.update(frame_time);
                        self.set_obj(i, j, GameObjs::Wall(w));
                        proof {
                            lemma_swap_obj(b0, x, y, GameObjs::Wall(w));
                        }
                    },
                    State::EXPLOADED => {
                        self.rm_game_obj(i, j);
                        proof {
                            lemma_clear_inner(b0, x, y);
                        }
                    },
                }
                false
            },
            GameObjs::Bomb(bomb) => {
                let mut b = bomb;
                let power = b.power;
                let sound = b.update(frame_time);
                match b.state {
                    State::IDEAL => {
                        b.chain_exp(i, j, &self.cells);
                        self.set_obj(i, j, GameObjs::Bomb(b));
                        proof {
                            lemma_swap_obj(b0, x, y, GameObjs::Bomb(b));
                        }
                    },
                    State::EXPLOADING => {
                        let cell = self.code(i, j);
                        b.anim_exp(cell, frame_time);
                        self.set_obj(i, j, GameObjs::Bomb(b));
                        self.set_code(i, j, EXPLOSION);
                        proof {
                            lemma_swap_obj(b0, x, y, GameObjs::Bomb(b));
                            let b1 = Board { objs: put(b0.objs, x, y, GameObjs::Bomb(b)), ..b0 };
                            lemma_signal_inner(b1, x, y, EXPLOSION);
                        }
                        let ghost b2 = self.board();
                        self.inject_flames_obj(power, i, j);
                        proof {
                            lemma_spawn_wf(b2, true, power as int, x, y);
                        }
                        let ghost b3 = self.board();
                        self.inject_flames(power, i, j);
                        proof {
                            lemma_inject_wf(b3, power as int, x, y);
                        }
                    },
                    State::EXPLOADED => {
                        self.set_obj(i, j, GameObjs::Bomb(b));
                        proof {
                            lemma_swap_obj(b0, x, y, GameObjs::Bomb(b));
                        }
                        self.eject_flames(i, j);
                        proof {
                            let b2 = self.board();
                            lemma_opened_same(b2.cells, x, y);
                            lemma_clear_inner(b2, x, y);
                        }
                        self.rm_game_obj(i, j);
                    },
                }
                sound
            },
            GameObjs::Flame(flame) => {
                let mut f = flame;
                let cell = self.code(i, j);
                f.anim(cell, frame_time);
                self.set_obj(i, j, GameObjs::Flame(f));
                proof {
                    lemma_swap_obj(b0, x, y, GameObjs::Flame(f));
                }
                false
            },
            _ => false,
        }
    }

    /// Advances the simulation by one tick of `frame_time` milliseconds:
    /// every bonus moves on in its animation, then every cell's entity has
    /// its turn, row by row. The result lists the bombs whose blast is to be
    /// heard, in the order of their turns.
    pub fn update(&mut self, frame_time: u32) -> (sounds: Vec<Position>)
        requires
            old(self).wf(),
        ensures
            final(self).wf(),
            final(self).board() == old(self).board().after_tick(frame_time),
            sounds@ == old(self).board().rung(old(self).codes().len() as int, 0, frame_time),
            final(self).bonus_vec.len() == old(self).bonus_vec.len(),
            forall|k: int|
                0 <= k < old(self).bonus_vec.len() ==> (#[trigger] final(self).bonus_vec[k])@
                    == old(self).bonus_vec[k]@.animated(frame_time),
            final(self).empty_vec == old(self).empty_vec,
            final(self).grass_vec == old(self).grass_vec,
            final(self).upgrade_vec == old(self).upgrade_vec,
    {
        let n = self.bonus_vec.len();
        let mut k: usize = 0;
        while k < n
            invariant
                k <= n,
                n == old(self).bonus_vec.len(),
                self.bonus_vec.len() == n,
                forall|m: int|
                    0 <= m < k ==> (#[trigger] self.bonus_vec[m])@ == old(
                        self,
                    ).bonus_vec[m]@.animated(frame_time),
                forall|m: int| k <= m < n ==> #[trigger] self.bonus_vec[m] == old(self).bonus_vec[m],
                forall|m: int| 0 <= m < n ==> (#[trigger] old(self).bonus_vec[m])@.wf(),
                forall|m: int| 0 <= m < k ==> (#[trigger] self.bonus_vec[m])@.wf(),
                self.cells == old(self).cells,
                self.game_objs == old(self).game_objs,
                self.empty_vec == old(self).empty_vec,
                self.grass_vec == old(self).grass_vec,
                self.upgrade_vec == old(self).upgrade_vec,
            decreases n - k,
        {
            self.bonus_vec[k].animate(frame_time);
            k += 1;
        }
        let ghost b0 = self.board();
        let ghost lists = *self;
        let mut sounds: Vec<Position> = Vec::new();
        let rows = self.cells.len();
        let mut i: usize = 0;
        while i < rows
            invariant
                i <= rows,
                rows == b0.cells.len(),
                b0 == old(self).board(),
                self.board() == b0.ticked(i as int, 0, frame_time),
                self.board().wf(),
                same_shape(b0.cells, self.codes()),
                sounds@ == b0.rung(i as int, 0, frame_time),
                self.same_lists(&lists),
            decreases rows - i,
        {
            let cols = self.cells[i].len();
            let mut j: usize = 0;
            while j < cols
                invariant
                    i < rows,
                    j <= cols,
                    rows == b0.cells.len(),
                    cols == b0.cells[i as int].len(),
                    self.board() == b0.ticked(i as int, j as int, frame_time),
                    self.board().wf(),
                    same_shape(b0.cells, self.codes()),
                    sounds@ == b0.rung(i as int, j as int, frame_time),
                    self.same_lists(&lists),
                decreases cols - j,
            {
                let sound = self.update_cell(i, j, frame_time);
                if sound {
                    sounds.push((i, j));
                }
                j += 1;
            }
            i += 1;
        }
        sounds
    }
}

} // verus!
