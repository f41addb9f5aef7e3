//! Terrain cell codes and the terrain generator.

use vstd::prelude::*;

verus! {

pub const EMPTY: i8 = 0;
pub const BLOCK: i8 = 1;
pub const WALL: i8 = 2;
pub const BOMB: i8 = 3;
pub const WIN_CELL: i8 = 100;

/// The blue and red upgrades have no codes of their own: their names stand
/// for the numbers of the black and purple ones, and those are what a grid
/// reads them as.
pub const BOMB_BLUE_2X: i8 = 4;
pub const BOMB_RED_2X: i8 = 5;
pub const BOMB_BLUE_3X: i8 = 6;
pub const BOMB_RED_3X: i8 = 7;

pub const BOMB_BLACK_2X: i8 = 4;
pub const BOMB_PURPLE_2X: i8 = 5;
pub const BOMB_BLACK_3X: i8 = 6;
pub const BOMB_PURPLE_3X: i8 = 7;

pub const HEART: i8 = 8;
pub const SILVER_COIN: i8 = 9;
pub const GOLD_COIN: i8 = 10;
pub const DIAMOND: i8 = 11;
pub const CASH: i8 = 12;

/// A noise sample above this much, in millionths, puts an upgrade on a cell.
pub const CASH_THRESHOLD: i32 = 200;

/// A noise sample of at least this much, in millionths, puts a wall on a
/// cell.
pub const WALL_THRESHOLD: i32 = 20_000;

/// The rows of a sample matrix, each as a sequence.
pub open spec fn sample_rows(samples: Vec<Vec<i32>>) -> Seq<Seq<i32>> {
    Seq::new(samples.len() as nat, |i: int| samples[i]@)
}

/// `(i, j)` is an outermost cell of a grid of `r` by `c` cells.
pub open spec fn on_border(i: int, j: int, r: int, c: int) -> bool {
    i == 0 || j == 0 || i == r - 1 || j == c - 1
}

/// `(i, j)` holds a pillar: both indices are even, and neither is the last
/// but one.
pub open spec fn on_pillar(i: int, j: int, r: int, c: int) -> bool {
    i % 2 == 0 && j % 2 == 0 && i != r - 2 && j != c - 2
}

/// The terrain code of cell `(i, j)` in a grid of `r` by `c` cells, for the
/// noise sample of that cell in millionths. The border and the pillars are
/// `BLOCK`. Elsewhere a sample from `WALL_THRESHOLD` on gives `WALL`, one
/// above `CASH_THRESHOLD` gives an upgrade, and any other leaves the cell
/// `EMPTY`.
pub open spec fn terrain_code(i: int, j: int, r: int, c: int, sample: i32) -> i8 {
    if on_border(i, j, r, c) || on_pillar(i, j, r, c) {
        BLOCK
    } else if sample >= WALL_THRESHOLD {
        WALL
    } else if sample > CASH_THRESHOLD {
        BOMB_BLACK_2X
    } else {
        EMPTY
    }
}

/// The terrain of a grid of `r` by `c` cells for a matrix of samples.
pub open spec fn terrain(r: int, c: int, samples: Seq<Seq<i32>>) -> Seq<Seq<i8>> {
    Seq::new(
        r as nat,
        |i: int| Seq::new(c as nat, |j: int| terrain_code(i, j, r, c, samples[i][j])),
    )
}

fn cell_code(i: usize, j: usize, r: usize, c: usize, sample: i32) -> (code: i8)
    requires
        i < r,
        j < c,
    ensures
        code == terrain_code(i as int, j as int, r as int, c as int, sample),
{
    if i == 0 || j == 0 || i == r - 1 || j == c - 1 {
        BLOCK
    } else if i % 2 == 0 && j % 2 == 0 && i != r - 2 && j != c - 2 {
        BLOCK
    } else if sample >= WALL_THRESHOLD {
        WALL
    } else if sample > CASH_THRESHOLD {
        BOMB_BLACK_2X
    } else {
        EMPTY
    }
}

/// Lays out the terrain of a grid of `r` by `c` cells from one noise sample
/// per cell, given in millionths.
pub fn noise(r: usize, c: usize, samples: &Vec<Vec<i32>>) -> (grid: Vec<Vec<i8>>)
    requires
        samples.len() == r,
        forall|i: int| 0 <= i < r ==> (#[trigger] samples[i]).len() == c,
    ensures
        crate::objects::code_rows(grid) == terrain(r as int, c as int, sample_rows(*samples)),
{
    let ghost want = terrain(r as int, c as int, sample_rows(*samples));
    let mut grid: Vec<Vec<i8>> = Vec::new();
    let mut i: usize = 0;
    while i < r
        invariant
            i <= r,
            samples.len() == r,
            forall|k: int| 0 <= k < r ==> (#[trigger] samples[k]).len() == c,
            want == terrain(r as int, c as int, sample_rows(*samples)),
            grid.len() == i,
            forall|k: int| 0 <= k < i ==> (#[trigger] grid[k])@ == want[k],
        decreases r - i,
    {
        let mut row: Vec<i8> = Vec::new();
        let mut j: usize = 0;
        while j < c
            invariant
                i < r,
                j <= c,
                samples.len() == r,
                samples[i as int].len() == c,
                want == terrain(r as int, c as int, sample_rows(*samples)),
                row.len() == j,
                forall|k: int| 0 <= k < j ==> #[trigger] row[k] == want[i as int][k],
            decreases c - j,
        {
            row.push(cell_code(i, j, r, c, samples[i][j]));
            j += 1;
        }
        grid.push(row);
        i += 1;
    }
    grid
}

} // verus!
