//! Moving the selection over the grid of cards on the main screen.
use crate::gui::screens::screens::NavDirection;
use vstd::prelude::*;

verus! {

/// The grid as plain values: rows of optional card indices.
pub open spec fn grid_view(grid: Seq<Vec<Option<usize>>>) -> Seq<Seq<Option<usize>>> {
    grid.map_values(|row: Vec<Option<usize>>| row@)
}

/// The row and column step of a direction; `Next` and `Prev` do not move.
pub open spec fn step_of(d: NavDirection) -> (int, int) {
    match d {
        NavDirection::Up => (-1, 0),
        NavDirection::Down => (1, 0),
        NavDirection::Left => (0, -1),
        NavDirection::Right => (0, 1),
        _ => (0, 0),
    }
}

/// Whether a cell lies in the grid.
pub open spec fn in_grid(grid: Seq<Seq<Option<usize>>>, r: int, c: int) -> bool {
    0 <= r < grid.len() && 0 <= c < grid[r].len()
}

/// How far a walk from `(r, c)` can still go.
pub open spec fn walk_measure(grid: Seq<Seq<Option<usize>>>, r: int, c: int, dr: int, dc: int) -> int {
    if dr < 0 {
        r
    } else if dr > 0 {
        grid.len() - r
    } else if dc < 0 {
        c
    } else if dc > 0 && 0 <= r < grid.len() {
        grid[r].len() - c
    } else {
        0
    }
}

/// Where a walk from `(r, c)` in steps of `(dr, dc)` stops: at the first
/// cell that holds a card other than `current`, or at the last cell inside
/// the grid before the walk leaves it.
pub open spec fn walk(
    grid: Seq<Seq<Option<usize>>>,
    current: Option<usize>,
    r: int,
    c: int,
    dr: int,
    dc: int,
) -> (int, int)
    decreases walk_measure(grid, r, c, dr, dc),
{
    let nr = r + dr;
    let nc = c + dc;
    if !in_grid(grid, nr, nc) || (dr == 0 && dc == 0) || !in_grid(grid, r, c) {
        (r, c)
    } else if grid[nr][nc] is Some && grid[nr][nc] != current {
        (nr, nc)
    } else {
        walk(grid, current, nr, nc, dr, dc)
    }
}

/// A walk from a cell of the grid stops at a cell of the grid.
proof fn lemma_walk_in_grid(
    grid: Seq<Seq<Option<usize>>>,
    current: Option<usize>,
    r: int,
    c: int,
    dr: int,
    dc: int,
)
    requires
        in_grid(grid, r, c),
    ensures
        in_grid(grid, walk(grid, current, r, c, dr, dc).0, walk(grid, current, r, c, dr, dc).1),
    decreases walk_measure(grid, r, c, dr, dc),
{
    let nr = r + dr;
    let nc = c + dc;
    if !in_grid(grid, nr, nc) || (dr == 0 && dc == 0) {
    } else if grid[nr][nc] is Some && grid[nr][nc] != current {
    } else {
        lemma_walk_in_grid(grid, current, nr, nc, dr, dc);
    }
}

/// The cell the selection moves to from `selected` in `direction`: along
/// the direction, the first cell that holds another card than the selected
/// one; where none does, the last cell before the edge of the grid.
pub fn navigate(grid: &Vec<Vec<Option<usize>>>, selected: (usize, usize), direction: NavDirection) -> (r: (
    usize,
    usize,
))
    requires
        in_grid(grid_view(grid@), selected.0 as int, selected.1 as int),
        direction != NavDirection::Next,
        direction != NavDirection::Prev,
    ensures
        (r.0 as int, r.1 as int) == walk(
            grid_view(grid@),
            grid_view(grid@)[selected.0 as int][selected.1 as int],
            selected.0 as int,
            selected.1 as int,
            step_of(direction).0,
            step_of(direction).1,
        ),
        in_grid(grid_view(grid@), r.0 as int, r.1 as int),
{
    let ghost g = grid_view(grid@);
    let (row0, col0) = selected;
    assert(g[row0 as int] == grid@[row0 as int]@);
    assert(g.len() == grid@.len());
    let current = grid[row0][col0];
    let ghost (dr, dc) = step_of(direction);
    let mut row = row0;
    let mut col = col0;
    proof {
        lemma_walk_in_grid(g, current, row0 as int, col0 as int, dr, dc);
    }
    loop
        invariant
            g == grid_view(grid@),
            g.len() == grid@.len(),
            (dr, dc) == step_of(direction),
            row0 == selected.0,
            col0 == selected.1,
            in_grid(g, row0 as int, col0 as int),
            current == g[row0 as int][col0 as int],
            direction != NavDirection::Next,
            direction != NavDirection::Prev,
            in_grid(g, row as int, col as int),
            walk(g, current, row as int, col as int, dr, dc) == walk(
                g,
                current,
                row0 as int,
                col0 as int,
                dr,
                dc,
            ),
        decreases walk_measure(g, row as int, col as int, dr, dc),
    {
        let (next_row, next_col): (usize, usize) = match direction {
            NavDirection::Up => {
                if row == 0 {
                    return (row, col);
                }
                (row - 1, col)
            },
            NavDirection::Down => {
                if row >= grid.len() - 1 {
                    return (row, col);
                }
                (row + 1, col)
            },
            NavDirection::Left => {
                if col == 0 {
                    return (row, col);
                }
                (row, col - 1)
            },
            _ => {
                assert(g[row as int] == grid@[row as int]@);
                if col >= grid[row].len() - 1 {
                    return (row, col);
                }
                (row, col + 1)
            },
        };
        assert(next_row as int == row + dr && next_col as int == col + dc);
        assert(g[next_row as int] == grid@[next_row as int]@);
        if next_col >= grid[next_row].len() {
            return (row, col);
        }
        let cell = grid[next_row][next_col];
        match cell {
            Some(e) => {
                if cell != current {
                    return (next_row, next_col);
                }
            },
            None => {},
        }
        row = next_row;
        col = next_col;
    }
}

} // verus!
