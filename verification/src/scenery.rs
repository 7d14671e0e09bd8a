//! The objects standing beside a track, found on its grid.
use vstd::prelude::*;
use crate::tiles::{Grid, is_scenery, scenery_tile};

verus! {

/// An object standing on the tile at column `col`, row `row`.
#[derive(Clone, Copy, Debug, PartialEq, Eq, Structural)]
pub struct SceneryCell {
    pub col: usize,
    pub row: usize,
    pub kind: char,
}

/// Whether `a` comes before `b` when the grid is read row by row.
pub open spec fn reads_before(a: SceneryCell, b: SceneryCell) -> bool {
    a.row < b.row || (a.row == b.row && a.col < b.col)
}

/// Whether `(col, row)` comes before `(c, r)` when the grid is read row by
/// row.
pub open spec fn cell_before(col: int, row: int, c: int, r: int) -> bool {
    row < r || (row == r && col < c)
}

/// Whether `cells` lists, in reading order, exactly the object tiles of
/// `grid` that come before `(c, r)`.
pub open spec fn lists_objects_before(cells: Seq<SceneryCell>, grid: Grid, c: int, r: int) -> bool {
    &&& forall|i: int|
        #![trigger cells[i]]
        0 <= i < cells.len() ==> {
            &&& cells[i].row < grid.len()
            &&& cells[i].col < grid[cells[i].row as int].len()
            &&& cells[i].kind == grid[cells[i].row as int][cells[i].col as int]
            &&& scenery_tile(cells[i].kind)
            &&& cell_before(cells[i].col as int, cells[i].row as int, c, r)
        }
    &&& forall|i: int, j: int|
        #![trigger cells[i], cells[j]]
        0 <= i < j < cells.len() ==> reads_before(cells[i], cells[j])
    &&& forall|row: int, col: int|
        #![trigger grid[row][col]]
        0 <= row < grid.len() && 0 <= col < grid[row].len() && scenery_tile(grid[row][col])
            && cell_before(col, row, c, r) ==> exists|i: int|
            #![trigger cells[i]]
            0 <= i < cells.len() && cells[i].row == row && cells[i].col == col
}

/// Whether `cells` lists, in reading order, exactly the object tiles of
/// `grid`, each once.
pub open spec fn lists_objects(cells: Seq<SceneryCell>, grid: Grid) -> bool {
    lists_objects_before(cells, grid, 0, grid.len() as int)
}

/// The objects of the map (trees, flowers, cones, crates, barriers, statues
/// and grandstands), each once, in reading order: row by row, left to right.
pub fn scenery_cells(map: &[Vec<char>]) -> (cells: Vec<SceneryCell>)
    ensures
        lists_objects(cells@, map.deep_view()),
{
    let ghost grid = map.deep_view();
    let mut cells: Vec<SceneryCell> = Vec::new();
    let mut row: usize = 0;
    while row < map.len()
        invariant
            grid == map.deep_view(),
            row <= map@.len(),
            lists_objects_before(cells@, grid, 0, row as int),
        decreases map@.len() - row,
    {
        let line = &map[row];
        assert(grid[row as int] == line@) by {
            assert(grid[row as int] =~= line@);
        }
        let mut col: usize = 0;
        while col < line.len()
            invariant
                grid == map.deep_view(),
                row < map@.len(),
                grid[row as int] == line@,
                col <= line@.len(),
                lists_objects_before(cells@, grid, col as int, row as int),
            decreases line@.len() - col,
        {
            let tile = line[col];
            if is_scenery(tile) {
                let ghost before = cells@;
                cells.push(SceneryCell { col, row, kind: tile });
                assert forall|rr: int, cc: int|
                    0 <= rr < grid.len() && 0 <= cc < grid[rr].len() && scenery_tile(grid[rr][cc])
                        && cell_before(cc, rr, col + 1, row as int) implies exists|i: int|
                    #![trigger cells@[i]]
                    0 <= i < cells@.len() && cells@[i].row == rr && cells@[i].col == cc by {
                    if rr == row && cc == col {
                        assert(cells@[before.len() as int].row == rr);
                    } else {
                        let i = choose|i: int|
                            #![trigger before[i]]
                            0 <= i < before.len() && before[i].row == rr && before[i].col == cc;
                        assert(cells@[i] == before[i]);
                    }
                }
            }
            col = col + 1;
        }
        assert forall|rr: int, cc: int|
            0 <= rr < grid.len() && 0 <= cc < grid[rr].len() && scenery_tile(grid[rr][cc])
                && cell_before(cc, rr, 0, row + 1) implies exists|i: int|
            #![trigger cells@[i]]
            0 <= i < cells@.len() && cells@[i].row == rr && cells@[i].col == cc by {
            assert(cell_before(cc, rr, col as int, row as int));
        }
        row = row + 1;
    }
    cells
}

} // verus!
