//! Tile classification and lookups on a track grid.
//!
//! A track is a grid of characters, one per tile, stored row by row. Row
//! `y`, column `x` holds the tile under the world position `(x, y)`.
use vstd::prelude::*;

verus! {

/// The mathematical model of a track: its rows, each a sequence of tiles.
pub type Grid = Seq<Seq<char>>;

/// A row's deep view is its sequence of tiles.
pub proof fn lemma_row_deep_view(row: Vec<char>)
    ensures
        row.deep_view() == row@,
{
    assert(row.deep_view() =~= row@);
}

/// A grid's deep view is the sequence of its rows' tiles.
pub proof fn lemma_grid_deep_view(map: Vec<Vec<char>>)
    ensures
        map.deep_view() == Seq::new(map@.len(), |i: int| map@[i]@),
{
    assert forall|i: int| 0 <= i < map@.len() implies map.deep_view()[i] == map@[i]@ by {
        lemma_row_deep_view(map@[i]);
    }
    assert(map.deep_view() =~= Seq::new(map@.len(), |i: int| map@[i]@));
}

/// Tiles that a kart cannot drive through: the outer fence, hedges,
/// the fountain's stone rim and water, and city buildings.
pub open spec fn solid_tile(tile: char) -> bool {
    tile == '#' || tile == 'H' || tile == 'S' || tile == 'W' || tile == 'D'
}

/// Tiles that stop a cast ray and are drawn as wall columns.
pub open spec fn wall_tile(tile: char) -> bool {
    tile == '#' || tile == 'H' || tile == 'S' || tile == 'W' || tile == 'D'
}

/// Whether `tile` blocks movement.
pub fn is_solid(tile: char) -> (solid: bool)
    ensures
        solid == solid_tile(tile),
{
    tile == '#' || tile == 'H' || tile == 'S' || tile == 'W' || tile == 'D'
}

/// Whether `tile` stops a ray of the ray caster.
pub fn is_wall(tile: char) -> (wall: bool)
    ensures
        wall == wall_tile(tile),
{
    tile == '#' || tile == 'H' || tile == 'S' || tile == 'W' || tile == 'D'
}

/// The ray caster sees a wall exactly where the kart collides: the two
/// classifications agree on every tile.
pub proof fn lemma_walls_are_solid(tile: char)
    ensures
        wall_tile(tile) == solid_tile(tile),
{
}

/// Whether `(col, row)` names a tile of `grid`.
pub open spec fn in_grid(grid: Grid, col: int, row: int) -> bool {
    0 <= row < grid.len() && 0 <= col < grid[row].len()
}

/// The tile at `(col, row)`; everything outside the grid reads as the outer
/// fence `'#'`.
pub open spec fn tile_at_spec(grid: Grid, col: int, row: int) -> char {
    if in_grid(grid, col, row) {
        grid[row][col]
    } else {
        '#'
    }
}

/// Whether the tile at `(col, row)` stops a kart: outside the grid, or solid.
pub open spec fn blocked_spec(grid: Grid, col: int, row: int) -> bool {
    !in_grid(grid, col, row) || solid_tile(grid[row][col])
}

/// The tile under the cell `(col, row)`, the cell being the floor of a world
/// position. Cells off the grid read as `'#'`.
pub fn tile_at(map: &[Vec<char>], col: i64, row: i64) -> (tile: char)
    ensures
        tile == tile_at_spec(map.deep_view(), col as int, row as int),
{
    if col < 0 || row < 0 {
        return '#';
    }
    let r = row as u64;
    let c = col as u64;
    if r >= map.len() as u64 {
        return '#';
    }
    let line = &map[r as usize];
    if c >= line.len() as u64 {
        '#'
    } else {
        line[c as usize]
    }
}

/// Whether the cell `(col, row)` stops a kart.
pub fn cell_blocked(map: &[Vec<char>], col: i64, row: i64) -> (blocked: bool)
    ensures
        blocked == blocked_spec(map.deep_view(), col as int, row as int),
{
    if col < 0 || row < 0 {
        return true;
    }
    let r = row as u64;
    let c = col as u64;
    if r >= map.len() as u64 {
        return true;
    }
    let line = &map[r as usize];
    if c >= line.len() as u64 {
        true
    } else {
        is_solid(line[c as usize])
    }
}

/// A cell blocks movement exactly when the tile read there is solid: the
/// area outside the track behaves as the fence around it.
pub proof fn lemma_blocked_iff_solid_tile(grid: Grid, col: int, row: int)
    ensures
        blocked_spec(grid, col, row) == solid_tile(tile_at_spec(grid, col, row)),
{
}

/// Whether any of the sampled cells stops a kart. The kart samples the cells
/// under the eight points of the square around its centre.
pub fn collides_cells(map: &[Vec<char>], cells: &[(i64, i64)]) -> (hit: bool)
    ensures
        hit == exists|i: int|
            0 <= i < cells@.len() && #[trigger] blocked_spec(
                map.deep_view(),
                cells@[i].0 as int,
                cells@[i].1 as int,
            ),
{
    let mut i: usize = 0;
    while i < cells.len()
        invariant
            i <= cells@.len(),
            forall|j: int|
                0 <= j < i ==> !#[trigger] blocked_spec(
                    map.deep_view(),
                    cells@[j].0 as int,
                    cells@[j].1 as int,
                ),
        decreases cells@.len() - i,
    {
        let (col, row) = cells[i];
        if cell_blocked(map, col, row) {
            return true;
        }
        i = i + 1;
    }
    false
}

/// How fast a kart may go on `tile`, in hundredths of its top speed:
/// track and finish line at full speed, boost pads above it, flower beds,
/// city pavement and grass slower.
pub open spec fn surface_percent_spec(tile: char) -> u32 {
    if tile == 'P' || tile == 'M' || tile == 'K' || tile == 'L' {
        100
    } else if tile == 'R' {
        108
    } else if tile == 'F' {
        74
    } else if tile == 'U' {
        70
    } else if tile == '.' {
        62
    } else {
        82
    }
}

/// The speed factor of `tile` in hundredths.
pub fn surface_speed_percent(tile: char) -> (percent: u32)
    ensures
        percent == surface_percent_spec(tile),
{
    match tile {
        'P' | 'M' | 'K' | 'L' => 100,
        'R' => 108,
        'F' => 74,
        'U' => 70,
        '.' => 62,
        _ => 82,
    }
}

/// Tiles a kart may start a race on: road, finish line, kerb, boost pad and
/// lane marking.
pub open spec fn drivable_tile(tile: char) -> bool {
    tile == 'P' || tile == 'M' || tile == 'R' || tile == 'L' || tile == 'K'
}

/// Tiles that stand as objects beside the track: trees, flowers, cones,
/// crates, barriers, statues and grandstands.
pub open spec fn scenery_tile(tile: char) -> bool {
    tile == 'T' || tile == 'F' || tile == 'O' || tile == 'C' || tile == 'B' || tile == 'A'
        || tile == 'G'
}

/// Whether `tile` is drawn as an object standing beside the track.
pub fn is_scenery(tile: char) -> (scenery: bool)
    ensures
        scenery == scenery_tile(tile),
{
    matches!(tile, 'T' | 'F' | 'O' | 'C' | 'B' | 'A' | 'G')
}

/// How tall a wall column of `tile` is drawn, in hundredths of the full
/// projected height: hedges and fences low, fountain rim and water lower,
/// buildings almost full height.
pub open spec fn wall_height_percent_spec(tile: char) -> u32 {
    if tile == 'H' {
        42
    } else if tile == '#' {
        60
    } else if tile == 'S' {
        32
    } else if tile == 'W' {
        8
    } else if tile == 'D' {
        92
    } else {
        45
    }
}

/// The drawn height of a wall column of `tile`, in hundredths.
pub fn wall_height_percent(tile: char) -> (percent: u32)
    ensures
        percent == wall_height_percent_spec(tile),
{
    match tile {
        'H' => 42,
        '#' => 60,
        'S' => 32,
        'W' => 8,
        'D' => 92,
        _ => 45,
    }
}

/// Only the fence, hedges, the fountain's stone rim and water, and buildings
/// stop a kart. Everything else lets it through: the objects standing beside
/// the track (trees, flowers, cones, crates, barriers, statues,
/// grandstands), every tile a race can start on, grass, city pavement, the
/// fountain jet, the finish banner post and the city props. The ray caster
/// draws an object as a sprite, never as a wall.
pub proof fn lemma_solid_tiles(tile: char)
    ensures
        solid_tile(tile) <==> (tile == '#' || tile == 'H' || tile == 'S' || tile == 'W' || tile
            == 'D'),
        scenery_tile(tile) ==> !solid_tile(tile) && !wall_tile(tile),
        drivable_tile(tile) ==> !solid_tile(tile),
        tile == '.' || tile == 'U' || tile == 'Q' || tile == 'N' || tile == 'Y' || tile == 'V'
            || tile == 'Z' || tile == 'E' ==> !solid_tile(tile),
{
}

} // verus!
