//! The two circuits: their tile grids, start cells and names.
//!
//! Tile legend: `#` outer fence, `.` grass, `P` road, `K` kerb, `L` lane
//! marking, `M` finish line, `N` finish banner post, `R` boost pad,
//! `H` hedge, `S` fountain rim, `W` water, `Q` fountain jet, `D` building,
//! `U` city pavement, and scenery objects `T F O C B A G` plus the city
//! props `Y V Z E`.
use vstd::prelude::*;
use crate::race::{Checkpoint, checkpoint_at, checkpoint_list};
use crate::tiles::{Grid, in_grid, drivable_tile, solid_tile, lemma_row_deep_view, lemma_grid_deep_view};

verus! {

/// How many circuits there are.
pub const TRACK_COUNT: usize = 2;

/// How many vehicles can be chosen.
pub const VEHICLE_COUNT: usize = 2;

/// Rows of every track grid.
pub const TRACK_HEIGHT: usize = 41;

/// Columns of every track grid.
pub const TRACK_WIDTH: usize = 65;

/// The garden circuit ("Jardin Rust"), row by row.
pub const GARDEN_ROWS: [&'static str; 41] = [
    "#################################################################",
    "#..................G...........G...........G....................#",
    "#...............................G...............................#",
    "#..............G.................................G..............#",
    "#...KKKKKKKKKKKKKKKKKKKKKKKKKKKKKKKKKKKKKKKKKKKKKKKKKKKKKKKKK...#",
    "#...KPPPPPPPKPPPPPPPPPPPPPPPPPPPPPPPPPPPPPPPPPPPPPPPKPPPPPPPK...#",
    "#...KPPPPPPPKPPPPPOPPPPPPPPPPPRPPPRPPPPPPPPPPPOPPPPPKPPPPPPPK...#",
    "#...KPPPPPPPKPPBPPLLLPPPLLCPPPLLLPPPLLCPPPLLLPPPLBPPKPPPPPPPK...#",
    "#...KPPPPPPPKPPPPPPPPPPPPPPPPPPPPPPPPPPPPPPPPPPPPPPPKPPPPPPPK...#",
    "#...KKKKKKKKKKKKKKKKKKKKKKKKKKKKKKKKKKKKKKKKKKKKKKKKKKKKKKKKK...#",
    "#...KPPYPPPPK.......................................KPPPPYPPK...#",
    "#...KPPPPPPPK....O..............Y..............O....KPPPPPPPK...#",
    "#...KPPPLPPPK..B.HHHHHHHHHHHHHHHHHHHHHHHHHHHHHHH.B..KPPPLPPPK...#",
    "#...KPPPLPPPK....H.............................H....KPPPLPPPK...#",
    "#...KPPPLPPPK....H.............................H....KPPPLPPPK...#",
    "#...KPPPPPPPK....H..T...T...............T...T..H....KPPPPPPPK...#",
    "#...KPPPPPPPK....H....F...................F....H....KPPPPPPPK...#",
    "#...KPPPPPPPK....H.........SS.......SS.........H....KPPPPPPPK...#",
    "#...KPPPLPPPK....H.........SSWWWWWWWSS.........H....KPPRRPPPK...#",
    "#...KPPPLPPPK....H.........SSWWWWWWWSS.........H....KPPRRPPPK...#",
    "#...KPPPRRPPK....H.........SSWWWQWWWSS.........H....KPPPLPPPK...#",
    "#...KPPPRRPPK....H.........SSWWWWWWWSS.........H....KPPPPPPPK...#",
    "#...KPPPPPPPK....H.........SSWWWWWWWSS.........H....KPPPPPPPK...#",
    "#...KPPPPPPPK....H.........SS.......SS.........H....KPPPPPPPK...#",
    "#...KPPPLPPPK....H....F...................F....H....KPPPLPPPK...#",
    "#...KPPPLPPPK....H..T...T...............T...T..H....KPPPLPPPK...#",
    "#...KPPPLPPPK....H.............................H....KPPPLPPPK...#",
    "#...KPPYPPPPK....H.............................H....KPPPPYPPK...#",
    "#...KPPPPPPPK....HHHHHHHHHHHHHHHHHHHHHHHHHHHHHHH....KPPPPPPPK...#",
    "#...KPPPPPPPK....O..............Y..............O....KPPPPPPPK...#",
    "#...KPPPPPPPK..B.................................B..KPPPPPPPK...#",
    "#...KKKKKKKKKKKKKKMMMMNKKKKKKKKKKKKKKKKKKKKKKKKKKKKKKKKKKKKKK...#",
    "#...KPPPPPPPKPPPPPMMMMMPRRRPPPPPPPPPPPPPPPPPPPPPPPPPKPPPPPPPK...#",
    "#...KPPPPPPPKPPBPPMMMMMPPPCPPPPPPPPPPPCPPPPPPPPPPBPPKPPPPPPPK...#",
    "#...KPPPPPPPKPPPPPMMMNMPLLLPPPRLLPRPLLLPPPLLLPOPLLPPKPPPPPPPK...#",
    "#...KPPPPPPPKPPPPPMMMMMPPPPPPPPPPPPPPPPPPPPPRRRPPPPPKPPPPPPPK...#",
    "#...KKKKKKKKKKKKKKMMMMMKKKKKKKKKKKKKKKKKKKKKKKKKKKKKKKKKKKKKK...#",
    "#..............G.................................G..............#",
    "#..................G...........G...........G....................#",
    "#...............................................................#",
    "#################################################################",
];

/// The garden circuit as a grid.
pub open spec fn garden_layout() -> Grid {
    Seq::new(41, |i: int| GARDEN_ROWS@[i]@)
}

/// Whether `(x, y)` lies on the border of a `TRACK_WIDTH` x `TRACK_HEIGHT` grid.
pub open spec fn on_border(x: int, y: int) -> bool {
    x == 0 || y == 0 || x == TRACK_WIDTH - 1 || y == TRACK_HEIGHT - 1
}

/// Whether `grid` has `TRACK_HEIGHT` rows of `TRACK_WIDTH` tiles each.
pub open spec fn has_track_shape(grid: Grid) -> bool {
    &&& grid.len() == TRACK_HEIGHT
    &&& forall|y: int| 0 <= y < grid.len() ==> #[trigger] grid[y].len() == TRACK_WIDTH
}

/// Whether every border tile of `grid` is solid, so that no kart can leave it.
pub open spec fn enclosed(grid: Grid) -> bool {
    forall|x: int, y: int|
        0 <= y < grid.len() && 0 <= x < grid[y].len() && on_border(x, y) ==> solid_tile(
            #[trigger] grid[y][x],
        )
}

/// Facts about the garden rows: their size, their fence and the start cell.
pub proof fn lemma_garden_layout()
    ensures
        has_track_shape(garden_layout()),
        enclosed(garden_layout()),
        garden_layout()[34][15] == 'P',
        garden_layout()[33][22] == 'M',
        forall|i: int|
            0 <= i < checkpoint_list(0).len() ==> !solid_tile(#[trigger] tile_under(0, i)),
{
    reveal_strlit("#################################################################");
    reveal_strlit("#..................G...........G...........G....................#");
    reveal_strlit("#...............................G...............................#");
    reveal_strlit("#..............G.................................G..............#");
    reveal_strlit("#...KKKKKKKKKKKKKKKKKKKKKKKKKKKKKKKKKKKKKKKKKKKKKKKKKKKKKKKKK...#");
    reveal_strlit("#...KPPPPPPPKPPPPPPPPPPPPPPPPPPPPPPPPPPPPPPPPPPPPPPPKPPPPPPPK...#");
    reveal_strlit("#...KPPPPPPPKPPPPPOPPPPPPPPPPPRPPPRPPPPPPPPPPPOPPPPPKPPPPPPPK...#");
    reveal_strlit("#...KPPPPPPPKPPBPPLLLPPPLLCPPPLLLPPPLLCPPPLLLPPPLBPPKPPPPPPPK...#");
    reveal_strlit("#...KPPPPPPPKPPPPPPPPPPPPPPPPPPPPPPPPPPPPPPPPPPPPPPPKPPPPPPPK...#");
    reveal_strlit("#...KKKKKKKKKKKKKKKKKKKKKKKKKKKKKKKKKKKKKKKKKKKKKKKKKKKKKKKKK...#");
    reveal_strlit("#...KPPYPPPPK.......................................KPPPPYPPK...#");
    reveal_strlit("#...KPPPPPPPK....O..............Y..............O....KPPPPPPPK...#");
    reveal_strlit("#...KPPPLPPPK..B.HHHHHHHHHHHHHHHHHHHHHHHHHHHHHHH.B..KPPPLPPPK...#");
    reveal_strlit("#...KPPPLPPPK....H.............................H....KPPPLPPPK...#");
    reveal_strlit("#...KPPPLPPPK....H.............................H....KPPPLPPPK...#");
    reveal_strlit("#...KPPPPPPPK....H..T...T...............T...T..H....KPPPPPPPK...#");
    reveal_strlit("#...KPPPPPPPK....H....F...................F....H....KPPPPPPPK...#");
    reveal_strlit("#...KPPPPPPPK....H.........SS.......SS.........H....KPPPPPPPK...#");
    reveal_strlit("#...KPPPLPPPK....H.........SSWWWWWWWSS.........H....KPPRRPPPK...#");
    reveal_strlit("#...KPPPLPPPK....H.........SSWWWWWWWSS.........H....KPPRRPPPK...#");
    reveal_strlit("#...KPPPRRPPK....H.........SSWWWQWWWSS.........H....KPPPLPPPK...#");
    reveal_strlit("#...KPPPRRPPK....H.........SSWWWWWWWSS.........H....KPPPPPPPK...#");
    reveal_strlit("#...KPPPPPPPK....H.........SSWWWWWWWSS.........H....KPPPPPPPK...#");
    reveal_strlit("#...KPPPPPPPK....H.........SS.......SS.........H....KPPPPPPPK...#");
    reveal_strlit("#...KPPPLPPPK....H....F...................F....H....KPPPLPPPK...#");
    reveal_strlit("#...KPPPLPPPK....H..T...T...............T...T..H....KPPPLPPPK...#");
    reveal_strlit("#...KPPPLPPPK....H.............................H....KPPPLPPPK...#");
    reveal_strlit("#...KPPYPPPPK....H.............................H....KPPPPYPPK...#");
    reveal_strlit("#...KPPPPPPPK....HHHHHHHHHHHHHHHHHHHHHHHHHHHHHHH....KPPPPPPPK...#");
    reveal_strlit("#...KPPPPPPPK....O..............Y..............O....KPPPPPPPK...#");
    reveal_strlit("#...KPPPPPPPK..B.................................B..KPPPPPPPK...#");
    reveal_strlit("#...KKKKKKKKKKKKKKMMMMNKKKKKKKKKKKKKKKKKKKKKKKKKKKKKKKKKKKKKK...#");
    reveal_strlit("#...KPPPPPPPKPPPPPMMMMMPRRRPPPPPPPPPPPPPPPPPPPPPPPPPKPPPPPPPK...#");
    reveal_strlit("#...KPPPPPPPKPPBPPMMMMMPPPCPPPPPPPPPPPCPPPPPPPPPPBPPKPPPPPPPK...#");
    reveal_strlit("#...KPPPPPPPKPPPPPMMMNMPLLLPPPRLLPRPLLLPPPLLLPOPLLPPKPPPPPPPK...#");
    reveal_strlit("#...KPPPPPPPKPPPPPMMMMMPPPPPPPPPPPPPPPPPPPPPRRRPPPPPKPPPPPPPK...#");
    reveal_strlit("#...KKKKKKKKKKKKKKMMMMMKKKKKKKKKKKKKKKKKKKKKKKKKKKKKKKKKKKKKK...#");
    reveal_strlit("#..............G.................................G..............#");
    reveal_strlit("#..................G...........G...........G....................#");
    reveal_strlit("#...............................................................#");
    reveal_strlit("#################################################################");
    assert(has_track_shape(garden_layout()));
    assert forall|x: int, y: int|
        0 <= y < garden_layout().len() && 0 <= x < garden_layout()[y].len() && on_border(
            x,
            y,
        ) implies solid_tile(#[trigger] garden_layout()[y][x]) by {
        assert(garden_layout()[y] == GARDEN_ROWS@[y]@);
    }
}

/// The tiles of a string, one per character.
pub fn str_to_tiles(s: &str) -> (tiles: Vec<char>)
    ensures
        tiles@ == s@,
{
    let n = s.unicode_len();
    let mut tiles: Vec<char> = Vec::new();
    let mut i: usize = 0;
    while i < n
        invariant
            i <= n,
            n == s@.len(),
            tiles@ == s@.subrange(0, i as int),
        decreases n - i,
    {
        tiles.push(s.get_char(i));
        i = i + 1;
    }
    assert(tiles@ =~= s@);
    tiles
}

/// The garden circuit as a grid of tiles.
pub fn build_garden_map() -> (map: Vec<Vec<char>>)
    ensures
        map.deep_view() == garden_layout(),
{
    let mut map: Vec<Vec<char>> = Vec::new();
    let mut i: usize = 0;
    while i < 41
        invariant
            i <= 41,
            map.deep_view() =~= Seq::new(i as nat, |k: int| GARDEN_ROWS@[k]@),
        decreases 41 - i,
    {
        let row = str_to_tiles(GARDEN_ROWS[i]);
        proof {
            lemma_row_deep_view(row);
        }
        let ghost before = map.deep_view();
        map.push(row);
        assert(map.deep_view() =~= before.push(row@));
        i = i + 1;
    }
    map
}

/// Whether `(x, y)` lies in the rectangle with corners `(x1, y1)` and
/// `(x2, y2)`, both included.
pub open spec fn in_rect(x: int, y: int, x1: int, y1: int, x2: int, y2: int) -> bool {
    x1 <= x <= x2 && y1 <= y <= y2
}

/// `grid` with every tile of the rectangle `(x1, y1)`-`(x2, y2)` that lies on
/// the grid set to `tile`.
pub open spec fn paint_rect(grid: Grid, x1: int, y1: int, x2: int, y2: int, tile: char) -> Grid {
    Seq::new(
        grid.len(),
        |y: int|
            Seq::new(
                grid[y].len(),
                |x: int|
                    if in_rect(x, y, x1, y1, x2, y2) {
                        tile
                    } else {
                        grid[y][x]
                    },
            ),
    )
}

/// Whether `(x, y)` is one of `points`.
pub open spec fn listed(points: Seq<(usize, usize)>, x: int, y: int) -> bool {
    exists|i: int| #![trigger points[i]] 0 <= i < points.len() && points[i].0 == x && points[i].1 == y
}

/// `grid` with the tile at every one of `points` set to `tile`.
pub open spec fn paint_points(grid: Grid, points: Seq<(usize, usize)>, tile: char) -> Grid {
    Seq::new(
        grid.len(),
        |y: int|
            Seq::new(
                grid[y].len(),
                |x: int|
                    if listed(points, x, y) {
                        tile
                    } else {
                        grid[y][x]
                    },
            ),
    )
}

/// Sets the tiles `x1..=x2` of `row` that exist to `tile`.
fn fill_span(row: &mut Vec<char>, x1: usize, x2: usize, tile: char)
    requires
        x2 < usize::MAX,
    ensures
        final(row)@ == Seq::new(
            old(row)@.len(),
            |x: int|
                if x1 <= x <= x2 {
                    tile
                } else {
                    old(row)@[x]
                },
        ),
{
    let mut x = x1;
    while x <= x2 && x < row.len()
        invariant
            x1 <= x,
            x > x1 ==> x <= x2 + 1,
            x2 < usize::MAX,
            row@.len() == old(row)@.len(),
            forall|k: int|
                0 <= k < row@.len() ==> #[trigger] row@[k] == if x1 <= k < x {
                    tile
                } else {
                    old(row)@[k]
                },
        decreases row@.len() - x,
    {
        row.set(x, tile);
        x = x + 1;
    }
    assert(row@ =~= Seq::new(
        old(row)@.len(),
        |k: int|
            if x1 <= k <= x2 {
                tile
            } else {
                old(row)@[k]
            },
    ));
}

/// Sets every tile of the rectangle `(x1, y1)`-`(x2, y2)` that lies on the
/// map to `tile`; the part of the rectangle off the map is ignored.
pub fn fill_rect(map: &mut Vec<Vec<char>>, x1: usize, y1: usize, x2: usize, y2: usize, tile: char)
    requires
        x2 < usize::MAX,
        y2 < usize::MAX,
    ensures
        final(map).deep_view() == paint_rect(
            old(map).deep_view(),
            x1 as int,
            y1 as int,
            x2 as int,
            y2 as int,
            tile,
        ),
{
    let ghost g0 = old(map).deep_view();
    assert(paint_rect(g0, x1 as int, y1 as int, x2 as int, y1 - 1, tile) =~~= g0);
    let mut y = y1;
    while y <= y2 && y < map.len()
        invariant
            y1 <= y,
            y > y1 ==> y <= y2 + 1,
            x2 < usize::MAX,
            y2 < usize::MAX,
            g0 == old(map).deep_view(),
            map.deep_view() == paint_rect(g0, x1 as int, y1 as int, x2 as int, y - 1, tile),
        decreases map@.len() - y,
    {
        let ghost before = *map;
        assert(before.deep_view() == map.deep_view());
        fill_span(&mut map[y], x1, x2, tile);
        proof {
            lemma_grid_deep_view(before);
            lemma_grid_deep_view(*map);
            let ghost next = paint_rect(g0, x1 as int, y1 as int, x2 as int, y as int, tile);
            assert(before.deep_view() == paint_rect(g0, x1 as int, y1 as int, x2 as int, y - 1, tile));
            assert(before.deep_view().len() == before@.len());
            assert(g0.len() == before@.len());
            assert forall|r: int| 0 <= r < map@.len() implies #[trigger] map@[r]@ =~= next[r] by {
                if r == y {
                    assert(before.deep_view()[r] == before@[r]@);
                    assert(before@[r]@ =~= g0[r]);
                } else {
                    assert(map@[r] == before@[r]);
                    assert(before.deep_view()[r] == before@[r]@);
                }
            }
            assert(map.deep_view() =~~= paint_rect(
                g0,
                x1 as int,
                y1 as int,
                x2 as int,
                y as int,
                tile,
            ));
        }
        y = y + 1;
    }
    assert(map.deep_view() =~~= paint_rect(g0, x1 as int, y1 as int, x2 as int, y2 as int, tile));
}

/// Sets the tiles `x1..=x2` of row `y` to `tile`.
pub fn write_hline(map: &mut Vec<Vec<char>>, y: usize, x1: usize, x2: usize, tile: char)
    requires
        x1 <= x2 ==> y < old(map).deep_view().len() && x2 < old(map).deep_view()[y as int].len(),
    ensures
        final(map).deep_view() == paint_rect(
            old(map).deep_view(),
            x1 as int,
            y as int,
            x2 as int,
            y as int,
            tile,
        ),
{
    proof {
        lemma_grid_deep_view(*old(map));
    }
    if x1 <= x2 {
        let rows = map.len();
        let row_len = map[y].len();
        assert(x2 < row_len && y < rows);
        fill_rect(map, x1, y, x2, y, tile);
    } else {
        assert(paint_rect(old(map).deep_view(), x1 as int, y as int, x2 as int, y as int, tile)
            =~~= old(map).deep_view());
    }
}

/// Sets the tile at every one of `points`, given as `(x, y)`, to `tile`.
pub fn set_tiles(map: &mut Vec<Vec<char>>, points: &[(usize, usize)], tile: char)
    requires
        forall|i: int|
            0 <= i < points@.len() ==> #[trigger] points@[i].1 < old(map).deep_view().len()
                && points@[i].0 < old(map).deep_view()[points@[i].1 as int].len(),
    ensures
        final(map).deep_view() == paint_points(old(map).deep_view(), points@, tile),
{
    let ghost g0 = old(map).deep_view();
    proof {
        lemma_grid_deep_view(*old(map));
    }
    assert(paint_points(g0, points@.take(0), tile) =~~= g0);
    let mut i: usize = 0;
    while i < points.len()
        invariant
            i <= points@.len(),
            g0 == old(map).deep_view(),
            map@.len() == old(map)@.len(),
            forall|r: int| 0 <= r < map@.len() ==> #[trigger] map@[r]@.len() == old(map)@[r]@.len(),
            forall|k: int|
                0 <= k < points@.len() ==> #[trigger] points@[k].1 < old(map)@.len()
                    && points@[k].0 < old(map)@[points@[k].1 as int]@.len(),
            map.deep_view() == paint_points(g0, points@.take(i as int), tile),
        decreases points@.len() - i,
    {
        let (x, y) = points[i];
        let ghost before = *map;
        assert(points@[i as int].1 < old(map)@.len());
        map[y][x] = tile;
        proof {
            lemma_grid_deep_view(before);
            lemma_grid_deep_view(*map);
            let ghost next = paint_points(g0, points@.take(i + 1), tile);
            assert(before.deep_view().len() == before@.len());
            assert forall|r: int| 0 <= r < map@.len() implies #[trigger] map@[r]@ =~= next[r] by {
                assert(before.deep_view()[r] == before@[r]@);
                assert forall|c: int| 0 <= c < map@[r]@.len() implies map@[r]@[c] == next[r][c] by {
                    if listed(points@.take(i + 1), c, r) {
                        if !(c == x && r == y) {
                            let k = choose|k: int|
                                #![trigger points@.take(i + 1)[k]]
                                0 <= k < points@.take(i + 1).len() && points@.take(i + 1)[k].0 == c
                                    && points@.take(i + 1)[k].1 == r;
                            assert(points@.take(i as int)[k] == points@.take(i + 1)[k]);
                        }
                    } else {
                        assert(points@.take(i + 1)[i as int] == (x, y));
                        if listed(points@.take(i as int), c, r) {
                            let k = choose|k: int|
                                #![trigger points@.take(i as int)[k]]
                                0 <= k < points@.take(i as int).len() && points@.take(i as int)[k].0
                                    == c && points@.take(i as int)[k].1 == r;
                            assert(points@.take(i + 1)[k] == points@.take(i as int)[k]);
                        }
                    }
                }
            }
            assert(map.deep_view() =~~= next);
        }
        i = i + 1;
    }
    assert(points@.take(points@.len() as int) =~= points@);
}

/// A grid of `height` rows of `width` tiles, all `tile`.
pub fn filled_grid(width: usize, height: usize, tile: char) -> (map: Vec<Vec<char>>)
    ensures
        map.deep_view() == Seq::new(height as nat, |y: int| Seq::new(width as nat, |x: int| tile)),
{
    let mut row: Vec<char> = Vec::new();
    let mut x: usize = 0;
    while x < width
        invariant
            x <= width,
            row@ =~= Seq::new(x as nat, |k: int| tile),
        decreases width - x,
    {
        row.push(tile);
        x = x + 1;
    }
    let mut map: Vec<Vec<char>> = Vec::new();
    let mut y: usize = 0;
    while y < height
        invariant
            y <= height,
            row@ == Seq::new(width as nat, |k: int| tile),
            map.deep_view() =~~= Seq::new(y as nat, |r: int| Seq::new(width as nat, |k: int| tile)),
        decreases height - y,
    {
        let line = row.clone();
        proof {
            assert(line@ =~= row@);
            lemma_row_deep_view(line);
        }
        let ghost before = map.deep_view();
        map.push(line);
        assert(map.deep_view() =~~= before.push(line@));
        y = y + 1;
    }
    map
}

/// The grid of `TRACK_HEIGHT` rows of `TRACK_WIDTH` tiles whose tile at
/// `(x, y)` is `f(x, y)`.
pub open spec fn tabulate(f: spec_fn(int, int) -> char) -> Grid {
    Seq::new(TRACK_HEIGHT as nat, |y: int| Seq::new(TRACK_WIDTH as nat, |x: int| f(x, y)))
}

/// City ground: a fence around pavement.
pub open spec fn city_ground(x: int, y: int) -> char {
    if on_border(x, y) {
        '#'
    } else {
        'U'
    }
}

/// The city streets: road strips framed by kerbs, a later strip lying over
/// an earlier one where they cross.
pub open spec fn city_road(x: int, y: int) -> char {
    if in_rect(x, y, 19, 24, 27, 33) {
        'P'
    } else if in_rect(x, y, 18, 23, 28, 34) {
        'K'
    } else if in_rect(x, y, 44, 11, 57, 14) {
        'P'
    } else if in_rect(x, y, 43, 10, 58, 15) {
        'K'
    } else if in_rect(x, y, 34, 23, 50, 26) {
        'P'
    } else if in_rect(x, y, 33, 22, 51, 27) {
        'K'
    } else if in_rect(x, y, 25, 18, 34, 21) {
        'P'
    } else if in_rect(x, y, 24, 17, 35, 22) {
        'K'
    } else if in_rect(x, y, 12, 14, 26, 17) {
        'P'
    } else if in_rect(x, y, 11, 13, 27, 18) {
        'K'
    } else if in_rect(x, y, 4, 9, 11, 36) {
        'P'
    } else if in_rect(x, y, 3, 8, 12, 37) {
        'K'
    } else if in_rect(x, y, 4, 32, 60, 36) {
        'P'
    } else if in_rect(x, y, 3, 31, 61, 37) {
        'K'
    } else if in_rect(x, y, 53, 9, 60, 34) {
        'P'
    } else if in_rect(x, y, 52, 8, 61, 35) {
        'K'
    } else if in_rect(x, y, 4, 5, 60, 8) {
        'P'
    } else if in_rect(x, y, 3, 4, 61, 9) {
        'K'
    } else {
        city_ground(x, y)
    }
}

/// The city landmarks laid over the streets: buildings, the finish line with
/// its banner posts, and boost pads.
pub open spec fn city_landmark(x: int, y: int) -> char {
    if (y == 35 && 32 <= x <= 34) || (y == 11 && 47 <= x <= 49) || (y == 36 && 24 <= x <= 26)
        || (y == 14 && 15 <= x <= 17) {
        'R'
    } else if x == 22 && (y == 34 || y == 33) {
        'N'
    } else if in_rect(x, y, 19, 32, 22, 36) {
        'M'
    } else if in_rect(x, y, 15, 11, 21, 12) || in_rect(x, y, 30, 10, 39, 15) || in_rect(
        x,
        y,
        37,
        28,
        46,
        31,
    ) || in_rect(x, y, 14, 20, 20, 22) || in_rect(x, y, 43, 17, 49, 20) {
        'D'
    } else {
        city_road(x, y)
    }
}

/// The cells of the city props of kind `tile`, as `(x, y)`.
pub open spec fn city_props(tile: char) -> Seq<(usize, usize)> {
    if tile == 'Y' {
        seq![(8, 11), (23, 14), (29, 19), (39, 24), (56, 17), (55, 29), (9, 29)]
    } else if tile == 'B' {
        seq![(14, 30), (30, 30), (49, 30), (14, 10), (41, 10), (50, 16), (29, 23)]
    } else if tile == 'O' {
        seq![(6, 6), (58, 6), (6, 35), (58, 35), (22, 20), (51, 22)]
    } else if tile == 'V' {
        seq![
            (13, 6),
            (28, 6),
            (43, 6),
            (56, 12),
            (56, 25),
            (45, 35),
            (30, 35),
            (14, 35),
            (7, 24),
            (7, 13),
        ]
    } else if tile == 'Z' {
        seq![(51, 10), (13, 19), (35, 23), (52, 28), (12, 31)]
    } else if tile == 'E' {
        seq![(23, 10), (42, 16), (48, 21), (29, 28), (16, 25)]
    } else {
        seq![]
    }
}

/// The tile at `(x, y)` of the city circuit ("Gran Premio Metro"): the props
/// placed last win over the landmarks, streets and ground below them.
pub open spec fn city_tile(x: int, y: int) -> char {
    if listed(city_props('E'), x, y) {
        'E'
    } else if listed(city_props('Z'), x, y) {
        'Z'
    } else if listed(city_props('V'), x, y) {
        'V'
    } else if listed(city_props('O'), x, y) {
        'O'
    } else if listed(city_props('B'), x, y) {
        'B'
    } else if listed(city_props('Y'), x, y) {
        'Y'
    } else {
        city_landmark(x, y)
    }
}

/// The city circuit as a grid.
pub open spec fn city_layout() -> Grid {
    tabulate(|x: int, y: int| city_tile(x, y))
}

/// Pavement fenced in on all four sides.
fn lay_city_ground() -> (map: Vec<Vec<char>>)
    ensures
        map.deep_view() == tabulate(|x: int, y: int| city_ground(x, y)),
{
    let mut map = filled_grid(65, 41, 'U');
    write_hline(&mut map, 0, 0, 64, '#');
    write_hline(&mut map, 40, 0, 64, '#');
    fill_rect(&mut map, 0, 0, 0, 40, '#');
    fill_rect(&mut map, 64, 0, 64, 40, '#');
    assert(map.deep_view() =~~= tabulate(|x: int, y: int| city_ground(x, y)));
    map
}

/// Lays the kerbed road strips over the city ground.
fn lay_city_roads(map: &mut Vec<Vec<char>>)
    requires
        old(map).deep_view() == tabulate(|x: int, y: int| city_ground(x, y)),
    ensures
        final(map).deep_view() == tabulate(|x: int, y: int| city_road(x, y)),
{
    fill_rect(map, 3, 4, 61, 9, 'K');
    fill_rect(map, 4, 5, 60, 8, 'P');
    fill_rect(map, 52, 8, 61, 35, 'K');
    fill_rect(map, 53, 9, 60, 34, 'P');
    fill_rect(map, 3, 31, 61, 37, 'K');
    fill_rect(map, 4, 32, 60, 36, 'P');
    fill_rect(map, 3, 8, 12, 37, 'K');
    fill_rect(map, 4, 9, 11, 36, 'P');
    fill_rect(map, 11, 13, 27, 18, 'K');
    fill_rect(map, 12, 14, 26, 17, 'P');
    fill_rect(map, 24, 17, 35, 22, 'K');
    fill_rect(map, 25, 18, 34, 21, 'P');
    fill_rect(map, 33, 22, 51, 27, 'K');
    fill_rect(map, 34, 23, 50, 26, 'P');
    fill_rect(map, 43, 10, 58, 15, 'K');
    fill_rect(map, 44, 11, 57, 14, 'P');
    fill_rect(map, 18, 23, 28, 34, 'K');
    fill_rect(map, 19, 24, 27, 33, 'P');
    assert(map.deep_view() =~~= tabulate(|x: int, y: int| city_road(x, y)));
}

/// Lays buildings, the finish line and the boost pads over the streets.
fn lay_city_landmarks(map: &mut Vec<Vec<char>>)
    requires
        old(map).deep_view() == tabulate(|x: int, y: int| city_road(x, y)),
    ensures
        final(map).deep_view() == tabulate(|x: int, y: int| city_landmark(x, y)),
{
    fill_rect(map, 15, 11, 21, 12, 'D');
    fill_rect(map, 30, 10, 39, 15, 'D');
    fill_rect(map, 37, 28, 46, 31, 'D');
    fill_rect(map, 14, 20, 20, 22, 'D');
    fill_rect(map, 43, 17, 49, 20, 'D');
    fill_rect(map, 19, 32, 22, 36, 'M');
    set_tiles(map, &[(22, 34), (22, 33)], 'N');
    write_hline(map, 35, 32, 34, 'R');
    write_hline(map, 11, 47, 49, 'R');
    write_hline(map, 36, 24, 26, 'R');
    write_hline(map, 14, 15, 17, 'R');
    assert(map.deep_view() =~~= tabulate(|x: int, y: int| city_landmark(x, y)));
}

/// Places the props of kind `tile` on the map.
fn place_props(map: &mut Vec<Vec<char>>, tile: char)
    requires
        has_track_shape(old(map).deep_view()),
        tile == 'Y' || tile == 'B' || tile == 'O' || tile == 'V' || tile == 'Z' || tile == 'E',
    ensures
        final(map).deep_view() == paint_points(old(map).deep_view(), city_props(tile), tile),
{
    let points: Vec<(usize, usize)> = if tile == 'Y' {
        vec![(8, 11), (23, 14), (29, 19), (39, 24), (56, 17), (55, 29), (9, 29)]
    } else if tile == 'B' {
        vec![(14, 30), (30, 30), (49, 30), (14, 10), (41, 10), (50, 16), (29, 23)]
    } else if tile == 'O' {
        vec![(6, 6), (58, 6), (6, 35), (58, 35), (22, 20), (51, 22)]
    } else if tile == 'V' {
        vec![
            (13, 6),
            (28, 6),
            (43, 6),
            (56, 12),
            (56, 25),
            (45, 35),
            (30, 35),
            (14, 35),
            (7, 24),
            (7, 13),
        ]
    } else if tile == 'Z' {
        vec![(51, 10), (13, 19), (35, 23), (52, 28), (12, 31)]
    } else {
        vec![(23, 10), (42, 16), (48, 21), (29, 28), (16, 25)]
    };
    assert(points@ == city_props(tile));
    set_tiles(map, points.as_slice(), tile);
}

/// The city circuit ("Gran Premio Metro") as a grid of tiles.
pub fn build_city_map() -> (map: Vec<Vec<char>>)
    ensures
        map.deep_view() == city_layout(),
{
    let mut map = lay_city_ground();
    lay_city_roads(&mut map);
    lay_city_landmarks(&mut map);
    place_props(&mut map, 'Y');
    place_props(&mut map, 'B');
    place_props(&mut map, 'O');
    place_props(&mut map, 'V');
    place_props(&mut map, 'Z');
    place_props(&mut map, 'E');
    assert(map.deep_view() =~~= city_layout());
    map
}

/// The grid of circuit `track_index`; indices wrap around the circuits.
pub open spec fn track_layout(track_index: int) -> Grid {
    if track_index % TRACK_COUNT as int == 1 {
        city_layout()
    } else {
        garden_layout()
    }
}

/// The grid of circuit `track_index`; indices wrap around the circuits.
pub fn build_track_map(track_index: usize) -> (map: Vec<Vec<char>>)
    ensures
        map.deep_view() == track_layout(track_index as int),
{
    match track_index % TRACK_COUNT {
        1 => build_city_map(),
        _ => build_garden_map(),
    }
}

/// The start cell `(x, y)` of circuit `track_index`, on the grid behind the
/// finish line.
pub open spec fn spawn_spec(track_index: int) -> (usize, usize) {
    if track_index % TRACK_COUNT as int == 1 {
        (17, 34)
    } else {
        (15, 34)
    }
}

/// The start cell `(x, y)` of circuit `track_index`; the kart starts at
/// that world position, facing along the x axis.
pub fn spawn_position(track_index: usize) -> (cell: (usize, usize))
    ensures
        cell == spawn_spec(track_index as int),
{
    match track_index % TRACK_COUNT {
        1 => (17, 34),
        _ => (15, 34),
    }
}

/// Every circuit is a grid of `TRACK_HEIGHT` rows of `TRACK_WIDTH` tiles.
pub proof fn lemma_track_shape(track_index: int)
    ensures
        has_track_shape(track_layout(track_index)),
{
    lemma_garden_layout();
}

/// Every circuit is fenced in: each tile on its border blocks movement.
pub proof fn lemma_track_enclosed(track_index: int)
    ensures
        enclosed(track_layout(track_index)),
{
    lemma_garden_layout();
    if track_index % TRACK_COUNT as int == 1 {
        assert forall|x: int, y: int|
            0 <= y < city_layout().len() && 0 <= x < city_layout()[y].len() && on_border(
                x,
                y,
            ) implies solid_tile(#[trigger] city_layout()[y][x]) by {
            assert(city_layout()[y][x] == city_tile(x, y));
            assert(!listed(city_props('E'), x, y));
            assert(!listed(city_props('Z'), x, y));
            assert(!listed(city_props('V'), x, y));
            assert(!listed(city_props('O'), x, y));
            assert(!listed(city_props('B'), x, y));
            assert(!listed(city_props('Y'), x, y));
        }
    }
}

/// Every circuit starts its kart on a drivable tile.
pub proof fn lemma_spawn_drivable(track_index: int)
    ensures
        ({
            let (x, y) = spawn_spec(track_index);
            let grid = track_layout(track_index);
            &&& y < grid.len()
            &&& x < grid[y as int].len()
            &&& drivable_tile(grid[y as int][x as int])
        }),
{
    lemma_garden_layout();
    if track_index % TRACK_COUNT as int == 1 {
        assert(city_layout()[34][17] == city_tile(17, 34));
        assert(!listed(city_props('E'), 17, 34));
        assert(!listed(city_props('Z'), 17, 34));
        assert(!listed(city_props('V'), 17, 34));
        assert(!listed(city_props('O'), 17, 34));
        assert(!listed(city_props('B'), 17, 34));
        assert(!listed(city_props('Y'), 17, 34));
    }
}

/// The name of circuit `index`; indices wrap around the circuits.
pub open spec fn track_name_spec(index: int) -> Seq<char> {
    if index % TRACK_COUNT as int == 1 {
        "Gran Premio Metro"@
    } else {
        "Jardin Rust"@
    }
}

/// The name of circuit `index`.
pub fn track_name(index: usize) -> (name: &'static str)
    ensures
        name@ == track_name_spec(index as int),
{
    match index % TRACK_COUNT {
        1 => "Gran Premio Metro",
        _ => "Jardin Rust",
    }
}

/// The name of vehicle `index`; indices wrap around the vehicles.
pub open spec fn vehicle_name_spec(index: int) -> Seq<char> {
    if index % VEHICLE_COUNT as int == 1 {
        "Moto"@
    } else {
        "Kart"@
    }
}

/// The name of vehicle `index`.
pub fn vehicle_name(index: usize) -> (name: &'static str)
    ensures
        name@ == vehicle_name_spec(index as int),
{
    match index % VEHICLE_COUNT {
        1 => "Moto",
        _ => "Kart",
    }
}

/// The tile under the centre of a checkpoint of circuit `track_index`.
pub open spec fn tile_under(track_index: int, i: int) -> char {
    let c = checkpoint_list(track_index)[i];
    track_layout(track_index)[(c.y / 100) as int][(c.x / 100) as int]
}

/// Every checkpoint can be reached: its centre lies on open ground, never in
/// a wall; and the last one, the finish, lies on the finish stripe (the
/// chequered line or its banner post).
pub proof fn lemma_checkpoints_on_open_ground(track_index: int)
    ensures
        forall|i: int|
            0 <= i < checkpoint_list(track_index).len() ==> !solid_tile(
                #[trigger] tile_under(track_index, i),
            ),
        tile_under(track_index, checkpoint_list(track_index).len() - 1) == 'M' || tile_under(
            track_index,
            checkpoint_list(track_index).len() - 1,
        ) == 'N',
{
    lemma_garden_layout();
    if track_index % TRACK_COUNT as int == 1 {
        let cps = checkpoint_list(track_index);
        assert forall|i: int| 0 <= i < cps.len() implies !solid_tile(
            #[trigger] tile_under(track_index, i),
        ) by {
            let c = cps[i];
            let x = c.x / 100;
            let y = c.y / 100;
            assert(tile_under(track_index, i) == city_tile(x as int, y as int));
            assert(!listed(city_props('E'), x as int, y as int));
            assert(!listed(city_props('Z'), x as int, y as int));
            assert(!listed(city_props('V'), x as int, y as int));
            assert(!listed(city_props('O'), x as int, y as int));
            assert(!listed(city_props('B'), x as int, y as int));
        }
        assert(city_layout()[33][22] == city_tile(22, 33));
        assert(!listed(city_props('E'), 22, 33));
        assert(!listed(city_props('Z'), 22, 33));
        assert(!listed(city_props('V'), 22, 33));
        assert(!listed(city_props('O'), 22, 33));
        assert(!listed(city_props('B'), 22, 33));
        assert(!listed(city_props('Y'), 22, 33));
    } else {
        assert forall|i: int| 0 <= i < checkpoint_list(track_index).len() implies !solid_tile(
            #[trigger] tile_under(track_index, i),
        ) by {
            assert(checkpoint_list(track_index) == checkpoint_list(0));
            assert(track_layout(track_index) == track_layout(0));
            assert(tile_under(track_index, i) == tile_under(0, i));
        }
    }
}

/// The straight-line distance between the centres of two checkpoints,
/// squared, in hundredths of a tile squared.
pub open spec fn gap_squared(a: Checkpoint, b: Checkpoint) -> int {
    (a.x - b.x) * (a.x - b.x) + (a.y - b.y) * (a.y - b.y)
}

/// The longest straight stretch between two checkpoints that follow each
/// other on circuit `track_index`, in hundredths of a tile.
pub open spec fn longest_stretch(track_index: int) -> int {
    if track_index % TRACK_COUNT as int == 1 {
        1700
    } else {
        1500
    }
}

/// The checkpoints come in driving order. The kart starts facing along the
/// x axis, and the first checkpoint lies straight ahead of it on its row,
/// with the finish line between the two; from there each checkpoint lies at
/// most a short stretch (15 tiles on the garden, 17 in the city) from the
/// one before, the finish line included, and the first follows the finish
/// line just as closely, so that the list closes into a lap.
pub proof fn lemma_checkpoints_in_driving_order(track_index: int)
    ensures
        ({
            let cps = checkpoint_list(track_index);
            let (sx, sy) = spawn_spec(track_index);
            &&& cps[0].y == sy * 100
            &&& sx * 100 < cps[cps.len() - 1].x < cps[0].x
            &&& forall|i: int|
                0 <= i < cps.len() ==> #[trigger] stretch_within(
                    cps,
                    i,
                    longest_stretch(track_index),
                )
        }),
{
    let cps = checkpoint_list(track_index);
    assert forall|i: int| 0 <= i < cps.len() implies #[trigger] stretch_within(
        cps,
        i,
        longest_stretch(track_index),
    ) by {
        lemma_stretches(track_index, i);
    }
}

/// The gap from checkpoint `i` of `cps` to the one after it, wrapping from
/// the last to the first, is at most `bound` tiles (in hundredths).
pub open spec fn stretch_within(cps: Seq<Checkpoint>, i: int, bound: int) -> bool {
    let j = if i + 1 == cps.len() {
        0
    } else {
        i + 1
    };
    gap_squared(cps[i], cps[j]) <= bound * bound
}

/// Each stretch of circuit `track_index`, from checkpoint `i` to the next.
proof fn lemma_stretches(track_index: int, i: int)
    requires
        0 <= i < checkpoint_list(track_index).len(),
    ensures
        stretch_within(checkpoint_list(track_index), i, longest_stretch(track_index)),
{
    let cps = checkpoint_list(track_index);
    if track_index % TRACK_COUNT as int == 1 {
        if i == 0 {
            assert(cps[0] == checkpoint_at(2500, 3400, 300));
            assert(cps[1] == checkpoint_at(3900, 3400, 300));
            assert(gap_squared(checkpoint_at(2500, 3400, 300), checkpoint_at(3900, 3400, 300)) <= 1700 * 1700)
                by (nonlinear_arith);
        } else if i == 1 {
            assert(cps[1] == checkpoint_at(3900, 3400, 300));
            assert(cps[2] == checkpoint_at(5550, 3000, 320));
            assert(gap_squared(checkpoint_at(3900, 3400, 300), checkpoint_at(5550, 3000, 320)) <= 1700 * 1700)
                by (nonlinear_arith);
        } else if i == 2 {
            assert(cps[2] == checkpoint_at(5550, 3000, 320));
            assert(cps[3] == checkpoint_at(5550, 2000, 320));
            assert(gap_squared(checkpoint_at(5550, 3000, 320), checkpoint_at(5550, 2000, 320)) <= 1700 * 1700)
                by (nonlinear_arith);
        } else if i == 3 {
            assert(cps[3] == checkpoint_at(5550, 2000, 320));
            assert(cps[4] == checkpoint_at(5000, 1200, 320));
            assert(gap_squared(checkpoint_at(5550, 2000, 320), checkpoint_at(5000, 1200, 320)) <= 1700 * 1700)
                by (nonlinear_arith);
        } else if i == 4 {
            assert(cps[4] == checkpoint_at(5000, 1200, 320));
            assert(cps[5] == checkpoint_at(4100, 1200, 300));
            assert(gap_squared(checkpoint_at(5000, 1200, 320), checkpoint_at(4100, 1200, 300)) <= 1700 * 1700)
                by (nonlinear_arith);
        } else if i == 5 {
            assert(cps[5] == checkpoint_at(4100, 1200, 300));
            assert(cps[6] == checkpoint_at(2900, 1950, 300));
            assert(gap_squared(checkpoint_at(4100, 1200, 300), checkpoint_at(2900, 1950, 300)) <= 1700 * 1700)
                by (nonlinear_arith);
        } else if i == 6 {
            assert(cps[6] == checkpoint_at(2900, 1950, 300));
            assert(cps[7] == checkpoint_at(1800, 1550, 300));
            assert(gap_squared(checkpoint_at(2900, 1950, 300), checkpoint_at(1800, 1550, 300)) <= 1700 * 1700)
                by (nonlinear_arith);
        } else if i == 7 {
            assert(cps[7] == checkpoint_at(1800, 1550, 300));
            assert(cps[8] == checkpoint_at(800, 1200, 320));
            assert(gap_squared(checkpoint_at(1800, 1550, 300), checkpoint_at(800, 1200, 320)) <= 1700 * 1700)
                by (nonlinear_arith);
        } else if i == 8 {
            assert(cps[8] == checkpoint_at(800, 1200, 320));
            assert(cps[9] == checkpoint_at(800, 2500, 320));
            assert(gap_squared(checkpoint_at(800, 1200, 320), checkpoint_at(800, 2500, 320)) <= 1700 * 1700)
                by (nonlinear_arith);
        } else if i == 9 {
            assert(cps[9] == checkpoint_at(800, 2500, 320));
            assert(cps[10] == checkpoint_at(2200, 2800, 300));
            assert(gap_squared(checkpoint_at(800, 2500, 320), checkpoint_at(2200, 2800, 300)) <= 1700 * 1700)
                by (nonlinear_arith);
        } else if i == 10 {
            assert(cps[10] == checkpoint_at(2200, 2800, 300));
            assert(cps[11] == checkpoint_at(2250, 3390, 115));
            assert(gap_squared(checkpoint_at(2200, 2800, 300), checkpoint_at(2250, 3390, 115)) <= 1700 * 1700)
                by (nonlinear_arith);
        } else if i == 11 {
            assert(cps[11] == checkpoint_at(2250, 3390, 115));
            assert(cps[0] == checkpoint_at(2500, 3400, 300));
            assert(gap_squared(checkpoint_at(2250, 3390, 115), checkpoint_at(2500, 3400, 300)) <= 1700 * 1700)
                by (nonlinear_arith);
        }
    } else {
        if i == 0 {
            assert(cps[0] == checkpoint_at(2900, 3400, 300));
            assert(cps[1] == checkpoint_at(3400, 3400, 300));
            assert(gap_squared(checkpoint_at(2900, 3400, 300), checkpoint_at(3400, 3400, 300)) <= 1500 * 1500)
                by (nonlinear_arith);
        } else if i == 1 {
            assert(cps[1] == checkpoint_at(3400, 3400, 300));
            assert(cps[2] == checkpoint_at(4900, 3400, 300));
            assert(gap_squared(checkpoint_at(3400, 3400, 300), checkpoint_at(4900, 3400, 300)) <= 1500 * 1500)
                by (nonlinear_arith);
        } else if i == 2 {
            assert(cps[2] == checkpoint_at(4900, 3400, 300));
            assert(cps[3] == checkpoint_at(5700, 3100, 320));
            assert(gap_squared(checkpoint_at(4900, 3400, 300), checkpoint_at(5700, 3100, 320)) <= 1500 * 1500)
                by (nonlinear_arith);
        } else if i == 3 {
            assert(cps[3] == checkpoint_at(5700, 3100, 320));
            assert(cps[4] == checkpoint_at(5700, 2200, 320));
            assert(gap_squared(checkpoint_at(5700, 3100, 320), checkpoint_at(5700, 2200, 320)) <= 1500 * 1500)
                by (nonlinear_arith);
        } else if i == 4 {
            assert(cps[4] == checkpoint_at(5700, 2200, 320));
            assert(cps[5] == checkpoint_at(5700, 1300, 320));
            assert(gap_squared(checkpoint_at(5700, 2200, 320), checkpoint_at(5700, 1300, 320)) <= 1500 * 1500)
                by (nonlinear_arith);
        } else if i == 5 {
            assert(cps[5] == checkpoint_at(5700, 1300, 320));
            assert(cps[6] == checkpoint_at(5200, 700, 320));
            assert(gap_squared(checkpoint_at(5700, 1300, 320), checkpoint_at(5200, 700, 320)) <= 1500 * 1500)
                by (nonlinear_arith);
        } else if i == 6 {
            assert(cps[6] == checkpoint_at(5200, 700, 320));
            assert(cps[7] == checkpoint_at(3900, 700, 300));
            assert(gap_squared(checkpoint_at(5200, 700, 320), checkpoint_at(3900, 700, 300)) <= 1500 * 1500)
                by (nonlinear_arith);
        } else if i == 7 {
            assert(cps[7] == checkpoint_at(3900, 700, 300));
            assert(cps[8] == checkpoint_at(2600, 700, 300));
            assert(gap_squared(checkpoint_at(3900, 700, 300), checkpoint_at(2600, 700, 300)) <= 1500 * 1500)
                by (nonlinear_arith);
        } else if i == 8 {
            assert(cps[8] == checkpoint_at(2600, 700, 300));
            assert(cps[9] == checkpoint_at(1200, 700, 300));
            assert(gap_squared(checkpoint_at(2600, 700, 300), checkpoint_at(1200, 700, 300)) <= 1500 * 1500)
                by (nonlinear_arith);
        } else if i == 9 {
            assert(cps[9] == checkpoint_at(1200, 700, 300));
            assert(cps[10] == checkpoint_at(800, 1400, 320));
            assert(gap_squared(checkpoint_at(1200, 700, 300), checkpoint_at(800, 1400, 320)) <= 1500 * 1500)
                by (nonlinear_arith);
        } else if i == 10 {
            assert(cps[10] == checkpoint_at(800, 1400, 320));
            assert(cps[11] == checkpoint_at(800, 2400, 320));
            assert(gap_squared(checkpoint_at(800, 1400, 320), checkpoint_at(800, 2400, 320)) <= 1500 * 1500)
                by (nonlinear_arith);
        } else if i == 11 {
            assert(cps[11] == checkpoint_at(800, 2400, 320));
            assert(cps[12] == checkpoint_at(800, 3100, 300));
            assert(gap_squared(checkpoint_at(800, 2400, 320), checkpoint_at(800, 3100, 300)) <= 1500 * 1500)
                by (nonlinear_arith);
        } else if i == 12 {
            assert(cps[12] == checkpoint_at(800, 3100, 300));
            assert(cps[13] == checkpoint_at(2250, 3390, 115));
            assert(gap_squared(checkpoint_at(800, 3100, 300), checkpoint_at(2250, 3390, 115)) <= 1500 * 1500)
                by (nonlinear_arith);
        } else if i == 13 {
            assert(cps[13] == checkpoint_at(2250, 3390, 115));
            assert(cps[0] == checkpoint_at(2900, 3400, 300));
            assert(gap_squared(checkpoint_at(2250, 3390, 115), checkpoint_at(2900, 3400, 300)) <= 1500 * 1500)
                by (nonlinear_arith);
        }
    }
}

/// Whether `(x, y)` lies on the asphalt of a city street, inside its kerbs.
pub open spec fn city_street(x: int, y: int) -> bool {
    ||| in_rect(x, y, 4, 5, 60, 8)
    ||| in_rect(x, y, 53, 9, 60, 34)
    ||| in_rect(x, y, 4, 32, 60, 36)
    ||| in_rect(x, y, 4, 9, 11, 36)
    ||| in_rect(x, y, 12, 14, 26, 17)
    ||| in_rect(x, y, 25, 18, 34, 21)
    ||| in_rect(x, y, 34, 23, 50, 26)
    ||| in_rect(x, y, 44, 11, 57, 14)
    ||| in_rect(x, y, 19, 24, 27, 33)
}

/// Whether `tile` is one of the city props a kart drives over.
pub open spec fn city_prop_tile(tile: char) -> bool {
    tile == 'Y' || tile == 'B' || tile == 'O' || tile == 'V' || tile == 'Z' || tile == 'E'
}

/// No building stands on a city street: every cell of a street can be
/// driven over, and holds road, a kerb where streets meet, a boost pad, the
/// finish line or its post, or a prop.
pub proof fn lemma_city_streets_open(x: int, y: int)
    requires
        city_street(x, y),
    ensures
        in_grid(track_layout(1), x, y),
        !solid_tile(track_layout(1)[y][x]),
        drivable_tile(track_layout(1)[y][x]) || track_layout(1)[y][x] == 'N' || city_prop_tile(
            track_layout(1)[y][x],
        ),
{
    assert(city_layout()[y][x] == city_tile(x, y));
}

} // verus!
