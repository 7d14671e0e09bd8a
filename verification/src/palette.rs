//! Colours of the circuits, the karts and the interface.
use vstd::prelude::*;
use crate::tiles::{in_grid, Grid};
use vstd::arithmetic::div_mod::lemma_add_mod_noop;

verus! {

/// A colour with red, green, blue and alpha channels.
#[derive(Clone, Copy, Debug, PartialEq, Eq, Structural)]
pub struct Rgba {
    pub r: u8,
    pub g: u8,
    pub b: u8,
    pub a: u8,
}

/// The colour with the given channels.
pub open spec fn rgba(r: u8, g: u8, b: u8, a: u8) -> Rgba {
    Rgba { r, g, b, a }
}

impl Rgba {
    /// The colour with the given channels.
    pub fn new(r: u8, g: u8, b: u8, a: u8) -> (c: Rgba)
        ensures
            c == rgba(r, g, b, a),
    {
        Rgba { r, g, b, a }
    }
}

/// raylib's off-white.
pub open spec fn ray_white() -> Rgba {
    rgba(245, 245, 245, 255)
}

/// Kart colours to choose from.
pub const KART_COLOR_COUNT: usize = 5;

/// The kart colour `index`; indices wrap around the five colours.
pub open spec fn kart_color_spec(index: int) -> Rgba {
    let i = index % (KART_COLOR_COUNT as int);
    if i == 0 {
        rgba(220, 43, 42, 255)
    } else if i == 1 {
        rgba(42, 118, 235, 255)
    } else if i == 2 {
        rgba(45, 185, 85, 255)
    } else if i == 3 {
        rgba(245, 195, 45, 255)
    } else {
        rgba(190, 75, 220, 255)
    }
}

/// The kart colour `index`: red, blue, green, yellow or purple.
pub fn kart_color(index: usize) -> (color: Rgba)
    ensures
        color == kart_color_spec(index as int),
{
    match index % KART_COLOR_COUNT {
        0 => Rgba::new(220, 43, 42, 255),
        1 => Rgba::new(42, 118, 235, 255),
        2 => Rgba::new(45, 185, 85, 255),
        3 => Rgba::new(245, 195, 45, 255),
        _ => Rgba::new(190, 75, 220, 255),
    }
}

/// The name of kart colour `index`, in Spanish.
pub open spec fn kart_color_name_spec(index: int) -> Seq<char> {
    let i = index % (KART_COLOR_COUNT as int);
    if i == 0 {
        "Rojo"@
    } else if i == 1 {
        "Azul"@
    } else if i == 2 {
        "Verde"@
    } else if i == 3 {
        "Amarillo"@
    } else {
        "Morado"@
    }
}

/// The name of kart colour `index`.
pub fn kart_color_name(index: usize) -> (name: &'static str)
    ensures
        name@ == kart_color_name_spec(index as int),
{
    match index % KART_COLOR_COUNT {
        0 => "Rojo",
        1 => "Azul",
        2 => "Verde",
        3 => "Amarillo",
        _ => "Morado",
    }
}

/// The minimap colour of a tile.
pub open spec fn tile_color_spec(tile: char) -> Rgba {
    if tile == '#' {
        rgba(30, 90, 40, 255)
    } else if tile == 'H' {
        rgba(45, 135, 55, 255)
    } else if tile == 'S' {
        rgba(155, 155, 160, 255)
    } else if tile == 'W' {
        rgba(60, 150, 220, 255)
    } else if tile == 'P' {
        rgba(70, 72, 76, 255)
    } else if tile == 'K' {
        rgba(235, 55, 50, 255)
    } else if tile == 'L' {
        rgba(235, 220, 70, 255)
    } else if tile == 'M' {
        ray_white()
    } else if tile == 'R' {
        rgba(245, 185, 35, 255)
    } else if tile == 'F' {
        rgba(230, 100, 155, 255)
    } else if tile == 'T' {
        rgba(25, 85, 35, 255)
    } else if tile == 'O' {
        rgba(245, 125, 25, 255)
    } else if tile == 'C' {
        rgba(150, 95, 50, 255)
    } else if tile == 'B' {
        rgba(220, 60, 60, 255)
    } else if tile == 'A' {
        rgba(190, 190, 200, 255)
    } else if tile == 'G' {
        rgba(85, 100, 145, 255)
    } else if tile == 'N' {
        rgba(255, 255, 255, 255)
    } else if tile == 'Y' {
        rgba(245, 215, 55, 255)
    } else {
        rgba(80, 150, 80, 255)
    }
}

/// The minimap colour of a tile.
pub fn tile_color(tile: char) -> (color: Rgba)
    ensures
        color == tile_color_spec(tile),
{
    match tile {
        '#' => Rgba::new(30, 90, 40, 255),
        'H' => Rgba::new(45, 135, 55, 255),
        'S' => Rgba::new(155, 155, 160, 255),
        'W' => Rgba::new(60, 150, 220, 255),
        'P' => Rgba::new(70, 72, 76, 255),
        'K' => Rgba::new(235, 55, 50, 255),
        'L' => Rgba::new(235, 220, 70, 255),
        'M' => Rgba::new(245, 245, 245, 255),
        'R' => Rgba::new(245, 185, 35, 255),
        'F' => Rgba::new(230, 100, 155, 255),
        'T' => Rgba::new(25, 85, 35, 255),
        'O' => Rgba::new(245, 125, 25, 255),
        'C' => Rgba::new(150, 95, 50, 255),
        'B' => Rgba::new(220, 60, 60, 255),
        'A' => Rgba::new(190, 190, 200, 255),
        'G' => Rgba::new(85, 100, 145, 255),
        'N' => Rgba::new(255, 255, 255, 255),
        'Y' => Rgba::new(245, 215, 55, 255),
        _ => Rgba::new(80, 150, 80, 255),
    }
}

/// The base colour of a wall column showing `tile`, before shading by
/// distance.
pub open spec fn wall_color_spec(tile: char, is_city_track: bool) -> Rgba {
    if tile == '#' {
        if is_city_track {
            rgba(15, 35, 55, 255)
        } else {
            rgba(40, 115, 50, 255)
        }
    } else if tile == 'H' {
        rgba(55, 155, 65, 255)
    } else if tile == 'S' {
        rgba(180, 180, 190, 255)
    } else if tile == 'W' {
        rgba(55, 155, 225, 255)
    } else if tile == 'D' {
        if is_city_track {
            rgba(42, 48, 66, 255)
        } else {
            rgba(74, 82, 94, 255)
        }
    } else {
        rgba(60, 125, 225, 255)
    }
}

/// The base colour of a wall column showing `tile`.
pub fn wall_color(tile: char, is_city_track: bool) -> (color: Rgba)
    ensures
        color == wall_color_spec(tile, is_city_track),
{
    match tile {
        '#' => {
            if is_city_track {
                Rgba::new(15, 35, 55, 255)
            } else {
                Rgba::new(40, 115, 50, 255)
            }
        },
        'H' => Rgba::new(55, 155, 65, 255),
        'S' => Rgba::new(180, 180, 190, 255),
        'W' => Rgba::new(55, 155, 225, 255),
        'D' => {
            if is_city_track {
                Rgba::new(42, 48, 66, 255)
            } else {
                Rgba::new(74, 82, 94, 255)
            }
        },
        _ => Rgba::new(60, 125, 225, 255),
    }
}

/// The colour of grass.
pub fn grass_color() -> (color: Rgba)
    ensures
        color == rgba(65, 125, 70, 255),
{
    Rgba::new(65, 125, 70, 255)
}

/// The colour of a city road tile at cell `(map_x, map_y)`: a grey lane
/// marking where the point lies on one of the tile's centre lines (and the
/// cell is not on every fourth diagonal), otherwise asphalt with a darker
/// tone on every seventh diagonal.
pub open spec fn city_road_color_spec(map_x: int, map_y: int, on_center_line: bool) -> Rgba {
    if on_center_line && (map_x + map_y) % 4 != 0 {
        rgba(118, 120, 118, 255)
    } else if (map_x + map_y) % 7 == 0 {
        rgba(55, 58, 64, 255)
    } else {
        rgba(64, 67, 73, 255)
    }
}

/// The colour of a city road tile; `on_center_line` tells whether the point
/// drawn lies within 0.02 of the tile's horizontal or vertical centre line.
pub fn city_road_color(map_x: usize, map_y: usize, on_center_line: bool) -> (color: Rgba)
    ensures
        color == city_road_color_spec(map_x as int, map_y as int, on_center_line),
{
    proof {
        lemma_add_mod_noop(map_x as int, map_y as int, 4);
        lemma_add_mod_noop(map_x as int, map_y as int, 7);
    }
    if on_center_line && (map_x % 4 + map_y % 4) % 4 != 0 {
        return Rgba::new(118, 120, 118, 255);
    }
    if (map_x % 7 + map_y % 7) % 7 == 0 {
        Rgba::new(55, 58, 64, 255)
    } else {
        Rgba::new(64, 67, 73, 255)
    }
}

/// The floor colour of `tile` at cell `(map_x, map_y)`.
pub open spec fn floor_tile_color_spec(
    tile: char,
    map_x: int,
    map_y: int,
    is_city_track: bool,
    on_center_line: bool,
) -> Rgba {
    let even = (map_x + map_y) % 2 == 0;
    if tile == 'P' {
        if is_city_track {
            city_road_color_spec(map_x, map_y, on_center_line)
        } else {
            rgba(70, 72, 76, 255)
        }
    } else if tile == 'K' {
        if is_city_track {
            city_road_color_spec(map_x, map_y, on_center_line)
        } else if even {
            ray_white()
        } else {
            rgba(220, 40, 38, 255)
        }
    } else if tile == 'L' {
        rgba(235, 220, 70, 255)
    } else if tile == 'M' {
        if even {
            ray_white()
        } else {
            rgba(45, 45, 48, 255)
        }
    } else if tile == 'R' {
        if even {
            rgba(255, 230, 55, 255)
        } else {
            rgba(245, 75, 38, 255)
        }
    } else if tile == 'W' {
        rgba(55, 145, 220, 255)
    } else if tile == 'Q' {
        rgba(155, 195, 210, 255)
    } else if tile == 'U' {
        if (map_x / 2 + map_y / 2) % 2 == 0 {
            rgba(96, 99, 104, 255)
        } else {
            rgba(82, 86, 91, 255)
        }
    } else if tile == 'V' || tile == 'Z' || tile == 'E' {
        if is_city_track {
            rgba(82, 86, 91, 255)
        } else {
            rgba(65, 125, 70, 255)
        }
    } else if tile == 'F' {
        rgba(73, 135, 68, 255)
    } else {
        rgba(65, 125, 70, 255)
    }
}

/// The floor colour at the cell `(col, row)` of a track; cells off the
/// track are grass.
pub open spec fn floor_color_spec(
    grid: Grid,
    col: int,
    row: int,
    is_city_track: bool,
    on_center_line: bool,
) -> Rgba {
    if in_grid(grid, col, row) {
        floor_tile_color_spec(grid[row][col], col, row, is_city_track, on_center_line)
    } else {
        rgba(65, 125, 70, 255)
    }
}

/// The floor colour at the cell `(col, row)`, the cell being the floor of
/// the world position drawn; `on_center_line` tells whether that position
/// lies on a centre line of its tile, which matters on city roads only.
pub fn floor_color(
    map: &[Vec<char>],
    col: i64,
    row: i64,
    is_city_track: bool,
    on_center_line: bool,
) -> (color: Rgba)
    ensures
        color == floor_color_spec(
            map.deep_view(),
            col as int,
            row as int,
            is_city_track,
            on_center_line,
        ),
{
    if col < 0 || row < 0 {
        return grass_color();
    }
    let map_y = row as u64;
    let map_x = col as u64;
    if map_y >= map.len() as u64 {
        return grass_color();
    }
    let line = &map[map_y as usize];
    if map_x >= line.len() as u64 {
        return grass_color();
    }
    let map_x = map_x as usize;
    let map_y = map_y as usize;
    let tile = line[map_x];
    proof {
        lemma_add_mod_noop(map_x as int, map_y as int, 2);
    }
    let even = (map_x % 2 + map_y % 2) % 2 == 0;
    match tile {
        'P' => {
            if is_city_track {
                city_road_color(map_x, map_y, on_center_line)
            } else {
                Rgba::new(70, 72, 76, 255)
            }
        },
        'K' => {
            if is_city_track {
                city_road_color(map_x, map_y, on_center_line)
            } else if even {
                Rgba::new(245, 245, 245, 255)
            } else {
                Rgba::new(220, 40, 38, 255)
            }
        },
        'L' => Rgba::new(235, 220, 70, 255),
        'M' => {
            if even {
                Rgba::new(245, 245, 245, 255)
            } else {
                Rgba::new(45, 45, 48, 255)
            }
        },
        'R' => {
            if even {
                Rgba::new(255, 230, 55, 255)
            } else {
                Rgba::new(245, 75, 38, 255)
            }
        },
        'W' => Rgba::new(55, 145, 220, 255),
        'Q' => Rgba::new(155, 195, 210, 255),
        'U' => {
            if (map_x / 2 + map_y / 2) % 2 == 0 {
                Rgba::new(96, 99, 104, 255)
            } else {
                Rgba::new(82, 86, 91, 255)
            }
        },
        'V' | 'Z' | 'E' => {
            if is_city_track {
                Rgba::new(82, 86, 91, 255)
            } else {
                grass_color()
            }
        },
        'F' => Rgba::new(73, 135, 68, 255),
        _ => grass_color(),
    }
}

/// Whether `tile` is painted as a checkerboard on the floor of a track:
/// the finish line and the boost pads, and the kerbs of the garden.
pub open spec fn checkered_floor(tile: char, is_city_track: bool) -> bool {
    tile == 'M' || tile == 'R' || (tile == 'K' && !is_city_track)
}

/// Kerbs, the finish line and boost pads are painted as checkerboards in
/// two colours: of two cells holding the same such tile, the floor colours
/// agree exactly when their coordinate sums `x + y` have the same parity.
/// So moving one cell across or along flips the colour, and moving one cell
/// diagonally keeps it. A garden kerb is white or red.
pub proof fn lemma_floor_checkerboard(
    grid: Grid,
    x1: int,
    y1: int,
    x2: int,
    y2: int,
    is_city_track: bool,
    on_center_line: bool,
)
    requires
        in_grid(grid, x1, y1),
        in_grid(grid, x2, y2),
        grid[y1][x1] == grid[y2][x2],
        checkered_floor(grid[y1][x1], is_city_track),
    ensures
        (floor_color_spec(grid, x1, y1, is_city_track, on_center_line) == floor_color_spec(
            grid,
            x2,
            y2,
            is_city_track,
            on_center_line,
        )) <==> ((x1 + y1) % 2 == (x2 + y2) % 2),
        grid[y1][x1] == 'K' ==> floor_color_spec(grid, x1, y1, is_city_track, on_center_line)
            == ray_white() || floor_color_spec(grid, x1, y1, is_city_track, on_center_line)
            == rgba(220, 40, 38, 255),
{
}

} // verus!
