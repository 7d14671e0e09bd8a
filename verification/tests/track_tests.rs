use kart_racer::race::checkpoints;
use kart_racer::tiles::wall_height_percent;
use kart_racer::tiles::{collides_cells, is_solid, is_wall, surface_speed_percent, tile_at, cell_blocked};
use kart_racer::track::{
    build_city_map, build_garden_map, build_track_map, fill_rect, set_tiles, spawn_position,
    track_name, vehicle_name, write_hline, TRACK_COUNT,
};

#[test]
fn track_maps_keep_expected_size() {
    for track in 0..TRACK_COUNT {
        let map = build_track_map(track);

        assert_eq!(map.len(), 41);

        for row in map {
            assert_eq!(row.len(), 65);
        }
    }
}

#[test]
fn track_spawns_start_on_drivable_tiles() {
    for track in 0..TRACK_COUNT {
        let map = build_track_map(track);
        let (x, y) = spawn_position(track);

        let tile = map[y][x];

        assert!(matches!(tile, 'P' | 'M' | 'R' | 'L' | 'K'));
    }
}

#[test]
fn city_track_is_distinct_and_has_city_tiles() {
    let garden = build_track_map(0);
    let city = build_track_map(1);

    assert_ne!(garden, city);
    assert_eq!(track_name(1), "Gran Premio Metro");
    assert!(city.iter().flatten().any(|tile| *tile == 'D'));
    assert!(city.iter().flatten().any(|tile| *tile == 'U'));
    assert!(city.iter().flatten().any(|tile| *tile == 'V'));
    assert!(city.iter().flatten().any(|tile| *tile == 'Z'));
    assert!(city.iter().flatten().any(|tile| *tile == 'E'));
}

#[test]
fn track_indices_wrap_around() {
    assert_eq!(build_track_map(2), build_garden_map());
    assert_eq!(build_track_map(3), build_city_map());
    assert_eq!(track_name(0), "Jardin Rust");
    assert_eq!(track_name(4), "Jardin Rust");
    assert_eq!(vehicle_name(0), "Kart");
    assert_eq!(vehicle_name(1), "Moto");
    assert_eq!(vehicle_name(7), "Moto");
    assert_eq!(spawn_position(0), (15, 34));
    assert_eq!(spawn_position(1), (17, 34));
    assert_eq!(spawn_position(5), (17, 34));
}

#[test]
fn garden_rows_match_the_layout() {
    let map = build_garden_map();
    let first: String = map[0].iter().collect();
    assert_eq!(first, "#".repeat(65));
    let row7: String = map[7].iter().collect();
    assert_eq!(row7, "#...KPPPPPPPKPPBPPLLLPPPLLCPPPLLLPPPLLCPPPLLLPPPLBPPKPPPPPPPK...#");
    assert_eq!(map[20][32], 'Q');
}

#[test]
fn every_track_is_fenced() {
    for track in 0..TRACK_COUNT {
        let map = build_track_map(track);
        for x in 0..65 {
            assert!(is_solid(map[0][x]));
            assert!(is_solid(map[40][x]));
        }
        for row in &map {
            assert!(is_solid(row[0]));
            assert!(is_solid(row[64]));
        }
    }
}

#[test]
fn city_layout_cells() {
    let city = build_city_map();
    // pavement inside the fence, away from roads
    assert_eq!(city[1][1], 'U');
    // road strips over kerbs
    assert_eq!(city[4][3], 'K');
    assert_eq!(city[5][4], 'P');
    assert_eq!(city[34][17], 'P');
    // buildings, finish line, banner posts, boost pads
    assert_eq!(city[11][15], 'D');
    assert_eq!(city[32][19], 'M');
    assert_eq!(city[33][22], 'N');
    assert_eq!(city[34][22], 'N');
    assert_eq!(city[35][32], 'R');
    assert_eq!(city[14][17], 'R');
    // props
    assert_eq!(city[11][8], 'Y');
    assert_eq!(city[30][14], 'B');
    assert_eq!(city[6][6], 'O');
    assert_eq!(city[6][13], 'V');
    assert_eq!(city[10][51], 'Z');
    assert_eq!(city[10][23], 'E');
}

#[test]
fn fill_rect_clips_to_the_map() {
    let mut map = vec![vec!['.'; 4]; 3];
    fill_rect(&mut map, 2, 1, 10, 10, 'X');
    assert_eq!(map[0], vec!['.', '.', '.', '.']);
    assert_eq!(map[1], vec!['.', '.', 'X', 'X']);
    assert_eq!(map[2], vec!['.', '.', 'X', 'X']);
    let mut empty = vec![vec!['.'; 4]; 3];
    fill_rect(&mut empty, 3, 2, 1, 0, 'X');
    assert_eq!(empty, vec![vec!['.'; 4]; 3]);
}

#[test]
fn hline_and_points_paint_only_their_tiles() {
    let mut map = vec![vec!['.'; 5]; 3];
    write_hline(&mut map, 1, 1, 3, 'R');
    assert_eq!(map[1], vec!['.', 'R', 'R', 'R', '.']);
    write_hline(&mut map, 9, 4, 2, 'R');
    assert_eq!(map[0], vec!['.'; 5]);
    set_tiles(&mut map, &[(0, 0), (4, 2)], 'Y');
    assert_eq!(map[0][0], 'Y');
    assert_eq!(map[2][4], 'Y');
    assert_eq!(map[2][3], '.');
}

#[test]
fn solid_and_wall_tiles_agree() {
    for tile in ['#', 'H', 'S', 'W', 'D'] {
        assert!(is_solid(tile));
        assert!(is_wall(tile));
    }
    for tile in ['.', 'P', 'K', 'M', 'R', 'L', 'T', 'U', 'Q'] {
        assert!(!is_solid(tile));
        assert!(!is_wall(tile));
    }
}

#[test]
fn lookups_outside_the_map_read_as_fence() {
    let map = build_garden_map();
    assert_eq!(tile_at(&map, -1, 5), '#');
    assert_eq!(tile_at(&map, 5, -1), '#');
    assert_eq!(tile_at(&map, 65, 5), '#');
    assert_eq!(tile_at(&map, 5, 41), '#');
    assert_eq!(tile_at(&map, 15, 34), 'P');
    assert!(cell_blocked(&map, -3, 2));
    assert!(cell_blocked(&map, 0, 10));
    assert!(!cell_blocked(&map, 15, 34));
    assert!(cell_blocked(&map, 17, 12));
}

#[test]
fn collisions_check_every_sampled_cell() {
    let map = build_garden_map();
    assert!(!collides_cells(&map, &[(15, 34), (16, 34), (15, 33)]));
    assert!(collides_cells(&map, &[(15, 34), (17, 12)]));
    assert!(collides_cells(&map, &[(15, 34), (-1, 34)]));
    assert!(!collides_cells(&map, &[]));
}

#[test]
fn surface_factors() {
    assert_eq!(surface_speed_percent('P'), 100);
    assert_eq!(surface_speed_percent('M'), 100);
    assert_eq!(surface_speed_percent('R'), 108);
    assert_eq!(surface_speed_percent('F'), 74);
    assert_eq!(surface_speed_percent('U'), 70);
    assert_eq!(surface_speed_percent('.'), 62);
    assert_eq!(surface_speed_percent('H'), 82);
}

#[test]
fn wall_heights() {
    assert_eq!(wall_height_percent('H'), 42);
    assert_eq!(wall_height_percent('#'), 60);
    assert_eq!(wall_height_percent('S'), 32);
    assert_eq!(wall_height_percent('W'), 8);
    assert_eq!(wall_height_percent('D'), 92);
    assert_eq!(wall_height_percent('P'), 45);
}

#[test]
fn checkpoints_sit_on_open_ground() {
    for track in 0..TRACK_COUNT {
        let map = build_track_map(track);
        let list = checkpoints(track);
        for c in &list {
            let tile = map[(c.y / 100) as usize][(c.x / 100) as usize];
            assert!(!is_solid(tile));
        }
        let finish = list.last().unwrap();
        let tile = map[(finish.y / 100) as usize][(finish.x / 100) as usize];
        assert!(tile == 'M' || tile == 'N');
    }
}
