use kart_racer::game::{next_music_track, Action, GameState, Keys, Menu};
use kart_racer::palette::{kart_color, kart_color_name, tile_color, wall_color, floor_color, city_road_color, grass_color, Rgba};
use kart_racer::scenery::scenery_cells;
use kart_racer::track::build_garden_map;

fn press(menu: &mut Menu, set: impl Fn(&mut Keys)) -> Vec<Action> {
    let mut keys = Keys::none();
    set(&mut keys);
    menu.step(keys)
}

#[test]
fn start_menu_wraps_and_cycles_colours() {
    let mut menu = Menu::new();
    assert_eq!(menu.state, GameState::Start);
    press(&mut menu, |k| k.up = true);
    assert_eq!(menu.start_menu_option, 5);
    press(&mut menu, |k| k.down = true);
    assert_eq!(menu.start_menu_option, 0);
    press(&mut menu, |k| k.down = true);
    assert_eq!(menu.start_menu_option, 1);
    press(&mut menu, |k| k.left = true);
    assert_eq!(menu.selected_kart_color, 4);
    press(&mut menu, |k| k.right = true);
    assert_eq!(menu.selected_kart_color, 0);
    press(&mut menu, |k| k.enter = true);
    assert_eq!(menu.selected_kart_color, 1);
}

#[test]
fn music_toggles_ask_for_playback_changes() {
    let mut menu = Menu::new();
    menu.start_menu_option = 2;
    assert_eq!(press(&mut menu, |k| k.right = true), vec![Action::StopMusic]);
    assert!(!menu.music_enabled);
    assert_eq!(press(&mut menu, |k| k.space = true), vec![Action::RestartMusic]);
    assert!(menu.music_enabled);
    assert_eq!(
        press(&mut menu, |k| {
            k.right = true;
            k.left = true;
        }),
        vec![Action::StopMusic, Action::RestartMusic]
    );
    assert!(menu.music_enabled);
}

#[test]
fn controls_card_and_exit() {
    let mut menu = Menu::new();
    menu.start_menu_option = 4;
    press(&mut menu, |k| k.enter = true);
    assert!(menu.show_controls);
    press(&mut menu, |k| k.down = true);
    assert!(!menu.show_controls);
    assert_eq!(menu.start_menu_option, 5);
    assert_eq!(press(&mut menu, |k| k.enter = true), vec![Action::Exit]);
}

#[test]
fn track_selection_starts_a_countdown() {
    let mut menu = Menu::new();
    assert!(press(&mut menu, |k| k.enter = true).is_empty());
    assert_eq!(menu.state, GameState::TrackSelect);
    press(&mut menu, |k| k.right = true);
    assert_eq!(menu.selected_track, 1);
    press(&mut menu, |k| k.down = true);
    press(&mut menu, |k| k.left = true);
    assert_eq!(menu.selected_vehicle, 1);
    assert_eq!(press(&mut menu, |k| k.escape = true), vec![]);
    assert_eq!(menu.state, GameState::Start);
    press(&mut menu, |k| k.space = true);
    assert_eq!(press(&mut menu, |k| k.enter = true), vec![Action::NewRace]);
    assert_eq!(menu.state, GameState::Countdown);
    assert!(press(&mut menu, |k| k.enter = true).is_empty());
    menu.start_racing();
    assert_eq!(menu.state, GameState::Racing);
}

#[test]
fn racing_pausing_and_finishing() {
    let mut menu = Menu::new();
    menu.state = GameState::Racing;
    assert_eq!(press(&mut menu, |_| {}), vec![Action::Drive]);
    menu.pause_menu_option = 2;
    assert!(press(&mut menu, |k| k.p = true).is_empty());
    assert_eq!(menu.state, GameState::Paused);
    assert_eq!(menu.pause_menu_option, 0);
    press(&mut menu, |k| k.up = true);
    assert_eq!(menu.pause_menu_option, 3);
    press(&mut menu, |k| k.r = true);
    assert_eq!(menu.state, GameState::Racing);
    menu.finish_race();
    assert_eq!(menu.state, GameState::Finished);
    assert_eq!(
        press(&mut menu, |k| {
            k.r = true;
            k.backspace = true;
        }),
        vec![Action::NewRace, Action::ResetRace]
    );
    assert_eq!(menu.state, GameState::Start);
}

#[test]
fn pause_menu_entries() {
    let mut menu = Menu::new();
    menu.state = GameState::Paused;
    menu.pause_menu_option = 1;
    assert_eq!(press(&mut menu, |k| k.enter = true), vec![Action::StopMusic]);
    menu.pause_menu_option = 2;
    press(&mut menu, |k| k.enter = true);
    assert!(!menu.sfx_enabled);
    menu.pause_menu_option = 3;
    press(&mut menu, |k| k.enter = true);
    assert_eq!(menu.state, GameState::Start);
}

#[test]
fn playlist_wraps() {
    assert_eq!(next_music_track(0, 3), 1);
    assert_eq!(next_music_track(2, 3), 0);
    assert_eq!(next_music_track(0, 1), 0);
}

#[test]
fn colour_tables() {
    assert_eq!(kart_color(0), Rgba::new(220, 43, 42, 255));
    assert_eq!(kart_color(6), Rgba::new(42, 118, 235, 255));
    assert_eq!(kart_color_name(3), "Amarillo");
    assert_eq!(kart_color_name(9), "Morado");
    assert_eq!(tile_color('M'), Rgba::new(245, 245, 245, 255));
    assert_eq!(tile_color('?'), Rgba::new(80, 150, 80, 255));
    assert_eq!(wall_color('#', true), Rgba::new(15, 35, 55, 255));
    assert_eq!(wall_color('#', false), Rgba::new(40, 115, 50, 255));
    assert_eq!(grass_color(), Rgba::new(65, 125, 70, 255));
    assert_eq!(city_road_color(3, 2, true), Rgba::new(118, 120, 118, 255));
    assert_eq!(city_road_color(2, 2, true), Rgba::new(64, 67, 73, 255));
    assert_eq!(city_road_color(3, 4, false), Rgba::new(55, 58, 64, 255));
    let map = build_garden_map();
    assert_eq!(floor_color(&map, -1, 0, false, false), grass_color());
    assert_eq!(floor_color(&map, 5, 5, false, false), Rgba::new(70, 72, 76, 255));
    assert_eq!(floor_color(&map, 4, 4, false, false), Rgba::new(245, 245, 245, 255));
    assert_eq!(floor_color(&map, 5, 4, false, false), Rgba::new(220, 40, 38, 255));
}

#[test]
fn scenery_is_listed_in_reading_order() {
    let map = build_garden_map();
    let cells = scenery_cells(&map);
    let expected: Vec<(usize, usize, char)> = map
        .iter()
        .enumerate()
        .flat_map(|(r, line)| {
            line.iter()
                .enumerate()
                .filter(|(_, t)| matches!(**t, 'T' | 'F' | 'O' | 'C' | 'B' | 'A' | 'G'))
                .map(move |(c, t)| (c, r, *t))
        })
        .collect();
    let got: Vec<(usize, usize, char)> = cells.iter().map(|s| (s.col, s.row, s.kind)).collect();
    assert_eq!(got, expected);
    assert_eq!(got[0], (19, 1, 'G'));
}
