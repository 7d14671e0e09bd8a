use kart_racer::text::{decimal_len, format_millis, push_decimal, push_zero_padded};
use kart_racer::track::{filled_grid, str_to_tiles};
use kart_racer::game::{prev_entry, next_entry, GameState, Keys, Menu};

#[test]
fn decimal_digits() {
    let mut text = String::from("n=");
    push_decimal(&mut text, 0);
    assert_eq!(text, "n=0");
    push_decimal(&mut text, 9071);
    assert_eq!(text, "n=09071");
    assert_eq!(decimal_len(0), 1);
    assert_eq!(decimal_len(9), 1);
    assert_eq!(decimal_len(10), 2);
    assert_eq!(decimal_len(u64::MAX), 20);
    let mut max = String::new();
    push_decimal(&mut max, u64::MAX);
    assert_eq!(max, u64::MAX.to_string());
}

#[test]
fn zero_padding() {
    let mut text = String::new();
    push_zero_padded(&mut text, 7, 3);
    assert_eq!(text, "007");
    let mut text = String::new();
    push_zero_padded(&mut text, 1234, 2);
    assert_eq!(text, "1234");
    let mut text = String::new();
    push_zero_padded(&mut text, 5, 0);
    assert_eq!(text, "5");
}

#[test]
fn time_parts_recompose() {
    for total in [0u64, 999, 1000, 59_999, 60_000, 3_723_456] {
        let text = format_millis(total);
        let minutes: u64 = text[..text.len() - 7].parse().unwrap();
        let seconds: u64 = text[text.len() - 6..text.len() - 4].parse().unwrap();
        let millis: u64 = text[text.len() - 3..].parse().unwrap();
        assert!(seconds < 60);
        assert_eq!(minutes * 60_000 + seconds * 1000 + millis, total);
    }
}

#[test]
fn grids_from_text_and_fill() {
    assert_eq!(str_to_tiles("#.P"), vec!['#', '.', 'P']);
    assert_eq!(str_to_tiles(""), Vec::<char>::new());
    assert_eq!(filled_grid(3, 2, 'U'), vec![vec!['U'; 3]; 2]);
    assert_eq!(filled_grid(0, 2, 'U'), vec![Vec::<char>::new(); 2]);
}

#[test]
fn menu_entries_cycle() {
    assert_eq!(next_entry(5, 6), 0);
    assert_eq!(next_entry(2, 6), 3);
    assert_eq!(prev_entry(0, 6), 5);
    assert_eq!(prev_entry(3, 6), 2);
}

#[test]
fn down_then_up_and_right_then_left_undo() {
    let mut down = Keys::none();
    down.down = true;
    let mut up = Keys::none();
    up.up = true;
    let mut right = Keys::none();
    right.right = true;
    let mut left = Keys::none();
    left.left = true;
    for state in [GameState::Start, GameState::TrackSelect, GameState::Paused] {
        for option in 0..2 {
            let mut menu = Menu::new();
            menu.state = state;
            menu.start_menu_option = option;
            menu.track_select_option = option;
            menu.pause_menu_option = option;
            let before = menu;
            menu.step(down);
            menu.step(up);
            assert_eq!(menu, before);
            if state != GameState::Paused {
                menu.step(right);
                menu.step(left);
                assert_eq!(menu, before);
            }
        }
    }
}

#[test]
fn countdown_ignores_keys() {
    let mut menu = Menu::new();
    menu.state = GameState::Countdown;
    let before = menu;
    let mut all = Keys::none();
    all.enter = true;
    all.p = true;
    all.backspace = true;
    assert!(menu.step(all).is_empty());
    assert_eq!(menu, before);
}
