use kart_racer::race::{checkpoints, Checkpoint, Race, RaceEvent, TOTAL_LAPS};
use kart_racer::text::{format_millis, lap_text, objective_text};
use kart_racer::palette::Rgba;

fn pass_one(race: &mut Race) -> Option<RaceEvent> {
    race.update(false);
    race.update(true)
}

#[test]
fn new_race_starts_on_the_first_checkpoint() {
    for track in 0..2 {
        let race = Race::new(track);
        assert_eq!(race.current_lap(), 1);
        assert_eq!(race.total_laps(), 3);
        assert_eq!(race.current_checkpoint(), 0);
        assert!(!race.finished());
        assert_eq!(race.checkpoints(), checkpoints(track).as_slice());
    }
    assert_eq!(Race::new(0).checkpoint_count(), 14);
    assert_eq!(Race::new(1).checkpoint_count(), 12);
}

#[test]
fn both_circuits_end_at_the_same_finish_line() {
    let finish = Checkpoint { x: 2250, y: 3390, radius: 115 };
    assert_eq!(*checkpoints(0).last().unwrap(), finish);
    assert_eq!(*checkpoints(1).last().unwrap(), finish);
    assert_eq!(checkpoints(1)[0], Checkpoint { x: 2500, y: 3400, radius: 300 });
    assert_eq!(checkpoints(2), checkpoints(0));
}

#[test]
fn staying_inside_passes_a_checkpoint_once() {
    let mut race = Race::new(0);
    assert_eq!(race.update(true), Some(RaceEvent::Checkpoint));
    assert_eq!(race.current_checkpoint(), 1);
    assert_eq!(race.update(true), None);
    assert_eq!(race.update(true), None);
    assert_eq!(race.current_checkpoint(), 1);
    assert_eq!(race.update(false), None);
    assert_eq!(race.update(true), Some(RaceEvent::Checkpoint));
    assert_eq!(race.current_checkpoint(), 2);
}

#[test]
fn three_laps_finish_the_race() {
    let mut race = Race::new(1);
    let n = race.checkpoint_count();
    let mut events = Vec::new();
    for _ in 0..(TOTAL_LAPS * n) {
        assert!(!race.finished());
        events.push(pass_one(&mut race).unwrap());
    }
    assert!(race.finished());
    assert_eq!(events[n - 1], RaceEvent::LapComplete);
    assert_eq!(events[2 * n - 1], RaceEvent::FinalLap);
    assert_eq!(events[3 * n - 1], RaceEvent::Finish);
    assert_eq!(events.iter().filter(|e| **e == RaceEvent::Checkpoint).count(), 3 * (n - 1));
    assert_eq!(race.current_lap(), 3);
    assert_eq!(race.current_checkpoint(), 0);
    assert_eq!(race.active_checkpoint(), None);
    // a finished race no longer changes
    assert_eq!(pass_one(&mut race), None);
    assert!(race.finished());
    assert_eq!(race.current_checkpoint(), 0);
}

#[test]
fn labels_and_colours_mark_the_finish_line() {
    let mut race = Race::new(1);
    assert_eq!(race.active_checkpoint_label(), "CHECKPOINT");
    assert_eq!(race.active_checkpoint_color(), Rgba::new(255, 230, 70, 255));
    while race.current_checkpoint() + 1 < race.checkpoint_count() {
        pass_one(&mut race);
    }
    assert_eq!(race.active_checkpoint_label(), "META");
    assert_eq!(race.active_checkpoint_color(), Rgba::new(255, 80, 60, 255));
    assert_eq!(race.active_checkpoint(), Some(Checkpoint { x: 2250, y: 3390, radius: 115 }));
}

#[test]
fn event_banners() {
    assert_eq!(RaceEvent::Checkpoint.text(), "CHECKPOINT!");
    assert_eq!(RaceEvent::LapComplete.text(), "VUELTA COMPLETA!");
    assert_eq!(RaceEvent::FinalLap.text(), "ULTIMA VUELTA!");
    assert_eq!(RaceEvent::Finish.text(), "FINISH!");
    assert!(!RaceEvent::Checkpoint.completes_lap());
    assert!(RaceEvent::LapComplete.completes_lap());
    assert!(RaceEvent::FinalLap.completes_lap());
    assert!(RaceEvent::Finish.completes_lap());
}

#[test]
fn hud_texts() {
    let mut race = Race::new(0);
    assert_eq!(lap_text(&race), "VUELTA 1/3");
    assert_eq!(objective_text(&race), "CHECKPOINT 1/13");
    pass_one(&mut race);
    assert_eq!(objective_text(&race), "CHECKPOINT 2/13");
    while race.current_checkpoint() + 1 < race.checkpoint_count() {
        pass_one(&mut race);
    }
    assert_eq!(objective_text(&race), "META");
    pass_one(&mut race);
    assert_eq!(lap_text(&race), "VUELTA 2/3");
}

#[test]
fn times_are_minutes_seconds_millis() {
    assert_eq!(format_millis(0), "00:00.000");
    assert_eq!(format_millis(61_234), "01:01.234");
    assert_eq!(format_millis(59_999), "00:59.999");
    assert_eq!(format_millis(754_005), "12:34.005");
    assert_eq!(format_millis(6_000_000), "100:00.000");
}
