//! The screens of the game and how the keys move between them.
//!
//! Each frame the caller reads which keys were pressed and hands them to
//! [`Menu::step`], which updates the selections and the screen and returns
//! the actions that the frame asks of the caller, in order: music to start
//! or stop, a race to set up, the kart to drive, or the game to close.
use vstd::prelude::*;
use vstd::arithmetic::div_mod::{lemma_small_mod, lemma_mod_self_0, lemma_mod_add_multiples_vanish};
use crate::palette::KART_COLOR_COUNT;
use crate::track::{TRACK_COUNT, VEHICLE_COUNT};

verus! {

/// Entries of the start menu.
pub const START_MENU_COUNT: usize = 6;

/// Start-menu entry: go to the circuit selection.
pub const MENU_START: usize = 0;

/// Start-menu entry: kart colour.
pub const MENU_COLOR: usize = 1;

/// Start-menu entry: music on or off.
pub const MENU_MUSIC: usize = 2;

/// Start-menu entry: sound effects on or off.
pub const MENU_SFX: usize = 3;

/// Start-menu entry: show or hide the controls.
pub const MENU_CONTROLS: usize = 4;

/// Start-menu entry: leave the game.
pub const MENU_EXIT: usize = 5;

/// Rows of the circuit selection.
pub const TRACK_SELECT_COUNT: usize = 2;

/// Circuit-selection row: the circuit.
pub const TRACK_SELECT_TRACK: usize = 0;

/// Circuit-selection row: the vehicle.
pub const TRACK_SELECT_VEHICLE: usize = 1;

/// Entries of the pause menu.
pub const PAUSE_MENU_COUNT: usize = 4;

/// Pause-menu entry: back to the race.
pub const PAUSE_CONTINUE: usize = 0;

/// Pause-menu entry: music on or off.
pub const PAUSE_MUSIC: usize = 1;

/// Pause-menu entry: sound effects on or off.
pub const PAUSE_SFX: usize = 2;

/// Pause-menu entry: back to the start menu.
pub const PAUSE_BACK_TO_MENU: usize = 3;

/// The screen the game shows.
#[derive(Clone, Copy, Debug, PartialEq, Eq, Structural)]
pub enum GameState {
    Start,
    TrackSelect,
    Countdown,
    Racing,
    Paused,
    Finished,
}

/// The keys pressed during one frame. Arrow keys and `W A S D` count the
/// same: `up` is the up arrow or `W`, and so on.
#[derive(Clone, Copy, Debug, PartialEq, Eq, Structural)]
pub struct Keys {
    pub up: bool,
    pub down: bool,
    pub left: bool,
    pub right: bool,
    pub enter: bool,
    pub space: bool,
    pub backspace: bool,
    pub escape: bool,
    pub p: bool,
    pub r: bool,
}

/// What a frame asks of the caller.
#[derive(Clone, Copy, Debug, PartialEq, Eq, Structural)]
pub enum Action {
    /// Music was switched on: play the playlist from its first track.
    RestartMusic,
    /// Music was switched off: stop and rewind every track.
    StopMusic,
    /// Build the selected circuit, its kart and race, and count down.
    NewRace,
    /// Build the selected circuit, its kart and race, without counting down.
    ResetRace,
    /// Drive the kart and run the race for this frame.
    Drive,
    /// Close the game.
    Exit,
}

/// The screen and every selection made in the menus.
#[derive(Clone, Copy, Debug, PartialEq, Eq, Structural)]
pub struct Menu {
    pub state: GameState,
    pub selected_track: usize,
    pub selected_kart_color: usize,
    pub selected_vehicle: usize,
    pub start_menu_option: usize,
    pub track_select_option: usize,
    pub pause_menu_option: usize,
    pub show_controls: bool,
    pub music_enabled: bool,
    pub sfx_enabled: bool,
}

/// The entry after `i` in a menu of `n` entries, wrapping to the first.
#[verifier::opaque]
pub open spec fn cycle_next(i: usize, n: usize) -> usize {
    ((i + 1) % (n as int)) as usize
}

/// The entry before `i` in a menu of `n` entries, wrapping to the last.
#[verifier::opaque]
pub open spec fn cycle_prev(i: usize, n: usize) -> usize {
    ((i + n - 1) % (n as int)) as usize
}

/// Stepping forward or back through a menu of `n` entries stays on its
/// entries, and a step back undoes a step forward and the other way round.
pub proof fn lemma_cycle(i: usize, n: usize)
    requires
        i < n,
    ensures
        cycle_next(i, n) < n,
        cycle_prev(i, n) < n,
        cycle_prev(cycle_next(i, n), n) == i,
        cycle_next(cycle_prev(i, n), n) == i,
        i + 1 < n ==> cycle_next(i, n) == i + 1,
        i + 1 == n ==> cycle_next(i, n) == 0,
        i > 0 ==> cycle_prev(i, n) == i - 1,
        i == 0 ==> cycle_prev(i, n) == n - 1,
{
    reveal(cycle_next);
    reveal(cycle_prev);
    if i + 1 < n {
        lemma_small_mod((i + 1) as nat, n as nat);
    } else {
        lemma_mod_self_0(n as int);
    }
    if i > 0 {
        lemma_mod_add_multiples_vanish(i - 1, n as int);
        lemma_small_mod((i - 1) as nat, n as nat);
    } else {
        lemma_small_mod((n - 1) as nat, n as nat);
    }
    let j = cycle_next(i, n);
    if j > 0 {
        lemma_mod_add_multiples_vanish(j - 1, n as int);
        lemma_small_mod((j - 1) as nat, n as nat);
    } else {
        lemma_small_mod((n - 1) as nat, n as nat);
    }
    let k = cycle_prev(i, n);
    if k + 1 < n {
        lemma_small_mod((k + 1) as nat, n as nat);
    } else {
        lemma_mod_self_0(n as int);
    }
}

/// The entry after `i` in a menu of `n` entries.
pub fn next_entry(i: usize, n: usize) -> (next: usize)
    requires
        i < n,
    ensures
        next == cycle_next(i, n),
        next < n,
{
    proof {
        lemma_cycle(i, n);
    }
    reveal(cycle_next);
    (i + 1) % n
}

/// The entry before `i` in a menu of `n` entries.
pub fn prev_entry(i: usize, n: usize) -> (prev: usize)
    requires
        i < n,
        n <= usize::MAX / 2,
    ensures
        prev == cycle_prev(i, n),
        prev < n,
{
    proof {
        lemma_cycle(i, n);
    }
    reveal(cycle_prev);
    (i + n - 1) % n
}

/// The action that switching music to `on` asks for.
pub open spec fn music_action(on: bool) -> Action {
    if on {
        Action::RestartMusic
    } else {
        Action::StopMusic
    }
}

impl Menu {
    /// Every selection names an existing entry.
    pub open spec fn inv(self) -> bool {
        &&& self.selected_track < TRACK_COUNT
        &&& self.selected_kart_color < KART_COLOR_COUNT
        &&& self.selected_vehicle < VEHICLE_COUNT
        &&& self.start_menu_option < START_MENU_COUNT
        &&& self.track_select_option < TRACK_SELECT_COUNT
        &&& self.pause_menu_option < PAUSE_MENU_COUNT
    }

    /// Music switched the other way, and the action that asks for.
    pub open spec fn toggle_music(self) -> (Menu, Seq<Action>) {
        (Menu { music_enabled: !self.music_enabled, ..self }, seq![music_action(!self.music_enabled)])
    }

    /// The start menu after the right (`forward`) or left arrow: the kart
    /// colour cycles, music or sound effects switch, depending on the entry.
    pub open spec fn start_adjust(self, forward: bool) -> (Menu, Seq<Action>) {
        if self.start_menu_option == MENU_COLOR {
            let color = if forward {
                cycle_next(self.selected_kart_color, KART_COLOR_COUNT)
            } else {
                cycle_prev(self.selected_kart_color, KART_COLOR_COUNT)
            };
            (Menu { selected_kart_color: color, ..self }, seq![])
        } else if self.start_menu_option == MENU_MUSIC {
            self.toggle_music()
        } else if self.start_menu_option == MENU_SFX {
            (Menu { sfx_enabled: !self.sfx_enabled, ..self }, seq![])
        } else {
            (self, seq![])
        }
    }

    /// The start menu after confirming its entry.
    pub open spec fn start_confirm(self) -> (Menu, Seq<Action>) {
        if self.start_menu_option == MENU_START {
            (Menu { show_controls: false, state: GameState::TrackSelect, ..self }, seq![])
        } else if self.start_menu_option == MENU_COLOR {
            (
                Menu {
                    selected_kart_color: cycle_next(self.selected_kart_color, KART_COLOR_COUNT),
                    ..self
                },
                seq![],
            )
        } else if self.start_menu_option == MENU_MUSIC {
            self.toggle_music()
        } else if self.start_menu_option == MENU_SFX {
            (Menu { sfx_enabled: !self.sfx_enabled, ..self }, seq![])
        } else if self.start_menu_option == MENU_CONTROLS {
            (Menu { show_controls: !self.show_controls, ..self }, seq![])
        } else if self.start_menu_option == MENU_EXIT {
            (self, seq![Action::Exit])
        } else {
            (self, seq![])
        }
    }

    /// The start menu after its cursor moves down and then up, as pressed;
    /// moving closes the controls card.
    pub open spec fn start_cursor(self, keys: Keys) -> Menu {
        let m1 = if keys.down {
            Menu {
                start_menu_option: cycle_next(self.start_menu_option, START_MENU_COUNT),
                show_controls: false,
                ..self
            }
        } else {
            self
        };
        if keys.up {
            Menu {
                start_menu_option: cycle_prev(m1.start_menu_option, START_MENU_COUNT),
                show_controls: false,
                ..m1
            }
        } else {
            m1
        }
    }

    /// A frame of the start menu: down, up, right, left, then confirm.
    pub open spec fn start_frame(self, keys: Keys) -> (Menu, Seq<Action>) {
        let m2 = self.start_cursor(keys);
        let r3 = if keys.right {
            m2.start_adjust(true)
        } else {
            (m2, seq![])
        };
        let r4 = if keys.left {
            r3.0.start_adjust(false)
        } else {
            (r3.0, seq![])
        };
        let r5 = if keys.enter || keys.space {
            r4.0.start_confirm()
        } else {
            (r4.0, seq![])
        };
        (r5.0, r3.1 + r4.1 + r5.1)
    }

    /// The circuit selection after the right (`forward`) or left arrow: the
    /// circuit or the vehicle cycles, depending on the row.
    pub open spec fn track_adjust(self, forward: bool) -> Menu {
        if self.track_select_option == TRACK_SELECT_TRACK {
            let track = if forward {
                cycle_next(self.selected_track, TRACK_COUNT)
            } else {
                cycle_prev(self.selected_track, TRACK_COUNT)
            };
            Menu { selected_track: track, ..self }
        } else if self.track_select_option == TRACK_SELECT_VEHICLE {
            let vehicle = if forward {
                cycle_next(self.selected_vehicle, VEHICLE_COUNT)
            } else {
                cycle_prev(self.selected_vehicle, VEHICLE_COUNT)
            };
            Menu { selected_vehicle: vehicle, ..self }
        } else {
            self
        }
    }

    /// A frame of the circuit selection: down, up, right, left, back, then
    /// confirm.
    pub open spec fn track_select_frame(self, keys: Keys) -> (Menu, Seq<Action>) {
        let m1 = if keys.down {
            Menu {
                track_select_option: cycle_next(self.track_select_option, TRACK_SELECT_COUNT),
                ..self
            }
        } else {
            self
        };
        let m2 = if keys.up {
            Menu {
                track_select_option: cycle_prev(m1.track_select_option, TRACK_SELECT_COUNT),
                ..m1
            }
        } else {
            m1
        };
        let m3 = if keys.right {
            m2.track_adjust(true)
        } else {
            m2
        };
        let m4 = if keys.left {
            m3.track_adjust(false)
        } else {
            m3
        };
        let m5 = if keys.backspace || keys.escape {
            Menu { state: GameState::Start, ..m4 }
        } else {
            m4
        };
        if keys.enter || keys.space {
            (Menu { state: GameState::Countdown, ..m5 }, seq![Action::NewRace])
        } else {
            (m5, seq![])
        }
    }

    /// The pause menu after confirming its entry.
    pub open spec fn pause_confirm(self) -> (Menu, Seq<Action>) {
        if self.pause_menu_option == PAUSE_CONTINUE {
            (Menu { state: GameState::Racing, ..self }, seq![])
        } else if self.pause_menu_option == PAUSE_MUSIC {
            self.toggle_music()
        } else if self.pause_menu_option == PAUSE_SFX {
            (Menu { sfx_enabled: !self.sfx_enabled, ..self }, seq![])
        } else if self.pause_menu_option == PAUSE_BACK_TO_MENU {
            (Menu { state: GameState::Start, ..self }, seq![])
        } else {
            (self, seq![])
        }
    }

    /// A frame of the pause menu: down, up, resume, back to the menu, then
    /// confirm.
    pub open spec fn paused_frame(self, keys: Keys) -> (Menu, Seq<Action>) {
        let m1 = if keys.down {
            Menu {
                pause_menu_option: cycle_next(self.pause_menu_option, PAUSE_MENU_COUNT),
                ..self
            }
        } else {
            self
        };
        let m2 = if keys.up {
            Menu {
                pause_menu_option: cycle_prev(m1.pause_menu_option, PAUSE_MENU_COUNT),
                ..m1
            }
        } else {
            m1
        };
        let m3 = if keys.p || keys.r {
            Menu { state: GameState::Racing, ..m2 }
        } else {
            m2
        };
        let m4 = if keys.backspace {
            Menu { state: GameState::Start, ..m3 }
        } else {
            m3
        };
        if keys.enter || keys.space {
            m4.pause_confirm()
        } else {
            (m4, seq![])
        }
    }

    /// A frame of the results screen: play again, then back to the menu.
    pub open spec fn finished_frame(self, keys: Keys) -> (Menu, Seq<Action>) {
        let r1 = if keys.enter || keys.r {
            (Menu { state: GameState::Countdown, ..self }, seq![Action::NewRace])
        } else {
            (self, seq![])
        };
        if keys.backspace {
            (Menu { state: GameState::Start, ..r1.0 }, r1.1.push(Action::ResetRace))
        } else {
            r1
        }
    }

    /// A frame of the race: `P` pauses it, otherwise the kart drives.
    pub open spec fn racing_frame(self, keys: Keys) -> (Menu, Seq<Action>) {
        if keys.p {
            (Menu { pause_menu_option: PAUSE_CONTINUE, state: GameState::Paused, ..self }, seq![])
        } else {
            (self, seq![Action::Drive])
        }
    }

    /// The menu after one frame with `keys` pressed, and the actions the
    /// frame asks for. The countdown ignores the keys.
    pub open spec fn frame(self, keys: Keys) -> (Menu, Seq<Action>) {
        match self.state {
            GameState::Start => self.start_frame(keys),
            GameState::TrackSelect => self.track_select_frame(keys),
            GameState::Countdown => (self, seq![]),
            GameState::Racing => self.racing_frame(keys),
            GameState::Paused => self.paused_frame(keys),
            GameState::Finished => self.finished_frame(keys),
        }
    }
}

impl Menu {
    /// The game as it opens: the start menu on its first entry, first
    /// circuit, colour and vehicle, music and sound effects on.
    pub fn new() -> (menu: Menu)
        ensures
            menu == (Menu {
                state: GameState::Start,
                selected_track: 0,
                selected_kart_color: 0,
                selected_vehicle: 0,
                start_menu_option: MENU_START,
                track_select_option: TRACK_SELECT_TRACK,
                pause_menu_option: PAUSE_CONTINUE,
                show_controls: false,
                music_enabled: true,
                sfx_enabled: true,
            }),
            menu.inv(),
    {
        Menu {
            state: GameState::Start,
            selected_track: 0,
            selected_kart_color: 0,
            selected_vehicle: 0,
            start_menu_option: MENU_START,
            track_select_option: TRACK_SELECT_TRACK,
            pause_menu_option: PAUSE_CONTINUE,
            show_controls: false,
            music_enabled: true,
            sfx_enabled: true,
        }
    }

    fn exec_toggle_music(&mut self, actions: &mut Vec<Action>)
        requires
            old(self).inv(),
        ensures
            final(self).inv(),
            *final(self) == old(self).toggle_music().0,
            final(actions)@ == old(actions)@ + old(self).toggle_music().1,
    {
        self.music_enabled = !self.music_enabled;
        if self.music_enabled {
            actions.push(Action::RestartMusic);
        } else {
            actions.push(Action::StopMusic);
        }
        assert(actions@ =~= old(actions)@ + old(self).toggle_music().1);
    }

    fn exec_start_adjust(&mut self, forward: bool, actions: &mut Vec<Action>)
        requires
            old(self).inv(),
        ensures
            final(self).inv(),
            *final(self) == old(self).start_adjust(forward).0,
            final(actions)@ == old(actions)@ + old(self).start_adjust(forward).1,
    {
        if self.start_menu_option == MENU_COLOR {
            if forward {
                self.selected_kart_color = next_entry(self.selected_kart_color, KART_COLOR_COUNT);
            } else {
                self.selected_kart_color = prev_entry(self.selected_kart_color, KART_COLOR_COUNT);
            }
        } else if self.start_menu_option == MENU_MUSIC {
            self.exec_toggle_music(actions);
            return;
        } else if self.start_menu_option == MENU_SFX {
            self.sfx_enabled = !self.sfx_enabled;
        }
        assert(actions@ =~= old(actions)@ + old(self).start_adjust(forward).1);
    }

    fn exec_start_confirm(&mut self, actions: &mut Vec<Action>)
        requires
            old(self).inv(),
        ensures
            final(self).inv(),
            *final(self) == old(self).start_confirm().0,
            final(actions)@ == old(actions)@ + old(self).start_confirm().1,
    {
        match self.start_menu_option {
            MENU_START => {
                self.show_controls = false;
                self.state = GameState::TrackSelect;
            },
            MENU_COLOR => {
                self.selected_kart_color = next_entry(self.selected_kart_color, KART_COLOR_COUNT);
            },
            MENU_MUSIC => {
                self.exec_toggle_music(actions);
                return;
            },
            MENU_SFX => {
                self.sfx_enabled = !self.sfx_enabled;
            },
            MENU_CONTROLS => {
                self.show_controls = !self.show_controls;
            },
            MENU_EXIT => {
                actions.push(Action::Exit);
                assert(actions@ =~= old(actions)@ + old(self).start_confirm().1);
                return;
            },
            _ => {},
        }
        assert(actions@ =~= old(actions)@ + old(self).start_confirm().1);
    }

    fn exec_track_adjust(&mut self, forward: bool)
        requires
            old(self).inv(),
        ensures
            final(self).inv(),
            *final(self) == old(self).track_adjust(forward),
    {
        if self.track_select_option == TRACK_SELECT_TRACK {
            if forward {
                self.selected_track = next_entry(self.selected_track, TRACK_COUNT);
            } else {
                self.selected_track = prev_entry(self.selected_track, TRACK_COUNT);
            }
        } else if self.track_select_option == TRACK_SELECT_VEHICLE {
            if forward {
                self.selected_vehicle = next_entry(self.selected_vehicle, VEHICLE_COUNT);
            } else {
                self.selected_vehicle = prev_entry(self.selected_vehicle, VEHICLE_COUNT);
            }
        }
    }

    fn exec_pause_confirm(&mut self, actions: &mut Vec<Action>)
        requires
            old(self).inv(),
        ensures
            final(self).inv(),
            *final(self) == old(self).pause_confirm().0,
            final(actions)@ == old(actions)@ + old(self).pause_confirm().1,
    {
        match self.pause_menu_option {
            PAUSE_CONTINUE => {
                self.state = GameState::Racing;
            },
            PAUSE_MUSIC => {
                self.exec_toggle_music(actions);
                return;
            },
            PAUSE_SFX => {
                self.sfx_enabled = !self.sfx_enabled;
            },
            PAUSE_BACK_TO_MENU => {
                self.state = GameState::Start;
            },
            _ => {},
        }
        assert(actions@ =~= old(actions)@ + old(self).pause_confirm().1);
    }

    fn exec_start_frame(&mut self, keys: Keys, actions: &mut Vec<Action>)
        requires
            old(self).inv(),
            old(actions)@.len() == 0,
        ensures
            *final(self) == old(self).start_frame(keys).0,
            final(actions)@ == old(self).start_frame(keys).1,
    {
        if keys.down {
            self.start_menu_option = next_entry(self.start_menu_option, START_MENU_COUNT);
            self.show_controls = false;
        }
        if keys.up {
            self.start_menu_option = prev_entry(self.start_menu_option, START_MENU_COUNT);
            self.show_controls = false;
        }
        if keys.right {
            self.exec_start_adjust(true, actions);
        }
        if keys.left {
            self.exec_start_adjust(false, actions);
        }
        if keys.enter || keys.space {
            self.exec_start_confirm(actions);
        }
        assert(actions@ =~= old(self).start_frame(keys).1);
    }

    fn exec_track_select_frame(&mut self, keys: Keys, actions: &mut Vec<Action>)
        requires
            old(self).inv(),
            old(actions)@.len() == 0,
        ensures
            *final(self) == old(self).track_select_frame(keys).0,
            final(actions)@ == old(self).track_select_frame(keys).1,
    {
        if keys.down {
            self.track_select_option = next_entry(self.track_select_option, TRACK_SELECT_COUNT);
        }
        if keys.up {
            self.track_select_option = prev_entry(self.track_select_option, TRACK_SELECT_COUNT);
        }
        if keys.right {
            self.exec_track_adjust(true);
        }
        if keys.left {
            self.exec_track_adjust(false);
        }
        if keys.backspace || keys.escape {
            self.state = GameState::Start;
        }
        if keys.enter || keys.space {
            actions.push(Action::NewRace);
            self.state = GameState::Countdown;
        }
        assert(actions@ =~= old(self).track_select_frame(keys).1);
    }

    fn exec_paused_frame(&mut self, keys: Keys, actions: &mut Vec<Action>)
        requires
            old(self).inv(),
            old(actions)@.len() == 0,
        ensures
            *final(self) == old(self).paused_frame(keys).0,
            final(actions)@ == old(self).paused_frame(keys).1,
    {
        if keys.down {
            self.pause_menu_option = next_entry(self.pause_menu_option, PAUSE_MENU_COUNT);
        }
        if keys.up {
            self.pause_menu_option = prev_entry(self.pause_menu_option, PAUSE_MENU_COUNT);
        }
        if keys.p || keys.r {
            self.state = GameState::Racing;
        }
        if keys.backspace {
            self.state = GameState::Start;
        }
        if keys.enter || keys.space {
            self.exec_pause_confirm(actions);
        }
        assert(actions@ =~= old(self).paused_frame(keys).1);
    }

    fn exec_finished_frame(&mut self, keys: Keys, actions: &mut Vec<Action>)
        requires
            old(actions)@.len() == 0,
        ensures
            *final(self) == old(self).finished_frame(keys).0,
            final(actions)@ == old(self).finished_frame(keys).1,
    {
        if keys.enter || keys.r {
            actions.push(Action::NewRace);
            self.state = GameState::Countdown;
        }
        if keys.backspace {
            actions.push(Action::ResetRace);
            self.state = GameState::Start;
        }
        assert(actions@ =~= old(self).finished_frame(keys).1);
    }

    /// Runs one frame of the menus with `keys` pressed and returns the
    /// actions the frame asks for, in order.
    pub fn step(&mut self, keys: Keys) -> (actions: Vec<Action>)
        requires
            old(self).inv(),
        ensures
            *final(self) == old(self).frame(keys).0,
            actions@ == old(self).frame(keys).1,
    {
        let mut actions: Vec<Action> = Vec::new();
        match self.state {
            GameState::Start => self.exec_start_frame(keys, &mut actions),
            GameState::TrackSelect => self.exec_track_select_frame(keys, &mut actions),
            GameState::Countdown => {},
            GameState::Racing => {
                if keys.p {
                    self.pause_menu_option = PAUSE_CONTINUE;
                    self.state = GameState::Paused;
                } else {
                    actions.push(Action::Drive);
                }
            },
            GameState::Paused => self.exec_paused_frame(keys, &mut actions),
            GameState::Finished => self.exec_finished_frame(keys, &mut actions),
        }
        assert(actions@ =~= old(self).frame(keys).1);
        actions
    }

    /// The countdown has run out: the race starts.
    pub fn start_racing(&mut self)
        ensures
            *final(self) == (if old(self).state == GameState::Countdown {
                Menu { state: GameState::Racing, ..*old(self) }
            } else {
                *old(self)
            }),
    {
        if self.state == GameState::Countdown {
            self.state = GameState::Racing;
        }
    }

    /// The race is over: the results screen shows.
    pub fn finish_race(&mut self)
        ensures
            *final(self) == (if old(self).state == GameState::Racing {
                Menu { state: GameState::Finished, ..*old(self) }
            } else {
                *old(self)
            }),
    {
        if self.state == GameState::Racing {
            self.state = GameState::Finished;
        }
    }
}

/// A frame in which no key is pressed.
pub open spec fn no_keys() -> Keys {
    Keys {
        up: false,
        down: false,
        left: false,
        right: false,
        enter: false,
        space: false,
        backspace: false,
        escape: false,
        p: false,
        r: false,
    }
}

/// A frame in which only the down key is pressed.
pub open spec fn down_key() -> Keys {
    Keys { down: true, ..no_keys() }
}

/// A frame in which only the up key is pressed.
pub open spec fn up_key() -> Keys {
    Keys { up: true, ..no_keys() }
}

/// A frame in which only the right key is pressed.
pub open spec fn right_key() -> Keys {
    Keys { right: true, ..no_keys() }
}

/// A frame in which only the left key is pressed.
pub open spec fn left_key() -> Keys {
    Keys { left: true, ..no_keys() }
}

/// A frame in which only the pause key `P` is pressed.
pub open spec fn pause_key() -> Keys {
    Keys { p: true, ..no_keys() }
}

/// Whether the actions only switch the music.
pub open spec fn music_only(actions: Seq<Action>) -> bool {
    forall|i: int|
        0 <= i < actions.len() ==> #[trigger] actions[i] == Action::RestartMusic || actions[i]
            == Action::StopMusic
}

/// Stepping through menus, for every entry and size at once.
proof fn lemma_cycle_all()
    ensures
        forall|i: usize, n: usize|
            i < n ==> #[trigger] cycle_next(i, n) < n && cycle_prev(cycle_next(i, n), n) == i,
        forall|i: usize, n: usize|
            i < n ==> #[trigger] cycle_prev(i, n) < n && cycle_next(cycle_prev(i, n), n) == i,
{
    assert forall|i: usize, n: usize| i < n implies #[trigger] cycle_next(i, n) < n
        && cycle_prev(cycle_next(i, n), n) == i by {
        lemma_cycle(i, n);
    }
    assert forall|i: usize, n: usize| i < n implies #[trigger] cycle_prev(i, n) < n
        && cycle_next(cycle_prev(i, n), n) == i by {
        lemma_cycle(i, n);
    }
}

proof fn lemma_start_steps_inv(menu: Menu, keys: Keys, forward: bool)
    requires
        menu.inv(),
    ensures
        menu.start_cursor(keys).inv(),
        menu.start_adjust(forward).0.inv(),
        menu.start_confirm().0.inv(),
        menu.track_adjust(forward).inv(),
{
    lemma_cycle(menu.start_menu_option, START_MENU_COUNT);
    lemma_cycle(cycle_next(menu.start_menu_option, START_MENU_COUNT), START_MENU_COUNT);
    lemma_cycle(menu.selected_kart_color, KART_COLOR_COUNT);
    lemma_cycle(menu.selected_track, TRACK_COUNT);
    lemma_cycle(menu.selected_vehicle, VEHICLE_COUNT);
}

proof fn lemma_start_frame_inv(menu: Menu, keys: Keys)
    requires
        menu.inv(),
    ensures
        menu.start_frame(keys).0.inv(),
{
    let m2 = menu.start_cursor(keys);
    lemma_start_steps_inv(menu, keys, true);
    let r3 = if keys.right {
        m2.start_adjust(true)
    } else {
        (m2, seq![])
    };
    lemma_start_steps_inv(m2, keys, true);
    let r4 = if keys.left {
        r3.0.start_adjust(false)
    } else {
        (r3.0, seq![])
    };
    lemma_start_steps_inv(r3.0, keys, false);
    lemma_start_steps_inv(r4.0, keys, false);
}

proof fn lemma_track_select_frame_inv(menu: Menu, keys: Keys)
    requires
        menu.inv(),
    ensures
        menu.track_select_frame(keys).0.inv(),
{
    lemma_cycle(menu.track_select_option, TRACK_SELECT_COUNT);
    lemma_cycle(cycle_next(menu.track_select_option, TRACK_SELECT_COUNT), TRACK_SELECT_COUNT);
    let t = if keys.down {
        cycle_next(menu.track_select_option, TRACK_SELECT_COUNT)
    } else {
        menu.track_select_option
    };
    let m2 = Menu {
        track_select_option: if keys.up {
            cycle_prev(t, TRACK_SELECT_COUNT)
        } else {
            t
        },
        ..menu
    };
    lemma_start_steps_inv(m2, keys, true);
    let m3 = if keys.right {
        m2.track_adjust(true)
    } else {
        m2
    };
    lemma_start_steps_inv(m3, keys, false);
}

proof fn lemma_paused_frame_inv(menu: Menu, keys: Keys)
    requires
        menu.inv(),
    ensures
        menu.paused_frame(keys).0.inv(),
{
    lemma_cycle(menu.pause_menu_option, PAUSE_MENU_COUNT);
    lemma_cycle(cycle_next(menu.pause_menu_option, PAUSE_MENU_COUNT), PAUSE_MENU_COUNT);
}

/// Every frame keeps every selection on an existing entry.
pub proof fn lemma_frame_keeps_inv(menu: Menu, keys: Keys)
    requires
        menu.inv(),
    ensures
        menu.frame(keys).0.inv(),
{
    lemma_start_frame_inv(menu, keys);
    lemma_track_select_frame_inv(menu, keys);
    lemma_paused_frame_inv(menu, keys);
}

/// In every menu, moving the cursor down and then up brings it back to the
/// same entry; nothing else changes, except that the start menu closes the
/// controls card.
pub proof fn lemma_down_then_up(menu: Menu)
    requires
        menu.inv(),
    ensures
        menu.state == GameState::Start ==> menu.frame(down_key()).0.frame(up_key()).0 == (Menu {
            show_controls: false,
            ..menu
        }),
        menu.state == GameState::TrackSelect ==> menu.frame(down_key()).0.frame(up_key()).0
            == menu,
        menu.state == GameState::Paused ==> menu.frame(down_key()).0.frame(up_key()).0 == menu,
{
    lemma_cycle_all();
}

/// On the start menu and on the circuit selection, pressing right and then
/// left undoes the change: the colour, circuit or vehicle comes back, and a
/// setting switched on is switched off again.
pub proof fn lemma_right_then_left(menu: Menu)
    requires
        menu.inv(),
        menu.state == GameState::Start || menu.state == GameState::TrackSelect,
    ensures
        menu.frame(right_key()).0.frame(left_key()).0 == menu,
{
    lemma_cycle_all();
}

/// Switching music on asks to restart the playlist, switching it off asks
/// to stop it; switching twice restores the setting.
pub proof fn lemma_toggle_music_twice(menu: Menu)
    ensures
        menu.toggle_music().0.toggle_music().0 == menu,
        menu.toggle_music().1 == seq![music_action(!menu.music_enabled)],
        menu.toggle_music().0.toggle_music().1 == seq![music_action(menu.music_enabled)],
{
}

/// The game closes only from the start menu, when the frame confirms its
/// exit entry; closing is the frame's last action.
pub proof fn lemma_exit_only_from_menu(menu: Menu, keys: Keys)
    requires
        menu.inv(),
    ensures
        menu.frame(keys).1.contains(Action::Exit) ==> {
            &&& menu.state == GameState::Start
            &&& menu.frame(keys).0.start_menu_option == MENU_EXIT
            &&& keys.enter || keys.space
            &&& menu.frame(keys).1.last() == Action::Exit
            &&& music_only(menu.frame(keys).1.drop_last())
        },
{
    let actions = menu.frame(keys).1;
    if actions.contains(Action::Exit) {
        let k = choose|k: int| 0 <= k < actions.len() && actions[k] == Action::Exit;
        assert(menu.state == GameState::Start);
        let m2 = menu.start_cursor(keys);
        let r3 = if keys.right {
            m2.start_adjust(true)
        } else {
            (m2, seq![])
        };
        let r4 = if keys.left {
            r3.0.start_adjust(false)
        } else {
            (r3.0, seq![])
        };
        let r5 = if keys.enter || keys.space {
            r4.0.start_confirm()
        } else {
            (r4.0, seq![])
        };
        assert(actions == r3.1 + r4.1 + r5.1);
        assert(music_only(r3.1));
        assert(music_only(r4.1));
        assert(r5.1.contains(Action::Exit)) by {
            if !r5.1.contains(Action::Exit) {
                assert(music_only(r5.1));
                assert(music_only(actions));
                assert(actions[k] == Action::RestartMusic || actions[k] == Action::StopMusic);
            }
        }
        assert(r5.1 == seq![Action::Exit]);
        assert(actions.drop_last() =~= r3.1 + r4.1);
    }
}

/// The start menu only asks to switch the music or to close the game.
proof fn lemma_start_frame_actions(menu: Menu, keys: Keys)
    requires
        menu.state == GameState::Start,
    ensures
        forall|i: int|
            0 <= i < menu.frame(keys).1.len() ==> #[trigger] menu.frame(keys).1[i]
                == Action::RestartMusic || menu.frame(keys).1[i] == Action::StopMusic
                || menu.frame(keys).1[i] == Action::Exit,
{
    let m2 = menu.start_cursor(keys);
    let r3 = if keys.right {
        m2.start_adjust(true)
    } else {
        (m2, seq![])
    };
    let r4 = if keys.left {
        r3.0.start_adjust(false)
    } else {
        (r3.0, seq![])
    };
    let r5 = if keys.enter || keys.space {
        r4.0.start_confirm()
    } else {
        (r4.0, seq![])
    };
    assert(menu.frame(keys).1 == r3.1 + r4.1 + r5.1);
}

/// The kart drives exactly in the frames of a running race in which the
/// pause key is not pressed; the countdown ignores every key.
pub proof fn lemma_drive_only_while_racing(menu: Menu, keys: Keys)
    requires
        menu.inv(),
    ensures
        menu.frame(keys).1.contains(Action::Drive) <==> (menu.state == GameState::Racing && !keys.p),
        menu.state == GameState::Countdown ==> menu.frame(keys) == (menu, Seq::<Action>::empty()),
{
    let actions = menu.frame(keys).1;
    if menu.state == GameState::Racing && !keys.p {
        assert(actions[0] == Action::Drive);
    }
    if actions.contains(Action::Drive) {
        let k = choose|k: int| 0 <= k < actions.len() && actions[k] == Action::Drive;
        if menu.state == GameState::Start {
            lemma_start_frame_actions(menu, keys);
            assert(actions[k] != Action::Drive);
        }
    }
}

impl Keys {
    /// A frame in which no key is pressed.
    pub fn none() -> (keys: Keys)
        ensures
            keys == no_keys(),
    {
        Keys {
            up: false,
            down: false,
            left: false,
            right: false,
            enter: false,
            space: false,
            backspace: false,
            escape: false,
            p: false,
            r: false,
        }
    }
}

/// The playlist position after the track at `current` has ended, wrapping
/// to the first of `count` tracks.
pub fn next_music_track(current: usize, count: usize) -> (next: usize)
    requires
        count > 0,
        current < usize::MAX,
    ensures
        next == (current + 1) % (count as int),
        next < count,
{
    (current + 1) % count
}

/// A race is set up only from the circuit selection, which then counts
/// down, or from the results screen; confirming the circuit always starts
/// the countdown of a new race.
pub proof fn lemma_races_start_from_selection(menu: Menu, keys: Keys)
    requires
        menu.inv(),
    ensures
        menu.frame(keys).1.contains(Action::NewRace) ==> menu.state == GameState::TrackSelect
            || menu.state == GameState::Finished,
        menu.state == GameState::TrackSelect && (keys.enter || keys.space) ==> menu.frame(keys).0.state
            == GameState::Countdown && menu.frame(keys).1 == seq![Action::NewRace],
        menu.state == GameState::Finished && (keys.enter || keys.r) && !keys.backspace
            ==> menu.frame(keys).0.state == GameState::Countdown && menu.frame(keys).1 == seq![
            Action::NewRace,
        ],
{
    let actions = menu.frame(keys).1;
    if actions.contains(Action::NewRace) {
        let k = choose|k: int| 0 <= k < actions.len() && actions[k] == Action::NewRace;
        if menu.state == GameState::Start {
            lemma_start_frame_actions(menu, keys);
            assert(actions[k] != Action::NewRace);
        }
        if menu.state == GameState::Paused {
            assert(actions[k] != Action::NewRace);
        }
    }
}

/// `P` pauses a running race and `P` (or `R`) resumes it: in the pause menu,
/// a frame with `P` or `R` pressed, and neither back nor confirm, returns to
/// the race and asks for nothing; pausing and resuming at once leaves the
/// race as it was, the pause menu's cursor back on its first entry.
pub proof fn lemma_pause_key_resumes(menu: Menu, keys: Keys)
    requires
        menu.inv(),
    ensures
        menu.state == GameState::Paused && (keys.p || keys.r) && !keys.backspace && !keys.enter
            && !keys.space ==> menu.frame(keys).0.state == GameState::Racing && menu.frame(keys).1
            == Seq::<Action>::empty(),
        menu.state == GameState::Racing ==> menu.frame(pause_key()).0 == (Menu {
            state: GameState::Paused,
            pause_menu_option: PAUSE_CONTINUE,
            ..menu
        }),
        menu.state == GameState::Racing ==> menu.frame(pause_key()).0.frame(pause_key()) == (
        Menu { pause_menu_option: PAUSE_CONTINUE, ..menu }, Seq::<Action>::empty()),
{
}

} // verus!
