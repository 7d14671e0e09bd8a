//! Race progress: checkpoints in order, laps, and the end of the race.
//!
//! Positions and radii are in hundredths of a tile, so that a checkpoint at
//! `x == 2250` lies at world position `22.5`. Timing lives with the caller;
//! this module decides when a checkpoint is passed, when a lap ends and when
//! the race is over.
use vstd::prelude::*;
use crate::palette::{Rgba, rgba};

verus! {

/// Laps of every race.
pub const TOTAL_LAPS: usize = 3;

/// A circular checkpoint on the circuit, in hundredths of a tile.
#[derive(Clone, Copy, Debug, PartialEq, Eq, Structural)]
pub struct Checkpoint {
    pub x: u32,
    pub y: u32,
    pub radius: u32,
}

/// The checkpoint at `(x, y)` with the given radius.
pub open spec fn checkpoint_at(x: u32, y: u32, radius: u32) -> Checkpoint {
    Checkpoint { x, y, radius }
}

/// The checkpoints of circuit `track_index` in the order they must be passed; the
/// last one is the finish line. Indices wrap around the two circuits.
pub open spec fn checkpoint_list(track_index: int) -> Seq<Checkpoint> {
    if track_index % 2 == 1 {
        seq![
            checkpoint_at(2500, 3400, 300),
            checkpoint_at(3900, 3400, 300),
            checkpoint_at(5550, 3000, 320),
            checkpoint_at(5550, 2000, 320),
            checkpoint_at(5000, 1200, 320),
            checkpoint_at(4100, 1200, 300),
            checkpoint_at(2900, 1950, 300),
            checkpoint_at(1800, 1550, 300),
            checkpoint_at(800, 1200, 320),
            checkpoint_at(800, 2500, 320),
            checkpoint_at(2200, 2800, 300),
            checkpoint_at(2250, 3390, 115),
        ]
    } else {
        seq![
            checkpoint_at(2900, 3400, 300),
            checkpoint_at(3400, 3400, 300),
            checkpoint_at(4900, 3400, 300),
            checkpoint_at(5700, 3100, 320),
            checkpoint_at(5700, 2200, 320),
            checkpoint_at(5700, 1300, 320),
            checkpoint_at(5200, 700, 320),
            checkpoint_at(3900, 700, 300),
            checkpoint_at(2600, 700, 300),
            checkpoint_at(1200, 700, 300),
            checkpoint_at(800, 1400, 320),
            checkpoint_at(800, 2400, 320),
            checkpoint_at(800, 3100, 300),
            checkpoint_at(2250, 3390, 115),
        ]
    }
}

/// The checkpoints of circuit `track_index`, finish line last.
pub fn checkpoints(track_index: usize) -> (list: Vec<Checkpoint>)
    ensures
        list@ == checkpoint_list(track_index as int),
{
    match track_index % 2 {
        1 => vec![
            Checkpoint { x: 2500, y: 3400, radius: 300 },
            Checkpoint { x: 3900, y: 3400, radius: 300 },
            Checkpoint { x: 5550, y: 3000, radius: 320 },
            Checkpoint { x: 5550, y: 2000, radius: 320 },
            Checkpoint { x: 5000, y: 1200, radius: 320 },
            Checkpoint { x: 4100, y: 1200, radius: 300 },
            Checkpoint { x: 2900, y: 1950, radius: 300 },
            Checkpoint { x: 1800, y: 1550, radius: 300 },
            Checkpoint { x: 800, y: 1200, radius: 320 },
            Checkpoint { x: 800, y: 2500, radius: 320 },
            Checkpoint { x: 2200, y: 2800, radius: 300 },
            Checkpoint { x: 2250, y: 3390, radius: 115 },
        ],
        _ => vec![
            Checkpoint { x: 2900, y: 3400, radius: 300 },
            Checkpoint { x: 3400, y: 3400, radius: 300 },
            Checkpoint { x: 4900, y: 3400, radius: 300 },
            Checkpoint { x: 5700, y: 3100, radius: 320 },
            Checkpoint { x: 5700, y: 2200, radius: 320 },
            Checkpoint { x: 5700, y: 1300, radius: 320 },
            Checkpoint { x: 5200, y: 700, radius: 320 },
            Checkpoint { x: 3900, y: 700, radius: 300 },
            Checkpoint { x: 2600, y: 700, radius: 300 },
            Checkpoint { x: 1200, y: 700, radius: 300 },
            Checkpoint { x: 800, y: 1400, radius: 320 },
            Checkpoint { x: 800, y: 2400, radius: 320 },
            Checkpoint { x: 800, y: 3100, radius: 300 },
            Checkpoint { x: 2250, y: 3390, radius: 115 },
        ],
    }
}

/// What happened when the kart entered the checkpoint it was heading for.
#[derive(Clone, Copy, Debug, PartialEq, Eq, Structural)]
pub enum RaceEvent {
    /// A checkpoint before the finish line was passed.
    Checkpoint,
    /// A lap ended and more than one lap is left.
    LapComplete,
    /// A lap ended and the last lap begins.
    FinalLap,
    /// The last lap ended: the race is over.
    Finish,
}

impl RaceEvent {
    /// The banner shown for the event.
    pub open spec fn text_spec(self) -> Seq<char> {
        match self {
            RaceEvent::Checkpoint => "CHECKPOINT!"@,
            RaceEvent::LapComplete => "VUELTA COMPLETA!"@,
            RaceEvent::FinalLap => "ULTIMA VUELTA!"@,
            RaceEvent::Finish => "FINISH!"@,
        }
    }

    /// The banner shown for the event.
    pub fn text(self) -> (text: &'static str)
        ensures
            text@ == self.text_spec(),
    {
        match self {
            RaceEvent::Checkpoint => "CHECKPOINT!",
            RaceEvent::LapComplete => "VUELTA COMPLETA!",
            RaceEvent::FinalLap => "ULTIMA VUELTA!",
            RaceEvent::Finish => "FINISH!",
        }
    }

    /// Whether the event ends a lap, so that its lap time is recorded.
    pub fn completes_lap(self) -> (ends_lap: bool)
        ensures
            ends_lap == !(self is Checkpoint),
    {
        !matches!(self, RaceEvent::Checkpoint)
    }
}

/// The state of a race as the mathematics sees it.
pub struct RaceView {
    pub checkpoints: Seq<Checkpoint>,
    pub current_checkpoint: nat,
    pub current_lap: nat,
    pub total_laps: nat,
    pub finished: bool,
    pub was_inside: bool,
}

impl RaceView {
    /// The state every race keeps: the checkpoint ahead exists, the lap counter
    /// lies between one and the number of laps, and a finished race rests on
    /// the first checkpoint of its last lap.
    pub open spec fn inv(self) -> bool {
        &&& self.current_checkpoint < self.checkpoints.len()
        &&& 1 <= self.current_lap <= self.total_laps
        &&& self.finished ==> self.current_checkpoint == 0 && self.current_lap == self.total_laps
    }

    /// Checkpoints a full race passes: every checkpoint, once per lap.
    pub open spec fn race_length(self) -> nat {
        self.total_laps * self.checkpoints.len()
    }

    /// Checkpoints passed so far.
    pub open spec fn passed(self) -> nat {
        if self.finished {
            self.race_length()
        } else {
            ((self.current_lap - 1) * self.checkpoints.len() + self.current_checkpoint) as nat
        }
    }

    /// Whether entering the checkpoint ahead now counts: the race is running and
    /// the kart was outside the checkpoint a frame ago.
    pub open spec fn enters(self, inside: bool) -> bool {
        !self.finished && inside && !self.was_inside
    }

    /// The state after passing the checkpoint ahead.
    pub open spec fn advance(self) -> RaceView {
        if self.current_checkpoint + 1 < self.checkpoints.len() {
            RaceView { current_checkpoint: self.current_checkpoint + 1, ..self }
        } else if self.current_lap >= self.total_laps {
            RaceView { current_checkpoint: 0, finished: true, ..self }
        } else {
            RaceView { current_checkpoint: 0, current_lap: self.current_lap + 1, ..self }
        }
    }

    /// The state after a frame in which the kart is (or is not) inside the
    /// checkpoint ahead. A finished race no longer changes.
    pub open spec fn step(self, inside: bool) -> RaceView {
        if self.finished {
            self
        } else {
            let next = if self.enters(inside) {
                self.advance()
            } else {
                self
            };
            RaceView { was_inside: inside, ..next }
        }
    }

    /// What a frame reports.
    pub open spec fn step_event(self, inside: bool) -> Option<RaceEvent> {
        if !self.enters(inside) {
            None
        } else if self.current_checkpoint + 1 < self.checkpoints.len() {
            Some(RaceEvent::Checkpoint)
        } else if self.current_lap >= self.total_laps {
            Some(RaceEvent::Finish)
        } else if self.current_lap + 1 == self.total_laps {
            Some(RaceEvent::FinalLap)
        } else {
            Some(RaceEvent::LapComplete)
        }
    }

    /// Whether the checkpoint ahead is the finish line.
    pub open spec fn heading_for_finish(self) -> bool {
        self.current_checkpoint + 1 == self.checkpoints.len()
    }
}

/// The progress of one kart through a race.
pub struct Race {
    checkpoints: Vec<Checkpoint>,
    current_checkpoint: usize,
    current_lap: usize,
    total_laps: usize,
    finished: bool,
    was_inside: bool,
}

impl View for Race {
    type V = RaceView;

    closed spec fn view(&self) -> RaceView {
        RaceView {
            checkpoints: self.checkpoints@,
            current_checkpoint: self.current_checkpoint as nat,
            current_lap: self.current_lap as nat,
            total_laps: self.total_laps as nat,
            finished: self.finished,
            was_inside: self.was_inside,
        }
    }
}

impl Race {
    #[verifier::type_invariant]
    spec fn well_formed(self) -> bool {
        &&& self@.inv()
        &&& self.total_laps == TOTAL_LAPS
    }

    /// A race on circuit `track_index`, on the first checkpoint of the first lap.
    pub fn new(track_index: usize) -> (race: Race)
        ensures
            race@.checkpoints == checkpoint_list(track_index as int),
            race@.current_checkpoint == 0,
            race@.current_lap == 1,
            race@.total_laps == TOTAL_LAPS,
            !race@.finished,
            !race@.was_inside,
            race@.inv(),
    {
        Race {
            checkpoints: checkpoints(track_index),
            current_checkpoint: 0,
            current_lap: 1,
            total_laps: TOTAL_LAPS,
            finished: false,
            was_inside: false,
        }
    }

    /// Passes the checkpoint ahead and reports what that meant.
    fn advance_checkpoint(&mut self) -> (event: RaceEvent)
        requires
            !old(self)@.finished,
        ensures
            final(self)@ == old(self)@.advance(),
            Some(event) == (RaceView { was_inside: false, ..old(self)@ }).step_event(true),
    {
        proof {
            use_type_invariant(&*self);
        }
        let count = self.checkpoints.len();
        if self.current_checkpoint + 1 < count {
            self.current_checkpoint = self.current_checkpoint + 1;
            return RaceEvent::Checkpoint;
        }
        self.current_checkpoint = 0;
        if self.current_lap >= self.total_laps {
            self.finished = true;
            RaceEvent::Finish
        } else {
            self.current_lap = self.current_lap + 1;
            if self.current_lap == self.total_laps {
                RaceEvent::FinalLap
            } else {
                RaceEvent::LapComplete
            }
        }
    }

    /// One frame of the race. `inside` tells whether the kart is now inside
    /// the checkpoint ahead; entering it passes the checkpoint. Returns what the passing
    /// meant, or `None` when no checkpoint was passed.
    pub fn update(&mut self, inside: bool) -> (event: Option<RaceEvent>)
        ensures
            final(self)@ == old(self)@.step(inside),
            event == old(self)@.step_event(inside),
            final(self)@.inv(),
    {
        proof {
            use_type_invariant(&*self);
        }
        if self.finished {
            return None;
        }
        let mut event = None;
        if inside && !self.was_inside {
            event = Some(self.advance_checkpoint());
        }
        self.was_inside = inside;
        proof {
            use_type_invariant(&*self);
        }
        event
    }
    /// The lap being driven, counting from one.
    pub fn current_lap(&self) -> (lap: usize)
        ensures
            lap == self@.current_lap,
    {
        self.current_lap
    }

    /// Laps of the race.
    pub fn total_laps(&self) -> (laps: usize)
        ensures
            laps == self@.total_laps,
            laps == TOTAL_LAPS,
    {
        proof {
            use_type_invariant(self);
        }
        self.total_laps
    }

    /// Index of the checkpoint ahead.
    pub fn current_checkpoint(&self) -> (index: usize)
        ensures
            index == self@.current_checkpoint,
            self@.inv(),
    {
        proof {
            use_type_invariant(self);
        }
        self.current_checkpoint
    }

    /// Number of checkpoints of the circuit, finish line included.
    pub fn checkpoint_count(&self) -> (count: usize)
        ensures
            count == self@.checkpoints.len(),
            self@.inv(),
    {
        proof {
            use_type_invariant(self);
        }
        self.checkpoints.len()
    }

    /// The checkpoints of the circuit in order, finish line last.
    pub fn checkpoints(&self) -> (list: &[Checkpoint])
        ensures
            list@ == self@.checkpoints,
    {
        self.checkpoints.as_slice()
    }

    /// Whether the race is over.
    pub fn finished(&self) -> (over: bool)
        ensures
            over == self@.finished,
    {
        self.finished
    }

    /// The checkpoint ahead, or `None` once the race is over.
    pub fn active_checkpoint(&self) -> (checkpoint: Option<Checkpoint>)
        ensures
            checkpoint == (if self@.finished {
                None
            } else {
                Some(self@.checkpoints[self@.current_checkpoint as int])
            }),
    {
        proof {
            use_type_invariant(self);
        }
        if self.finished {
            None
        } else {
            Some(self.checkpoints[self.current_checkpoint])
        }
    }

    /// `"META"` when the checkpoint ahead is the finish line, `"CHECKPOINT"`
    /// otherwise.
    pub fn active_checkpoint_label(&self) -> (label: &'static str)
        ensures
            label@ == (if self@.heading_for_finish() {
                "META"@
            } else {
                "CHECKPOINT"@
            }),
    {
        proof {
            use_type_invariant(self);
        }
        let count = self.checkpoints.len();
        if self.current_checkpoint + 1 == count {
            "META"
        } else {
            "CHECKPOINT"
        }
    }

    /// Red when the checkpoint ahead is the finish line, yellow otherwise.
    pub fn active_checkpoint_color(&self) -> (color: Rgba)
        ensures
            color == (if self@.heading_for_finish() {
                rgba(255, 80, 60, 255)
            } else {
                rgba(255, 230, 70, 255)
            }),
    {
        proof {
            use_type_invariant(self);
        }
        let count = self.checkpoints.len();
        if self.current_checkpoint + 1 == count {
            Rgba::new(255, 80, 60, 255)
        } else {
            Rgba::new(255, 230, 70, 255)
        }
    }
}

/// The state after the frames `inputs`, each telling whether the kart was
/// inside the checkpoint ahead.
pub open spec fn run(v: RaceView, inputs: Seq<bool>) -> RaceView
    decreases inputs.len(),
{
    if inputs.len() == 0 {
        v
    } else {
        run(v.step(inputs[0]), inputs.drop_first())
    }
}

/// How many times the frames `inputs` enter a checkpoint, the kart having been
/// inside (`was_inside`) or outside it before them.
pub open spec fn entries(was_inside: bool, inputs: Seq<bool>) -> nat
    decreases inputs.len(),
{
    if inputs.len() == 0 {
        0
    } else {
        (if inputs[0] && !was_inside {
            1nat
        } else {
            0nat
        }) + entries(inputs[0], inputs.drop_first())
    }
}

/// Every frame keeps a race in a valid state.
pub proof fn lemma_step_keeps_inv(v: RaceView, inside: bool)
    requires
        v.inv(),
    ensures
        v.step(inside).inv(),
        v.step(inside).checkpoints == v.checkpoints,
        v.step(inside).total_laps == v.total_laps,
{
}

/// A race is over exactly when it has passed every checkpoint on every lap, and
/// it never counts more.
pub proof fn lemma_finished_iff_all_passed(v: RaceView)
    requires
        v.inv(),
    ensures
        v.passed() <= v.race_length(),
        v.finished <==> v.passed() == v.race_length(),
{
    let n = v.checkpoints.len();
    if !v.finished {
        assert((v.current_lap - 1) * n + v.current_checkpoint < v.total_laps * n) by (nonlinear_arith)
            requires
                v.current_lap <= v.total_laps,
                v.current_checkpoint < n,
                v.current_lap >= 1,
        ;
    }
}

/// A frame passes exactly one checkpoint when the kart enters the checkpoint ahead of a
/// running race, and none otherwise; a finished race does not change.
pub proof fn lemma_step_counts_entry(v: RaceView, inside: bool)
    requires
        v.inv(),
    ensures
        v.step(inside).passed() == v.passed() + (if v.enters(inside) {
            1nat
        } else {
            0nat
        }),
        v.finished ==> v.step(inside) == v,
{
    let n = v.checkpoints.len();
    if v.enters(inside) {
        if v.current_checkpoint + 1 < n {
        } else if v.current_lap >= v.total_laps {
            assert(v.total_laps * n == (v.total_laps - 1) * n + n) by (nonlinear_arith)
                requires
                    v.total_laps >= 1,
            ;
        } else {
            assert((v.current_lap + 1 - 1) * n == (v.current_lap - 1) * n + n) by (nonlinear_arith)
                requires
                    v.current_lap >= 1,
            ;
        }
    }
}

/// Over any run of frames, a race passes one checkpoint for each time the kart
/// enters the checkpoint ahead, until every checkpoint of every lap is passed; it is
/// over exactly when that many entries have happened.
pub proof fn lemma_run_counts_entries(v: RaceView, inputs: Seq<bool>)
    requires
        v.inv(),
    ensures
        run(v, inputs).inv(),
        run(v, inputs).passed() == if v.passed() + entries(v.was_inside, inputs)
            <= v.race_length() {
            v.passed() + entries(v.was_inside, inputs)
        } else {
            v.race_length()
        },
        run(v, inputs).finished <==> v.passed() + entries(v.was_inside, inputs)
            >= v.race_length(),
    decreases inputs.len(),
{
    lemma_finished_iff_all_passed(v);
    if inputs.len() == 0 {
    } else {
        let next = v.step(inputs[0]);
        lemma_step_keeps_inv(v, inputs[0]);
        lemma_step_counts_entry(v, inputs[0]);
        lemma_run_counts_entries(next, inputs.drop_first());
        lemma_finished_iff_all_passed(next);
        lemma_finished_iff_all_passed(run(v, inputs));
        if v.finished {
            lemma_run_finished_stays(v, inputs);
        }
    }
}

/// A finished race stays as it is, whatever the frames.
pub proof fn lemma_run_finished_stays(v: RaceView, inputs: Seq<bool>)
    requires
        v.inv(),
        v.finished,
    ensures
        run(v, inputs) == v,
    decreases inputs.len(),
{
    if inputs.len() > 0 {
        lemma_run_finished_stays(v.step(inputs[0]), inputs.drop_first());
    }
}

/// A fresh race is over exactly after the kart has entered checkpoints `laps`
/// times the number of checkpoints: every checkpoint once on each lap, finish line
/// included.
pub proof fn lemma_fresh_race_finishes(track_index: int, inputs: Seq<bool>)
    ensures
        ({
            let fresh = RaceView {
                checkpoints: checkpoint_list(track_index),
                current_checkpoint: 0,
                current_lap: 1,
                total_laps: TOTAL_LAPS as nat,
                finished: false,
                was_inside: false,
            };
            run(fresh, inputs).finished <==> entries(false, inputs) >= TOTAL_LAPS
                * checkpoint_list(track_index).len()
        }),
{
    let fresh = RaceView {
        checkpoints: checkpoint_list(track_index),
        current_checkpoint: 0,
        current_lap: 1,
        total_laps: TOTAL_LAPS as nat,
        finished: false,
        was_inside: false,
    };
    assert(fresh.inv());
    assert(fresh.passed() == 0);
    lemma_run_counts_entries(fresh, inputs);
}

/// Laps follow the finish line: a lap ends exactly when the kart enters the
/// last checkpoint, and only then does the lap counter move on, or the race
/// end once the last lap is done.
pub proof fn lemma_lap_ends_at_finish_line(v: RaceView, inside: bool)
    requires
        v.inv(),
    ensures
        (v.step_event(inside).is_some() && v.step_event(inside).unwrap() != RaceEvent::Checkpoint)
            <==> (v.enters(inside) && v.heading_for_finish()),
        v.step(inside).current_lap == if v.enters(inside) && v.heading_for_finish()
            && v.current_lap < v.total_laps {
            v.current_lap + 1
        } else {
            v.current_lap
        },
        v.step(inside).finished <==> (v.finished || (v.enters(inside) && v.heading_for_finish()
            && v.current_lap == v.total_laps)),
{
}

} // verus!
