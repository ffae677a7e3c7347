//! The demonstration: calibrate, find the line, follow it to the load, lift
//! it, turn round, find the line again, follow it back and set the load
//! down.
//!
//! The demonstration is a script, written as a state machine: its shell
//! reads the sensors, waits and reads the clock as the script asks, hands
//! each of these in as an event, and carries out the effects that the script
//! answers with. The command actor is one such shell: it runs the script
//! step by step between its looks into the mailbox.

use vstd::prelude::*;
use crate::acceleration::{Accelerator, LinearAcceleration, RampView};
use crate::calibration::{calibrate_both, SensorCalibration, SingleSensorCalibration, Sweep};
use crate::consts::Sensors;
use crate::directions::{SpinDirection, Stop};
use crate::effect::Effect;
use crate::fixed::SCALE;
use crate::line::{FollowLineConfig, FollowLineState, FollowLineView, CRUISE_SPEED, RAMP_TIME};
use crate::oscillate::{ActiveOscillation, Oscillate, OscillationView};
use crate::speed::Speed;

verus! {

broadcast use {Speed::of_view, Speed::view_of};

/// Speed of the calibration sweep and of the turn on the line.
pub const CAREFUL_SPEED: i64 = 80_000;

/// Speed of the lift.
pub const LIFT_SPEED: i64 = 500_000;

/// Nanoseconds of the first spin of the calibration sweep.
pub const SWEEP_DWELL: u64 = 500_000_000;

/// Factor by which the dwell time of the sweep grows at each switch.
pub const GROWTH: u32 = 2;

/// Nanoseconds the robot rests between two parts of the script.
pub const REST: u64 = 200_000_000;

/// Nanoseconds the robot spins before it looks for the line again.
pub const GRACE: u64 = 1_000_000_000;

/// Nanoseconds between two readings while the robot spins toward the line.
pub const GLANCE: u64 = 300_000;

/// How far below the level of the line a reading still counts as the line
/// for the search and for the stop line.
pub const EDGE_MARGIN: u8 = 1;

/// How far below the level of the line a reading still counts as the line
/// at the end of the turn.
pub const TURN_MARGIN: u8 = 3;

/// What the shell hands to the script.
#[derive(Debug, Clone, Copy, PartialEq, Eq, Structural)]
pub enum DemoEvent {
    /// The sensor that was asked for gave this raw reading.
    Reading(u8),
    /// The pause that was asked for is over.
    Woken,
}

/// What the script asks the shell to bring next.
#[derive(Debug, Clone, Copy, PartialEq, Eq, Structural)]
pub enum DemoWait {
    /// A reading of this sensor.
    Reading(Sensors),
    /// A pause of this many nanoseconds.
    Pause(u64),
    /// Nothing: the script is over.
    Nothing,
}

/// The two halves of the way: out to the load, and back with it.
#[derive(Debug, Clone, Copy, PartialEq, Eq, Structural)]
pub enum Leg {
    /// From the start to the load.
    Out,
    /// From the load back to the start.
    Back,
}

/// The calibrations of both sensors.
#[derive(Debug, Clone, Copy, PartialEq, Eq, Structural)]
pub struct Levels {
    /// Calibration of the left sensor.
    pub left: SensorCalibration,
    /// Calibration of the right sensor.
    pub right: SensorCalibration,
}

/// The least raw reading that counts as the line, `margin` below its level.
pub open spec fn threshold(line: u8, margin: u8) -> int {
    if line >= margin {
        line - margin
    } else {
        0
    }
}

impl Levels {
    /// Whether the two readings show a stop line: both sensors above their
    /// thresholds at once.
    pub open spec fn at_stop_line(self, left: u8, right: u8) -> bool {
        left > threshold(self.left.line, EDGE_MARGIN) && right > threshold(
            self.right.line,
            EDGE_MARGIN,
        )
    }

    /// Whether a reading of the right sensor shows the edge that is searched.
    pub open spec fn at_edge(self, reading: u8) -> bool {
        reading >= threshold(self.right.line, EDGE_MARGIN)
    }

    /// Whether a reading of the left sensor shows the line at the end of the
    /// turn.
    pub open spec fn turned(self, reading: u8) -> bool {
        reading >= threshold(self.left.line, TURN_MARGIN)
    }
}

/// Where the script stands, as plain values.
pub enum StageView {
    /// The first spin of the sweep is under way.
    Settling { oscillation: OscillationView },
    /// The sensor is logged while the second spin lasts. Both logs are filled
    /// from the left sensor, one reading after the other.
    Sampling { oscillation: OscillationView, left: Seq<i64>, right: Seq<i64>, pending: Option<u8> },
    /// The robot spins until the right sensor shows the edge of the line.
    Searching { levels: Levels, leg: Leg, resting: bool },
    /// The robot rests on the edge before it follows the line.
    Pausing { levels: Levels, leg: Leg },
    /// The robot follows the line until both sensors show a stop line.
    Following {
        levels: Levels,
        leg: Leg,
        controller: FollowLineView,
        ramp: RampView,
        pending: Option<u8>,
    },
    /// The robot has begun to turn and does not look for the line yet.
    Grace { levels: Levels },
    /// The robot turns until the left sensor shows the line.
    Turning { levels: Levels, resting: bool },
    /// The robot rests on the line before it searches the edge again.
    Returning { levels: Levels },
    /// The script has run to its end.
    Finished,
    /// The script ended early: the sweep logged fewer than two distinct
    /// readings for one of the sensors.
    Failed,
}

/// The sweep of the calibration, begun at `now`.
pub open spec fn sweep_begun(now: int) -> OscillationView {
    OscillationView {
        duration: SWEEP_DWELL as int,
        direction: SpinDirection::Left(Speed::of(CAREFUL_SPEED as int)),
        multiplier: GROWTH as int,
        last_switch: now,
    }
}

/// The spin of the search for the edge.
pub open spec fn search_spin() -> SpinDirection {
    SpinDirection::Left(Speed::of(CRUISE_SPEED as int))
}

/// The spin of the turn on the line.
pub open spec fn turn_spin() -> SpinDirection {
    SpinDirection::Right(Speed::of(CAREFUL_SPEED as int))
}

/// The line follower of the script as it begins: it reads the left sensor.
pub open spec fn follower_begun(levels: Levels) -> FollowLineView {
    FollowLineView::fresh(FollowLineConfig::cruising(levels.left))
}

impl StageView {
    /// The script as it begins at the clock reading `now`.
    pub open spec fn begun(now: int) -> StageView {
        StageView::Settling { oscillation: sweep_begun(now) }
    }

    /// What the shell is to bring next at the clock reading `now`.
    pub open spec fn awaits(self, now: int) -> DemoWait {
        match self {
            StageView::Settling { oscillation } => DemoWait::Pause(oscillation.remaining(now) as u64),
            StageView::Sampling { .. } => DemoWait::Reading(Sensors::Left),
            StageView::Searching { resting, .. } => if resting {
                DemoWait::Pause(GLANCE)
            } else {
                DemoWait::Reading(Sensors::Right)
            },
            StageView::Pausing { .. } => DemoWait::Pause(REST),
            StageView::Following { pending, .. } => if pending is None {
                DemoWait::Reading(Sensors::Left)
            } else {
                DemoWait::Reading(Sensors::Right)
            },
            StageView::Grace { .. } => DemoWait::Pause(GRACE),
            StageView::Turning { resting, .. } => if resting {
                DemoWait::Pause(GLANCE)
            } else {
                DemoWait::Reading(Sensors::Left)
            },
            StageView::Returning { .. } => DemoWait::Pause(REST),
            StageView::Finished => DemoWait::Nothing,
            StageView::Failed => DemoWait::Nothing,
        }
    }

    /// Whether the script takes `event` where it stands: a reading where it
    /// asked for one, the end of a pause where it asked for a pause.
    pub open spec fn takes(self, event: DemoEvent) -> bool {
        match self.awaits(0) {
            DemoWait::Reading(_) => event is Reading,
            DemoWait::Pause(_) => event is Woken,
            DemoWait::Nothing => false,
        }
    }

    /// Whether `event` at the clock reading `now` ends the sweep, so that
    /// the sensors are calibrated from the logs.
    pub open spec fn completes_sweep(self, event: DemoEvent, now: int) -> bool {
        match self {
            StageView::Settling { oscillation } => event is Woken && oscillation.stepped(now).due(
                now,
            ),
            StageView::Sampling { oscillation, pending, .. } => event is Reading && pending is Some
                && oscillation.due(now),
            _ => false,
        }
    }

    /// The logs from which the sensors are calibrated where `event` ends the
    /// sweep.
    pub open spec fn logs_with(self, event: DemoEvent) -> (Seq<i64>, Seq<i64>) {
        match self {
            StageView::Sampling { left, right, pending, .. } => (
                left.push((pending->Some_0 * SCALE) as i64),
                right.push((event->Reading_0 * SCALE) as i64),
            ),
            _ => (Seq::empty(), Seq::empty()),
        }
    }

    /// The effects of the end of the sweep: the robot stops, and where both
    /// sensors are calibrated it begins to search the edge.
    pub open spec fn sweep_effects(sweep: Sweep) -> Seq<Effect> {
        if sweep.left is Some && sweep.right is Some {
            seq![Effect::Halt, Effect::Spin(search_spin())]
        } else {
            seq![Effect::Halt]
        }
    }

    /// The stage after the end of the sweep.
    pub open spec fn swept(sweep: Sweep) -> StageView {
        if sweep.left is Some && sweep.right is Some {
            StageView::Searching {
                levels: Levels { left: sweep.left->Some_0, right: sweep.right->Some_0 },
                leg: Leg::Out,
                resting: false,
            }
        } else {
            StageView::Failed
        }
    }

    /// What the script asks the shell to do when `event` is handed in at the
    /// clock reading `now`, in the order in which it is to be done. `sweep`
    /// holds what the calibrations give where the event ends the sweep.
    pub open spec fn effects(self, event: DemoEvent, now: int, sweep: Sweep) -> Seq<Effect> {
        if !self.takes(event) {
            Seq::empty()
        } else {
            match self {
                StageView::Settling { oscillation } => {
                    let switch = if oscillation.due(now) {
                        seq![Effect::Spin(oscillation.direction.flipped())]
                    } else {
                        Seq::empty()
                    };
                    if oscillation.stepped(now).due(now) {
                        switch + StageView::sweep_effects(sweep)
                    } else {
                        switch
                    }
                },
                StageView::Sampling { oscillation, pending, .. } => if pending is Some
                    && oscillation.due(now) {
                    StageView::sweep_effects(sweep)
                } else {
                    Seq::empty()
                },
                StageView::Searching { levels, resting, .. } => if !resting && levels.at_edge(
                    event->Reading_0,
                ) {
                    seq![Effect::Halt]
                } else {
                    Seq::empty()
                },
                StageView::Following { levels, leg, controller, ramp, pending } => match pending {
                    None => Seq::empty(),
                    Some(left) => if levels.at_stop_line(left, event->Reading_0) {
                        match leg {
                            Leg::Out => seq![
                                Effect::Halt,
                                Effect::LiftUp(Speed::of(LIFT_SPEED as int)),
                                Effect::Spin(turn_spin()),
                            ],
                            Leg::Back => seq![
                                Effect::Halt,
                                Effect::LiftDown(Speed::of(LIFT_SPEED as int)),
                            ],
                        }
                    } else {
                        let command = controller.stepped(left).command();
                        let share = ramp.progress(command.stopped(), now);
                        seq![Effect::Drive(command.scaled(Speed::of(share)))]
                    },
                },
                StageView::Turning { levels, resting } => if !resting && levels.turned(
                    event->Reading_0,
                ) {
                    seq![Effect::Halt]
                } else {
                    Seq::empty()
                },
                StageView::Returning { .. } => seq![Effect::Spin(search_spin())],
                _ => Seq::empty(),
            }
        }
    }

    /// The stage after `event` is handed in at the clock reading `now`.
    /// `sweep` holds what the calibrations give where the event ends the
    /// sweep.
    pub open spec fn after(self, event: DemoEvent, now: int, sweep: Sweep) -> StageView {
        if !self.takes(event) {
            self
        } else {
            match self {
                StageView::Settling { oscillation } => if oscillation.stepped(now).due(now) {
                    StageView::swept(sweep)
                } else {
                    StageView::Sampling {
                        oscillation: oscillation.stepped(now),
                        left: Seq::empty(),
                        right: Seq::empty(),
                        pending: None,
                    }
                },
                StageView::Sampling { oscillation, left, right, pending } => match pending {
                    None => StageView::Sampling {
                        oscillation,
                        left,
                        right,
                        pending: Some(event->Reading_0),
                    },
                    Some(_) => if oscillation.due(now) {
                        StageView::swept(sweep)
                    } else {
                        StageView::Sampling {
                            oscillation,
                            left: self.logs_with(event).0,
                            right: self.logs_with(event).1,
                            pending: None,
                        }
                    },
                },
                StageView::Searching { levels, leg, resting } => if resting {
                    StageView::Searching { levels, leg, resting: false }
                } else if levels.at_edge(event->Reading_0) {
                    StageView::Pausing { levels, leg }
                } else {
                    StageView::Searching { levels, leg, resting: true }
                },
                StageView::Pausing { levels, leg } => StageView::Following {
                    levels,
                    leg,
                    controller: follower_begun(levels),
                    ramp: RampView { duration: RAMP_TIME as int, started: None },
                    pending: None,
                },
                StageView::Following { levels, leg, controller, ramp, pending } => match pending {
                    None => StageView::Following {
                        levels,
                        leg,
                        controller,
                        ramp,
                        pending: Some(event->Reading_0),
                    },
                    Some(left) => if levels.at_stop_line(left, event->Reading_0) {
                        match leg {
                            Leg::Out => StageView::Grace { levels },
                            Leg::Back => StageView::Finished,
                        }
                    } else {
                        let command = controller.stepped(left).command();
                        StageView::Following {
                            levels,
                            leg,
                            controller: controller.stepped(left),
                            ramp: ramp.applied(command.stopped(), now),
                            pending: None,
                        }
                    },
                },
                StageView::Grace { levels } => StageView::Turning { levels, resting: false },
                StageView::Turning { levels, resting } => if resting {
                    StageView::Turning { levels, resting: false }
                } else if levels.turned(event->Reading_0) {
                    StageView::Returning { levels }
                } else {
                    StageView::Turning { levels, resting: true }
                },
                StageView::Returning { levels } => StageView::Searching {
                    levels,
                    leg: Leg::Back,
                    resting: false,
                },
                StageView::Finished => self,
                StageView::Failed => self,
            }
        }
    }
}

/// Where the script stands.
#[derive(Debug)]
enum Stage {
    Settling(ActiveOscillation),
    Sampling(ActiveOscillation, SingleSensorCalibration, SingleSensorCalibration, Option<u8>),
    Searching(Levels, Leg, bool),
    Pausing(Levels, Leg),
    Following(Levels, Leg, FollowLineState, LinearAcceleration, Option<u8>),
    Grace(Levels),
    Turning(Levels, bool),
    Returning(Levels),
    Finished,
    Failed,
}

impl View for Stage {
    type V = StageView;

    closed spec fn view(&self) -> StageView {
        match *self {
            Stage::Settling(oscillation) => StageView::Settling { oscillation: oscillation@ },
            Stage::Sampling(oscillation, left, right, pending) => StageView::Sampling {
                oscillation: oscillation@,
                left: left@,
                right: right@,
                pending,
            },
            Stage::Searching(levels, leg, resting) => StageView::Searching { levels, leg, resting },
            Stage::Pausing(levels, leg) => StageView::Pausing { levels, leg },
            Stage::Following(levels, leg, controller, ramp, pending) => StageView::Following {
                levels,
                leg,
                controller: controller@,
                ramp: ramp@,
                pending,
            },
            Stage::Grace(levels) => StageView::Grace { levels },
            Stage::Turning(levels, resting) => StageView::Turning { levels, resting },
            Stage::Returning(levels) => StageView::Returning { levels },
            Stage::Finished => StageView::Finished,
            Stage::Failed => StageView::Failed,
        }
    }
}

/// The script of the demonstration.
#[derive(Debug)]
pub struct DemoScript {
    stage: Stage,
}

impl View for DemoScript {
    type V = StageView;

    closed spec fn view(&self) -> StageView {
        self.stage@
    }
}

/// The least raw reading that counts as the line, `margin` below its level.
fn least_on_line(line: u8, margin: u8) -> (least: u8)
    ensures
        least == threshold(line, margin),
{
    if line >= margin {
        line - margin
    } else {
        0
    }
}

/// Ends the sweep: stops the robot, calibrates both sensors from the logs
/// and, where both are calibrated, begins the search for the edge.
fn finish_sweep(left: SingleSensorCalibration, right: SingleSensorCalibration) -> (r: (
    Stage,
    Vec<Effect>,
    Sweep,
))
    ensures
        r.0@ == StageView::swept(r.2),
        r.1@ == StageView::sweep_effects(r.2),
        r.2.from_logs(left@, right@),
{
    let mut effects: Vec<Effect> = Vec::new();
    effects.push(Effect::Halt);
    let sweep = calibrate_both(left, right);
    let stage = match (sweep.left, sweep.right) {
        (Some(left), Some(right)) => {
            effects.push(Effect::Spin(SpinDirection::Left(Speed::new_clamp(CRUISE_SPEED))));
            Stage::Searching(Levels { left, right }, Leg::Out, false)
        },
        _ => Stage::Failed,
    };
    assert(effects@ =~= StageView::sweep_effects(sweep));
    (stage, effects, sweep)
}

impl DemoScript {
    /// Begins the script at the clock reading `now`. Returned with it is
    /// what the shell is to do first: spin for the sweep.
    pub fn begin(now: u64) -> (r: (DemoScript, Vec<Effect>))
        ensures
            r.0@ == StageView::begun(now as int),
            r.1@ == seq![Effect::Spin(sweep_begun(now as int).direction)],
    {
        let direction = SpinDirection::Left(Speed::new_clamp(CAREFUL_SPEED));
        let sweep = Oscillate::new(SWEEP_DWELL, direction, GROWTH);
        let mut effects: Vec<Effect> = Vec::new();
        effects.push(Effect::Spin(direction));
        assert(effects@ =~= seq![Effect::Spin(sweep_begun(now as int).direction)]);
        (DemoScript { stage: Stage::Settling(sweep.begin(now)) }, effects)
    }

    /// What the shell is to bring next at the clock reading `now`.
    pub fn awaits(&self, now: u64) -> (wait: DemoWait)
        ensures
            wait == self@.awaits(now as int),
    {
        match &self.stage {
            Stage::Settling(oscillation) => DemoWait::Pause(oscillation.next_oscillation(now)),
            Stage::Sampling(_, _, _, _) => DemoWait::Reading(Sensors::Left),
            Stage::Searching(_, _, resting) => if *resting {
                DemoWait::Pause(GLANCE)
            } else {
                DemoWait::Reading(Sensors::Right)
            },
            Stage::Pausing(_, _) => DemoWait::Pause(REST),
            Stage::Following(_, _, _, _, pending) => if pending.is_none() {
                DemoWait::Reading(Sensors::Left)
            } else {
                DemoWait::Reading(Sensors::Right)
            },
            Stage::Grace(_) => DemoWait::Pause(GRACE),
            Stage::Turning(_, resting) => if *resting {
                DemoWait::Pause(GLANCE)
            } else {
                DemoWait::Reading(Sensors::Left)
            },
            Stage::Returning(_) => DemoWait::Pause(REST),
            Stage::Finished => DemoWait::Nothing,
            Stage::Failed => DemoWait::Nothing,
        }
    }

    /// Whether the script has run to its end.
    pub fn is_finished(&self) -> (finished: bool)
        ensures
            finished == self@ is Finished,
    {
        match &self.stage {
            Stage::Finished => true,
            _ => false,
        }
    }

    /// Whether the script ended early for want of a calibration.
    pub fn has_failed(&self) -> (failed: bool)
        ensures
            failed == self@ is Failed,
    {
        match &self.stage {
            Stage::Failed => true,
            _ => false,
        }
    }

    /// The calibrations of both sensors, once the sweep has given them.
    pub fn levels(&self) -> (levels: Option<Levels>)
        ensures
            levels == match self@ {
                StageView::Searching { levels, .. } => Some(levels),
                StageView::Pausing { levels, .. } => Some(levels),
                StageView::Following { levels, .. } => Some(levels),
                StageView::Grace { levels } => Some(levels),
                StageView::Turning { levels, .. } => Some(levels),
                StageView::Returning { levels } => Some(levels),
                _ => None,
            },
    {
        match &self.stage {
            Stage::Searching(levels, _, _) => Some(*levels),
            Stage::Pausing(levels, _) => Some(*levels),
            Stage::Following(levels, _, _, _, _) => Some(*levels),
            Stage::Grace(levels) => Some(*levels),
            Stage::Turning(levels, _) => Some(*levels),
            Stage::Returning(levels) => Some(*levels),
            _ => None,
        }
    }

    /// Takes in `event` at the clock reading `now` and returns what the
    /// shell is to do, in order. An event that the script does not wait for
    /// is passed over: nothing changes and nothing is to be done.
    ///
    /// The end of the sweep calibrates both sensors from what was logged.
    /// Where a log holds fewer than two distinct readings the script ends
    /// early, with the robot stopped.
    pub fn step(&mut self, event: DemoEvent, now: u64) -> (effects: Vec<Effect>)
        ensures
            exists|sweep: Sweep|
                {
                    &&& effects@ == #[trigger] old(self)@.effects(event, now as int, sweep)
                    &&& final(self)@ == old(self)@.after(event, now as int, sweep)
                    &&& old(self)@.completes_sweep(event, now as int) ==> sweep.from_logs(
                        old(self)@.logs_with(event).0,
                        old(self)@.logs_with(event).1,
                    )
                },
    {
        let ghost before = self@;
        let ghost mut sweep = Sweep { left: None, right: None };
        let mut stage = Stage::Finished;
        core::mem::swap(&mut self.stage, &mut stage);
        let mut effects: Vec<Effect> = Vec::new();
        match (stage, event) {
            (Stage::Settling(mut oscillation), DemoEvent::Woken) => {
                match oscillation.advance(now) {
                    Some(direction) => {
                        effects.push(Effect::Spin(direction));
                    },
                    None => {},
                }
                if oscillation.should_step(now) {
                    let (next, mut more, outcome) = finish_sweep(
                        SingleSensorCalibration::new(),
                        SingleSensorCalibration::new(),
                    );
                    proof {
                        sweep = outcome;
                    }
                    effects.append(&mut more);
                    self.stage = next;
                } else {
                    self.stage = Stage::Sampling(
                        oscillation,
                        SingleSensorCalibration::new(),
                        SingleSensorCalibration::new(),
                        None,
                    );
                }
            },
            (Stage::Sampling(oscillation, mut left, mut right, pending), DemoEvent::Reading(value)) => {
                match pending {
                    None => {
                        self.stage = Stage::Sampling(oscillation, left, right, Some(value));
                    },
                    Some(first) => {
                        left.log(first as i64 * SCALE);
                        right.log(value as i64 * SCALE);
                        if oscillation.should_step(now) {
                            let (next, more, outcome) = finish_sweep(left, right);
                            proof {
                                sweep = outcome;
                            }
                            effects = more;
                            self.stage = next;
                        } else {
                            self.stage = Stage::Sampling(oscillation, left, right, None);
                        }
                    },
                }
            },
            (Stage::Searching(levels, leg, resting), event) => {
                match (resting, event) {
                    (true, DemoEvent::Woken) => {
                        self.stage = Stage::Searching(levels, leg, false);
                    },
                    (false, DemoEvent::Reading(value)) => {
                        if value >= least_on_line(levels.right.line, EDGE_MARGIN) {
                            effects.push(Effect::Halt);
                            self.stage = Stage::Pausing(levels, leg);
                        } else {
                            self.stage = Stage::Searching(levels, leg, true);
                        }
                    },
                    _ => {
                        self.stage = Stage::Searching(levels, leg, resting);
                    },
                }
            },
            (Stage::Pausing(levels, leg), DemoEvent::Woken) => {
                self.stage = Stage::Following(
                    levels,
                    leg,
                    FollowLineState::new(FollowLineConfig::cruise(levels.left)),
                    LinearAcceleration::new(RAMP_TIME),
                    None,
                );
            },
            (
                Stage::Following(levels, leg, mut controller, mut ramp, pending),
                DemoEvent::Reading(value),
            ) => {
                match pending {
                    None => {
                        self.stage = Stage::Following(levels, leg, controller, ramp, Some(value));
                    },
                    Some(left) => {
                        if left > least_on_line(levels.left.line, EDGE_MARGIN) && value
                            > least_on_line(levels.right.line, EDGE_MARGIN) {
                            effects.push(Effect::Halt);
                            match leg {
                                Leg::Out => {
                                    effects.push(Effect::LiftUp(Speed::new_clamp(LIFT_SPEED)));
                                    effects.push(
                                        Effect::Spin(
                                            SpinDirection::Right(Speed::new_clamp(CAREFUL_SPEED)),
                                        ),
                                    );
                                    self.stage = Stage::Grace(levels);
                                },
                                Leg::Back => {
                                    effects.push(Effect::LiftDown(Speed::new_clamp(LIFT_SPEED)));
                                    self.stage = Stage::Finished;
                                },
                            }
                        } else {
                            let direction = controller.step(left);
                            let direction = ramp.apply(direction, now);
                            effects.push(Effect::Drive(direction));
                            self.stage = Stage::Following(levels, leg, controller, ramp, None);
                        }
                    },
                }
            },
            (Stage::Grace(levels), DemoEvent::Woken) => {
                self.stage = Stage::Turning(levels, false);
            },
            (Stage::Turning(levels, resting), event) => {
                match (resting, event) {
                    (true, DemoEvent::Woken) => {
                        self.stage = Stage::Turning(levels, false);
                    },
                    (false, DemoEvent::Reading(value)) => {
                        if value >= least_on_line(levels.left.line, TURN_MARGIN) {
                            effects.push(Effect::Halt);
                            self.stage = Stage::Returning(levels);
                        } else {
                            self.stage = Stage::Turning(levels, true);
                        }
                    },
                    _ => {
                        self.stage = Stage::Turning(levels, resting);
                    },
                }
            },
            (Stage::Returning(levels), DemoEvent::Woken) => {
                effects.push(Effect::Spin(SpinDirection::Left(Speed::new_clamp(CRUISE_SPEED))));
                self.stage = Stage::Searching(levels, Leg::Back, false);
            },
            (stage, _) => {
                self.stage = stage;
            },
        }
        proof {
            assert(effects@ =~= before.effects(event, now as int, sweep));
            assert(self@ == before.after(event, now as int, sweep));
        }
        effects
    }
}

/// The script ends in one of two ways, and once it has ended it asks for
/// nothing and no event moves it.
pub proof fn ended_script_stays(stage: StageView, event: DemoEvent, now: int, sweep: Sweep)
    requires
        stage is Finished || stage is Failed,
    ensures
        stage.awaits(now) == DemoWait::Nothing,
        stage.after(event, now, sweep) == stage,
        stage.effects(event, now, sweep) == Seq::<Effect>::empty(),
{
}

/// The script fails only at the end of the sweep, and only where one of the
/// two sensors was left without calibration.
pub proof fn fails_only_without_calibration(stage: StageView, event: DemoEvent, now: int, sweep: Sweep)
    requires
        !(stage is Failed),
        stage.after(event, now, sweep) is Failed,
    ensures
        stage.completes_sweep(event, now),
        sweep.left is None || sweep.right is None,
{
}

/// The load is lifted only at the end of the way out and set down only at
/// the end of the way back, each right after the robot has stopped at a stop
/// line.
pub proof fn lift_moves_at_stop_lines(stage: StageView, event: DemoEvent, now: int, sweep: Sweep, i: int)
    requires
        0 <= i < stage.effects(event, now, sweep).len(),
        stage.effects(event, now, sweep)[i] is LiftUp || stage.effects(event, now, sweep)[i]
            is LiftDown,
    ensures
        stage is Following,
        stage->Following_pending is Some,
        stage->Following_levels.at_stop_line(
            stage->Following_pending->Some_0,
            event->Reading_0,
        ),
        i == 1,
        stage.effects(event, now, sweep)[0] == Effect::Halt,
        stage.effects(event, now, sweep)[i] is LiftUp <==> stage->Following_leg == Leg::Out,
        stage.effects(event, now, sweep)[i] is LiftDown <==> stage.after(event, now, sweep)
            is Finished,
{
}

} // verus!
