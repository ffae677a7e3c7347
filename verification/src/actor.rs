//! The command actor: the one owner of motors, sensors and lift.
//!
//! The actor is a state machine. Its shell takes requests from the mailbox,
//! reads the sensors and the clock, hands each of these in as an event, and
//! carries out the effects that the actor answers with.
//!
//! A request is answered as soon as it is accepted or turned down, before
//! any work of the operation is done; what is accepted is answered with the
//! request that ends it. Every operation that runs on keeps to one protocol:
//! calibration, the search for the edge, following the line and the
//! demonstration all ask for one look into the mailbox before each unit of
//! work, so that a stop gets through within one turn of the loop, and any
//! other request is turned down as busy. Only a move of the lift is never
//! broken off: it is one effect, and the shell does not come back before the
//! lift has arrived.

use vstd::prelude::*;
use crate::acceleration::{Accelerator, LinearAcceleration, RampView};
use crate::calibration::{calibrate_both, SensorCalibration, SingleSensorCalibration, Sweep};
use crate::command::{arbitrate, arbitration, interrupt, interruption, Command, CommandDenied};
use crate::consts::Sensors;
use crate::demo::{sweep_begun as demo_begun, DemoEvent, DemoScript, DemoWait, StageView};
use crate::directions::{SpinDirection, Stop};
use crate::effect::Effect;
use crate::fixed::SCALE;
use crate::line::{FollowLineConfig, FollowLineState, FollowLineView, CRUISE_SPEED, RAMP_TIME};
use crate::oscillate::{ActiveOscillation, Oscillate, OscillationView};
use crate::speed::Speed;

verus! {

broadcast use {Speed::of_view, Speed::view_of};

/// The speed of the calibration sweep: half the cruise speed.
pub const SWEEP_SPEED: i64 = 50_000;

/// The lift travels at half of full speed.
pub const LIFT_SPEED: i64 = 500_000;

/// Nanoseconds of the first spin of a calibration sweep.
pub const SWEEP_DWELL: u64 = 1_000_000_000;

/// Nanoseconds of the first spin of a search for the edge.
pub const SEARCH_DWELL: u64 = 2_000_000_000;

/// Factor by which the dwell time of a sweep or search grows at each switch.
pub const GROWTH: u32 = 2;

/// The edge is found where a reading is less than this away from the level of
/// the line.
pub const EDGE_TOLERANCE: u8 = 2;

/// What the shell hands to the actor.
#[derive(Debug, Clone, Copy, PartialEq, Eq, Structural)]
pub enum Event {
    /// A request was taken from the mailbox.
    Request(Command),
    /// A look into the mailbox found it empty.
    Quiet,
    /// The sensor that was asked for gave this raw reading.
    Reading(u8),
}

/// What the actor asks the shell to bring next.
#[derive(Debug, Clone, Copy, PartialEq, Eq, Structural)]
pub enum Wait {
    /// The next request, however long it takes to come.
    Request,
    /// One look into the mailbox, without waiting.
    Poll,
    /// A reading of this sensor.
    Reading(Sensors),
}

/// Whose turn it is within one round of sampling.
#[derive(Debug, Clone, Copy, PartialEq, Eq, Structural)]
pub enum Turn {
    /// The mailbox is looked into.
    Poll,
    /// The left sensor is read.
    Left,
    /// The right sensor is read; the left one gave the value held.
    Right(u8),
}

/// What the actor is doing, as plain values.
pub enum PhaseView {
    /// Nothing is under way.
    Idle,
    /// Calibrating: the first spin of the sweep is under way.
    Settling { oscillation: OscillationView },
    /// Calibrating: both sensors are logged while the second spin lasts.
    Sampling { oscillation: OscillationView, left: Seq<i64>, right: Seq<i64>, turn: Turn },
    /// Searching for the edge of the line whose level is `line`.
    FindingEdge { oscillation: OscillationView, line: u8, reading: bool },
    /// Following the line.
    Following { controller: FollowLineView, ramp: RampView, reading: bool },
    /// Running the demonstration. `deadline` is the clock reading at which
    /// the pause of the script ends, while there is one; `sensor` is the
    /// sensor whose reading the script waits for, while it does.
    Demonstrating { script: StageView, deadline: Option<int>, sensor: Option<Sensors> },
}

/// The state of the actor, as plain values.
pub struct ActorView {
    /// Calibration of the left sensor, where one was made.
    pub calibration: Option<SensorCalibration>,
    /// Calibration of the right sensor, where one was made.
    pub right_calibration: Option<SensorCalibration>,
    /// Whether the robot stands on the edge of the line.
    pub on_line: bool,
    /// What is under way.
    pub phase: PhaseView,
}

/// The sweep of a calibration, begun at `now`.
pub open spec fn sweep_begun(now: int) -> OscillationView {
    OscillationView {
        duration: SWEEP_DWELL as int,
        direction: SpinDirection::Left(Speed::of(SWEEP_SPEED as int)),
        multiplier: GROWTH as int,
        last_switch: now,
    }
}

/// The to and fro of a search for the edge, begun at `now`.
pub open spec fn search_begun(now: int) -> OscillationView {
    OscillationView {
        duration: SEARCH_DWELL as int,
        direction: SpinDirection::Left(Speed::of(CRUISE_SPEED as int)),
        multiplier: GROWTH as int,
        last_switch: now,
    }
}

/// Whether a raw reading lies within the tolerance of the level of the line.
pub open spec fn on_edge(reading: u8, line: u8) -> bool {
    -EDGE_TOLERANCE < reading - line < EDGE_TOLERANCE
}

/// The clock reading at which a pause of `length` nanoseconds ends that is
/// first seen at `now`, unless its end was noted before.
pub open spec fn pause_end(deadline: Option<int>, now: int, length: u64) -> int {
    match deadline {
        Some(at) => at,
        None => if now + length > u64::MAX {
            u64::MAX as int
        } else {
            now + length
        },
    }
}

impl PhaseView {
    /// The operation under way, named by the request that began it.
    pub open spec fn operation(self) -> Option<Command> {
        match self {
            PhaseView::Idle => None,
            PhaseView::Settling { .. } => Some(Command::Calibrate),
            PhaseView::Sampling { .. } => Some(Command::Calibrate),
            PhaseView::FindingEdge { .. } => Some(Command::FindEdge),
            PhaseView::Following { .. } => Some(Command::FollowLine),
            PhaseView::Demonstrating { .. } => Some(Command::Demo),
        }
    }

    /// What the shell is to bring next.
    pub open spec fn awaits(self) -> Wait {
        match self {
            PhaseView::Idle => Wait::Request,
            PhaseView::Settling { .. } => Wait::Poll,
            PhaseView::Sampling { turn, .. } => match turn {
                Turn::Poll => Wait::Poll,
                Turn::Left => Wait::Reading(Sensors::Left),
                Turn::Right(_) => Wait::Reading(Sensors::Right),
            },
            PhaseView::FindingEdge { reading, .. } => if reading {
                Wait::Reading(Sensors::Right)
            } else {
                Wait::Poll
            },
            PhaseView::Following { reading, .. } => if reading {
                Wait::Reading(Sensors::Left)
            } else {
                Wait::Poll
            },
            PhaseView::Demonstrating { sensor, .. } => match sensor {
                Some(sensor) => Wait::Reading(sensor),
                None => Wait::Poll,
            },
        }
    }

    /// The phase once the script of the demonstration has taken a step: the
    /// demonstration goes on until the script has ended.
    pub open spec fn demonstrating(script: StageView) -> PhaseView {
        if script is Finished || script is Failed {
            PhaseView::Idle
        } else {
            PhaseView::Demonstrating { script, deadline: None, sensor: None }
        }
    }

    /// What the actor hands to the script of the demonstration when it goes
    /// on after a look into the mailbox at `now`: word that the pause is
    /// over, where the script pauses and the pause has lasted its time.
    pub open spec fn wakes(self, now: int) -> bool {
        match self {
            PhaseView::Demonstrating { script, deadline, sensor } => sensor is None
                && script.awaits(now) is Pause && now >= pause_end(
                deadline,
                now,
                script.awaits(now)->Pause_0,
            ),
            _ => false,
        }
    }

    /// What the operation does once the look into the mailbox is over: the
    /// first spin of a calibration switches where it is due; a pause of the
    /// demonstration ends where it has lasted its time, and goes on
    /// otherwise; everything else asks for its reading. `sweep` holds what
    /// the calibrations give where the sweep of the demonstration ends.
    pub open spec fn resumed(self, now: int, sweep: Sweep) -> PhaseView {
        match self {
            PhaseView::Settling { oscillation } => if oscillation.due(now) {
                PhaseView::Sampling {
                    oscillation: oscillation.switched(now),
                    left: Seq::empty(),
                    right: Seq::empty(),
                    turn: Turn::Poll,
                }
            } else {
                self
            },
            PhaseView::Sampling { oscillation, left, right, turn } => PhaseView::Sampling {
                oscillation,
                left,
                right,
                turn: Turn::Left,
            },
            PhaseView::FindingEdge { oscillation, line, reading } => PhaseView::FindingEdge {
                oscillation,
                line,
                reading: true,
            },
            PhaseView::Following { controller, ramp, reading } => PhaseView::Following {
                controller,
                ramp,
                reading: true,
            },
            PhaseView::Demonstrating { script, deadline, .. } => match script.awaits(now) {
                DemoWait::Reading(sensor) => PhaseView::Demonstrating {
                    script,
                    deadline: None,
                    sensor: Some(sensor),
                },
                DemoWait::Pause(length) => if self.wakes(now) {
                    PhaseView::demonstrating(script.after(DemoEvent::Woken, now, sweep))
                } else {
                    PhaseView::Demonstrating {
                        script,
                        deadline: Some(pause_end(deadline, now, length)),
                        sensor: None,
                    }
                },
                DemoWait::Nothing => PhaseView::Idle,
            },
            PhaseView::Idle => self,
        }
    }

    /// The effects of going on after the look into the mailbox.
    pub open spec fn resume_effects(self, now: int, sweep: Sweep) -> Seq<Effect> {
        match self {
            PhaseView::Settling { oscillation } => if oscillation.due(now) {
                seq![Effect::Spin(oscillation.direction.flipped())]
            } else {
                Seq::empty()
            },
            PhaseView::Demonstrating { script, .. } => if self.wakes(now) {
                script.effects(DemoEvent::Woken, now, sweep)
            } else {
                Seq::empty()
            },
            _ => Seq::empty(),
        }
    }
}

impl ActorView {
    /// The state of an actor that has done nothing yet.
    pub open spec fn fresh() -> ActorView {
        ActorView {
            calibration: None,
            right_calibration: None,
            on_line: false,
            phase: PhaseView::Idle,
        }
    }

    /// What holds of every state the actor gets into: the robot is taken to be
    /// on the line only where the left sensor is calibrated and neither a
    /// calibration nor the demonstration is under way, and the edge is
    /// searched only with a calibration.
    pub open spec fn wf(self) -> bool {
        &&& self.on_line ==> self.calibration is Some
        &&& self.phase.operation() == Some(Command::Calibrate) ==> !self.on_line
        &&& self.phase.operation() == Some(Command::Demo) ==> !self.on_line
        &&& self.phase.operation() == Some(Command::FindEdge) ==> self.calibration is Some
    }

    /// The effects of a request that finds nothing under way.
    pub open spec fn accept_effects(self, command: Command, now: int) -> Seq<Effect> {
        let answer = arbitration(command, self.calibration, self.on_line);
        match command {
            Command::Stop => seq![Effect::Halt, Effect::Reply(answer)],
            Command::LiftUp => seq![
                Effect::HaltIfPossible,
                Effect::Reply(answer),
                Effect::LiftUp(Speed::of(LIFT_SPEED as int)),
            ],
            Command::LiftDown => seq![
                Effect::HaltIfPossible,
                Effect::Reply(answer),
                Effect::LiftDown(Speed::of(LIFT_SPEED as int)),
            ],
            Command::Demo => seq![Effect::Reply(answer), Effect::Spin(demo_begun(now).direction)],
            Command::Calibrate => seq![
                Effect::Reply(answer),
                Effect::Spin(sweep_begun(now).direction),
            ],
            Command::FindEdge => if answer is Ok {
                seq![Effect::Reply(answer), Effect::Spin(search_begun(now).direction)]
            } else {
                seq![Effect::Reply(answer)]
            },
            Command::FollowLine => seq![Effect::Reply(answer)],
        }
    }

    /// The state after a request that finds nothing under way.
    pub open spec fn accepted(self, command: Command, now: int) -> ActorView {
        let answer = arbitration(command, self.calibration, self.on_line);
        match command {
            Command::Calibrate => ActorView {
                on_line: false,
                phase: PhaseView::Settling { oscillation: sweep_begun(now) },
                ..self
            },
            Command::Demo => ActorView {
                on_line: false,
                phase: PhaseView::Demonstrating {
                    script: StageView::begun(now),
                    deadline: None,
                    sensor: None,
                },
                ..self
            },
            Command::FindEdge => if answer is Ok {
                ActorView {
                    phase: PhaseView::FindingEdge {
                        oscillation: search_begun(now),
                        line: self.calibration->Some_0.line,
                        reading: false,
                    },
                    ..self
                }
            } else {
                self
            },
            Command::FollowLine => if answer is Ok {
                ActorView {
                    phase: PhaseView::Following {
                        controller: FollowLineView::fresh(
                            FollowLineConfig::cruising(self.calibration->Some_0),
                        ),
                        ramp: RampView { duration: RAMP_TIME as int, started: None },
                        reading: false,
                    },
                    ..self
                }
            } else {
                self
            },
            _ => self,
        }
    }

    /// The state after a stop that ends the operation under way. A search
    /// that is broken off leaves the robot off the line.
    pub open spec fn cancelled(self) -> ActorView {
        ActorView {
            on_line: if self.phase.operation() == Some(Command::FindEdge) {
                false
            } else {
                self.on_line
            },
            phase: PhaseView::Idle,
            ..self
        }
    }

    /// Whether the actor takes `event` in its state: a request where it waits
    /// for one, a request or word of an empty mailbox where it looks into the
    /// mailbox, a reading where it asked for one. Any other event is passed
    /// over.
    pub open spec fn takes(self, event: Event) -> bool {
        match self.phase.awaits() {
            Wait::Request => event is Request,
            Wait::Poll => event is Request || event is Quiet,
            Wait::Reading(_) => event is Reading,
        }
    }

    /// What the script of the demonstration is handed when the actor takes
    /// `event` at `now`, where it is handed anything: the reading it asked
    /// for, or word that its pause is over once the actor goes on after a
    /// look into the mailbox.
    pub open spec fn script_event(self, event: Event, now: int) -> Option<DemoEvent> {
        if !(self.phase is Demonstrating) || !self.takes(event) {
            None
        } else {
            match event {
                Event::Reading(value) => Some(DemoEvent::Reading(value)),
                Event::Request(Command::Stop) => None,
                _ => if self.phase.wakes(now) {
                    Some(DemoEvent::Woken)
                } else {
                    None
                },
            }
        }
    }

    /// Whether `event` at `now` ends a sweep, so that the sensors are
    /// calibrated from the logs: the sweep of a calibration, or that of the
    /// demonstration.
    pub open spec fn completes_sweep(self, event: Event, now: int) -> bool {
        match self.phase {
            PhaseView::Sampling { oscillation, turn, .. } => turn is Right && event is Reading
                && oscillation.due(now),
            PhaseView::Demonstrating { script, .. } => match self.script_event(event, now) {
                Some(handed) => script.completes_sweep(handed, now),
                None => false,
            },
            _ => false,
        }
    }

    /// The logs of the two sensors from which a sweep that `event` ends is
    /// calibrated.
    pub open spec fn logs_with(self, event: Event, now: int) -> (Seq<i64>, Seq<i64>) {
        match self.phase {
            PhaseView::Sampling { left, right, turn, .. } => (
                left.push((turn->Right_0 * SCALE) as i64),
                right.push((event->Reading_0 * SCALE) as i64),
            ),
            PhaseView::Demonstrating { script, .. } => match self.script_event(event, now) {
                Some(handed) => script.logs_with(handed),
                None => (Seq::empty(), Seq::empty()),
            },
            _ => (Seq::empty(), Seq::empty()),
        }
    }

    /// The effects of a reading that was asked for.
    pub open spec fn reading_effects(self, value: u8, now: int, sweep: Sweep) -> Seq<Effect> {
        match self.phase {
            PhaseView::Sampling { oscillation, turn, .. } => if turn is Right && oscillation.due(
                now,
            ) {
                seq![Effect::Halt]
            } else {
                Seq::empty()
            },
            PhaseView::FindingEdge { oscillation, line, .. } => if on_edge(value, line) {
                seq![Effect::Halt]
            } else if oscillation.due(now) {
                seq![Effect::Spin(oscillation.direction.flipped())]
            } else {
                Seq::empty()
            },
            PhaseView::Following { controller, ramp, .. } => {
                let command = controller.stepped(value).command();
                let share = ramp.progress(command.stopped(), now);
                seq![Effect::Drive(command.scaled(Speed::of(share)))]
            },
            PhaseView::Demonstrating { script, .. } => script.effects(
                DemoEvent::Reading(value),
                now,
                sweep,
            ),
            _ => Seq::empty(),
        }
    }

    /// The state after a reading that was asked for. `sweep` holds what the
    /// calibrations give where the reading ends a sweep.
    pub open spec fn after_reading(self, value: u8, now: int, sweep: Sweep) -> ActorView {
        match self.phase {
            PhaseView::Sampling { oscillation, left, right, turn } => match turn {
                Turn::Left => ActorView {
                    phase: PhaseView::Sampling { oscillation, left, right, turn: Turn::Right(value) },
                    ..self
                },
                Turn::Right(_) => if oscillation.due(now) {
                    ActorView {
                        calibration: sweep.left,
                        right_calibration: sweep.right,
                        phase: PhaseView::Idle,
                        ..self
                    }
                } else {
                    ActorView {
                        phase: PhaseView::Sampling {
                            oscillation,
                            left: self.logs_with(Event::Reading(value), now).0,
                            right: self.logs_with(Event::Reading(value), now).1,
                            turn: Turn::Poll,
                        },
                        ..self
                    }
                },
                Turn::Poll => self,
            },
            PhaseView::FindingEdge { oscillation, line, reading } => if on_edge(value, line) {
                ActorView { on_line: true, phase: PhaseView::Idle, ..self }
            } else {
                ActorView {
                    phase: PhaseView::FindingEdge {
                        oscillation: oscillation.stepped(now),
                        line,
                        reading: false,
                    },
                    ..self
                }
            },
            PhaseView::Following { controller, ramp, reading } => {
                let command = controller.stepped(value).command();
                ActorView {
                    phase: PhaseView::Following {
                        controller: controller.stepped(value),
                        ramp: ramp.applied(command.stopped(), now),
                        reading: false,
                    },
                    ..self
                }
            },
            PhaseView::Demonstrating { script, .. } => ActorView {
                phase: PhaseView::demonstrating(
                    script.after(DemoEvent::Reading(value), now, sweep),
                ),
                ..self
            },
            _ => self,
        }
    }

    /// What the actor asks the shell to do when `event` is handed in at the
    /// clock reading `now`, in the order in which it is to be done. `sweep`
    /// holds what the calibrations give where the event ends a sweep; it
    /// plays no part elsewhere.
    pub open spec fn effects(self, event: Event, now: int, sweep: Sweep) -> Seq<Effect> {
        if !self.takes(event) {
            Seq::empty()
        } else {
            match event {
                Event::Request(command) => match self.phase.operation() {
                    None => self.accept_effects(command, now),
                    Some(operation) => if command == Command::Stop {
                        seq![Effect::Halt, Effect::Reply(interruption(operation, command))]
                    } else {
                        seq![Effect::Reply(interruption(operation, command))]
                            + self.phase.resume_effects(now, sweep)
                    },
                },
                Event::Quiet => self.phase.resume_effects(now, sweep),
                Event::Reading(value) => self.reading_effects(value, now, sweep),
            }
        }
    }

    /// The state after `event` is handed in at the clock reading `now`.
    /// `sweep` holds what the calibrations give where the event ends a sweep;
    /// it plays no part elsewhere.
    pub open spec fn after(self, event: Event, now: int, sweep: Sweep) -> ActorView {
        if !self.takes(event) {
            self
        } else {
            match event {
                Event::Request(command) => match self.phase.operation() {
                    None => self.accepted(command, now),
                    Some(operation) => if command == Command::Stop {
                        self.cancelled()
                    } else {
                        ActorView { phase: self.phase.resumed(now, sweep), ..self }
                    },
                },
                Event::Quiet => ActorView { phase: self.phase.resumed(now, sweep), ..self },
                Event::Reading(value) => self.after_reading(value, now, sweep),
            }
        }
    }
}

/// What the actor is doing.
#[derive(Debug)]
enum Phase {
    Idle,
    Settling(ActiveOscillation),
    Sampling(ActiveOscillation, SingleSensorCalibration, SingleSensorCalibration, Turn),
    FindingEdge(ActiveOscillation, u8, bool),
    Following(FollowLineState, LinearAcceleration, bool),
    Demonstrating(DemoScript, Option<u64>, Option<Sensors>),
}

impl View for Phase {
    type V = PhaseView;

    closed spec fn view(&self) -> PhaseView {
        match *self {
            Phase::Idle => PhaseView::Idle,
            Phase::Settling(oscillation) => PhaseView::Settling { oscillation: oscillation@ },
            Phase::Sampling(oscillation, left, right, turn) => PhaseView::Sampling {
                oscillation: oscillation@,
                left: left@,
                right: right@,
                turn,
            },
            Phase::FindingEdge(oscillation, line, reading) => PhaseView::FindingEdge {
                oscillation: oscillation@,
                line,
                reading,
            },
            Phase::Following(controller, ramp, reading) => PhaseView::Following {
                controller: controller@,
                ramp: ramp@,
                reading,
            },
            Phase::Demonstrating(script, deadline, sensor) => PhaseView::Demonstrating {
                script: script@,
                deadline: match deadline {
                    Some(at) => Some(at as int),
                    None => None,
                },
                sensor,
            },
        }
    }
}

/// The command actor.
#[derive(Debug)]
pub struct Actor {
    calibration: Option<SensorCalibration>,
    right_calibration: Option<SensorCalibration>,
    on_line: bool,
    phase: Phase,
}

impl View for Actor {
    type V = ActorView;

    closed spec fn view(&self) -> ActorView {
        ActorView {
            calibration: self.calibration,
            right_calibration: self.right_calibration,
            on_line: self.on_line,
            phase: self.phase@,
        }
    }
}

/// Whether a raw reading lies within the tolerance of the level of the line.
fn reading_on_edge(reading: u8, line: u8) -> (found: bool)
    ensures
        found == on_edge(reading, line),
{
    let gap: i16 = reading as i16 - line as i16;
    -(EDGE_TOLERANCE as i16) < gap && gap < EDGE_TOLERANCE as i16
}

/// The phase once the script of the demonstration has taken a step.
fn demonstrate(script: DemoScript) -> (phase: Phase)
    ensures
        phase@ == PhaseView::demonstrating(script@),
{
    if script.is_finished() || script.has_failed() {
        Phase::Idle
    } else {
        Phase::Demonstrating(script, None, None)
    }
}

impl Actor {
    /// An actor that has done nothing yet: no calibration, off the line,
    /// nothing under way.
    pub fn new() -> (actor: Actor)
        ensures
            actor@ == ActorView::fresh(),
    {
        Actor { calibration: None, right_calibration: None, on_line: false, phase: Phase::Idle }
    }

    /// The calibration of the left sensor, where one was made.
    pub fn calibration(&self) -> (calibration: Option<SensorCalibration>)
        ensures
            calibration == self@.calibration,
    {
        self.calibration
    }

    /// The calibration of the right sensor, where one was made.
    pub fn right_calibration(&self) -> (calibration: Option<SensorCalibration>)
        ensures
            calibration == self@.right_calibration,
    {
        self.right_calibration
    }

    /// Whether the robot stands on the edge of the line.
    pub fn on_line(&self) -> (on_line: bool)
        ensures
            on_line == self@.on_line,
    {
        self.on_line
    }

    /// The operation under way, named by the request that began it.
    pub fn operation(&self) -> (operation: Option<Command>)
        ensures
            operation == self@.phase.operation(),
    {
        match &self.phase {
            Phase::Idle => None,
            Phase::Settling(_) => Some(Command::Calibrate),
            Phase::Sampling(_, _, _, _) => Some(Command::Calibrate),
            Phase::FindingEdge(_, _, _) => Some(Command::FindEdge),
            Phase::Following(_, _, _) => Some(Command::FollowLine),
            Phase::Demonstrating(_, _, _) => Some(Command::Demo),
        }
    }

    /// What the shell is to bring next.
    pub fn awaits(&self) -> (wait: Wait)
        ensures
            wait == self@.phase.awaits(),
    {
        match &self.phase {
            Phase::Idle => Wait::Request,
            Phase::Settling(_) => Wait::Poll,
            Phase::Sampling(_, _, _, turn) => match turn {
                Turn::Poll => Wait::Poll,
                Turn::Left => Wait::Reading(Sensors::Left),
                Turn::Right(_) => Wait::Reading(Sensors::Right),
            },
            Phase::FindingEdge(_, _, reading) => if *reading {
                Wait::Reading(Sensors::Right)
            } else {
                Wait::Poll
            },
            Phase::Following(_, _, reading) => if *reading {
                Wait::Reading(Sensors::Left)
            } else {
                Wait::Poll
            },
            Phase::Demonstrating(_, _, sensor) => match sensor {
                Some(sensor) => Wait::Reading(*sensor),
                None => Wait::Poll,
            },
        }
    }

    /// Takes a request that finds nothing under way.
    fn accept(&mut self, command: Command, now: u64) -> (effects: Vec<Effect>)
        requires
            old(self)@.phase is Idle,
        ensures
            effects@ == old(self)@.accept_effects(command, now as int),
            final(self)@ == old(self)@.accepted(command, now as int),
    {
        let answer = arbitrate(command, self.calibration, self.on_line);
        let mut effects: Vec<Effect> = Vec::new();
        match command {
            Command::Stop => {
                effects.push(Effect::Halt);
                effects.push(Effect::Reply(answer));
            },
            Command::LiftUp => {
                effects.push(Effect::HaltIfPossible);
                effects.push(Effect::Reply(answer));
                effects.push(Effect::LiftUp(Speed::new_clamp(LIFT_SPEED)));
            },
            Command::LiftDown => {
                effects.push(Effect::HaltIfPossible);
                effects.push(Effect::Reply(answer));
                effects.push(Effect::LiftDown(Speed::new_clamp(LIFT_SPEED)));
            },
            Command::Demo => {
                let (script, mut first) = DemoScript::begin(now);
                effects.push(Effect::Reply(answer));
                effects.append(&mut first);
                self.on_line = false;
                self.phase = Phase::Demonstrating(script, None, None);
            },
            Command::Calibrate => {
                let direction = SpinDirection::Left(Speed::new_clamp(SWEEP_SPEED));
                let sweep = Oscillate::new(SWEEP_DWELL, direction, GROWTH);
                effects.push(Effect::Reply(answer));
                effects.push(Effect::Spin(direction));
                self.on_line = false;
                self.phase = Phase::Settling(sweep.begin(now));
            },
            Command::FindEdge => {
                effects.push(Effect::Reply(answer));
                match self.calibration {
                    Some(calibration) => {
                        let direction = SpinDirection::Left(Speed::new_clamp(CRUISE_SPEED));
                        let search = Oscillate::new(SEARCH_DWELL, direction, GROWTH);
                        effects.push(Effect::Spin(direction));
                        self.phase = Phase::FindingEdge(search.begin(now), calibration.line, false);
                    },
                    None => {},
                }
            },
            Command::FollowLine => {
                effects.push(Effect::Reply(answer));
                if self.on_line {
                    match self.calibration {
                        Some(calibration) => {
                            self.phase = Phase::Following(
                                FollowLineState::new(FollowLineConfig::cruise(calibration)),
                                LinearAcceleration::new(RAMP_TIME),
                                false,
                            );
                        },
                        None => {},
                    }
                }
            },
        }
        assert(effects@ =~= old(self)@.accept_effects(command, now as int));
        effects
    }

    /// Goes on with the operation once the look into the mailbox is over.
    fn resume(phase: Phase, now: u64, effects: &mut Vec<Effect>) -> (r: (Phase, Ghost<Sweep>))
        ensures
            r.0@ == phase@.resumed(now as int, r.1@),
            final(effects)@ == old(effects)@ + phase@.resume_effects(now as int, r.1@),
            phase@ is Demonstrating && phase@.wakes(now as int)
                && phase@->Demonstrating_script.completes_sweep(DemoEvent::Woken, now as int)
                ==> r.1@.from_logs(
                phase@->Demonstrating_script.logs_with(DemoEvent::Woken).0,
                phase@->Demonstrating_script.logs_with(DemoEvent::Woken).1,
            ),
    {
        let ghost mut sweep = Sweep { left: None, right: None };
        let next = match phase {
            Phase::Idle => Phase::Idle,
            Phase::Settling(mut oscillation) => {
                match oscillation.advance(now) {
                    Some(direction) => {
                        effects.push(Effect::Spin(direction));
                        Phase::Sampling(
                            oscillation,
                            SingleSensorCalibration::new(),
                            SingleSensorCalibration::new(),
                            Turn::Poll,
                        )
                    },
                    None => Phase::Settling(oscillation),
                }
            },
            Phase::Sampling(oscillation, left, right, _) => Phase::Sampling(
                oscillation,
                left,
                right,
                Turn::Left,
            ),
            Phase::FindingEdge(oscillation, line, _) => Phase::FindingEdge(oscillation, line, true),
            Phase::Following(controller, ramp, _) => Phase::Following(controller, ramp, true),
            Phase::Demonstrating(mut script, deadline, sensor) => match script.awaits(now) {
                DemoWait::Reading(wanted) => Phase::Demonstrating(script, None, Some(wanted)),
                DemoWait::Pause(length) => {
                    let end = match deadline {
                        Some(at) => at,
                        None => if length > u64::MAX - now {
                            u64::MAX
                        } else {
                            now + length
                        },
                    };
                    if sensor.is_none() && now >= end {
                        let ghost before = script@;
                        let mut more = script.step(DemoEvent::Woken, now);
                        proof {
                            sweep = choose|sweep: Sweep|
                                {
                                    &&& more@ == #[trigger] before.effects(
                                        DemoEvent::Woken,
                                        now as int,
                                        sweep,
                                    )
                                    &&& script@ == before.after(DemoEvent::Woken, now as int, sweep)
                                    &&& before.completes_sweep(DemoEvent::Woken, now as int)
                                        ==> sweep.from_logs(
                                        before.logs_with(DemoEvent::Woken).0,
                                        before.logs_with(DemoEvent::Woken).1,
                                    )
                                };
                        }
                        effects.append(&mut more);
                        demonstrate(script)
                    } else {
                        Phase::Demonstrating(script, Some(end), None)
                    }
                },
                DemoWait::Nothing => Phase::Idle,
            },
        };
        assert(effects@ =~= old(effects)@ + phase@.resume_effects(now as int, sweep));
        (next, Ghost(sweep))
    }

    /// Takes in a reading that was asked for.
    fn read(&mut self, phase: Phase, value: u8, now: u64) -> (r: (Vec<Effect>, Ghost<Sweep>))
        requires
            old(self)@.phase is Idle,
            phase@.awaits() is Reading,
        ensures
            r.0@ == (ActorView { phase: phase@, ..old(self)@ }).reading_effects(
                value,
                now as int,
                r.1@,
            ),
            final(self)@ == (ActorView { phase: phase@, ..old(self)@ }).after_reading(
                value,
                now as int,
                r.1@,
            ),
            (ActorView { phase: phase@, ..old(self)@ }).completes_sweep(
                Event::Reading(value),
                now as int,
            ) ==> r.1@.from_logs(
                (ActorView { phase: phase@, ..old(self)@ }).logs_with(
                    Event::Reading(value),
                    now as int,
                ).0,
                (ActorView { phase: phase@, ..old(self)@ }).logs_with(
                    Event::Reading(value),
                    now as int,
                ).1,
            ),
    {
        let ghost before = ActorView { phase: phase@, ..self@ };
        let ghost mut sweep = Sweep { left: None, right: None };
        let mut effects: Vec<Effect> = Vec::new();
        match phase {
            Phase::Idle => {},
            Phase::Settling(oscillation) => {
                self.phase = Phase::Settling(oscillation);
            },
            Phase::Sampling(oscillation, mut left, mut right, turn) => match turn {
                Turn::Poll => {
                    self.phase = Phase::Sampling(oscillation, left, right, turn);
                },
                Turn::Left => {
                    self.phase = Phase::Sampling(oscillation, left, right, Turn::Right(value));
                },
                Turn::Right(first) => {
                    left.log(first as i64 * SCALE);
                    right.log(value as i64 * SCALE);
                    if oscillation.should_step(now) {
                        effects.push(Effect::Halt);
                        let outcome = calibrate_both(left, right);
                        self.calibration = outcome.left;
                        self.right_calibration = outcome.right;
                        proof {
                            sweep = outcome;
                        }
                    } else {
                        self.phase = Phase::Sampling(oscillation, left, right, Turn::Poll);
                    }
                },
            },
            Phase::FindingEdge(mut oscillation, line, _) => {
                if reading_on_edge(value, line) {
                    effects.push(Effect::Halt);
                    self.on_line = true;
                } else {
                    match oscillation.advance(now) {
                        Some(direction) => {
                            effects.push(Effect::Spin(direction));
                        },
                        None => {},
                    }
                    self.phase = Phase::FindingEdge(oscillation, line, false);
                }
            },
            Phase::Following(mut controller, mut ramp, _) => {
                let direction = controller.step(value);
                let direction = ramp.apply(direction, now);
                effects.push(Effect::Drive(direction));
                self.phase = Phase::Following(controller, ramp, false);
            },
            Phase::Demonstrating(mut script, _, _) => {
                let ghost stage = script@;
                effects = script.step(DemoEvent::Reading(value), now);
                proof {
                    sweep = choose|sweep: Sweep|
                        {
                            &&& effects@ == #[trigger] stage.effects(
                                DemoEvent::Reading(value),
                                now as int,
                                sweep,
                            )
                            &&& script@ == stage.after(DemoEvent::Reading(value), now as int, sweep)
                            &&& stage.completes_sweep(DemoEvent::Reading(value), now as int)
                                ==> sweep.from_logs(
                                stage.logs_with(DemoEvent::Reading(value)).0,
                                stage.logs_with(DemoEvent::Reading(value)).1,
                            )
                        };
                }
                self.phase = demonstrate(script);
            },
        }
        assert(effects@ =~= before.reading_effects(value, now as int, sweep));
        (effects, Ghost(sweep))
    }

    /// Takes in `event` at the clock reading `now` and returns what the
    /// shell is to do, in order. An event that the actor does not wait for
    /// is passed over: nothing changes and nothing is to be done.
    ///
    /// A sweep that ends calibrates both sensors from what was logged. Where
    /// a log holds fewer than two distinct readings, that sensor is left
    /// without calibration: after a calibration the requests that need one
    /// are turned down until a later calibration succeeds, and the
    /// demonstration ends with the robot stopped.
    pub fn step(&mut self, event: Event, now: u64) -> (effects: Vec<Effect>)
        ensures
            exists|sweep: Sweep|
                {
                    &&& effects@ == #[trigger] old(self)@.effects(event, now as int, sweep)
                    &&& final(self)@ == old(self)@.after(event, now as int, sweep)
                    &&& old(self)@.completes_sweep(event, now as int) ==> sweep.from_logs(
                        old(self)@.logs_with(event, now as int).0,
                        old(self)@.logs_with(event, now as int).1,
                    )
                },
    {
        let wait = self.awaits();
        let operation = self.operation();
        let ghost mut sweep = Sweep { left: None, right: None };
        let mut phase = Phase::Idle;
        core::mem::swap(&mut self.phase, &mut phase);
        let effects = match (wait, event) {
            (Wait::Request, Event::Request(command)) => self.accept(command, now),
            (Wait::Poll, Event::Request(command)) => {
                let mut effects: Vec<Effect> = Vec::new();
                let operation = operation.unwrap();
                let answer = interrupt(operation, command);
                match command {
                    Command::Stop => {
                        effects.push(Effect::Halt);
                        effects.push(Effect::Reply(answer));
                        match operation {
                            Command::FindEdge => {
                                self.on_line = false;
                            },
                            _ => {},
                        }
                    },
                    _ => {
                        effects.push(Effect::Reply(answer));
                        let (next, outcome) = Actor::resume(phase, now, &mut effects);
                        self.phase = next;
                        proof {
                            sweep = outcome@;
                        }
                    },
                }
                effects
            },
            (Wait::Poll, Event::Quiet) => {
                let mut effects: Vec<Effect> = Vec::new();
                let (next, outcome) = Actor::resume(phase, now, &mut effects);
                self.phase = next;
                proof {
                    sweep = outcome@;
                }
                effects
            },
            (Wait::Reading(_), Event::Reading(value)) => {
                let (effects, outcome) = self.read(phase, value, now);
                proof {
                    sweep = outcome@;
                }
                effects
            },
            _ => {
                self.phase = phase;
                Vec::new()
            },
        };
        proof {
            assert(effects@ =~= old(self)@.effects(event, now as int, sweep));
            assert(self@ == old(self)@.after(event, now as int, sweep));
        }
        effects
    }
}

/// An actor that has done nothing yet turns a request to follow the line
/// down, asks for the search for the edge first, and stays as it is.
pub proof fn fresh_actor_asks_for_edge(now: int, sweep: Sweep)
    ensures
        ActorView::fresh().effects(Event::Request(Command::FollowLine), now, sweep) == seq![
            Effect::Reply(Err(CommandDenied::Required(Command::FindEdge))),
        ],
        ActorView::fresh().after(Event::Request(Command::FollowLine), now, sweep)
            == ActorView::fresh(),
{
}

/// The robot is taken to be on the line only where the left sensor is
/// calibrated: a fresh actor is in such a state, and no event leads out of
/// such states, whatever a calibration gives.
pub proof fn on_line_needs_calibration(actor: ActorView, event: Event, now: int, sweep: Sweep)
    requires
        actor.wf(),
    ensures
        actor.after(event, now, sweep).wf(),
        ActorView::fresh().wf(),
{
}

/// While an operation is under way, a request other than a stop is turned
/// down as busy with the name of the operation, before anything else is
/// done. The actor goes on as if the mailbox had been empty, and the
/// calibration and whether the robot is on the line stay as they are.
pub proof fn busy_actor_turns_down(actor: ActorView, command: Command, now: int, sweep: Sweep)
    requires
        actor.phase.awaits() is Poll,
        command != Command::Stop,
    ensures
        actor.phase.operation() is Some,
        actor.effects(Event::Request(command), now, sweep)[0] == Effect::Reply(
            Err(CommandDenied::Busy(actor.phase.operation()->Some_0)),
        ),
        actor.effects(Event::Request(command), now, sweep).skip(1) == actor.effects(
            Event::Quiet,
            now,
            sweep,
        ),
        actor.after(Event::Request(command), now, sweep) == actor.after(Event::Quiet, now, sweep),
        actor.after(Event::Request(command), now, sweep).calibration == actor.calibration,
        actor.after(Event::Request(command), now, sweep).on_line == actor.on_line,
{
    let refusal = seq![Effect::Reply(interruption(actor.phase.operation()->Some_0, command))];
    let rest = actor.phase.resume_effects(now, sweep);
    assert((refusal + rest).skip(1) =~= rest);
}

/// A request that is turned down as busy does not end the operation, unless
/// the operation ends of itself at that moment: the script of the
/// demonstration may come to its end there.
pub proof fn busy_actor_goes_on(actor: ActorView, command: Command, now: int, sweep: Sweep)
    requires
        actor.phase.awaits() is Poll,
        command != Command::Stop,
        !(actor.phase is Demonstrating),
    ensures
        actor.after(Event::Request(command), now, sweep).phase.operation()
            == actor.phase.operation(),
{
}

/// The mailbox is looked into before each unit of work: a reading that is
/// taken in is followed by a look into the mailbox, unless it ends the
/// operation or is the left one of the two readings of a sample.
pub proof fn mailbox_seen_between_units_of_work(actor: ActorView, value: u8, now: int, sweep: Sweep)
    requires
        actor.takes(Event::Reading(value)),
    ensures
        actor.phase.operation() is Some,
        ({
            let next = actor.after(Event::Reading(value), now, sweep).phase;
            ||| next.awaits() is Poll
            ||| next is Idle
            ||| (actor.phase.awaits() == Wait::Reading(Sensors::Left) && actor.phase.operation()
                == Some(Command::Calibrate) && next.awaits() == Wait::Reading(Sensors::Right))
        }),
{
}

/// A stop is accepted wherever the actor takes requests. While an operation
/// is under way it stops the motors, names the operation that it ended, and
/// leaves nothing under way; with nothing under way it stops the motors and
/// names itself.
pub proof fn stop_is_always_accepted(actor: ActorView, now: int, sweep: Sweep)
    requires
        actor.takes(Event::Request(Command::Stop)),
    ensures
        actor.effects(Event::Request(Command::Stop), now, sweep) == seq![
            Effect::Halt,
            Effect::Reply(
                Ok(
                    match actor.phase.operation() {
                        Some(operation) => operation,
                        None => Command::Stop,
                    },
                ),
            ),
        ],
        actor.after(Event::Request(Command::Stop), now, sweep).phase is Idle,
        actor.after(Event::Request(Command::Stop), now, sweep).calibration == actor.calibration,
{
}

/// An operation is begun only where its request is answered with an
/// acceptance, and the answer is given before any work of the operation.
pub proof fn accepted_before_begun(actor: ActorView, command: Command, now: int, sweep: Sweep)
    requires
        actor.phase is Idle,
        command == Command::Calibrate || command == Command::FindEdge || command
            == Command::FollowLine || command == Command::Demo,
    ensures
        actor.effects(Event::Request(command), now, sweep)[0] == Effect::Reply(
            arbitration(command, actor.calibration, actor.on_line),
        ),
        arbitration(command, actor.calibration, actor.on_line) is Ok <==> actor.after(
            Event::Request(command),
            now,
            sweep,
        ).phase.operation() == Some(command),
        arbitration(command, actor.calibration, actor.on_line) is Err ==> actor.after(
            Event::Request(command),
            now,
            sweep,
        ) == actor,
{
}

} // verus!
