use logbot::directions::{SpinDirection, VehicleDirection};
use logbot::interfaces::{Drive, Spin};
use logbot::oscillate::{ActiveOscillation, Oscillate};
use logbot::speed::Speed;

const MILLI: u64 = 1_000_000;

/// A vehicle that writes down the spins it is told, and fails on demand.
struct Recorder {
    spins: Vec<SpinDirection>,
    broken: bool,
}

impl Recorder {
    fn new() -> Self {
        Recorder { spins: Vec::new(), broken: false }
    }
}

impl Drive for Recorder {
    type Direction = VehicleDirection;
    type Error = &'static str;

    fn drive(&mut self, _: VehicleDirection) -> Result<Option<VehicleDirection>, &'static str> {
        Ok(None)
    }

    fn stop(&mut self) -> Result<Option<VehicleDirection>, &'static str> {
        Ok(None)
    }
}

impl Spin for Recorder {
    type SpinDirection = SpinDirection;

    fn spin(&mut self, direction: SpinDirection) -> Result<Option<VehicleDirection>, &'static str> {
        if self.broken {
            return Err("no power");
        }
        self.spins.push(direction);
        Ok(None)
    }
}

fn left() -> SpinDirection {
    SpinDirection::Left(Speed::half())
}

fn right() -> SpinDirection {
    SpinDirection::Right(Speed::half())
}

#[test]
fn start_spins_in_the_first_direction() {
    let mut vehicle = Recorder::new();
    let settings = Oscillate::new(1000 * MILLI, left(), 2);
    assert_eq!(settings.first_spin(), left());
    let active = settings.start(&mut vehicle, 5 * MILLI).unwrap();
    assert_eq!(vehicle.spins, vec![left()]);
    assert_eq!(active.direction(), left());
    assert_eq!(active.duration(), 1000 * MILLI);
    assert!(!active.should_step(5 * MILLI));
}

#[test]
fn start_fails_with_the_error_of_the_vehicle() {
    let mut vehicle = Recorder::new();
    vehicle.broken = true;
    let settings = Oscillate::new(1000 * MILLI, left(), 2);
    assert_eq!(settings.start(&mut vehicle, 0).err(), Some("no power"));
}

#[test]
fn should_step_holds_from_the_dwell_time_on() {
    let active = Oscillate::new(1000 * MILLI, left(), 2).begin(100 * MILLI);
    assert!(!active.should_step(100 * MILLI));
    assert!(!active.should_step(1100 * MILLI - 1));
    assert!(active.should_step(1100 * MILLI));
    assert!(active.should_step(u64::MAX));
    // a clock reading before the start counts as no time gone by
    assert!(!active.should_step(0));
}

#[test]
fn next_oscillation_counts_down_to_nothing() {
    let active = Oscillate::new(1000 * MILLI, left(), 2).begin(100 * MILLI);
    assert_eq!(active.next_oscillation(100 * MILLI), 1000 * MILLI);
    assert_eq!(active.next_oscillation(400 * MILLI), 700 * MILLI);
    assert_eq!(active.next_oscillation(1100 * MILLI), 0);
    assert_eq!(active.next_oscillation(5000 * MILLI), 0);
    assert_eq!(active.next_oscillation(0), 1000 * MILLI);
}

#[test]
fn step_switches_when_due_and_lets_the_dwell_time_grow() {
    let mut vehicle = Recorder::new();
    let mut active = Oscillate::new(1000 * MILLI, left(), 2)
        .start(&mut vehicle, 0)
        .unwrap();

    assert_eq!(active.step(&mut vehicle, 999 * MILLI), Ok(false));
    assert_eq!(active.direction(), left());
    assert_eq!(active.duration(), 1000 * MILLI);
    assert_eq!(vehicle.spins, vec![left()]);

    assert_eq!(active.step(&mut vehicle, 1000 * MILLI), Ok(true));
    assert_eq!(active.direction(), right());
    assert_eq!(active.duration(), 2000 * MILLI);
    assert_eq!(vehicle.spins, vec![left(), right()]);
    assert!(!active.should_step(1000 * MILLI));
    assert!(!active.should_step(2999 * MILLI));
    assert!(active.should_step(3000 * MILLI));

    assert_eq!(active.step(&mut vehicle, 3500 * MILLI), Ok(true));
    assert_eq!(active.direction(), left());
    assert_eq!(active.duration(), 4000 * MILLI);
    assert!(!active.should_step(3500 * MILLI));
    assert_eq!(active.next_oscillation(3500 * MILLI), 4000 * MILLI);
}

#[test]
fn advance_returns_the_spin_to_command() {
    let mut active = Oscillate::new(10, right(), 3).begin(0);
    assert_eq!(active.advance(9), None);
    assert_eq!(active.advance(10), Some(left()));
    assert_eq!(active.duration(), 30);
    assert_eq!(active.advance(39), None);
    assert_eq!(active.advance(40), Some(right()));
    assert_eq!(active.duration(), 90);
}

#[test]
fn a_multiplier_of_one_keeps_the_dwell_time() {
    let mut active = Oscillate::new(10, right(), 1).begin(0);
    assert_eq!(active.advance(10), Some(left()));
    assert_eq!(active.duration(), 10);
}

#[test]
fn the_dwell_time_stops_at_the_greatest_number() {
    let mut active = Oscillate::new(u64::MAX / 2 + 1, right(), 2).begin(0);
    assert_eq!(active.advance(u64::MAX), Some(left()));
    assert_eq!(active.duration(), u64::MAX);
}

#[test]
fn a_failed_spin_leaves_the_oscillation_switched() {
    let mut vehicle = Recorder::new();
    let mut active = Oscillate::new(10, left(), 2).start(&mut vehicle, 0).unwrap();
    vehicle.broken = true;
    assert_eq!(active.step(&mut vehicle, 5), Ok(false));
    assert_eq!(active.step(&mut vehicle, 10), Err("no power"));
    assert_eq!(active.direction(), right());
    assert_eq!(active.duration(), 20);
}

#[test]
fn an_oscillation_begins_only_where_the_spin_came_through() {
    let settings = Oscillate::new(10, left(), 2);
    let begun = settings.started(Ok::<(), u8>(()), 7).unwrap();
    assert_eq!(begun.direction(), left());
    assert!(!begun.should_step(16));
    assert!(begun.should_step(17));
    assert_eq!(settings.started(Err::<(), u8>(3), 7).err(), Some(3));
}

#[test]
fn a_step_reports_the_switch_or_the_failure() {
    assert_eq!(ActiveOscillation::reported(None::<Result<(), u8>>), Ok(false));
    assert_eq!(ActiveOscillation::reported(Some(Ok::<(), u8>(()))), Ok(true));
    assert_eq!(ActiveOscillation::reported(Some(Err::<(), u8>(9))), Err(9));
}
