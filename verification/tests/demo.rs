use logbot::calibration::SensorCalibration;
use logbot::consts::Sensors;
use logbot::demo::{DemoEvent, DemoScript, DemoWait, Levels};
use logbot::directions::{MotorDirection, SpinDirection, VehicleDirection};
use logbot::effect::Effect;
use logbot::speed::Speed;

const MILLI: u64 = 1_000_000;
const MICRO: u64 = 1_000;

fn speed(units: i64) -> Speed {
    Speed::new(units).unwrap()
}

/// A script that has swept over the floor and the line and now searches the
/// edge, with the clock reading at that moment. Every second reading goes to
/// the log of the right sensor.
fn swept() -> (DemoScript, u64) {
    let (mut script, effects) = DemoScript::begin(0);
    assert_eq!(
        effects,
        vec![Effect::Spin(SpinDirection::Left(speed(80_000)))]
    );
    assert_eq!(script.awaits(0), DemoWait::Pause(500 * MILLI));
    assert_eq!(script.awaits(200 * MILLI), DemoWait::Pause(300 * MILLI));
    assert_eq!(
        script.step(DemoEvent::Woken, 500 * MILLI),
        vec![Effect::Spin(SpinDirection::Right(speed(80_000)))]
    );
    let mut now = 500 * MILLI;
    let mut on_line = false;
    loop {
        now += 100 * MILLI;
        let (first, second) = if on_line { (200, 210) } else { (20, 30) };
        on_line = !on_line;
        assert_eq!(script.awaits(now), DemoWait::Reading(Sensors::Left));
        assert_eq!(script.step(DemoEvent::Reading(first), now), vec![]);
        assert_eq!(script.awaits(now), DemoWait::Reading(Sensors::Left));
        let effects = script.step(DemoEvent::Reading(second), now);
        if now >= 1500 * MILLI {
            assert_eq!(
                effects,
                vec![
                    Effect::Halt,
                    Effect::Spin(SpinDirection::Left(speed(100_000))),
                ]
            );
            break;
        }
        assert_eq!(effects, vec![]);
    }
    (script, now)
}

/// Follows the line until the stop line and returns the last effects.
fn follow_to_stop_line(script: &mut DemoScript, now: &mut u64) -> Vec<Effect> {
    assert_eq!(script.awaits(*now), DemoWait::Pause(200 * MILLI));
    *now += 200 * MILLI;
    assert_eq!(script.step(DemoEvent::Woken, *now), vec![]);
    // The first command finds the ramp at nothing.
    assert_eq!(script.awaits(*now), DemoWait::Reading(Sensors::Left));
    assert_eq!(script.step(DemoEvent::Reading(110), *now), vec![]);
    assert_eq!(script.awaits(*now), DemoWait::Reading(Sensors::Right));
    assert_eq!(
        script.step(DemoEvent::Reading(20), *now),
        vec![Effect::Drive(VehicleDirection::forward(speed(0)))]
    );
    // After the ramp: on the setpoint, straight ahead at the default speed.
    *now += 2000 * MILLI;
    script.step(DemoEvent::Reading(110), *now);
    assert_eq!(
        script.step(DemoEvent::Reading(20), *now),
        vec![Effect::Drive(VehicleDirection::forward(speed(100_000)))]
    );
    // Only one sensor on the line is no stop line. The left reading is the
    // level of the line itself: error 90, change 90, control 0.135.
    script.step(DemoEvent::Reading(200), *now);
    assert_eq!(
        script.step(DemoEvent::Reading(209), *now),
        vec![Effect::Drive(VehicleDirection::new(
            MotorDirection::Backward(speed(35_000)),
            MotorDirection::Forward(speed(235_000)),
        ))]
    );
    script.step(DemoEvent::Reading(200), *now);
    script.step(DemoEvent::Reading(210), *now)
}

/// Spins until the right sensor shows the edge.
fn search(script: &mut DemoScript, now: &mut u64) {
    assert_eq!(script.awaits(*now), DemoWait::Reading(Sensors::Right));
    assert_eq!(script.step(DemoEvent::Reading(208), *now), vec![]);
    assert_eq!(script.awaits(*now), DemoWait::Pause(300 * MICRO));
    // A reading is not taken while the script rests.
    assert_eq!(script.step(DemoEvent::Reading(255), *now), vec![]);
    assert_eq!(script.awaits(*now), DemoWait::Pause(300 * MICRO));
    *now += 300 * MICRO;
    assert_eq!(script.step(DemoEvent::Woken, *now), vec![]);
    assert_eq!(script.awaits(*now), DemoWait::Reading(Sensors::Right));
    assert_eq!(
        script.step(DemoEvent::Reading(209), *now),
        vec![Effect::Halt]
    );
}

#[test]
fn the_sweep_gives_the_levels_of_both_sensors() {
    let (script, _) = swept();
    assert_eq!(
        script.levels(),
        Some(Levels {
            left: SensorCalibration::new(200, 20),
            right: SensorCalibration::new(210, 30),
        })
    );
    assert!(!script.is_finished());
    assert!(!script.has_failed());
}

#[test]
fn a_constant_sweep_ends_the_script_early() {
    let (mut script, _) = DemoScript::begin(0);
    script.step(DemoEvent::Woken, 500 * MILLI);
    script.step(DemoEvent::Reading(20), 600 * MILLI);
    script.step(DemoEvent::Reading(200), 600 * MILLI);
    script.step(DemoEvent::Reading(20), 1500 * MILLI);
    assert_eq!(
        script.step(DemoEvent::Reading(200), 1500 * MILLI),
        vec![Effect::Halt]
    );
    assert!(script.has_failed());
    assert!(!script.is_finished());
    assert_eq!(script.levels(), None);
    assert_eq!(script.awaits(1500 * MILLI), DemoWait::Nothing);
    assert_eq!(script.step(DemoEvent::Woken, 1600 * MILLI), vec![]);
    assert_eq!(script.step(DemoEvent::Reading(1), 1600 * MILLI), vec![]);
    assert!(script.has_failed());
}

#[test]
fn waking_early_does_not_switch_but_sampling_begins() {
    let (mut script, _) = DemoScript::begin(0);
    assert_eq!(script.step(DemoEvent::Reading(3), 100 * MILLI), vec![]);
    assert_eq!(script.awaits(100 * MILLI), DemoWait::Pause(400 * MILLI));
    assert_eq!(script.step(DemoEvent::Woken, 400 * MILLI), vec![]);
    assert_eq!(script.awaits(400 * MILLI), DemoWait::Reading(Sensors::Left));
    // The first spin is still under way and ends the sampling when it is due.
    script.step(DemoEvent::Reading(20), 450 * MILLI);
    assert_eq!(script.step(DemoEvent::Reading(200), 450 * MILLI), vec![]);
    script.step(DemoEvent::Reading(30), 500 * MILLI);
    assert_eq!(
        script.step(DemoEvent::Reading(210), 500 * MILLI),
        vec![
            Effect::Halt,
            Effect::Spin(SpinDirection::Left(speed(100_000))),
        ]
    );
    assert_eq!(
        script.levels(),
        Some(Levels {
            left: SensorCalibration::new(30, 20),
            right: SensorCalibration::new(210, 200),
        })
    );
}

#[test]
fn the_script_runs_from_the_sweep_to_the_load_and_back() {
    let (mut script, mut now) = swept();

    // The way out.
    search(&mut script, &mut now);
    assert_eq!(
        follow_to_stop_line(&mut script, &mut now),
        vec![
            Effect::Halt,
            Effect::LiftUp(speed(500_000)),
            Effect::Spin(SpinDirection::Right(speed(80_000))),
        ]
    );

    // The turn: a second of grace, then until the left sensor shows the
    // line, three below its level at the least.
    assert_eq!(script.awaits(now), DemoWait::Pause(1000 * MILLI));
    assert_eq!(script.step(DemoEvent::Reading(20), now), vec![]);
    now += 1000 * MILLI;
    assert_eq!(script.step(DemoEvent::Woken, now), vec![]);
    assert_eq!(script.awaits(now), DemoWait::Reading(Sensors::Left));
    assert_eq!(script.step(DemoEvent::Reading(196), now), vec![]);
    assert_eq!(script.awaits(now), DemoWait::Pause(300 * MICRO));
    now += 300 * MICRO;
    assert_eq!(script.step(DemoEvent::Woken, now), vec![]);
    assert_eq!(script.step(DemoEvent::Reading(197), now), vec![Effect::Halt]);
    assert_eq!(script.awaits(now), DemoWait::Pause(200 * MILLI));
    now += 200 * MILLI;
    assert_eq!(
        script.step(DemoEvent::Woken, now),
        vec![Effect::Spin(SpinDirection::Left(speed(100_000)))]
    );

    // The way back.
    search(&mut script, &mut now);
    assert!(!script.is_finished());
    assert_eq!(
        follow_to_stop_line(&mut script, &mut now),
        vec![Effect::Halt, Effect::LiftDown(speed(500_000))]
    );
    assert!(script.is_finished());
    assert!(!script.has_failed());
    assert_eq!(script.levels(), None);
    assert_eq!(script.awaits(now), DemoWait::Nothing);
    assert_eq!(script.step(DemoEvent::Woken, now), vec![]);
    assert_eq!(script.step(DemoEvent::Reading(200), now), vec![]);
    assert!(script.is_finished());
}
