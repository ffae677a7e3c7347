use logbot::calibration::SensorCalibration;
use logbot::directions::{MotorDirection, VehicleDirection};
use logbot::line::{
    FollowLineConfig, FollowLineState, CRUISE_SPEED, DERIVATIVE_GAIN, PROPORTIONAL_GAIN, RAMP_TIME,
};
use logbot::speed::Speed;

fn speed(units: i64) -> Speed {
    Speed::new(units).unwrap()
}

fn config() -> FollowLineConfig {
    FollowLineConfig {
        default_speed: speed(100_000),
        proportional: 1_000,
        derivative: 500,
        integral: None,
        calibration: SensorCalibration::new(195, 25),
        reset_integral_on_target: true,
    }
}

fn drive(left: MotorDirection, right: MotorDirection) -> VehicleDirection {
    VehicleDirection::new(left, right)
}

#[test]
fn a_reading_on_the_setpoint_drives_straight() {
    let mut state = FollowLineState::new(config());
    assert_eq!(
        state.step(110),
        drive(
            MotorDirection::Forward(speed(100_000)),
            MotorDirection::Forward(speed(100_000))
        )
    );
    assert_eq!(state.last_error(), 0);
    assert_eq!(state.integral(), 0);
}

#[test]
fn a_reading_above_the_setpoint_slows_the_left_motor() {
    let mut state = FollowLineState::new(config());
    // error 10, change 10: control = 0.001 * 10 + 0.0005 * 10 = 0.015
    assert_eq!(
        state.step(120),
        drive(
            MotorDirection::Forward(speed(85_000)),
            MotorDirection::Forward(speed(115_000))
        )
    );
    assert_eq!(state.last_error(), 10_000_000);
    // error 10 again, no change: control = 0.01
    assert_eq!(
        state.step(120),
        drive(
            MotorDirection::Forward(speed(90_000)),
            MotorDirection::Forward(speed(110_000))
        )
    );
}

#[test]
fn a_reading_below_the_setpoint_slows_the_right_motor() {
    let mut state = FollowLineState::new(config());
    // error -10, change -10: control = -0.015; the right motor loses it and
    // the left motor gains it.
    assert_eq!(
        state.step(100),
        drive(
            MotorDirection::Forward(speed(115_000)),
            MotorDirection::Forward(speed(85_000))
        )
    );
}

#[test]
fn a_large_correction_turns_the_left_motor_backward() {
    let mut strong = config();
    strong.proportional = 10_000;
    strong.derivative = 0;
    let mut state = FollowLineState::new(strong);
    // error 85: control = 0.85; left = 0.1 - 0.85 flips to backward 0.75.
    assert_eq!(
        state.step(195),
        drive(
            MotorDirection::Backward(speed(750_000)),
            MotorDirection::Forward(speed(950_000))
        )
    );
}

#[test]
fn the_default_speed_gives_way_to_the_correction() {
    let mut strong = config();
    strong.default_speed = speed(600_000);
    strong.proportional = 10_000;
    strong.derivative = 0;
    let mut state = FollowLineState::new(strong);
    // error 60: control = 0.6; 0.6 + 0.6 is 0.2 above full speed, so both
    // motors start from 0.4: left 0.4 - 0.6 = backward 0.2, right full.
    assert_eq!(
        state.step(170),
        drive(
            MotorDirection::Backward(speed(200_000)),
            MotorDirection::Forward(speed(1_000_000))
        )
    );
}

#[test]
fn a_correction_beyond_all_bounds_saturates() {
    let mut extreme = config();
    extreme.proportional = i64::MAX;
    extreme.derivative = i64::MAX;
    extreme.integral = Some(i64::MAX);
    extreme.reset_integral_on_target = false;
    let mut state = FollowLineState::new(extreme);
    assert_eq!(
        state.step(255),
        drive(
            MotorDirection::Backward(speed(1_000_000)),
            MotorDirection::Forward(speed(1_000_000))
        )
    );
    let mut state = FollowLineState::new(extreme);
    assert_eq!(
        state.step(0),
        drive(
            MotorDirection::Forward(speed(1_000_000)),
            MotorDirection::Forward(speed(0))
        )
    );
}

#[test]
fn the_integral_sums_the_errors_and_starts_over_on_target() {
    let mut with_integral = config();
    with_integral.calibration = SensorCalibration::new(196, 25);
    with_integral.integral = Some(100);
    let mut state = FollowLineState::new(with_integral);
    // setpoint 110.5
    state.step(120);
    assert_eq!(state.integral(), 9_500_000);
    state.step(130);
    assert_eq!(state.integral(), 29_000_000);
    state.step(100);
    assert_eq!(state.integral(), 18_500_000);
    // error 0.5 is less than one: the sum starts over
    state.step(111);
    assert_eq!(state.last_error(), 500_000);
    assert_eq!(state.integral(), 0);
    // and the next step begins from nothing
    state.step(120);
    assert_eq!(state.integral(), 9_500_000);
    // error -0.5 counts as on target too
    state.step(110);
    assert_eq!(state.integral(), 0);
}

#[test]
fn an_error_of_exactly_one_does_not_reset_the_integral() {
    let mut state = FollowLineState::new(config());
    state.step(120);
    state.step(111);
    assert_eq!(state.integral(), 11_000_000);
    state.step(109);
    assert_eq!(state.integral(), 10_000_000);
}

#[test]
fn without_the_reset_rule_the_integral_runs_on() {
    let mut running = config();
    running.reset_integral_on_target = false;
    let mut state = FollowLineState::new(running);
    state.step(120);
    state.step(110);
    assert_eq!(state.integral(), 10_000_000);
}

#[test]
fn the_integral_term_enters_the_control() {
    let mut with_integral = config();
    with_integral.proportional = 0;
    with_integral.derivative = 0;
    with_integral.integral = Some(1_000);
    let mut state = FollowLineState::new(with_integral);
    // sum 10, control = 0.001 * 10 = 0.01
    assert_eq!(
        state.step(120),
        drive(
            MotorDirection::Forward(speed(90_000)),
            MotorDirection::Forward(speed(110_000))
        )
    );
    // sum 20, control 0.02
    assert_eq!(
        state.step(120),
        drive(
            MotorDirection::Forward(speed(80_000)),
            MotorDirection::Forward(speed(120_000))
        )
    );
}

#[test]
fn reset_forgets_the_readings() {
    let mut state = FollowLineState::new(config());
    state.step(150);
    state.reset();
    assert_eq!(state.last_error(), 0);
    assert_eq!(state.integral(), 0);
    // the change is counted from nothing again
    assert_eq!(
        state.step(120),
        drive(
            MotorDirection::Forward(speed(85_000)),
            MotorDirection::Forward(speed(115_000))
        )
    );
}

#[test]
fn the_robot_cruises_with_its_own_settings() {
    let calibration = SensorCalibration::new(195, 25);
    let cruise = FollowLineConfig::cruise(calibration);
    assert_eq!(cruise.default_speed, speed(100_000));
    assert_eq!(cruise.proportional, 1_000);
    assert_eq!(cruise.derivative, 500);
    assert_eq!(cruise.integral, None);
    assert_eq!(cruise.calibration, calibration);
    assert!(cruise.reset_integral_on_target);
    assert_eq!(
        (CRUISE_SPEED, PROPORTIONAL_GAIN, DERIVATIVE_GAIN, RAMP_TIME),
        (100_000, 1_000, 500, 2_000_000_000)
    );
}
