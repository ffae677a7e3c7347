use logbot::acceleration::{
    ramp_share, Accelerate, Accelerator, LinearAcceleration, SineInOutAcceleration,
};
use logbot::directions::{MotorDirection, SpinDirection, VehicleDirection};
use logbot::speed::Speed;

const MILLI: u64 = 1_000_000;

fn speed(units: i64) -> Speed {
    Speed::new(units).unwrap()
}

fn ahead(units: i64) -> VehicleDirection {
    VehicleDirection::forward(speed(units))
}

#[test]
fn the_ramp_rises_in_proportion_to_time() {
    assert_eq!(ramp_share(0, 1000 * MILLI), speed(0));
    assert_eq!(ramp_share(1, 1000 * MILLI), speed(0));
    assert_eq!(ramp_share(250 * MILLI, 1000 * MILLI), speed(250_000));
    assert_eq!(ramp_share(500 * MILLI, 1000 * MILLI), speed(500_000));
    assert_eq!(ramp_share(1000 * MILLI - 1, 1000 * MILLI), speed(999_999));
    assert_eq!(ramp_share(1000 * MILLI, 1000 * MILLI), speed(1_000_000));
    assert_eq!(ramp_share(u64::MAX, 1000 * MILLI), speed(1_000_000));
    assert_eq!(ramp_share(u64::MAX - 1, u64::MAX), speed(999_999));
    assert_eq!(ramp_share(1, 3), speed(333_333));
}

#[test]
fn a_ramp_without_duration_is_complete_at_once() {
    assert_eq!(ramp_share(0, 0), speed(1_000_000));
    assert_eq!(ramp_share(7, 0), speed(1_000_000));
}

#[test]
fn the_linear_ramp_starts_at_nothing_and_ends_at_all() {
    let mut ramp = LinearAcceleration::new(1000 * MILLI);
    let start = 40 * MILLI;
    assert_eq!(ramp.apply(ahead(800_000), start), ahead(0));
    assert_eq!(ramp.apply(ahead(800_000), start + 250 * MILLI), ahead(200_000));
    assert_eq!(ramp.apply(ahead(800_000), start + 500 * MILLI), ahead(400_000));
    assert_eq!(ramp.apply(ahead(800_000), start + 1000 * MILLI), ahead(800_000));
    assert_eq!(ramp.apply(ahead(600_000), start + 5000 * MILLI), ahead(600_000));
}

#[test]
fn a_stop_passes_unscaled_and_ends_the_ramp() {
    let mut ramp = LinearAcceleration::new(1000 * MILLI);
    assert_eq!(ramp.apply(ahead(500_000), 0), ahead(0));
    assert_eq!(ramp.apply(ahead(500_000), 1000 * MILLI), ahead(500_000));
    assert_eq!(ramp.apply(ahead(0), 1100 * MILLI), ahead(0));
    // the ramp begins again from nothing
    assert_eq!(ramp.apply(ahead(500_000), 1200 * MILLI), ahead(0));
    assert_eq!(ramp.apply(ahead(500_000), 1700 * MILLI), ahead(250_000));
    assert_eq!(ramp.apply(ahead(500_000), 2200 * MILLI), ahead(500_000));
}

#[test]
fn the_ramp_goes_by_time_not_by_the_number_of_calls() {
    let mut often = LinearAcceleration::new(1000 * MILLI);
    let mut seldom = LinearAcceleration::new(1000 * MILLI);
    often.apply(ahead(500_000), 0);
    seldom.apply(ahead(500_000), 0);
    for tick in 1..500 {
        often.apply(ahead(500_000), tick * MILLI);
    }
    assert_eq!(
        often.apply(ahead(500_000), 500 * MILLI),
        seldom.apply(ahead(500_000), 500 * MILLI)
    );
}

#[test]
fn reset_ends_the_ramp_and_returns_its_start() {
    let mut ramp = LinearAcceleration::new(1000 * MILLI);
    assert_eq!(ramp.reset(), None);
    ramp.apply(ahead(500_000), 300 * MILLI);
    assert_eq!(ramp.reset(), Some(300 * MILLI));
    assert_eq!(ramp.reset(), None);
    assert_eq!(ramp.apply(ahead(500_000), 900 * MILLI), ahead(0));
}

#[test]
fn the_multiplier_is_what_apply_scales_by() {
    let mut ramp = LinearAcceleration::new(1000 * MILLI);
    assert_eq!(ramp.multiplier(false, 0), speed(0));
    assert_eq!(ramp.multiplier(false, 300 * MILLI), speed(300_000));
    assert_eq!(ramp.multiplier(true, 400 * MILLI), speed(1_000_000));
    assert_eq!(ramp.multiplier(false, 500 * MILLI), speed(0));
    // a clock reading before the start counts as no time gone by
    assert_eq!(ramp.multiplier(false, 100 * MILLI), speed(0));
}

#[test]
fn every_direction_can_be_accelerated() {
    let mut ramp = LinearAcceleration::new(1000 * MILLI);
    let motor = MotorDirection::Backward(speed(400_000));
    assert_eq!(motor.accelerate(&mut ramp, 0), MotorDirection::Backward(speed(0)));
    let spin = SpinDirection::Right(speed(400_000));
    assert_eq!(
        spin.accelerate(&mut ramp, 500 * MILLI),
        SpinDirection::Right(speed(200_000))
    );
    assert_eq!(ahead(400_000).accelerate(&mut ramp, 750 * MILLI), ahead(300_000));
}

#[test]
fn the_eased_ramp_keeps_time_like_the_linear_one() {
    let mut ramp = SineInOutAcceleration::new(2000 * MILLI);
    assert_eq!(ramp.reset(), None);
    assert_eq!(ramp.fraction(false, 100 * MILLI), speed(0));
    assert_eq!(ramp.fraction(false, 600 * MILLI), speed(250_000));
    assert_eq!(ramp.fraction(false, 2100 * MILLI), speed(1_000_000));
    assert_eq!(ramp.fraction(true, 2200 * MILLI), speed(1_000_000));
    assert_eq!(ramp.fraction(false, 2300 * MILLI), speed(0));
    assert_eq!(ramp.reset(), Some(2300 * MILLI));
}
