//! Following a line with one reflectance sensor.

use vstd::prelude::*;
use crate::calibration::SensorCalibration;
use crate::directions::{MotorDirection, VehicleDirection};
use crate::fixed::{clamp, magnitude, mul_fixed, narrow, product, SCALE};
use crate::speed::Speed;

verus! {

broadcast use {Speed::of_view, Speed::view_of};

/// The speed the robot cruises at along the line: a tenth of full speed.
pub const CRUISE_SPEED: i64 = 100_000;

/// Proportional gain of the robot's line follower.
pub const PROPORTIONAL_GAIN: i64 = 1_000;

/// Derivative gain of the robot's line follower.
pub const DERIVATIVE_GAIN: i64 = 500;

/// Nanoseconds the robot's line follower takes to reach its commanded speed.
pub const RAMP_TIME: u64 = 2_000_000_000;

/// What stays the same while a line is followed. The gains are fixed-point
/// numbers.
#[derive(Debug, Clone, Copy)]
pub struct FollowLineConfig {
    /// Speed of both motors while the sensor sits on the setpoint.
    pub default_speed: Speed,
    /// Gain on the current error.
    pub proportional: i64,
    /// Gain on the change of the error since the last reading.
    pub derivative: i64,
    /// Gain on the sum of the errors; without it the sum is not used.
    pub integral: Option<i64>,
    /// Calibration of the sensor that is read; its midpoint is the setpoint.
    pub calibration: SensorCalibration,
    /// Whether the sum of the errors starts over when the setpoint is hit.
    pub reset_integral_on_target: bool,
}

impl FollowLineConfig {
    /// The settings the robot follows its line with, for a calibration of
    /// the sensor that is read.
    pub open spec fn cruising(calibration: SensorCalibration) -> FollowLineConfig {
        FollowLineConfig {
            default_speed: Speed::of(CRUISE_SPEED as int),
            proportional: PROPORTIONAL_GAIN,
            derivative: DERIVATIVE_GAIN,
            integral: None,
            calibration,
            reset_integral_on_target: true,
        }
    }

    /// The settings the robot follows its line with: cruise speed, the two
    /// gains, no gain on the sum of errors, and the sum starting over on
    /// target.
    pub fn cruise(calibration: SensorCalibration) -> (config: FollowLineConfig)
        ensures
            config == FollowLineConfig::cruising(calibration),
    {
        FollowLineConfig {
            default_speed: Speed::new_clamp(CRUISE_SPEED),
            proportional: PROPORTIONAL_GAIN,
            derivative: DERIVATIVE_GAIN,
            integral: None,
            calibration,
            reset_integral_on_target: true,
        }
    }
}

/// What a line follower remembers between two readings, as plain numbers.
pub struct FollowLineView {
    /// The configuration of the session.
    pub config: FollowLineConfig,
    /// The error of the last reading.
    pub last_error: int,
    /// The change of the error at the last reading.
    pub derivative: int,
    /// The sum of the errors.
    pub integral: int,
}

impl FollowLineView {
    /// A line follower that has seen no reading yet.
    pub open spec fn fresh(config: FollowLineConfig) -> FollowLineView {
        FollowLineView { config, last_error: 0, derivative: 0, integral: 0 }
    }

    /// The error of a raw reading: its fixed-point distance above the
    /// setpoint.
    pub open spec fn error(self, reading: u8) -> int {
        reading * SCALE - self.config.calibration.midpoint()
    }

    /// The sum of the errors once `reading` is taken in. The sum stops at the
    /// ends of the range of 64-bit numbers.
    pub open spec fn next_integral(self, reading: u8) -> int {
        if self.config.reset_integral_on_target && magnitude(self.error(reading)) < SCALE {
            0
        } else {
            clamp(self.integral + self.error(reading), i64::MIN as int, i64::MAX as int)
        }
    }

    /// The state after `reading` is taken in.
    pub open spec fn stepped(self, reading: u8) -> FollowLineView {
        FollowLineView {
            config: self.config,
            last_error: self.error(reading),
            derivative: self.error(reading) - self.last_error,
            integral: self.next_integral(reading),
        }
    }

    /// The correction that the state asks for: the weighted sum of error,
    /// change and, where its gain is set, the sum of errors.
    pub open spec fn control(self) -> int {
        mul_fixed(self.config.proportional as int, self.last_error) + mul_fixed(
            self.config.derivative as int,
            self.derivative,
        ) + match self.config.integral {
            Some(gain) => mul_fixed(gain as int, self.integral),
            None => 0,
        }
    }

    /// The speed both motors start from: the default speed, lowered by as
    /// much as the correction would push the faster motor above full speed.
    pub open spec fn target_speed(self) -> int {
        let excess = self.config.default_speed@ + self.control() - SCALE;
        if excess > 0 {
            clamp(self.config.default_speed@ - excess, 0, SCALE as int)
        } else {
            self.config.default_speed@
        }
    }

    /// The drive command of the state: the correction is taken from the left
    /// motor, which may turn it backward, and added to the right motor, which
    /// stops at full speed.
    pub open spec fn command(self) -> VehicleDirection {
        let target = Speed::of(self.target_speed());
        VehicleDirection {
            left: MotorDirection::Forward(target).lowered(self.control()),
            right: MotorDirection::Forward(target).raised(self.control()),
        }
    }
}

/// The controller that turns one sensor reading after another into drive
/// commands.
#[derive(Debug, Clone, Copy)]
pub struct FollowLineState {
    config: FollowLineConfig,
    last_error: i64,
    derivative: i64,
    integral: i64,
}

impl View for FollowLineState {
    type V = FollowLineView;

    closed spec fn view(&self) -> FollowLineView {
        FollowLineView {
            config: self.config,
            last_error: self.last_error as int,
            derivative: self.derivative as int,
            integral: self.integral as int,
        }
    }
}

impl FollowLineState {
    #[verifier::type_invariant]
    closed spec fn errors_fit(self) -> bool {
        -255 * SCALE <= self.last_error <= 255 * SCALE
    }

    /// A controller that has seen no reading yet.
    pub fn new(config: FollowLineConfig) -> (state: FollowLineState)
        ensures
            state@ == FollowLineView::fresh(config),
    {
        FollowLineState { config, last_error: 0, derivative: 0, integral: 0 }
    }

    /// Forgets every reading seen so far.
    pub fn reset(&mut self)
        ensures
            final(self)@ == FollowLineView::fresh(old(self)@.config),
    {
        self.last_error = 0;
        self.derivative = 0;
        self.integral = 0;
    }

    /// The sum of the errors.
    pub fn integral(&self) -> (sum: i64)
        ensures
            sum == self@.integral,
    {
        self.integral
    }

    /// The error of the last reading.
    pub fn last_error(&self) -> (error: i64)
        ensures
            error == self@.last_error,
    {
        self.last_error
    }

    /// Takes in a raw sensor reading and returns the drive command that
    /// steers back toward the setpoint.
    pub fn step(&mut self, sensor_value: u8) -> (direction: VehicleDirection)
        ensures
            final(self)@ == old(self)@.stepped(sensor_value),
            direction == final(self)@.command(),
            old(self)@.config.reset_integral_on_target && magnitude(
                old(self)@.error(sensor_value),
            ) < SCALE ==> final(self)@.integral == 0,
    {
        proof {
            use_type_invariant(&*self);
        }
        let error: i64 = sensor_value as i64 * SCALE - self.config.calibration.average();
        self.derivative = error - self.last_error;
        self.last_error = error;
        if self.config.reset_integral_on_target && -SCALE < error && error < SCALE {
            self.integral = 0;
        } else {
            self.integral = narrow(self.integral as i128 + error as i128);
        }
        let mut control: i128 = product(self.config.proportional, error) + product(
            self.config.derivative,
            self.derivative,
        );
        match self.config.integral {
            Some(gain) => {
                control = control + product(gain, self.integral);
            },
            None => {},
        }
        let default_speed = self.config.default_speed;
        let excess: i128 = default_speed.value() as i128 + control - SCALE as i128;
        let speed = if excess > 0 {
            default_speed.saturating_sub_f64(narrow(excess))
        } else {
            default_speed
        };
        let amount = narrow(control);
        let left = MotorDirection::Forward(speed).wrapping_sub_f64(amount);
        let right = MotorDirection::Forward(speed).saturating_add_f64(amount);
        VehicleDirection::new(left, right)
    }
}

} // verus!
