//! Constants of the robot's wiring.

use vstd::prelude::*;
use crate::interfaces::ToSensorChannel;

verus! {

/// Address of the sensor converter on the I2C bus.
pub const I2C_SENSOR_ADDRESS: u16 = 0x48;

/// Power pin of the right motor.
pub const RIGHT_MOTOR_POWER: u8 = 12;

/// Direction pin of the right motor.
pub const RIGHT_MOTOR_DIRECTION: u8 = 5;

/// Power pin of the left motor.
pub const LEFT_MOTOR_POWER: u8 = 13;

/// Direction pin of the left motor.
pub const LEFT_MOTOR_DIRECTION: u8 = 6;

/// Power pin of the lift motor.
pub const LIFT_MOTOR_POWER: u8 = 23;

/// Direction pin of the lift motor.
pub const LIFT_MOTOR_DIRECTION: u8 = 24;

/// Pin of the switch at the upper end of the lift.
pub const LIFT_UP: u8 = 27;

/// Pin of the switch at the lower end of the lift.
pub const LIFT_DOWN: u8 = 22;

/// The reflectance sensors of the robot.
#[derive(Debug, Clone, Copy, PartialEq, Eq, Structural)]
pub enum Sensors {
    /// The sensor on the left.
    Left,
    /// The sensor on the right.
    Right,
}

impl ToSensorChannel for Sensors {
    open spec fn channel(&self) -> u8 {
        match *self {
            Sensors::Left => 0,
            Sensors::Right => 1,
        }
    }

    fn to_channel(&self) -> (c: u8) {
        match self {
            Sensors::Left => 0,
            Sensors::Right => 1,
        }
    }
}

} // verus!
