//! Direction of a single motor.

use vstd::prelude::*;
use vstd::std_specs::ops::MulSpecImpl;
use vstd::std_specs::ops::NotSpecImpl;
use core::ops::Not;
use crate::directions::Stop;
use crate::fixed::{clamp, SCALE};
use crate::speed::{Speed, SpeedControl};

verus! {

broadcast use {Speed::of_view, Speed::view_of};

/// The way a motor turns, and how fast.
#[derive(Debug, Clone, Copy, PartialEq, Eq, Structural)]
pub enum MotorDirection {
    /// Turning forward.
    Forward(Speed),
    /// Turning backward.
    Backward(Speed),
}

impl SpeedControl for MotorDirection {
    open spec fn speed_spec(&self) -> Speed {
        match *self {
            MotorDirection::Forward(speed) => speed,
            MotorDirection::Backward(speed) => speed,
        }
    }

    open spec fn with_speed_spec(self, speed: Speed) -> MotorDirection {
        match self {
            MotorDirection::Forward(_) => MotorDirection::Forward(speed),
            MotorDirection::Backward(_) => MotorDirection::Backward(speed),
        }
    }

    fn speed(&self) -> (s: Speed) {
        match self {
            MotorDirection::Forward(speed) => *speed,
            MotorDirection::Backward(speed) => *speed,
        }
    }

    fn with_speed(self, speed: Speed) -> (r: MotorDirection) {
        match self {
            MotorDirection::Forward(_) => MotorDirection::Forward(speed),
            MotorDirection::Backward(_) => MotorDirection::Backward(speed),
        }
    }
}

impl MotorDirection {
    /// The opposite way at the same speed.
    pub open spec fn flipped(self) -> MotorDirection {
        match self {
            MotorDirection::Forward(speed) => MotorDirection::Backward(speed),
            MotorDirection::Backward(speed) => MotorDirection::Forward(speed),
        }
    }

    /// The same way with the speed scaled by `rhs`.
    pub open spec fn scaled(self, rhs: Speed) -> MotorDirection {
        self.with_speed_spec(self.speed_spec().times(rhs))
    }

    /// The same way with `value` added to the speed, stopping at the bounds.
    pub open spec fn raised(self, value: int) -> MotorDirection {
        self.with_speed_spec(Speed::of(clamp(self.speed_spec()@ + value, 0, SCALE as int)))
    }

    /// The direction after `value` is taken from the speed. Where `value` is
    /// more than the speed holds, the motor turns the other way with what is
    /// left over, up to full speed.
    pub open spec fn lowered(self, value: int) -> MotorDirection {
        let rest = self.speed_spec()@ - value;
        if rest < 0 {
            self.flipped().with_speed_spec(Speed::of(clamp(-rest, 0, SCALE as int)))
        } else {
            self.with_speed_spec(Speed::of(clamp(rest, 0, SCALE as int)))
        }
    }

    /// Adds a signed amount, given as a fixed-point number of 64 bits, to the
    /// speed and stops at the bounds.
    pub fn saturating_add_f64(&self, value: i64) -> (r: MotorDirection)
        ensures
            r == self.raised(value as int),
    {
        self.with_speed(self.speed().saturating_add_f64(value))
    }

    /// Takes a signed amount, given as a fixed-point number of 64 bits, from
    /// the speed. Where the amount is more than the speed holds, the speed
    /// does not stop at standstill: the direction flips and carries what is
    /// left over as its speed, up to full speed.
    pub fn wrapping_sub_f64(&self, value: i64) -> (r: MotorDirection)
        ensures
            r == self.lowered(value as int),
    {
        let rest: i128 = self.speed().value() as i128 - value as i128;
        if rest < 0 {
            let speed = if -rest > SCALE as i128 {
                Speed::max()
            } else {
                Speed::new_clamp((-rest) as i64)
            };
            self.not().with_speed(speed)
        } else {
            let speed = if rest > SCALE as i128 {
                Speed::max()
            } else {
                Speed::new_clamp(rest as i64)
            };
            self.with_speed(speed)
        }
    }

    /// Adds a speed and stops at full speed.
    pub fn saturating_add(self, speed: Speed) -> (r: MotorDirection)
        ensures
            r == self.raised(speed@),
    {
        self.with_speed(self.speed().saturating_add(speed))
    }

    /// Takes a speed away. Where that is more than the speed holds, the
    /// direction flips and carries what is left over as its speed.
    pub fn wrapping_sub(self, speed: Speed) -> (r: MotorDirection)
        ensures
            r == self.lowered(speed@),
    {
        self.wrapping_sub_f64(speed.value())
    }
}

impl Stop for MotorDirection {
    open spec fn stopped(&self) -> bool {
        self.speed_spec()@ == 0
    }

    fn is_stop(&self) -> (b: bool) {
        self.speed().value() == 0
    }
}

impl core::ops::Mul<Speed> for MotorDirection {
    type Output = MotorDirection;

    fn mul(self, rhs: Speed) -> (r: MotorDirection) {
        self.with_speed(self.speed() * rhs)
    }
}

impl MulSpecImpl<Speed> for MotorDirection {
    open spec fn obeys_mul_spec() -> bool {
        true
    }

    open spec fn mul_req(self, rhs: Speed) -> bool {
        true
    }

    open spec fn mul_spec(self, rhs: Speed) -> MotorDirection {
        self.scaled(rhs)
    }
}

impl core::ops::Not for MotorDirection {
    type Output = MotorDirection;

    fn not(self) -> (r: MotorDirection) {
        match self {
            MotorDirection::Forward(speed) => MotorDirection::Backward(speed),
            MotorDirection::Backward(speed) => MotorDirection::Forward(speed),
        }
    }
}

impl NotSpecImpl for MotorDirection {
    open spec fn obeys_not_spec() -> bool {
        true
    }

    open spec fn not_req(self) -> bool {
        true
    }

    open spec fn not_spec(self) -> MotorDirection {
        self.flipped()
    }
}

} // verus!
