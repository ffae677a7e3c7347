//! Direction of a spin in place.

use vstd::prelude::*;
use vstd::std_specs::ops::MulSpecImpl;
use vstd::std_specs::ops::NotSpecImpl;
use crate::directions::Stop;
use crate::speed::{Speed, SpeedControl};

verus! {

/// The way the vehicle turns on the spot, and how fast.
#[derive(Debug, Clone, Copy, PartialEq, Eq, Structural)]
pub enum SpinDirection {
    /// Turning to the left.
    Left(Speed),
    /// Turning to the right.
    Right(Speed),
}

impl SpeedControl for SpinDirection {
    open spec fn speed_spec(&self) -> Speed {
        match *self {
            SpinDirection::Left(speed) => speed,
            SpinDirection::Right(speed) => speed,
        }
    }

    open spec fn with_speed_spec(self, speed: Speed) -> SpinDirection {
        match self {
            SpinDirection::Left(_) => SpinDirection::Left(speed),
            SpinDirection::Right(_) => SpinDirection::Right(speed),
        }
    }

    fn speed(&self) -> (s: Speed) {
        match self {
            SpinDirection::Left(speed) => *speed,
            SpinDirection::Right(speed) => *speed,
        }
    }

    fn with_speed(self, speed: Speed) -> (r: SpinDirection) {
        match self {
            SpinDirection::Left(_) => SpinDirection::Left(speed),
            SpinDirection::Right(_) => SpinDirection::Right(speed),
        }
    }
}

impl SpinDirection {
    /// The opposite spin at the same speed.
    pub open spec fn flipped(self) -> SpinDirection {
        match self {
            SpinDirection::Left(speed) => SpinDirection::Right(speed),
            SpinDirection::Right(speed) => SpinDirection::Left(speed),
        }
    }

    /// The same spin with the speed scaled by `rhs`.
    pub open spec fn scaled(self, rhs: Speed) -> SpinDirection {
        self.with_speed_spec(self.speed_spec().times(rhs))
    }
}

impl Stop for SpinDirection {
    open spec fn stopped(&self) -> bool {
        self.speed_spec()@ == 0
    }

    fn is_stop(&self) -> (b: bool) {
        self.speed().value() == 0
    }
}

impl core::ops::Mul<Speed> for SpinDirection {
    type Output = SpinDirection;

    fn mul(self, rhs: Speed) -> (r: SpinDirection) {
        self.with_speed(self.speed() * rhs)
    }
}

impl MulSpecImpl<Speed> for SpinDirection {
    open spec fn obeys_mul_spec() -> bool {
        true
    }

    open spec fn mul_req(self, rhs: Speed) -> bool {
        true
    }

    open spec fn mul_spec(self, rhs: Speed) -> SpinDirection {
        self.scaled(rhs)
    }
}

impl core::ops::Not for SpinDirection {
    type Output = SpinDirection;

    fn not(self) -> (r: SpinDirection) {
        match self {
            SpinDirection::Left(speed) => SpinDirection::Right(speed),
            SpinDirection::Right(speed) => SpinDirection::Left(speed),
        }
    }
}

impl NotSpecImpl for SpinDirection {
    open spec fn obeys_not_spec() -> bool {
        true
    }

    open spec fn not_req(self) -> bool {
        true
    }

    open spec fn not_spec(self) -> SpinDirection {
        self.flipped()
    }
}

} // verus!
