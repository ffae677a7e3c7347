//! Direction of the whole vehicle: one direction for each motor.

use vstd::prelude::*;
use vstd::std_specs::convert::FromSpecImpl;
use vstd::std_specs::ops::MulSpecImpl;
use crate::directions::{MotorDirection, SpinDirection, Stop};
use crate::speed::{Speed, SpeedControl};

verus! {

/// What both motors of the vehicle do.
#[derive(Debug, Clone, Copy, PartialEq, Eq, Structural)]
pub struct VehicleDirection {
    /// Direction of the left motor.
    pub left: MotorDirection,
    /// Direction of the right motor.
    pub right: MotorDirection,
}

impl VehicleDirection {
    /// The direction a spin in place asks of the two motors: the motor on the
    /// side of the spin runs backward, the other forward.
    pub open spec fn of_spin(direction: SpinDirection) -> VehicleDirection {
        match direction {
            SpinDirection::Left(speed) => VehicleDirection {
                left: MotorDirection::Backward(speed),
                right: MotorDirection::Forward(speed),
            },
            SpinDirection::Right(speed) => VehicleDirection {
                left: MotorDirection::Forward(speed),
                right: MotorDirection::Backward(speed),
            },
        }
    }

    /// Both motors with their speeds scaled by `rhs`.
    pub open spec fn scaled(self, rhs: Speed) -> VehicleDirection {
        VehicleDirection { left: self.left.scaled(rhs), right: self.right.scaled(rhs) }
    }

    /// Driving ahead at `speed` while turning: twice the ratio carried by
    /// `direction` is taken from the motor on the inner side.
    pub open spec fn turning(speed: Speed, direction: SpinDirection) -> VehicleDirection {
        match direction {
            SpinDirection::Left(ratio) => VehicleDirection {
                left: MotorDirection::Forward(speed).lowered(2 * ratio@),
                right: MotorDirection::Forward(speed),
            },
            SpinDirection::Right(ratio) => VehicleDirection {
                left: MotorDirection::Forward(speed),
                right: MotorDirection::Forward(speed).lowered(2 * ratio@),
            },
        }
    }

    /// Puts the two motor directions together.
    pub fn new(left: MotorDirection, right: MotorDirection) -> (r: VehicleDirection)
        ensures
            r == (VehicleDirection { left, right }),
    {
        VehicleDirection { left, right }
    }

    /// Straight ahead at `speed`.
    pub fn forward(speed: Speed) -> (r: VehicleDirection)
        ensures
            r.left == MotorDirection::Forward(speed),
            r.right == MotorDirection::Forward(speed),
    {
        VehicleDirection::new(MotorDirection::Forward(speed), MotorDirection::Forward(speed))
    }

    /// Straight back at `speed`.
    pub fn backward(speed: Speed) -> (r: VehicleDirection)
        ensures
            r.left == MotorDirection::Backward(speed),
            r.right == MotorDirection::Backward(speed),
    {
        VehicleDirection::new(MotorDirection::Backward(speed), MotorDirection::Backward(speed))
    }

    /// Ahead at `speed` while turning to the side of `direction`.
    pub fn turn(speed: Speed, direction: SpinDirection) -> (r: VehicleDirection)
        ensures
            r == VehicleDirection::turning(speed, direction),
    {
        match direction {
            SpinDirection::Left(ratio) => VehicleDirection::new(
                MotorDirection::Forward(speed).wrapping_sub_f64(2 * ratio.value()),
                MotorDirection::Forward(speed),
            ),
            SpinDirection::Right(ratio) => VehicleDirection::new(
                MotorDirection::Forward(speed),
                MotorDirection::Forward(speed).wrapping_sub_f64(2 * ratio.value()),
            ),
        }
    }

    /// Spinning to the left on the spot.
    pub fn spin_left(speed: Speed) -> (r: VehicleDirection)
        ensures
            r == VehicleDirection::of_spin(SpinDirection::Left(speed)),
    {
        VehicleDirection::new(MotorDirection::Backward(speed), MotorDirection::Forward(speed))
    }

    /// Spinning to the right on the spot.
    pub fn spin_right(speed: Speed) -> (r: VehicleDirection)
        ensures
            r == VehicleDirection::of_spin(SpinDirection::Right(speed)),
    {
        VehicleDirection::new(MotorDirection::Forward(speed), MotorDirection::Backward(speed))
    }
}

impl Stop for VehicleDirection {
    open spec fn stopped(&self) -> bool {
        self.left.speed_spec()@ == 0 && self.right.speed_spec()@ == 0
    }

    fn is_stop(&self) -> (b: bool) {
        self.left.speed().value() == 0 && self.right.speed().value() == 0
    }
}

/// A vehicle stands still where both of its motors stand still, and only
/// there.
pub proof fn stops_with_both_motors(direction: VehicleDirection)
    ensures
        direction.stopped() <==> direction.left.speed_spec()@ == 0 && direction.right.speed_spec()@
            == 0,
        direction.stopped() <==> direction.left.stopped() && direction.right.stopped(),
{
}

impl core::ops::Mul<Speed> for VehicleDirection {
    type Output = VehicleDirection;

    fn mul(self, rhs: Speed) -> (r: VehicleDirection) {
        VehicleDirection::new(self.left * rhs, self.right * rhs)
    }
}

impl MulSpecImpl<Speed> for VehicleDirection {
    open spec fn obeys_mul_spec() -> bool {
        true
    }

    open spec fn mul_req(self, rhs: Speed) -> bool {
        true
    }

    open spec fn mul_spec(self, rhs: Speed) -> VehicleDirection {
        self.scaled(rhs)
    }
}

impl From<SpinDirection> for VehicleDirection {
    fn from(value: SpinDirection) -> (r: VehicleDirection) {
        match value {
            SpinDirection::Left(speed) => VehicleDirection::new(
                MotorDirection::Backward(speed),
                MotorDirection::Forward(speed),
            ),
            SpinDirection::Right(speed) => VehicleDirection::new(
                MotorDirection::Forward(speed),
                MotorDirection::Backward(speed),
            ),
        }
    }
}

impl FromSpecImpl<SpinDirection> for VehicleDirection {
    open spec fn obeys_from_spec() -> bool {
        true
    }

    open spec fn from_spec(value: SpinDirection) -> VehicleDirection {
        VehicleDirection::of_spin(value)
    }
}

} // verus!
