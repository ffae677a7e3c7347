//! A vehicle on two motors.

use vstd::prelude::*;
use crate::directions::{MotorDirection, SpinDirection, VehicleDirection};
use crate::error::VehicleError;
use crate::interfaces::{Drive, Spin};

verus! {

/// Something that can be made with settings of its own, where that works.
pub trait TryDefault: Sized {
    /// Why it could not be made.
    type Error;

    /// Makes the value with its own settings.
    fn try_default() -> Result<Self, Self::Error>;
}

/// Two motors, left and right, driven as one vehicle.
#[derive(Debug)]
pub struct Vehicle<LD: Drive, RD: Drive> {
    left: LD,
    right: RD,
    state: Option<VehicleDirection>,
}

/// What a command to both motors comes to. `left` is what the left motor
/// answered; `right` is what the right motor answered, which is told only
/// where the left one went along. The first failure is the failure of the
/// vehicle; where both went along, the vehicle answers with `noted`, the
/// direction it had taken note of before.
pub open spec fn concluded<T, U, LE, RE>(
    noted: Option<VehicleDirection>,
    left: Result<T, LE>,
    right: Option<Result<U, RE>>,
) -> Result<Option<VehicleDirection>, VehicleError<LE, RE>> {
    match left {
        Err(e) => Err(VehicleError::Left(e)),
        Ok(_) => match right {
            Some(Err(e)) => Err(VehicleError::Right(e)),
            _ => Ok(noted),
        },
    }
}

/// Works out what a command to both motors comes to, from what the motors
/// answered.
pub fn conclude<T, U, LE, RE>(
    noted: Option<VehicleDirection>,
    left: Result<T, LE>,
    right: Option<Result<U, RE>>,
) -> (outcome: Result<Option<VehicleDirection>, VehicleError<LE, RE>>)
    ensures
        outcome == concluded(noted, left, right),
{
    match left {
        Err(e) => Err(VehicleError::Left(e)),
        Ok(_) => match right {
            Some(Err(e)) => Err(VehicleError::Right(e)),
            _ => Ok(noted),
        },
    }
}

impl<LD: Drive, RD: Drive> Vehicle<LD, RD> {
    /// The direction the vehicle was last told to take, unless it was
    /// stopped since.
    pub closed spec fn direction(&self) -> Option<VehicleDirection> {
        self.state
    }

    /// The left motor.
    pub closed spec fn left_motor(&self) -> LD {
        self.left
    }

    /// The right motor.
    pub closed spec fn right_motor(&self) -> RD {
        self.right
    }

    /// A vehicle on the two motors, at rest.
    pub fn new(left: LD, right: RD) -> (vehicle: Vehicle<LD, RD>)
        ensures
            vehicle.direction() is None,
            vehicle.left_motor() == left,
            vehicle.right_motor() == right,
    {
        Vehicle { left, right, state: None }
    }

    /// The direction the vehicle was last told to take, unless it was
    /// stopped since.
    pub fn state(&self) -> (state: Option<VehicleDirection>)
        ensures
            state == self.direction(),
    {
        self.state
    }
}

impl<LD: Drive<Direction = MotorDirection>, RD: Drive<Direction = MotorDirection>> Vehicle<LD, RD> {
    /// Whether a call of `drive` may lead from `self` to `after` while the
    /// motors answer `left` and `right`: the left motor is told its part of
    /// `direction`; the right motor is told its part where the left one went
    /// along, and is left alone where it did not; and the vehicle takes note
    /// of `direction` where both went along, and keeps its note where one
    /// did not.
    pub open spec fn drive_steps(
        &self,
        direction: VehicleDirection,
        after: &Self,
        left: Result<Option<MotorDirection>, LD::Error>,
        right: Option<Result<Option<MotorDirection>, RD::Error>>,
    ) -> bool {
        &&& self.left_motor().admits_drive(direction.left, &after.left_motor(), left)
        &&& match right {
            Some(right) => left is Ok && self.right_motor().admits_drive(
                direction.right,
                &after.right_motor(),
                right,
            ),
            None => left is Err && after.right_motor() == self.right_motor(),
        }
        &&& after.direction() == if concluded(self.direction(), left, right) is Ok {
            Some(direction)
        } else {
            self.direction()
        }
    }

    /// Whether a call of `stop` may lead from `self` to `after` while the
    /// motors answer `left` and `right`: the left motor is told to stop; the
    /// right motor is told to stop where the left one went along, and is
    /// left alone where it did not; and the vehicle forgets its direction
    /// where both went along, and keeps its note where one did not.
    pub open spec fn stop_steps(
        &self,
        after: &Self,
        left: Result<Option<MotorDirection>, LD::Error>,
        right: Option<Result<Option<MotorDirection>, RD::Error>>,
    ) -> bool {
        &&& self.left_motor().admits_stop(&after.left_motor(), left)
        &&& match right {
            Some(right) => left is Ok && self.right_motor().admits_stop(&after.right_motor(), right),
            None => left is Err && after.right_motor() == self.right_motor(),
        }
        &&& after.direction() == if concluded(self.direction(), left, right) is Ok {
            None
        } else {
            self.direction()
        }
    }
}

impl<LD: Drive<Direction = MotorDirection>, RD: Drive<Direction = MotorDirection>> Drive for Vehicle<
    LD,
    RD,
> {
    type Direction = VehicleDirection;

    type Error = VehicleError<LD::Error, RD::Error>;

    open spec fn admits_drive(
        &self,
        direction: VehicleDirection,
        after: &Self,
        outcome: Result<Option<VehicleDirection>, VehicleError<LD::Error, RD::Error>>,
    ) -> bool {
        exists|
            left: Result<Option<MotorDirection>, LD::Error>,
            right: Option<Result<Option<MotorDirection>, RD::Error>>,
        |
            #[trigger] self.drive_steps(direction, after, left, right) && outcome == concluded(
                self.direction(),
                left,
                right,
            )
    }

    open spec fn admits_stop(
        &self,
        after: &Self,
        outcome: Result<Option<VehicleDirection>, VehicleError<LD::Error, RD::Error>>,
    ) -> bool {
        exists|
            left: Result<Option<MotorDirection>, LD::Error>,
            right: Option<Result<Option<MotorDirection>, RD::Error>>,
        |
            #[trigger] self.stop_steps(after, left, right) && outcome == concluded(
                self.direction(),
                left,
                right,
            )
    }

    /// Tells the left motor, then the right one, and takes note of the
    /// direction where both went along. The first motor that fails ends
    /// the call with its failure: the right motor is not told where the left
    /// one failed, and the note stays as it was.
    fn drive(&mut self, direction: VehicleDirection) -> (r: Result<
        Option<VehicleDirection>,
        VehicleError<LD::Error, RD::Error>,
    >)
        ensures
            old(self).admits_drive(direction, final(self), r),
            r is Ok ==> r->Ok_0 == old(self).direction() && final(self).direction() == Some(
                direction,
            ),
            r is Err ==> final(self).direction() == old(self).direction(),
    {
        let left = self.left.drive(direction.left);
        let right = if left.is_ok() {
            Some(self.right.drive(direction.right))
        } else {
            None
        };
        let ghost answers = (left, right);
        let outcome = conclude(self.state, left, right);
        if outcome.is_ok() {
            self.state = Some(direction);
        }
        assert(old(self).drive_steps(direction, &*self, answers.0, answers.1));
        outcome
    }

    /// Stops the left motor, then the right one, and forgets the direction
    /// where both went along. The first motor that fails ends the call with
    /// its failure: the right motor is not told where the left one failed,
    /// and the note stays as it was.
    fn stop(&mut self) -> (r: Result<Option<VehicleDirection>, VehicleError<LD::Error, RD::Error>>)
        ensures
            old(self).admits_stop(final(self), r),
            r is Ok ==> r->Ok_0 == old(self).direction() && final(self).direction() is None,
            r is Err ==> final(self).direction() == old(self).direction(),
    {
        let left = self.left.stop();
        let right = if left.is_ok() {
            Some(self.right.stop())
        } else {
            None
        };
        let ghost answers = (left, right);
        let outcome = conclude(self.state, left, right);
        if outcome.is_ok() {
            self.state = None;
        }
        assert(old(self).stop_steps(&*self, answers.0, answers.1));
        outcome
    }
}

impl<LD: Drive<Direction = MotorDirection>, RD: Drive<Direction = MotorDirection>> Spin for Vehicle<
    LD,
    RD,
> {
    type SpinDirection = SpinDirection;

    open spec fn admits_spin(
        &self,
        direction: SpinDirection,
        after: &Self,
        outcome: Result<Option<VehicleDirection>, VehicleError<LD::Error, RD::Error>>,
    ) -> bool {
        self.admits_drive(VehicleDirection::of_spin(direction), after, outcome)
    }

    /// Drives the two motors against each other: the motor on the side of
    /// the spin backward, the other forward.
    fn spin(&mut self, direction: SpinDirection) -> (r: Result<
        Option<VehicleDirection>,
        VehicleError<LD::Error, RD::Error>,
    >)
        ensures
            old(self).admits_drive(VehicleDirection::of_spin(direction), final(self), r),
            r is Ok ==> r->Ok_0 == old(self).direction() && final(self).direction() == Some(
                VehicleDirection::of_spin(direction),
            ),
            r is Err ==> final(self).direction() == old(self).direction(),
    {
        self.drive(VehicleDirection::from(direction))
    }
}

impl<LD: Drive + TryDefault, RD: Drive + TryDefault> TryDefault for Vehicle<LD, RD> {
    type Error = VehicleError<<LD as TryDefault>::Error, <RD as TryDefault>::Error>;

    /// Makes both motors with their own settings, the left one first.
    fn try_default() -> (r: Result<
        Vehicle<LD, RD>,
        VehicleError<<LD as TryDefault>::Error, <RD as TryDefault>::Error>,
    >)
        ensures
            r is Ok ==> r->Ok_0.direction() is None,
    {
        let left = match LD::try_default() {
            Ok(left) => left,
            Err(e) => {
                return Err(VehicleError::Left(e));
            },
        };
        let right = match RD::try_default() {
            Ok(right) => right,
            Err(e) => {
                return Err(VehicleError::Right(e));
            },
        };
        Ok(Vehicle::new(left, right))
    }
}

} // verus!
