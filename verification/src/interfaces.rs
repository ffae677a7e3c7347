//! The capabilities that the control core asks of the hardware.
//!
//! Each capability is a trait for the drivers of the hardware to implement.
//! Beside every method stands a relation of the same call: whether, from the
//! state before and the arguments, the call may end in the state after with
//! the result it gave. A component says of itself what it wants there: one
//! that is put together from others says how its calls go on to theirs, and a
//! driver that says nothing admits everything, which is what the relations
//! hold where they are not written out.

use vstd::prelude::*;
use crate::speed::Speed;

verus! {

/// Something that can be driven in a direction and stopped.
pub trait Drive {
    /// The directions the component takes.
    type Direction;

    /// The failure of the hardware.
    type Error;

    /// What the component says of a call of `drive`: whether, told
    /// `direction` in the state `self`, it may end in the state `after` with
    /// `outcome` as its result.
    open spec fn admits_drive(
        &self,
        direction: Self::Direction,
        after: &Self,
        outcome: Result<Option<Self::Direction>, Self::Error>,
    ) -> bool {
        true
    }

    /// What the component says of a call of `stop`: whether, told to stop in
    /// the state `self`, it may end in the state `after` with `outcome` as
    /// its result.
    open spec fn admits_stop(
        &self,
        after: &Self,
        outcome: Result<Option<Self::Direction>, Self::Error>,
    ) -> bool {
        true
    }

    /// Starts moving in `direction` and returns the direction before.
    fn drive(&mut self, direction: Self::Direction) -> (outcome: Result<
        Option<Self::Direction>,
        Self::Error,
    >)
        ensures
            old(self).admits_drive(direction, final(self), outcome),
    ;

    /// Stops moving and returns the direction before.
    fn stop(&mut self) -> (outcome: Result<Option<Self::Direction>, Self::Error>)
        ensures
            old(self).admits_stop(final(self), outcome),
    ;
}

/// Something driveable that can also turn on the spot.
pub trait Spin: Drive {
    /// The spins the component takes.
    type SpinDirection;

    /// What the component says of a call of `spin`: whether, told to spin in
    /// `direction` in the state `self`, it may end in the state `after` with
    /// `outcome` as its result.
    open spec fn admits_spin(
        &self,
        direction: Self::SpinDirection,
        after: &Self,
        outcome: Result<Option<Self::Direction>, Self::Error>,
    ) -> bool {
        true
    }

    /// Starts spinning in `direction` and returns the direction before.
    fn spin(&mut self, direction: Self::SpinDirection) -> (outcome: Result<
        Option<Self::Direction>,
        Self::Error,
    >)
        ensures
            old(self).admits_spin(direction, final(self), outcome),
    ;
}

/// A lift that travels between an upper and a lower end.
pub trait Lift {
    /// The failure of the hardware.
    type Error;

    /// What the lift says of a call of `up`: whether, sent up at `speed` in
    /// the state `self`, it may end in the state `after` with `outcome` as
    /// its result.
    open spec fn admits_up(&self, speed: Speed, after: &Self, outcome: Result<(), Self::Error>) -> bool {
        true
    }

    /// What the lift says of a call of `down`: whether, sent down at `speed`
    /// in the state `self`, it may end in the state `after` with `outcome` as
    /// its result.
    open spec fn admits_down(
        &self,
        speed: Speed,
        after: &Self,
        outcome: Result<(), Self::Error>,
    ) -> bool {
        true
    }

    /// What the lift says of a call of `is_up`: whether, in the state
    /// `self`, the call may answer `up`.
    open spec fn admits_is_up(&self, up: bool) -> bool {
        true
    }

    /// What the lift says of a call of `is_down`: whether, in the state
    /// `self`, the call may answer `down`.
    open spec fn admits_is_down(&self, down: bool) -> bool {
        true
    }

    /// Moves the lift up and returns once the upper end is reached.
    fn up(&mut self, speed: Speed) -> (outcome: Result<(), Self::Error>)
        ensures
            old(self).admits_up(speed, final(self), outcome),
    ;

    /// Moves the lift down and returns once the lower end is reached.
    fn down(&mut self, speed: Speed) -> (outcome: Result<(), Self::Error>)
        ensures
            old(self).admits_down(speed, final(self), outcome),
    ;

    /// Whether the lift is at its upper end.
    fn is_up(&self) -> (up: bool)
        ensures
            self.admits_is_up(up),
    ;

    /// Whether the lift is at its lower end.
    fn is_down(&self) -> (down: bool)
        ensures
            self.admits_is_down(down),
    ;
}

/// Something that names a channel of the sensor bus.
pub trait ToSensorChannel {
    /// The channel as plain number.
    spec fn channel(&self) -> u8;

    /// Returns the channel of the sensor.
    fn to_channel(&self) -> (c: u8)
        ensures
            c == self.channel(),
    ;
}

/// Something that reads sensors.
pub trait SensorRead {
    /// What a reading is.
    type Output;

    /// The failure of the hardware.
    type Error;

    /// What the reader says of a call of `read`: whether, asked for the
    /// sensor on `channel` in the state `self`, it may end in the state
    /// `after` with `outcome` as its result.
    open spec fn admits_read(
        &self,
        channel: u8,
        after: &Self,
        outcome: Result<Self::Output, Self::Error>,
    ) -> bool {
        true
    }

    /// Reads the sensor on the channel that `sensor` names.
    fn read<C: ToSensorChannel>(&mut self, sensor: C) -> (outcome: Result<
        Self::Output,
        Self::Error,
    >)
        ensures
            old(self).admits_read(sensor.channel(), final(self), outcome),
    ;
}

} // verus!
