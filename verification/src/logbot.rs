//! The robot as one value: vehicle, sensors and lift together.

use vstd::prelude::*;
use crate::interfaces::{Drive, Lift, SensorRead, Spin, ToSensorChannel};
use crate::speed::Speed;

verus! {

/// Vehicle, sensors and lift of the robot, so that one value offers every
/// capability the control core asks for. Every call goes on to the component
/// it belongs to, is answered with what that component answers, and leaves
/// the other two components as they are.
#[derive(Debug)]
pub struct Logbot<V, S, L> {
    /// The vehicle.
    pub vehicle: V,
    /// The sensors.
    pub sensors: S,
    /// The lift.
    pub lift: L,
}

impl<V, S, L> Logbot<V, S, L> {
    /// Puts the three components together.
    pub fn new(vehicle: V, sensors: S, lift: L) -> (logbot: Logbot<V, S, L>)
        ensures
            logbot.vehicle == vehicle,
            logbot.sensors == sensors,
            logbot.lift == lift,
    {
        Logbot { vehicle, sensors, lift }
    }
}

impl<V: Drive, S, L> Drive for Logbot<V, S, L> {
    type Direction = V::Direction;

    type Error = V::Error;

    open spec fn admits_drive(
        &self,
        direction: V::Direction,
        after: &Self,
        outcome: Result<Option<V::Direction>, V::Error>,
    ) -> bool {
        &&& self.vehicle.admits_drive(direction, &after.vehicle, outcome)
        &&& after.sensors == self.sensors
        &&& after.lift == self.lift
    }

    open spec fn admits_stop(
        &self,
        after: &Self,
        outcome: Result<Option<V::Direction>, V::Error>,
    ) -> bool {
        &&& self.vehicle.admits_stop(&after.vehicle, outcome)
        &&& after.sensors == self.sensors
        &&& after.lift == self.lift
    }

    /// Has the vehicle drive in `direction`.
    fn drive(&mut self, direction: V::Direction) -> (outcome: Result<
        Option<V::Direction>,
        V::Error,
    >)
        ensures
            old(self).vehicle.admits_drive(direction, &final(self).vehicle, outcome),
            final(self).sensors == old(self).sensors,
            final(self).lift == old(self).lift,
    {
        self.vehicle.drive(direction)
    }

    /// Has the vehicle stop.
    fn stop(&mut self) -> (outcome: Result<Option<V::Direction>, V::Error>)
        ensures
            old(self).vehicle.admits_stop(&final(self).vehicle, outcome),
            final(self).sensors == old(self).sensors,
            final(self).lift == old(self).lift,
    {
        self.vehicle.stop()
    }
}

impl<V: Spin, S, L> Spin for Logbot<V, S, L> {
    type SpinDirection = V::SpinDirection;

    open spec fn admits_spin(
        &self,
        direction: V::SpinDirection,
        after: &Self,
        outcome: Result<Option<V::Direction>, V::Error>,
    ) -> bool {
        &&& self.vehicle.admits_spin(direction, &after.vehicle, outcome)
        &&& after.sensors == self.sensors
        &&& after.lift == self.lift
    }

    /// Has the vehicle spin in `direction`.
    fn spin(&mut self, direction: V::SpinDirection) -> (outcome: Result<
        Option<V::Direction>,
        V::Error,
    >)
        ensures
            old(self).vehicle.admits_spin(direction, &final(self).vehicle, outcome),
            final(self).sensors == old(self).sensors,
            final(self).lift == old(self).lift,
    {
        self.vehicle.spin(direction)
    }
}

impl<V, S: SensorRead, L> SensorRead for Logbot<V, S, L> {
    type Output = S::Output;

    type Error = S::Error;

    open spec fn admits_read(
        &self,
        channel: u8,
        after: &Self,
        outcome: Result<S::Output, S::Error>,
    ) -> bool {
        &&& self.sensors.admits_read(channel, &after.sensors, outcome)
        &&& after.vehicle == self.vehicle
        &&& after.lift == self.lift
    }

    /// Has the sensors read the channel that `sensor` names.
    fn read<C: ToSensorChannel>(&mut self, sensor: C) -> (outcome: Result<S::Output, S::Error>)
        ensures
            old(self).sensors.admits_read(sensor.channel(), &final(self).sensors, outcome),
            final(self).vehicle == old(self).vehicle,
            final(self).lift == old(self).lift,
    {
        self.sensors.read(sensor)
    }
}

impl<V, S, L: Lift> Lift for Logbot<V, S, L> {
    type Error = L::Error;

    open spec fn admits_up(&self, speed: Speed, after: &Self, outcome: Result<(), L::Error>) -> bool {
        &&& self.lift.admits_up(speed, &after.lift, outcome)
        &&& after.vehicle == self.vehicle
        &&& after.sensors == self.sensors
    }

    open spec fn admits_down(
        &self,
        speed: Speed,
        after: &Self,
        outcome: Result<(), L::Error>,
    ) -> bool {
        &&& self.lift.admits_down(speed, &after.lift, outcome)
        &&& after.vehicle == self.vehicle
        &&& after.sensors == self.sensors
    }

    open spec fn admits_is_up(&self, up: bool) -> bool {
        self.lift.admits_is_up(up)
    }

    open spec fn admits_is_down(&self, down: bool) -> bool {
        self.lift.admits_is_down(down)
    }

    /// Has the lift move up at `speed`.
    fn up(&mut self, speed: Speed) -> (outcome: Result<(), L::Error>)
        ensures
            old(self).lift.admits_up(speed, &final(self).lift, outcome),
            final(self).vehicle == old(self).vehicle,
            final(self).sensors == old(self).sensors,
    {
        self.lift.up(speed)
    }

    /// Has the lift move down at `speed`.
    fn down(&mut self, speed: Speed) -> (outcome: Result<(), L::Error>)
        ensures
            old(self).lift.admits_down(speed, &final(self).lift, outcome),
            final(self).vehicle == old(self).vehicle,
            final(self).sensors == old(self).sensors,
    {
        self.lift.down(speed)
    }

    /// Asks the lift whether it is at its upper end.
    fn is_up(&self) -> (up: bool)
        ensures
            self.lift.admits_is_up(up),
    {
        self.lift.is_up()
    }

    /// Asks the lift whether it is at its lower end.
    fn is_down(&self) -> (down: bool)
        ensures
            self.lift.admits_is_down(down),
    {
        self.lift.is_down()
    }
}

} // verus!
