//! Failures of the hardware, told apart by the component that failed.

use vstd::prelude::*;
use vstd::std_specs::convert::FromSpecImpl;

verus! {

/// A failure of one of the two motors of the vehicle.
#[derive(Debug)]
pub enum VehicleError<LE, RE> {
    /// The left motor failed.
    Left(LE),
    /// The right motor failed.
    Right(RE),
}

/// A failure of the vehicle or of the sensors.
#[derive(Debug, Clone, Copy, PartialEq)]
pub enum VehicleSensorError<VE, SE> {
    /// The vehicle failed.
    Vehicle(VE),
    /// A sensor failed.
    Sensor(SE),
}

/// A failure during the demonstration.
#[derive(Debug, Clone, Copy, PartialEq)]
pub enum DemoError<VE, SE, LE> {
    /// The vehicle failed.
    Vehicle(VE),
    /// A sensor failed.
    Sensor(SE),
    /// The lift failed.
    Lift(LE),
}

/// A failure of the robot as a whole.
#[derive(Debug, Clone, Copy, PartialEq)]
pub enum LogbotError<VE, SE, LE> {
    /// The vehicle failed.
    Vehicle(VE),
    /// A sensor failed.
    Sensor(SE),
    /// The lift failed.
    Lift(LE),
}

impl<VE, SE, LE> DemoError<VE, SE, LE> {
    /// The failure of vehicle or sensors as a failure of the demonstration.
    pub open spec fn of(value: VehicleSensorError<VE, SE>) -> DemoError<VE, SE, LE> {
        match value {
            VehicleSensorError::Vehicle(e) => DemoError::Vehicle(e),
            VehicleSensorError::Sensor(e) => DemoError::Sensor(e),
        }
    }
}

impl<VE, SE, LE> From<VehicleSensorError<VE, SE>> for DemoError<VE, SE, LE> {
    fn from(value: VehicleSensorError<VE, SE>) -> (error: DemoError<VE, SE, LE>) {
        match value {
            VehicleSensorError::Vehicle(e) => DemoError::Vehicle(e),
            VehicleSensorError::Sensor(e) => DemoError::Sensor(e),
        }
    }
}

impl<VE, SE, LE> FromSpecImpl<VehicleSensorError<VE, SE>> for DemoError<VE, SE, LE> {
    open spec fn obeys_from_spec() -> bool {
        true
    }

    open spec fn from_spec(value: VehicleSensorError<VE, SE>) -> DemoError<VE, SE, LE> {
        DemoError::of(value)
    }
}

} // verus!
