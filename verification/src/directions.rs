//! The directions a motor, a spin and the whole vehicle can take.

use vstd::prelude::*;

pub mod motor;
pub mod spin;
pub mod vehicle;

pub use motor::MotorDirection;
pub use spin::SpinDirection;
pub use vehicle::VehicleDirection;

verus! {

/// Directions that can mean standstill.
pub trait Stop {
    /// Whether the direction is a standstill.
    spec fn stopped(&self) -> bool;

    /// Tells whether the direction is a standstill.
    fn is_stop(&self) -> (b: bool)
        ensures
            b == self.stopped(),
    ;
}

} // verus!
