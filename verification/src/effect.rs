//! What the state machines of the control core ask their shells to do.

use vstd::prelude::*;
use crate::command::CommandResult;
use crate::directions::{SpinDirection, VehicleDirection};
use crate::speed::Speed;

verus! {

/// Something the shell is to do with the hardware or the mailbox. A failure
/// of the hardware in any of these but [`Effect::HaltIfPossible`] is fatal:
/// the shell ends, and with it the service.
#[derive(Debug, Clone, Copy, PartialEq, Eq)]
pub enum Effect {
    /// Answer the request that was just handed in. An answer that nobody
    /// waits for any more is dropped.
    Reply(CommandResult),
    /// Stop the drive motors.
    Halt,
    /// Stop the drive motors, and go on where that fails.
    HaltIfPossible,
    /// Spin on the spot.
    Spin(SpinDirection),
    /// Drive.
    Drive(VehicleDirection),
    /// Move the lift to its upper end, and wait until it is there.
    LiftUp(Speed),
    /// Move the lift to its lower end, and wait until it is there.
    LiftDown(Speed),
}

} // verus!
