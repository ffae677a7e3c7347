//! The requests the command actor takes and the answers it gives.

use vstd::prelude::*;
use crate::calibration::SensorCalibration;

verus! {

/// A request to the command actor.
#[derive(Debug, Clone, Copy, PartialEq, Eq, Structural)]
pub enum Command {
    /// Follow the line until stopped.
    FollowLine,
    /// Sweep over the line and learn the sensor levels.
    Calibrate,
    /// Search for the edge of the line.
    FindEdge,
    /// Move the lift to its upper end.
    LiftUp,
    /// Move the lift to its lower end.
    LiftDown,
    /// Stop the motors and whatever is under way.
    Stop,
    /// Run the demonstration from start to end.
    Demo,
}

/// Why a request was turned down.
#[derive(Debug, Clone, Copy, PartialEq, Eq, Structural)]
pub enum CommandDenied {
    /// The named operation is under way.
    Busy(Command),
    /// The named request has to be made first.
    Required(Command),
}

/// The answer to a request: the request that stops what was accepted (for a
/// stop, the operation that was stopped), or why it was turned down.
pub type CommandResult = Result<Command, CommandDenied>;

impl Command {
    /// The name of the request.
    pub open spec fn name(self) -> Seq<char> {
        match self {
            Command::Stop => "Stop"@,
            Command::LiftUp => "LiftUp"@,
            Command::LiftDown => "LiftDown"@,
            Command::Calibrate => "Calibrate"@,
            Command::FindEdge => "FindEdge"@,
            Command::FollowLine => "FollowLine"@,
            Command::Demo => "Demo"@,
        }
    }

    /// The name of the request.
    pub fn as_str(&self) -> (name: &'static str)
        ensures
            name@ == self.name(),
    {
        match self {
            Command::Stop => "Stop",
            Command::LiftUp => "LiftUp",
            Command::LiftDown => "LiftDown",
            Command::Calibrate => "Calibrate",
            Command::FindEdge => "FindEdge",
            Command::FollowLine => "FollowLine",
            Command::Demo => "Demo",
        }
    }

    /// The name of the request as an owned string.
    pub fn to_string(&self) -> (name: String)
        ensures
            name@ == self.name(),
    {
        self.as_str().to_owned()
    }
}

/// The answer to `command` when nothing is under way: following the line
/// needs the robot on the line and a calibration, in that order; the search
/// for the edge needs a calibration; everything else is accepted. What is
/// accepted is answered with the request that ends it: a stop for the
/// operations that run on, and the request itself for the lift.
pub open spec fn arbitration(
    command: Command,
    calibration: Option<SensorCalibration>,
    on_line: bool,
) -> CommandResult {
    match command {
        Command::FollowLine => if !on_line {
            Err(CommandDenied::Required(Command::FindEdge))
        } else if calibration is None {
            Err(CommandDenied::Required(Command::Calibrate))
        } else {
            Ok(Command::Stop)
        },
        Command::FindEdge => if calibration is None {
            Err(CommandDenied::Required(Command::Calibrate))
        } else {
            Ok(Command::Stop)
        },
        Command::LiftUp => Ok(Command::LiftUp),
        Command::LiftDown => Ok(Command::LiftDown),
        Command::Calibrate => Ok(Command::Stop),
        Command::Stop => Ok(Command::Stop),
        Command::Demo => Ok(Command::Stop),
    }
}

/// The answer to `incoming` while `operation` is under way: a stop ends the
/// operation and names it; everything else is turned down as busy.
pub open spec fn interruption(operation: Command, incoming: Command) -> CommandResult {
    if incoming == Command::Stop {
        Ok(operation)
    } else {
        Err(CommandDenied::Busy(operation))
    }
}

/// Answers `command` when nothing is under way.
pub fn arbitrate(command: Command, calibration: Option<SensorCalibration>, on_line: bool) -> (r:
    CommandResult)
    ensures
        r == arbitration(command, calibration, on_line),
{
    match command {
        Command::FollowLine => if !on_line {
            Err(CommandDenied::Required(Command::FindEdge))
        } else if calibration.is_none() {
            Err(CommandDenied::Required(Command::Calibrate))
        } else {
            Ok(Command::Stop)
        },
        Command::FindEdge => if calibration.is_none() {
            Err(CommandDenied::Required(Command::Calibrate))
        } else {
            Ok(Command::Stop)
        },
        Command::LiftUp => Ok(Command::LiftUp),
        Command::LiftDown => Ok(Command::LiftDown),
        Command::Calibrate => Ok(Command::Stop),
        Command::Stop => Ok(Command::Stop),
        Command::Demo => Ok(Command::Stop),
    }
}

/// Answers `incoming` while `operation` is under way.
pub fn interrupt(operation: Command, incoming: Command) -> (r: CommandResult)
    ensures
        r == interruption(operation, incoming),
{
    match incoming {
        Command::Stop => Ok(operation),
        _ => Err(CommandDenied::Busy(operation)),
    }
}

/// What a caller over the network is told: a status code and the name of a
/// request.
#[derive(Debug, Clone, Copy)]
pub struct HardwareResponse {
    /// The status code of the answer.
    pub status: u16,
    /// The request that the answer names.
    pub reason: &'static str,
}

/// Status of an answer that accepts.
pub const STATUS_OK: u16 = 200;

/// Status of an answer that asks for another request first.
pub const STATUS_FORBIDDEN: u16 = 403;

/// Status of an answer that reports an operation under way.
pub const STATUS_CONFLICT: u16 = 409;

impl HardwareResponse {
    /// The status code that stands for `result`.
    pub open spec fn status_of(result: CommandResult) -> u16 {
        match result {
            Ok(_) => STATUS_OK,
            Err(CommandDenied::Busy(_)) => STATUS_CONFLICT,
            Err(CommandDenied::Required(_)) => STATUS_FORBIDDEN,
        }
    }

    /// The request that `result` names.
    pub open spec fn named_by(result: CommandResult) -> Command {
        match result {
            Ok(command) => command,
            Err(CommandDenied::Busy(command)) => command,
            Err(CommandDenied::Required(command)) => command,
        }
    }

    /// Puts status and reason together.
    pub fn new(status: u16, reason: &'static str) -> (response: HardwareResponse)
        ensures
            response.status == status,
            response.reason@ == reason@,
    {
        HardwareResponse { status, reason }
    }

    /// The answer to a caller for the result of a request.
    pub fn from_result(value: CommandResult) -> (response: HardwareResponse)
        ensures
            response.status == HardwareResponse::status_of(value),
            response.reason@ == HardwareResponse::named_by(value).name(),
    {
        match value {
            Ok(command) => HardwareResponse::new(STATUS_OK, command.as_str()),
            Err(CommandDenied::Busy(busy)) => HardwareResponse::new(STATUS_CONFLICT, busy.as_str()),
            Err(CommandDenied::Required(required)) => HardwareResponse::new(
                STATUS_FORBIDDEN,
                required.as_str(),
            ),
        }
    }
}

} // verus!
