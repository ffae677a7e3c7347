//! Steering by keys: which direction a set of held keys asks for.

use vstd::prelude::*;
use crate::directions::{MotorDirection, VehicleDirection};
use crate::speed::Speed;

verus! {

broadcast use {Speed::of_view, Speed::view_of};

/// The bit of the key for driving ahead.
pub const FORWARD: u8 = 0b0001;

/// The bit of the key for driving back.
pub const BACKWARD: u8 = 0b0010;

/// The bit of the key for turning left.
pub const LEFT: u8 = 0b0100;

/// The bit of the key for turning right.
pub const RIGHT: u8 = 0b1000;

/// In a turn the inner motor runs at one of this many parts of the speed.
pub const TURN_PARTS: u64 = 3;

/// The bit that stands for a key, for the four keys that steer.
pub open spec fn key_bit(key: char) -> Option<u8> {
    if key == 'w' {
        Some(FORWARD)
    } else if key == 's' {
        Some(BACKWARD)
    } else if key == 'a' {
        Some(LEFT)
    } else if key == 'd' {
        Some(RIGHT)
    } else {
        None
    }
}

/// Whether the key with the given bit is held in `state`.
pub open spec fn held(state: u8, bit: u8) -> bool {
    state & bit != 0
}

/// Whether `state` asks to drive ahead: the key for ahead is held and the
/// key for back is not.
pub open spec fn ahead(state: u8) -> bool {
    held(state, FORWARD) && !held(state, BACKWARD)
}

/// Whether `state` asks to drive back.
pub open spec fn back(state: u8) -> bool {
    held(state, BACKWARD) && !held(state, FORWARD)
}

/// Whether `state` asks to turn left: the key for left is held and the key
/// for right is not.
pub open spec fn leftward(state: u8) -> bool {
    held(state, LEFT) && !held(state, RIGHT)
}

/// Whether `state` asks to turn right.
pub open spec fn rightward(state: u8) -> bool {
    held(state, RIGHT) && !held(state, LEFT)
}

/// The direction that the held keys ask for at `speed`. Opposite keys
/// cancel each other. Ahead or back together with a side is a turn, in which
/// the inner motor runs at a third of the speed; a side alone is a spin on
/// the spot; no key is no direction.
pub open spec fn steering(state: u8, speed: Speed) -> Option<VehicleDirection> {
    let slow = speed.part(TURN_PARTS);
    if ahead(state) && leftward(state) {
        Some(
            VehicleDirection {
                left: MotorDirection::Forward(slow),
                right: MotorDirection::Forward(speed),
            },
        )
    } else if ahead(state) && rightward(state) {
        Some(
            VehicleDirection {
                left: MotorDirection::Forward(speed),
                right: MotorDirection::Forward(slow),
            },
        )
    } else if back(state) && leftward(state) {
        Some(
            VehicleDirection {
                left: MotorDirection::Backward(slow),
                right: MotorDirection::Backward(speed),
            },
        )
    } else if back(state) && rightward(state) {
        Some(
            VehicleDirection {
                left: MotorDirection::Backward(speed),
                right: MotorDirection::Backward(slow),
            },
        )
    } else if ahead(state) {
        Some(
            VehicleDirection {
                left: MotorDirection::Forward(speed),
                right: MotorDirection::Forward(speed),
            },
        )
    } else if back(state) {
        Some(
            VehicleDirection {
                left: MotorDirection::Backward(speed),
                right: MotorDirection::Backward(speed),
            },
        )
    } else if rightward(state) {
        Some(
            VehicleDirection {
                left: MotorDirection::Forward(speed),
                right: MotorDirection::Backward(speed),
            },
        )
    } else if leftward(state) {
        Some(
            VehicleDirection {
                left: MotorDirection::Backward(speed),
                right: MotorDirection::Forward(speed),
            },
        )
    } else {
        None
    }
}

/// The bit that stands for `key`, for the four keys that steer.
pub fn modifier(key: char) -> (bit: Option<u8>)
    ensures
        bit == key_bit(key),
{
    if key == 'w' {
        Some(FORWARD)
    } else if key == 's' {
        Some(BACKWARD)
    } else if key == 'a' {
        Some(LEFT)
    } else if key == 'd' {
        Some(RIGHT)
    } else {
        None
    }
}

/// The held keys after `key` is pressed. A key that does not steer changes
/// nothing.
pub fn press(state: u8, key: char) -> (held: u8)
    ensures
        held == match key_bit(key) {
            Some(bit) => state | bit,
            None => state,
        },
{
    match modifier(key) {
        Some(bit) => state | bit,
        None => state,
    }
}

/// The held keys after `key` is let go. A key that does not steer changes
/// nothing.
pub fn release(state: u8, key: char) -> (held: u8)
    ensures
        held == match key_bit(key) {
            Some(bit) => state & !bit,
            None => state,
        },
{
    match modifier(key) {
        Some(bit) => state & !bit,
        None => state,
    }
}

/// The direction that the held keys ask for at `speed`.
pub fn u8_into_state(state: u8, speed: Speed) -> (direction: Option<VehicleDirection>)
    ensures
        direction == steering(state, speed),
{
    let forward = state & FORWARD != 0;
    let backward = state & BACKWARD != 0;
    let left = state & LEFT != 0;
    let right = state & RIGHT != 0;
    let ahead = forward && !backward;
    let back = backward && !forward;
    let leftward = left && !right;
    let rightward = right && !left;
    let turn_speed = speed / TURN_PARTS;
    if ahead && leftward {
        Some(
            VehicleDirection::new(
                MotorDirection::Forward(turn_speed),
                MotorDirection::Forward(speed),
            ),
        )
    } else if ahead && rightward {
        Some(
            VehicleDirection::new(
                MotorDirection::Forward(speed),
                MotorDirection::Forward(turn_speed),
            ),
        )
    } else if back && leftward {
        Some(
            VehicleDirection::new(
                MotorDirection::Backward(turn_speed),
                MotorDirection::Backward(speed),
            ),
        )
    } else if back && rightward {
        Some(
            VehicleDirection::new(
                MotorDirection::Backward(speed),
                MotorDirection::Backward(turn_speed),
            ),
        )
    } else if ahead {
        Some(VehicleDirection::forward(speed))
    } else if back {
        Some(VehicleDirection::backward(speed))
    } else if rightward {
        Some(VehicleDirection::spin_right(speed))
    } else if leftward {
        Some(VehicleDirection::spin_left(speed))
    } else {
        None
    }
}

/// A key of the keyboard as far as steering knows it.
#[derive(Debug, Clone, Copy, PartialEq, Eq, Structural)]
pub enum Key {
    /// A key that stands for a character.
    Char(char),
    /// The escape key.
    Esc,
    /// The arrow up.
    Up,
    /// The arrow down.
    Down,
    /// Any other key.
    Other,
}

/// What a key asks the robot to do.
#[derive(Debug, Clone, Copy, PartialEq, Eq, Structural)]
pub enum KeyAction {
    /// Nothing.
    Nothing,
    /// Drive in this direction.
    Drive(VehicleDirection),
    /// Stop the motors.
    Halt,
    /// Calibrate the sensor.
    Calibrate,
    /// Follow the line.
    FollowLine,
    /// Move the lift to its upper end.
    LiftUp,
    /// Move the lift to its lower end.
    LiftDown,
    /// Leave the program.
    Exit,
}

/// What the motors are told for the held keys in `state`: to drive where the
/// keys ask for a direction, and to stop where they do not.
pub open spec fn motion(state: u8, speed: Speed) -> KeyAction {
    match steering(state, speed) {
        Some(direction) => KeyAction::Drive(direction),
        None => KeyAction::Halt,
    }
}

/// The held keys after `key` is pressed or let go.
pub open spec fn held_after(state: u8, key: Key, pressed: bool) -> u8 {
    match key {
        Key::Char(c) => match key_bit(c) {
            Some(bit) => if pressed {
                state | bit
            } else {
                state & !bit
            },
            None => state,
        },
        _ => state,
    }
}

/// What pressing or letting go of `key` asks for while the keys in `state`
/// are held. The four steering keys change the direction. Pressed, `c`
/// calibrates, `e` follows the line once the sensor is calibrated, escape
/// leaves, and the arrows move the lift while no steering key is held.
pub open spec fn key_action(state: u8, calibrated: bool, speed: Speed, key: Key, pressed: bool) -> KeyAction {
    match key {
        Key::Char(c) => if key_bit(c) is Some {
            motion(held_after(state, key, pressed), speed)
        } else if pressed && c == 'c' {
            KeyAction::Calibrate
        } else if pressed && c == 'e' && calibrated {
            KeyAction::FollowLine
        } else {
            KeyAction::Nothing
        },
        Key::Esc => if pressed {
            KeyAction::Exit
        } else {
            KeyAction::Nothing
        },
        Key::Up => if pressed && state == 0 {
            KeyAction::LiftUp
        } else {
            KeyAction::Nothing
        },
        Key::Down => if pressed && state == 0 {
            KeyAction::LiftDown
        } else {
            KeyAction::Nothing
        },
        Key::Other => KeyAction::Nothing,
    }
}

/// Takes in a key that is pressed or let go while the keys in `state` are
/// held, and returns the keys held afterwards and what the key asks for.
pub fn on_key(state: u8, calibrated: bool, speed: Speed, key: Key, pressed: bool) -> (r: (
    u8,
    KeyAction,
))
    ensures
        r.0 == held_after(state, key, pressed),
        r.1 == key_action(state, calibrated, speed, key, pressed),
{
    match key {
        Key::Char(c) => match modifier(c) {
            Some(_) => {
                let held = if pressed {
                    press(state, c)
                } else {
                    release(state, c)
                };
                let action = match u8_into_state(held, speed) {
                    Some(direction) => KeyAction::Drive(direction),
                    None => KeyAction::Halt,
                };
                (held, action)
            },
            None => if pressed && c == 'c' {
                (state, KeyAction::Calibrate)
            } else if pressed && c == 'e' && calibrated {
                (state, KeyAction::FollowLine)
            } else {
                (state, KeyAction::Nothing)
            },
        },
        Key::Esc => if pressed {
            (state, KeyAction::Exit)
        } else {
            (state, KeyAction::Nothing)
        },
        Key::Up => if pressed && state == 0 {
            (state, KeyAction::LiftUp)
        } else {
            (state, KeyAction::Nothing)
        },
        Key::Down => if pressed && state == 0 {
            (state, KeyAction::LiftDown)
        } else {
            (state, KeyAction::Nothing)
        },
        Key::Other => (state, KeyAction::Nothing),
    }
}

/// Pressing a key and letting it go again leaves the keys that were held
/// before as they were, whether or not the key was among them before.
pub proof fn release_undoes_press(state: u8, bit: u8)
    ensures
        (state | bit) & !bit == state & !bit,
        ((state | bit) & !bit) & bit == 0,
{
    assert((state | bit) & !bit == state & !bit) by (bit_vector);
    assert(((state | bit) & !bit) & bit == 0) by (bit_vector);
}

} // verus!
