//! Pulse widths for motors that are steered by the width of a pulse.

use vstd::prelude::*;
use crate::directions::MotorDirection;
use crate::fixed::SCALE;
use crate::speed::{Speed, SpeedControl};

verus! {

/// Marks a component as mounted on the left side.
#[derive(Debug, Clone, Copy, Default, PartialEq, Eq, Structural)]
pub struct Left;

/// Marks a component as mounted on the right side.
#[derive(Debug, Clone, Copy, Default, PartialEq, Eq, Structural)]
pub struct Right;

/// The side of the vehicle a motor is mounted on. The two sides are wired
/// with opposite polarity.
#[derive(Debug, Clone, Copy, PartialEq, Eq, Structural)]
pub enum Side {
    /// The left side.
    Left,
    /// The right side.
    Right,
}

/// Whether a motor on `side` is driven with positive polarity to turn in
/// `direction`: on the right side for forward, on the left side for
/// backward. With positive polarity the direction pin is high and the pulse
/// is longer than at standstill.
pub open spec fn positive(side: Side, direction: MotorDirection) -> bool {
    match (side, direction) {
        (Side::Left, MotorDirection::Forward(_)) => false,
        (Side::Left, MotorDirection::Backward(_)) => true,
        (Side::Right, MotorDirection::Forward(_)) => true,
        (Side::Right, MotorDirection::Backward(_)) => false,
    }
}

/// Tells whether a motor on `side` is driven with positive polarity to turn
/// in `direction`.
pub fn polarity(side: Side, direction: MotorDirection) -> (high: bool)
    ensures
        high == positive(side, direction),
{
    match (side, direction) {
        (Side::Left, MotorDirection::Forward(_)) => false,
        (Side::Left, MotorDirection::Backward(_)) => true,
        (Side::Right, MotorDirection::Forward(_)) => true,
        (Side::Right, MotorDirection::Backward(_)) => false,
    }
}

/// Opposite directions have opposite polarity, and so have the two sides.
pub proof fn polarity_flips(side: Side, direction: MotorDirection)
    ensures
        positive(side, direction.flipped()) == !positive(side, direction),
        positive(Side::Left, direction) == !positive(Side::Right, direction),
{
}

/// The timing of the pulses that steer a motor, in nanoseconds.
#[derive(Debug, Clone, Copy, PartialEq, Eq, Structural)]
pub struct PwmConfig {
    /// Time from the start of one pulse to the start of the next.
    pub period: u64,
    /// Width of the pulse at which the motor stands still.
    pub stop_pulse_width: u64,
    /// By how much the width differs from standstill at full speed.
    pub pulse_width_range: u64,
}

impl Default for PwmConfig {
    fn default() -> (config: PwmConfig)
        ensures
            config == (PwmConfig {
                period: 20_000_000,
                stop_pulse_width: 1_500_000,
                pulse_width_range: 500_000,
            }),
    {
        PwmConfig { period: 20_000_000, stop_pulse_width: 1_500_000, pulse_width_range: 500_000 }
    }
}

impl PwmConfig {
    /// Whether every pulse width of this timing can be formed: the range
    /// leaves room below the width of standstill and above it.
    pub open spec fn wf(self) -> bool {
        &&& self.pulse_width_range <= self.stop_pulse_width
        &&& self.stop_pulse_width + self.pulse_width_range <= u64::MAX
    }

    /// By how much the width of the pulse differs from standstill at a
    /// speed: the share of the range that the speed is of full speed,
    /// rounded down.
    pub open spec fn swing(self, speed: Speed) -> int {
        self.pulse_width_range * speed@ / (SCALE as int)
    }


    /// The width of the pulse that makes a motor on `side` turn in
    /// `direction`.
    pub open spec fn width(self, side: Side, direction: MotorDirection) -> int {
        if positive(side, direction) {
            self.stop_pulse_width + self.swing(direction.speed_spec())
        } else {
            self.stop_pulse_width - self.swing(direction.speed_spec())
        }
    }

    /// Computes the width of the pulse that makes a motor on `side` turn in
    /// `direction`.
    pub fn pulse_width(&self, side: Side, direction: MotorDirection) -> (width: u64)
        requires
            self.wf(),
        ensures
            width == self.width(side, direction),
            self.stop_pulse_width - self.pulse_width_range <= width <= self.stop_pulse_width
                + self.pulse_width_range,
    {
        let units = direction.speed().value();
        let range = self.pulse_width_range;
        assert(0 <= range * units <= range * SCALE) by (nonlinear_arith)
            requires
                0 <= units <= SCALE,
                0 <= range,
        ;
        assert(range * SCALE <= 0xffff_ffff_ffff_ffff * 1_000_000) by (nonlinear_arith)
            requires
                0 <= range <= 0xffff_ffff_ffff_ffff,
                SCALE == 1_000_000,
        ;
        assert(range * units / (SCALE as int) <= range) by (nonlinear_arith)
            requires
                0 <= range * units <= range * SCALE,
                SCALE > 0,
        ;
        let swing = (range as u128 * units as u128 / SCALE as u128) as u64;
        if polarity(side, direction) {
            self.stop_pulse_width + swing
        } else {
            self.stop_pulse_width - swing
        }
    }
}

/// The hardware channel that drives pulses on `pin`: channel 0 on the pins
/// 12 and 18, channel 1 on the pins 13 and 19, and none on any other pin.
pub open spec fn channel_of(pin: u8) -> Option<u8> {
    if pin == 12 || pin == 18 {
        Some(0u8)
    } else if pin == 13 || pin == 19 {
        Some(1u8)
    } else {
        None
    }
}

/// The hardware channel that drives pulses on `pin`, where there is one.
pub fn pin_to_channel(pin: u8) -> (channel: Option<u8>)
    ensures
        channel == channel_of(pin),
{
    match pin {
        12 | 18 => Some(0),
        13 | 19 => Some(1),
        _ => None,
    }
}

/// The byte that asks the sensor converter for a reading of `channel`.
pub fn control_byte(channel: u8) -> (byte: u8)
    ensures
        byte == 0x40 | channel,
{
    0x40 | channel
}

} // verus!
