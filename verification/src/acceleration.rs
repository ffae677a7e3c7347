//! Limits on how fast a commanded speed may rise.

use vstd::prelude::*;
use vstd::std_specs::ops::MulSpec;
use core::ops::Mul;
use crate::directions::{MotorDirection, Stop, VehicleDirection};
use crate::fixed::SCALE;
use crate::speed::Speed;
use crate::time::{since, span};

verus! {

broadcast use {Speed::of_view, Speed::view_of};

/// Something that scales a commanded value by how far a ramp has come.
pub trait Accelerator<S: Mul<Speed, Output = S> + Stop + Sized> {
    /// The factor that is applied at the clock reading `now` to a value that
    /// is, or is not, a standstill.
    spec fn factor(&self, stopped: bool, now: int) -> Speed;

    /// Scales `value` by the factor of the ramp at the clock reading `now`.
    fn apply(&mut self, value: S, now: u64) -> (scaled: S)
        requires
            forall|factor: Speed| #[trigger] value.mul_req(factor),
        ensures
            S::obeys_mul_spec() ==> scaled == value.mul_spec(
                old(self).factor(value.stopped(), now as int),
            ),
    ;
}

/// Values that an [`Accelerator`] can be applied to.
pub trait Accelerate: Mul<Speed, Output = Self> + Stop + Sized {
    /// Scales the value by the factor of `acceleration` at the clock reading
    /// `now`.
    fn accelerate<A: Accelerator<Self>>(self, acceleration: &mut A, now: u64) -> (scaled: Self)
        requires
            forall|factor: Speed| #[trigger] self.mul_req(factor),
        ensures
            Self::obeys_mul_spec() ==> scaled == self.mul_spec(
                old(acceleration).factor(self.stopped(), now as int),
            ),
    {
        acceleration.apply(self, now)
    }
}

impl<T: Mul<Speed, Output = T> + Stop + Sized> Accelerate for T {

}

/// How far a ramp of `duration` nanoseconds has come after `elapsed`
/// nanoseconds, as a fixed-point share: nothing at the start, all of it from
/// `duration` on, and in between in proportion, rounded down. A ramp without
/// duration is complete at once.
pub open spec fn ramp(elapsed: int, duration: int) -> int {
    if duration <= 0 || elapsed >= duration {
        SCALE as int
    } else if elapsed <= 0 {
        0
    } else {
        elapsed * SCALE / duration
    }
}

/// The share of a ramp lies between nothing and all.
pub proof fn ramp_in_range(elapsed: int, duration: int)
    ensures
        0 <= ramp(elapsed, duration) <= SCALE,
{
    if duration > 0 && 0 < elapsed < duration {
        let s = SCALE as int;
        assert(0 <= elapsed * s / duration <= s) by (nonlinear_arith)
            requires
                0 < elapsed < duration,
                s > 0,
        ;
    }
}

/// A ramp never falls while time goes on.
pub proof fn ramp_is_monotonic(earlier: int, later: int, duration: int)
    requires
        earlier <= later,
    ensures
        ramp(earlier, duration) <= ramp(later, duration),
{
    ramp_in_range(earlier, duration);
    ramp_in_range(later, duration);
    if duration > 0 && 0 < earlier && later < duration {
        let s = SCALE as int;
        assert(earlier * s / duration <= later * s / duration) by (nonlinear_arith)
            requires
                0 < earlier <= later,
                duration > 0,
                s > 0,
        ;
    }
}

/// How far a ramp of `duration` nanoseconds has come after `elapsed`
/// nanoseconds, as the speed by which a command is scaled.
pub fn ramp_share(elapsed: u64, duration: u64) -> (share: Speed)
    ensures
        share@ == ramp(elapsed as int, duration as int),
{
    if duration == 0 || elapsed >= duration {
        Speed::max()
    } else {
        proof {
            ramp_in_range(elapsed as int, duration as int);
        }
        assert(elapsed * SCALE <= 0xffff_ffff_ffff_ffff * 1_000_000) by (nonlinear_arith)
            requires
                0 <= elapsed <= 0xffff_ffff_ffff_ffff,
                SCALE == 1_000_000,
        ;
        let wide: u128 = elapsed as u128 * SCALE as u128 / duration as u128;
        Speed::new_clamp(wide as i64)
    }
}

/// What a ramp remembers, as plain numbers.
pub struct RampView {
    /// Nanoseconds from standstill to the full commanded speed.
    pub duration: int,
    /// The clock reading at which the ramp began, where it is under way.
    pub started: Option<int>,
}

impl RampView {
    /// The clock reading from which the ramp counts once a value is applied
    /// at `now`: none after a standstill, else where it began, else `now`.
    pub open spec fn started_after(self, stopped: bool, now: int) -> Option<int> {
        if stopped {
            None
        } else if self.started is Some {
            self.started
        } else {
            Some(now)
        }
    }

    /// The ramp after a value is applied at `now`.
    pub open spec fn applied(self, stopped: bool, now: int) -> RampView {
        RampView { duration: self.duration, started: self.started_after(stopped, now) }
    }

    /// How far the ramp has come when a value is applied at `now`: a
    /// standstill always counts as complete.
    pub open spec fn progress(self, stopped: bool, now: int) -> int {
        if stopped {
            SCALE as int
        } else {
            ramp(since(now, self.started_after(stopped, now)->Some_0), self.duration)
        }
    }
}

/// A ramp that rises in proportion to the time gone by.
#[derive(Debug, Clone, Copy)]
pub struct LinearAcceleration {
    duration: u64,
    last: Option<u64>,
}

impl View for LinearAcceleration {
    type V = RampView;

    closed spec fn view(&self) -> RampView {
        RampView {
            duration: self.duration as int,
            started: match self.last {
                Some(at) => Some(at as int),
                None => None,
            },
        }
    }
}

impl LinearAcceleration {
    /// A ramp that takes `duration` nanoseconds from standstill to the full
    /// commanded speed, and is not under way.
    pub fn new(duration: u64) -> (acceleration: LinearAcceleration)
        ensures
            acceleration@ == (RampView { duration: duration as int, started: None }),
    {
        LinearAcceleration { duration, last: None }
    }

    /// Ends the ramp and returns the clock reading at which it had begun.
    pub fn reset(&mut self) -> (started: Option<u64>)
        ensures
            final(self)@ == (RampView { duration: old(self)@.duration, started: None }),
            started is Some <==> old(self)@.started is Some,
            started is Some ==> started->Some_0 == old(self)@.started->Some_0,
    {
        self.last.take()
    }

    /// The multiplier for a value applied at the clock reading `now`. A
    /// standstill ends the ramp; any other value begins it where it is not
    /// under way.
    pub fn multiplier(&mut self, stopped: bool, now: u64) -> (share: Speed)
        ensures
            final(self)@ == old(self)@.applied(stopped, now as int),
            share@ == old(self)@.progress(stopped, now as int),
    {
        if stopped {
            self.last = None;
            Speed::max()
        } else {
            let started = match self.last {
                Some(at) => at,
                None => {
                    self.last = Some(now);
                    now
                },
            };
            ramp_share(span(started, now), self.duration)
        }
    }
}

impl<S: Mul<Speed, Output = S> + Stop + Sized> Accelerator<S> for LinearAcceleration {
    open spec fn factor(&self, stopped: bool, now: int) -> Speed {
        Speed::of(self@.progress(stopped, now))
    }

    fn apply(&mut self, value: S, now: u64) -> (scaled: S)
        ensures
            final(self)@ == old(self)@.applied(value.stopped(), now as int),
    {
        let share = self.multiplier(value.is_stop(), now);
        value * share
    }
}

/// A ramp that eases in and out along half a sine wave. This type keeps the
/// time of the ramp; the easing curve is applied to the share it reports.
#[derive(Debug, Clone, Copy)]
pub struct SineInOutAcceleration {
    duration: u64,
    last: Option<u64>,
}

impl View for SineInOutAcceleration {
    type V = RampView;

    closed spec fn view(&self) -> RampView {
        RampView {
            duration: self.duration as int,
            started: match self.last {
                Some(at) => Some(at as int),
                None => None,
            },
        }
    }
}

impl SineInOutAcceleration {
    /// A ramp that takes `duration` nanoseconds from standstill to the full
    /// commanded speed, and is not under way.
    pub fn new(duration: u64) -> (acceleration: SineInOutAcceleration)
        ensures
            acceleration@ == (RampView { duration: duration as int, started: None }),
    {
        SineInOutAcceleration { duration, last: None }
    }

    /// Ends the ramp and returns the clock reading at which it had begun.
    pub fn reset(&mut self) -> (started: Option<u64>)
        ensures
            final(self)@ == (RampView { duration: old(self)@.duration, started: None }),
            started is Some <==> old(self)@.started is Some,
            started is Some ==> started->Some_0 == old(self)@.started->Some_0,
    {
        self.last.take()
    }

    /// The share of the ramp's time that has gone by for a value applied at
    /// the clock reading `now`, before easing. A standstill ends the ramp;
    /// any other value begins it where it is not under way.
    pub fn fraction(&mut self, stopped: bool, now: u64) -> (share: Speed)
        ensures
            final(self)@ == old(self)@.applied(stopped, now as int),
            share@ == old(self)@.progress(stopped, now as int),
    {
        if stopped {
            self.last = None;
            Speed::max()
        } else {
            let started = match self.last {
                Some(at) => at,
                None => {
                    self.last = Some(now);
                    now
                },
            };
            ramp_share(span(started, now), self.duration)
        }
    }
}

/// A command scaled by all of a ramp is the command itself: a standstill
/// passes through a ramp unscaled, and so does every command once the ramp is
/// complete.
pub proof fn complete_ramp_changes_nothing(direction: VehicleDirection)
    ensures
        direction.scaled(Speed::of(SCALE as int)) == direction,
        direction.left.scaled(Speed::of(SCALE as int)) == direction.left,
{
    let full = Speed::of(SCALE as int);
    let s = SCALE as int;
    assert forall|motor: MotorDirection| #[trigger] motor.scaled(full) == motor by {
        let units = match motor {
            MotorDirection::Forward(speed) => speed@,
            MotorDirection::Backward(speed) => speed@,
        };
        assert(units * s / s == units) by (nonlinear_arith)
            requires
                s > 0,
        ;
        assert((-units) * s / s == -units) by (nonlinear_arith)
            requires
                s > 0,
        ;
        assert((-units) * s == -(units * s)) by (nonlinear_arith);
    }
}

/// The first value that is not a standstill finds a ramp that is not under
/// way at nothing, provided the ramp has a duration.
pub proof fn ramp_begins_at_nothing(ramp: RampView, now: int)
    requires
        ramp.started is None,
        ramp.duration > 0,
    ensures
        ramp.progress(false, now) == 0,
        ramp.applied(false, now).started == Some(now),
{
}

/// Once the duration of the ramp has gone by since it began, values pass
/// unscaled.
pub proof fn ramp_ends_at_all(ramp: RampView, now: int)
    requires
        ramp.started is Some,
        now - ramp.started->Some_0 >= ramp.duration,
    ensures
        ramp.progress(false, now) == SCALE,
{
}

/// A standstill ends the ramp: the next value that is not a standstill
/// begins again at nothing, whatever went before.
pub proof fn ramp_begins_again_after_stop(ramp: RampView, stop_at: int, now: int)
    requires
        ramp.duration > 0,
    ensures
        ramp.progress(true, stop_at) == SCALE,
        ramp.applied(true, stop_at).started is None,
        ramp.applied(true, stop_at).progress(false, now) == 0,
{
}

} // verus!
