//! Spinning to and fro with dwell times that grow.

use vstd::prelude::*;
use core::ops::Not;
use crate::directions::SpinDirection;
use crate::interfaces::Spin;
use crate::time::{since, span};

verus! {

/// The settings of an oscillation: how long the first spin lasts, which way
/// it goes, and by how much each dwell time is longer than the one before.
#[derive(Debug, Clone, Copy)]
pub struct Oscillate {
    duration: u64,
    direction: SpinDirection,
    multiplier: u32,
}

/// An oscillation under way, as plain numbers.
pub struct OscillationView {
    /// Nanoseconds that the current spin lasts.
    pub duration: int,
    /// The current spin.
    pub direction: SpinDirection,
    /// The factor by which the dwell time grows at each switch.
    pub multiplier: int,
    /// The clock reading at the last switch.
    pub last_switch: int,
}

impl OscillationView {
    /// Whether the current spin has lasted its time at the clock reading
    /// `now`.
    pub open spec fn due(self, now: int) -> bool {
        since(now, self.last_switch) >= self.duration
    }

    /// The dwell time after a switch; it stops at the greatest 64-bit number.
    pub open spec fn grown(self) -> int {
        if self.duration * self.multiplier > u64::MAX {
            u64::MAX as int
        } else {
            self.duration * self.multiplier
        }
    }

    /// The oscillation after a switch at the clock reading `now`.
    pub open spec fn switched(self, now: int) -> OscillationView {
        OscillationView {
            duration: self.grown(),
            direction: self.direction.flipped(),
            multiplier: self.multiplier,
            last_switch: now,
        }
    }

    /// The oscillation after a step at the clock reading `now`: switched
    /// where the spin was due, and as before where it was not.
    pub open spec fn stepped(self, now: int) -> OscillationView {
        if self.due(now) {
            self.switched(now)
        } else {
            self
        }
    }

    /// The time left until the current spin is due.
    pub open spec fn remaining(self, now: int) -> int {
        since(self.duration, since(now, self.last_switch))
    }
}

impl Oscillate {
    #[verifier::type_invariant]
    closed spec fn grows(self) -> bool {
        self.multiplier >= 1
    }

    /// Nanoseconds that the first spin lasts.
    pub closed spec fn duration(self) -> int {
        self.duration as int
    }

    /// The first spin.
    pub closed spec fn direction(self) -> SpinDirection {
        self.direction
    }

    /// The factor by which the dwell time grows at each switch.
    pub closed spec fn multiplier(self) -> int {
        self.multiplier as int
    }

    /// The oscillation that these settings give when begun at the clock
    /// reading `now`.
    pub open spec fn begun(self, now: int) -> OscillationView {
        OscillationView {
            duration: self.duration(),
            direction: self.direction(),
            multiplier: self.multiplier(),
            last_switch: now,
        }
    }

    /// Settings for an oscillation whose first spin lasts `duration`
    /// nanoseconds and goes in `direction`, and whose dwell time grows by the
    /// factor `multiplier` at each switch.
    pub fn new(duration: u64, direction: SpinDirection, multiplier: u32) -> (settings: Oscillate)
        requires
            multiplier >= 1,
        ensures
            settings.duration() == duration,
            settings.direction() == direction,
            settings.multiplier() == multiplier,
    {
        Oscillate { duration, direction, multiplier }
    }

    /// The spin that the oscillation begins with.
    pub fn first_spin(&self) -> (direction: SpinDirection)
        ensures
            direction == self.direction(),
    {
        self.direction
    }

    /// Begins the oscillation at the clock reading `now`. The caller has
    /// the vehicle spin in the first direction.
    pub fn begin(self, now: u64) -> (active: ActiveOscillation)
        ensures
            active@ == self.begun(now as int),
    {
        ActiveOscillation { config: self, since_last: now }
    }

    /// Begins the oscillation at the clock reading `now` where the spin
    /// command came through, and hands the error of the hardware on where it
    /// did not. `spun` is what the spin command in the first direction
    /// returned.
    pub fn started<T, E>(self, spun: Result<T, E>, now: u64) -> (r: Result<ActiveOscillation, E>)
        ensures
            spun is Ok ==> r is Ok && r->Ok_0@ == self.begun(now as int),
            spun is Err ==> r is Err && r->Err_0 == spun->Err_0,
    {
        match spun {
            Ok(_) => Ok(self.begin(now)),
            Err(e) => Err(e),
        }
    }

    /// Has `driveable` spin in the first direction and begins the
    /// oscillation at the clock reading `now`.
    ///
    /// Fails where the spin command fails, with the error of the hardware.
    pub fn start<D: Spin<SpinDirection = SpinDirection>>(self, driveable: &mut D, now: u64) -> (r:
        Result<ActiveOscillation, D::Error>)
        ensures
            exists|spun: Result<Option<D::Direction>, D::Error>|
                {
                    &&& #[trigger] old(driveable).admits_spin(
                        self.direction(),
                        final(driveable),
                        spun,
                    )
                    &&& spun is Ok ==> r is Ok && r->Ok_0@ == self.begun(now as int)
                    &&& spun is Err ==> r is Err && r->Err_0 == spun->Err_0
                },
            r is Ok ==> r->Ok_0@ == self.begun(now as int),
    {
        let spun = driveable.spin(self.direction);
        let ghost answer = spun;
        let r = self.started(spun, now);
        assert(old(driveable).admits_spin(self.direction(), &*driveable, answer));
        r
    }
}

/// An oscillation under way.
#[derive(Debug, Clone, Copy)]
pub struct ActiveOscillation {
    config: Oscillate,
    since_last: u64,
}

impl View for ActiveOscillation {
    type V = OscillationView;

    closed spec fn view(&self) -> OscillationView {
        self.config.begun(self.since_last as int)
    }
}

impl ActiveOscillation {
    /// What every oscillation under way keeps to: the dwell time and the
    /// clock reading fit in 64 bits, and the multiplier is at least one.
    pub open spec fn wf(view: OscillationView) -> bool {
        &&& 0 <= view.duration <= u64::MAX
        &&& 1 <= view.multiplier <= u32::MAX
        &&& 0 <= view.last_switch <= u64::MAX
    }

    /// The current spin.
    pub fn direction(&self) -> (direction: SpinDirection)
        ensures
            direction == self@.direction,
    {
        self.config.direction
    }

    /// Nanoseconds that the current spin lasts.
    pub fn duration(&self) -> (duration: u64)
        ensures
            duration == self@.duration,
            ActiveOscillation::wf(self@),
    {
        proof {
            use_type_invariant(&self.config);
        }
        self.config.duration
    }

    /// Whether the current spin has lasted its time at the clock reading
    /// `now`, so that a step would switch.
    pub fn should_step(&self, now: u64) -> (due: bool)
        ensures
            due == self@.due(now as int),
    {
        span(self.since_last, now) >= self.config.duration
    }

    /// Nanoseconds left at the clock reading `now` until the current spin is
    /// due; none where it is due already.
    pub fn next_oscillation(&self, now: u64) -> (left: u64)
        ensures
            left == self@.remaining(now as int),
            left == 0 <==> self@.due(now as int),
    {
        span(span(self.since_last, now), self.config.duration)
    }

    /// Goes ahead at the clock reading `now`: where the current spin is due,
    /// the oscillation switches to the opposite spin, lets the dwell time
    /// grow, and returns the new spin for the caller to command. Where it is
    /// not due, nothing changes.
    pub fn advance(&mut self, now: u64) -> (spin: Option<SpinDirection>)
        ensures
            final(self)@ == old(self)@.stepped(now as int),
            old(self)@.due(now as int) ==> spin == Some(final(self)@.direction),
            !old(self)@.due(now as int) ==> spin is None,
    {
        proof {
            use_type_invariant(&self.config);
        }
        if span(self.since_last, now) >= self.config.duration {
            let direction = self.config.direction.not();
            assert(self.config.duration * self.config.multiplier <= 0xffff_ffff_ffff_ffff
                * 0xffff_ffff) by (nonlinear_arith)
                requires
                    0 <= self.config.duration <= 0xffff_ffff_ffff_ffff,
                    0 <= self.config.multiplier <= 0xffff_ffff,
            ;
            let grown: u128 = self.config.duration as u128 * self.config.multiplier as u128;
            let duration = if grown > u64::MAX as u128 {
                u64::MAX
            } else {
                grown as u64
            };
            self.config = Oscillate { duration, direction, multiplier: self.config.multiplier };
            self.since_last = now;
            Some(direction)
        } else {
            None
        }
    }

    /// What a step reports: whether the oscillation switched, or the error
    /// of the hardware where the spin command of the switch did not come
    /// through. `spun` is what that command returned, where there was a
    /// switch.
    pub fn reported<T, E>(spun: Option<Result<T, E>>) -> (r: Result<bool, E>)
        ensures
            spun is None ==> r == Ok::<bool, E>(false),
            spun is Some && spun->Some_0 is Ok ==> r == Ok::<bool, E>(true),
            spun is Some && spun->Some_0 is Err ==> r == Err::<bool, E>(spun->Some_0->Err_0),
    {
        match spun {
            None => Ok(false),
            Some(Ok(_)) => Ok(true),
            Some(Err(e)) => Err(e),
        }
    }

    /// Goes ahead at the clock reading `now` and, where the oscillation
    /// switches, has `driveable` spin in the new direction. Returns whether
    /// it switched.
    ///
    /// Fails where the spin command fails, with the error of the hardware;
    /// the oscillation has switched all the same.
    pub fn step<D: Spin<SpinDirection = SpinDirection>>(&mut self, driveable: &mut D, now: u64) -> (r:
        Result<bool, D::Error>)
        ensures
            final(self)@ == old(self)@.stepped(now as int),
            r is Ok ==> r->Ok_0 == old(self)@.due(now as int),
            r is Err ==> old(self)@.due(now as int),
            old(self)@.due(now as int) ==> exists|spun: Result<Option<D::Direction>, D::Error>|
                {
                    &&& #[trigger] old(driveable).admits_spin(
                        final(self)@.direction,
                        final(driveable),
                        spun,
                    )
                    &&& spun is Ok ==> r == Ok::<bool, D::Error>(true)
                    &&& spun is Err ==> r == Err::<bool, D::Error>(spun->Err_0)
                },
            !old(self)@.due(now as int) ==> *final(driveable) == *old(driveable),
    {
        let ghost mut answer: Option<Result<Option<D::Direction>, D::Error>> = None;
        let spun = match self.advance(now) {
            Some(direction) => {
                let spun = driveable.spin(direction);
                proof {
                    answer = Some(spun);
                }
                Some(spun)
            },
            None => None,
        };
        let r = ActiveOscillation::reported(spun);
        proof {
            if old(self)@.due(now as int) {
                assert(old(driveable).admits_spin(
                    self@.direction,
                    &*driveable,
                    answer->Some_0,
                ));
            }
        }
        r
    }
}

/// Right after a switch the oscillation is not due, provided its dwell time
/// is not zero, and the new dwell time is the old one times the multiplier,
/// provided that product fits in 64 bits.
pub proof fn not_due_after_switch(before: OscillationView, now: int)
    requires
        ActiveOscillation::wf(before),
        before.due(now),
        before.duration > 0,
        before.duration * before.multiplier <= u64::MAX,
    ensures
        !before.stepped(now).due(now),
        before.stepped(now).duration == before.duration * before.multiplier,
        before.stepped(now).direction == before.direction.flipped(),
{
    assert(before.duration * before.multiplier >= before.duration) by (nonlinear_arith)
        requires
            before.duration > 0,
            before.multiplier >= 1,
    ;
}

/// A step that finds the oscillation not due leaves it not due at that
/// moment, and changes nothing.
pub proof fn not_due_after_idle_step(before: OscillationView, now: int)
    requires
        !before.due(now),
    ensures
        before.stepped(now) == before,
        !before.stepped(now).due(now),
{
}

} // verus!
