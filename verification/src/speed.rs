//! Normalised speed: a fixed-point number between zero and one.

use vstd::prelude::*;
use vstd::std_specs::ops::DivSpecImpl;
use vstd::std_specs::ops::MulSpecImpl;
use crate::fixed::{clamp, div_fixed, mul_fixed, product, quotient, SCALE};

verus! {

/// Types that carry a [`Speed`] which can be read and replaced.
pub trait SpeedControl: Sized {
    /// The speed the value carries.
    spec fn speed_spec(&self) -> Speed;

    /// The value with its speed replaced by `speed`.
    spec fn with_speed_spec(self, speed: Speed) -> Self;

    /// Returns the speed carried by the value.
    fn speed(&self) -> (s: Speed)
        ensures
            s == self.speed_spec(),
    ;

    /// Replaces the speed and keeps everything else.
    fn with_speed(self, speed: Speed) -> (r: Self)
        ensures
            r == self.with_speed_spec(speed),
    ;
}

/// A speed between standstill and full speed, both included.
///
/// The speed is held as a count of millionths: `0` is standstill and
/// [`SCALE`] is full speed.
#[derive(Debug, Clone, Copy, PartialEq, Eq, Structural)]
pub struct Speed {
    units: i64,
}

impl View for Speed {
    type V = int;

    closed spec fn view(&self) -> int {
        self.units as int
    }
}

impl Speed {
    /// The range every speed lies in.
    pub open spec fn wf(self) -> bool {
        0 <= self@ <= SCALE
    }

    #[verifier::type_invariant]
    closed spec fn in_range(self) -> bool {
        0 <= self.units <= SCALE
    }

    /// The speed of `units` millionths.
    pub closed spec fn of(units: int) -> Speed {
        Speed { units: units as i64 }
    }

    /// Every speed in range is determined by its count.
    pub broadcast proof fn of_view(units: int)
        requires
            0 <= units <= SCALE,
        ensures
            (#[trigger] Speed::of(units))@ == units,
    {
    }

    /// Two speeds with the same count are the same speed.
    pub broadcast proof fn view_of(self)
        ensures
            #[trigger] Speed::of(self@) == self,
    {
    }

    /// Standstill.
    pub fn min() -> (s: Speed)
        ensures
            s@ == 0,
    {
        Speed { units: 0 }
    }

    /// Half of full speed.
    pub fn half() -> (s: Speed)
        ensures
            s@ == SCALE / 2,
    {
        Speed { units: SCALE / 2 }
    }

    /// Full speed.
    pub fn max() -> (s: Speed)
        ensures
            s@ == SCALE,
    {
        Speed { units: SCALE }
    }

    /// Accepts `value` as a speed when it lies in range, and hands it back
    /// otherwise.
    pub fn new(value: i64) -> (r: Result<Speed, i64>)
        ensures
            0 <= value <= SCALE ==> r is Ok && r->Ok_0@ == value,
            !(0 <= value <= SCALE) ==> r == Err::<Speed, i64>(value),
    {
        if 0 <= value && value <= SCALE {
            Ok(Speed { units: value })
        } else {
            Err(value)
        }
    }

    /// The speed nearest to `value`.
    pub fn new_clamp(value: i64) -> (s: Speed)
        ensures
            s@ == clamp(value as int, 0, SCALE as int),
            0 <= s@ <= SCALE,
    {
        if value < 0 {
            Speed { units: 0 }
        } else if value > SCALE {
            Speed { units: SCALE }
        } else {
            Speed { units: value }
        }
    }

    /// Takes `value` as a speed without a check.
    pub fn new_unchecked(value: i64) -> (s: Speed)
        requires
            0 <= value <= SCALE,
        ensures
            s@ == value,
    {
        Speed { units: value }
    }

    /// The count of millionths.
    pub fn value(self) -> (v: i64)
        ensures
            v == self@,
            0 <= v <= SCALE,
    {
        proof {
            use_type_invariant(self);
        }
        self.units
    }

    fn clamp_wide(value: i128) -> (s: Speed)
        ensures
            s@ == clamp(value as int, 0, SCALE as int),
    {
        if value < 0 {
            Speed { units: 0 }
        } else if value > SCALE as i128 {
            Speed { units: SCALE }
        } else {
            Speed { units: value as i64 }
        }
    }

    /// Adds a signed amount, given as a fixed-point number of 64 bits, and
    /// stops at the bounds.
    pub fn saturating_add_f64(&self, value: i64) -> (s: Speed)
        ensures
            s@ == clamp(self@ + value, 0, SCALE as int),
    {
        proof {
            use_type_invariant(self);
        }
        Self::clamp_wide(self.units as i128 + value as i128)
    }

    /// Subtracts a signed amount, given as a fixed-point number of 64 bits,
    /// and stops at the bounds.
    pub fn saturating_sub_f64(&self, value: i64) -> (s: Speed)
        ensures
            s@ == clamp(self@ - value, 0, SCALE as int),
    {
        proof {
            use_type_invariant(self);
        }
        Self::clamp_wide(self.units as i128 - value as i128)
    }

    /// Multiplies by a signed factor, given as a fixed-point number of 64
    /// bits, and stops at the bounds. The product is rounded toward zero.
    pub fn saturating_mul_f64(&self, value: i64) -> (s: Speed)
        ensures
            s@ == clamp(mul_fixed(self@, value as int), 0, SCALE as int),
    {
        Self::clamp_wide(product(self.units, value))
    }

    /// Divides by a signed divisor, given as a fixed-point number of 64 bits,
    /// and stops at the bounds. The quotient is rounded toward zero.
    ///
    /// A positive speed divided by zero is full speed, standstill divided by
    /// zero is standstill.
    pub fn saturating_div_f64(&self, value: i64) -> (s: Speed)
        ensures
            s@ == Self::quotient_spec(self@, value as int),
    {
        proof {
            use_type_invariant(self);
        }
        if self.units == 0 || value < 0 {
            Speed { units: 0 }
        } else if value == 0 {
            Speed { units: SCALE }
        } else {
            let wide: i128 = self.units as i128 * SCALE as i128;
            Self::clamp_wide(quotient(wide, value as i128))
        }
    }

    /// The fixed-point quotient of a speed of `units` by `value`, limited to
    /// the range of speeds. No speed is below zero, so a negative divisor
    /// gives standstill; a positive speed divided by zero is full speed.
    pub open spec fn quotient_spec(units: int, value: int) -> int {
        if units == 0 || value < 0 {
            0
        } else if value == 0 {
            SCALE as int
        } else {
            clamp(div_fixed(units, value), 0, SCALE as int)
        }
    }

    /// Adds another speed and stops at full speed.
    pub fn saturating_add(&self, other: Speed) -> (s: Speed)
        ensures
            s@ == clamp(self@ + other@, 0, SCALE as int),
    {
        self.saturating_add_f64(other.value())
    }

    /// Subtracts another speed and stops at standstill.
    pub fn saturating_sub(&self, other: Speed) -> (s: Speed)
        ensures
            s@ == clamp(self@ - other@, 0, SCALE as int),
    {
        self.saturating_sub_f64(other.value())
    }

    /// The product of two speeds, which is a speed again.
    pub open spec fn times(self, rhs: Speed) -> Speed {
        Speed::of(mul_fixed(self@, rhs@))
    }

    /// One of `parts` equal parts of the speed, rounded down.
    pub open spec fn part(self, parts: u64) -> Speed
        recommends
            parts != 0,
    {
        Speed::of(self@ / (parts as int))
    }

    /// The product of two speeds in range lies in range, and is no faster
    /// than either factor.
    pub proof fn times_in_range(self, rhs: Speed)
        requires
            self.wf(),
            rhs.wf(),
        ensures
            self.times(rhs).wf(),
            self.times(rhs)@ == mul_fixed(self@, rhs@),
            self.times(rhs)@ <= self@,
            self.times(rhs)@ <= rhs@,
    {
        let a = self@;
        let b = rhs@;
        let s = SCALE as int;
        assert(0 <= a * b <= a * s && a * b <= s * b) by (nonlinear_arith)
            requires
                0 <= a <= s,
                0 <= b <= s,
        ;
        assert(0 <= (a * b) / s <= a && (a * b) / s <= b) by (nonlinear_arith)
            requires
                0 <= a * b <= a * s,
                a * b <= s * b,
                s > 0,
        ;
        Speed::of_view(mul_fixed(a, b));
    }
}

impl core::ops::Mul for Speed {
    type Output = Speed;

    fn mul(self, rhs: Speed) -> (r: Speed) {
        proof {
            use_type_invariant(self);
            use_type_invariant(rhs);
            self.times_in_range(rhs);
        }
        let p = product(self.units, rhs.units);
        let r = Speed { units: p as i64 };
        proof {
            Speed::view_of(r);
        }
        r
    }
}

impl core::ops::Div<u64> for Speed {
    type Output = Speed;

    fn div(self, rhs: u64) -> (r: Speed) {
        proof {
            use_type_invariant(self);
        }
        let r = Speed { units: (self.units as u64 / rhs) as i64 };
        proof {
            Speed::view_of(r);
        }
        r
    }
}

impl DivSpecImpl<u64> for Speed {
    open spec fn obeys_div_spec() -> bool {
        true
    }

    open spec fn div_req(self, rhs: u64) -> bool {
        rhs != 0
    }

    open spec fn div_spec(self, rhs: u64) -> Speed {
        self.part(rhs)
    }
}

impl MulSpecImpl for Speed {
    open spec fn obeys_mul_spec() -> bool {
        true
    }

    open spec fn mul_req(self, rhs: Speed) -> bool {
        true
    }

    open spec fn mul_spec(self, rhs: Speed) -> Speed {
        self.times(rhs)
    }
}

} // verus!
