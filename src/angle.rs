//! Wrap-around angles: a turn is 2^16 steps, held as the bits of a signed
//! fixed-point number with one integer bit and fifteen fractional bits.

use vstd::prelude::*;

verus! {

/// Quarter-turn boundaries, as unsigned step counts.
pub const QUADRANT_AXIS_3_0: u16 = 0x0000;
pub const QUADRANT_AXIS_0_1: u16 = 0x4000;
pub const QUADRANT_AXIS_1_2: u16 = 0x8000;
pub const QUADRANT_AXIS_2_3: u16 = 0xc000;

/// First and last steps strictly inside each quadrant.
pub const QUADRANT0_MIN: u16 = 0x0001;
pub const QUADRANT0_MAX: u16 = 0x3fff;
pub const QUADRANT1_MIN: u16 = 0x4001;
pub const QUADRANT1_MAX: u16 = 0x7fff;
pub const QUADRANT2_MIN: u16 = 0x8001;
pub const QUADRANT2_MAX: u16 = 0xbfff;
pub const QUADRANT3_MIN: u16 = 0xc001;
pub const QUADRANT3_MAX: u16 = 0xffff;

/// The position in `[0, 2^16)` of a raw angle value.
pub open spec fn steps_of(bits: i16) -> int {
    if bits < 0 {
        bits + 0x1_0000
    } else {
        bits as int
    }
}

/// A rotation in `[0, 360°)`; addition wraps around the circle.
#[derive(Clone, Copy, Debug, PartialEq, Eq, Structural)]
pub struct Angle {
    bits: i16,
}

impl View for Angle {
    type V = int;

    /// The angle as a number of steps in `[0, 2^16)`.
    open spec fn view(&self) -> int {
        steps_of(self.raw())
    }
}

/// Inside quadrant 0 or 1, or on the axis between them.
pub open spec fn within_quadrant_0_or_1(s: int) -> bool {
    QUADRANT0_MIN <= s <= QUADRANT1_MAX
}

/// Inside quadrant 1 or 2, or on the axis between them.
pub open spec fn within_quadrant_1_or_2(s: int) -> bool {
    QUADRANT1_MIN <= s <= QUADRANT2_MAX
}

/// Inside quadrant 2 or 3, or on the axis between them.
pub open spec fn within_quadrant_2_or_3(s: int) -> bool {
    QUADRANT2_MIN <= s <= QUADRANT3_MAX
}

/// Inside quadrant 3 or 0, or on the axis between them.
pub open spec fn within_quadrant_3_or_0(s: int) -> bool {
    QUADRANT3_MIN <= s || s <= QUADRANT0_MAX
}

/// Wrapping sum of two step counts.
pub open spec fn add_steps(a: int, b: int) -> int {
    (a + b) % 0x1_0000
}

/// Step count of the opposite rotation.
pub open spec fn neg_steps(a: int) -> int {
    (0x1_0000 - a) % 0x1_0000
}

/// Two angles are equal exactly when they stand for the same step count.
pub proof fn lemma_view_injective(a: Angle, b: Angle)
    ensures
        a@ == b@ <==> a == b,
{
    assert(a.raw() == a.bits);
    assert(b.raw() == b.bits);
}

impl Angle {
    /// The raw fixed-point bits.
    pub closed spec fn raw(self) -> i16 {
        self.bits
    }

    pub proof fn lemma_view_range(self)
        ensures
            0 <= self@ < 0x1_0000,
    {
    }

    /// The zero angle (facing along the positive x axis of the turn).
    pub fn default() -> (r: Angle)
        ensures
            r@ == 0,
    {
        Angle { bits: 0 }
    }

    /// The angle whose raw fixed-point bits are `value`.
    pub fn from_raw(value: i16) -> (r: Angle)
        ensures
            r.raw() == value,
            r@ == steps_of(value),
    {
        Angle { bits: value }
    }

    /// The angle at `steps` steps around the circle.
    pub fn from_steps(steps: u16) -> (r: Angle)
        ensures
            r@ == steps as int,
    {
        let bits: i16 = if steps > 0x7fff {
            (steps as i32 - 0x1_0000) as i16
        } else {
            steps as i16
        };
        Angle { bits }
    }

    /// The raw fixed-point bits of the angle.
    pub fn to_fixed_point(self) -> (r: i16)
        ensures
            r == self.raw(),
            steps_of(r) == self@,
    {
        self.bits
    }

    /// The angle as an unsigned step count.
    pub fn steps(self) -> (r: u16)
        ensures
            r as int == self@,
    {
        if self.bits < 0 {
            (self.bits as i32 + 0x1_0000) as u16
        } else {
            self.bits as u16
        }
    }

    pub fn is_quadrant_axis_0_and_1(self) -> (r: bool)
        ensures
            r == (self@ == QUADRANT_AXIS_0_1),
    {
        self.steps() == QUADRANT_AXIS_0_1
    }

    pub fn is_quadrant_axis_1_and_2(self) -> (r: bool)
        ensures
            r == (self@ == QUADRANT_AXIS_1_2),
    {
        self.steps() == QUADRANT_AXIS_1_2
    }

    pub fn is_quadrant_axis_2_and_3(self) -> (r: bool)
        ensures
            r == (self@ == QUADRANT_AXIS_2_3),
    {
        self.steps() == QUADRANT_AXIS_2_3
    }

    pub fn is_quadrant_axis_3_and_0(self) -> (r: bool)
        ensures
            r == (self@ == QUADRANT_AXIS_3_0),
    {
        self.steps() == QUADRANT_AXIS_3_0
    }

    /// Inside quadrant 0 or 1, or on the axis between them.
    pub fn is_within_quadrant_0_or_1(self) -> (r: bool)
        ensures
            r == within_quadrant_0_or_1(self@),
    {
        let s = self.steps();
        s >= QUADRANT0_MIN && s <= QUADRANT1_MAX
    }

    /// Inside quadrant 1 or 2, or on the axis between them.
    pub fn is_within_quadrant_1_or_2(self) -> (r: bool)
        ensures
            r == within_quadrant_1_or_2(self@),
    {
        let s = self.steps();
        s >= QUADRANT1_MIN && s <= QUADRANT2_MAX
    }

    /// Inside quadrant 2 or 3, or on the axis between them.
    pub fn is_within_quadrant_2_or_3(self) -> (r: bool)
        ensures
            r == within_quadrant_2_or_3(self@),
    {
        let s = self.steps();
        s >= QUADRANT2_MIN && s <= QUADRANT3_MAX
    }

    /// Inside quadrant 3 or 0, or on the axis between them.
    pub fn is_within_quadrant_3_or_0(self) -> (r: bool)
        ensures
            r == within_quadrant_3_or_0(self@),
    {
        let s = self.steps();
        s >= QUADRANT3_MIN || s <= QUADRANT0_MAX
    }

    /// Sum of two angles, wrapping around the circle.
    pub fn add(self, rhs: Angle) -> (r: Angle)
        ensures
            r@ == add_steps(self@, rhs@),
    {
        let s: i32 = self.bits as i32 + rhs.bits as i32;
        let w: i32 = if s > 0x7fff {
            s - 0x1_0000
        } else if s < -0x8000 {
            s + 0x1_0000
        } else {
            s
        };
        Angle { bits: w as i16 }
    }

    /// Adds `rhs` in place, wrapping around the circle.
    pub fn add_assign(&mut self, rhs: Angle)
        ensures
            final(self)@ == add_steps(old(self)@, rhs@),
    {
        *self = self.add(rhs);
    }

    /// The opposite rotation; the half turn is its own opposite.
    pub fn neg(self) -> (r: Angle)
        ensures
            r@ == neg_steps(self@),
    {
        let n: i32 = -(self.bits as i32);
        let w: i32 = if n > 0x7fff {
            n - 0x1_0000
        } else {
            n
        };
        Angle { bits: w as i16 }
    }

    /// The raw value divided by `rhs`, truncated toward zero; the one
    /// quotient that does not fit (the half turn divided by -1) wraps.
    pub fn div(self, rhs: i16) -> (r: Angle)
        requires
            rhs != 0,
        ensures
            r.raw() as int == (
            if self.raw() == -0x8000 && rhs == -1 {
                -0x8000
            } else {
                trunc_div(self.raw() as int, rhs as int)
            }),
    {
        let q: i32 = trunc_div_exec(self.bits as i32, rhs as i32);
        let w: i32 = if q > 0x7fff {
            q - 0x1_0000
        } else {
            q
        };
        Angle { bits: w as i16 }
    }
}

/// Integer division rounding toward zero.
pub open spec fn trunc_div(a: int, b: int) -> int
    recommends
        b != 0,
{
    if (a >= 0) == (b > 0) {
        abs_int(a) / abs_int(b)
    } else {
        -(abs_int(a) / abs_int(b))
    }
}

pub open spec fn abs_int(a: int) -> int {
    if a < 0 {
        -a
    } else {
        a
    }
}

fn trunc_div_exec(a: i32, b: i32) -> (r: i32)
    requires
        b != 0,
        -0x8000 <= a <= 0x7fff,
        -0x8000 <= b <= 0x7fff,
    ensures
        r as int == trunc_div(a as int, b as int),
        -0x8000 <= r <= 0x8000,
        r as int == 0x8000 ==> a == -0x8000 && b == -1,
{
    let ua: i32 = if a < 0 { -a } else { a };
    let ub: i32 = if b < 0 { -b } else { b };
    let q: i32 = ua / ub;
    proof {
        assert(q <= ua) by (nonlinear_arith)
            requires q == ua / ub, ub >= 1, ua >= 0;
        assert(q >= 0) by (nonlinear_arith)
            requires q == ua / ub, ub >= 1, ua >= 0;
        assert(ub >= 2 ==> q * 2 <= ua) by (nonlinear_arith)
            requires q == ua / ub, ub >= 1, ua >= 0;
    }
    if (a >= 0) == (b > 0) {
        q
    } else {
        -q
    }
}

/// Adding angles follows arithmetic modulo 2^16, and an angle plus its
/// opposite is the zero angle.
pub proof fn lemma_angle_group(a: Angle, b: Angle)
    ensures
        add_steps(a@, b@) == (a@ + b@) % 0x1_0000,
        add_steps(a@, b@) == add_steps(b@, a@),
        add_steps(a@, neg_steps(a@)) == 0,
        0 <= add_steps(a@, b@) < 0x1_0000,
{
    a.lemma_view_range();
    b.lemma_view_range();
}

/// The quadrant predicates partition the circle: no angle lies in two
/// quadrant pairs that share no quadrant, every angle lies in at least one
/// pair, and each axis lies in exactly the pair of the two quadrants it
/// separates.
pub proof fn lemma_quadrant_partition(a: Angle)
    ensures
        !(within_quadrant_0_or_1(a@) && within_quadrant_2_or_3(a@)),
        !(within_quadrant_1_or_2(a@) && within_quadrant_3_or_0(a@)),
        within_quadrant_0_or_1(a@) || within_quadrant_1_or_2(a@) || within_quadrant_2_or_3(a@)
            || within_quadrant_3_or_0(a@),
        a@ == QUADRANT_AXIS_0_1 ==> within_quadrant_0_or_1(a@) && !within_quadrant_1_or_2(a@)
            && !within_quadrant_2_or_3(a@) && !within_quadrant_3_or_0(a@),
        a@ == QUADRANT_AXIS_1_2 ==> within_quadrant_1_or_2(a@) && !within_quadrant_0_or_1(a@)
            && !within_quadrant_2_or_3(a@) && !within_quadrant_3_or_0(a@),
        a@ == QUADRANT_AXIS_2_3 ==> within_quadrant_2_or_3(a@) && !within_quadrant_0_or_1(a@)
            && !within_quadrant_1_or_2(a@) && !within_quadrant_3_or_0(a@),
        a@ == QUADRANT_AXIS_3_0 ==> within_quadrant_3_or_0(a@) && !within_quadrant_0_or_1(a@)
            && !within_quadrant_1_or_2(a@) && !within_quadrant_2_or_3(a@),
{
    a.lemma_view_range();
}

} // verus!
