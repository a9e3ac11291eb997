//! Single-precision values, carried by their bit pattern.
//!
//! Positions, scales, volumes and opacities are IEEE 754 single-precision
//! numbers. The library stores them, compares them and clamps them; it never
//! rounds. A [`Single`] is therefore the bit pattern alone, and every
//! comparison here is stated over the exact number that the pattern denotes.

use vstd::arithmetic::power2::{lemma_pow2_pos, lemma_pow2_strictly_increases, lemma_pow2_unfold, pow2};
use vstd::prelude::*;

verus! {

/// An IEEE 754 single-precision value.
#[derive(Clone, Copy, PartialEq, Eq, Structural, Debug)]
pub struct Single {
    /// The bit pattern: sign, eight exponent bits, twenty-three fraction bits.
    pub bits: u32,
}

/// The pattern of 0.0.
pub const ZERO: u32 = 0;

/// The pattern of 1.0.
pub const ONE: u32 = 0x3F80_0000;

/// The pattern of 2.0.
pub const TWO: u32 = 0x4000_0000;

/// The pattern of 5.0.
pub const FIVE: u32 = 0x40A0_0000;

/// The pattern of 10.0.
pub const TEN: u32 = 0x4120_0000;

/// The pattern of 100.0.
pub const HUNDRED: u32 = 0x42C8_0000;

/// The pattern of the value nearest to 0.1.
pub const TENTH: u32 = 0x3DCC_CCCD;

/// The pattern of 20.0.
pub const TWENTY: u32 = 0x41A0_0000;

/// The sign bit.
const SIGN: u32 = 0x8000_0000;

/// The pattern of positive infinity.
const INFINITY: u32 = 0x7F80_0000;

/// The number denoted by a pattern without its sign bit, in units of
/// 2<sup>-149</sup>, the smallest positive value. Infinity comes out above
/// every finite value.
pub open spec fn magnitude_units(m: nat) -> nat {
    let exponent = m / 0x80_0000;
    let fraction = m % 0x80_0000;
    if exponent == 0 {
        fraction
    } else {
        (0x80_0000 + fraction) * pow2((exponent - 1) as nat)
    }
}

impl Single {
    /// The pattern without its sign bit.
    pub open spec fn magnitude(self) -> nat {
        if self.bits >= 0x8000_0000u32 {
            (self.bits - 0x8000_0000u32) as nat
        } else {
            self.bits as nat
        }
    }

    /// The pattern denotes no number.
    pub open spec fn is_nan_spec(self) -> bool {
        self.magnitude() > 0x7F80_0000
    }

    /// The pattern denotes a finite number.
    pub open spec fn is_finite_spec(self) -> bool {
        self.magnitude() < 0x7F80_0000
    }

    /// The number denoted, in units of 2<sup>-149</sup>. Both zeros denote 0.
    pub open spec fn units(self) -> int {
        if self.bits >= 0x8000_0000u32 {
            -magnitude_units(self.magnitude())
        } else {
            magnitude_units(self.magnitude()) as int
        }
    }

    /// `self < other` in IEEE 754: both are numbers, and the first is smaller.
    pub open spec fn lt_spec(self, other: Single) -> bool {
        !self.is_nan_spec() && !other.is_nan_spec() && self.units() < other.units()
    }

    /// `self <= other` in IEEE 754.
    pub open spec fn le_spec(self, other: Single) -> bool {
        !self.is_nan_spec() && !other.is_nan_spec() && self.units() <= other.units()
    }

    /// `self` kept between `low` and `high`; a NaN stays as it is.
    pub open spec fn clamp_spec(self, low: Single, high: Single) -> Single {
        if self.lt_spec(low) {
            low
        } else if high.lt_spec(self) {
            high
        } else {
            self
        }
    }

    /// The larger of the two; a NaN on the left gives way to `floor`.
    pub open spec fn at_least_spec(self, floor: Single) -> Single {
        if floor.lt_spec(self) {
            self
        } else {
            floor
        }
    }

    /// The pattern read as a signed magnitude: the order key of a number.
    spec fn key(self) -> int {
        if self.bits >= 0x8000_0000u32 {
            -(self.magnitude() as int)
        } else {
            self.magnitude() as int
        }
    }

    /// Tells a NaN from a number.
    pub fn is_nan(self) -> (r: bool)
        ensures
            r == self.is_nan_spec(),
    {
        if self.bits >= SIGN {
            self.bits - SIGN > INFINITY
        } else {
            self.bits > INFINITY
        }
    }

    /// Tells whether the value is a finite number.
    pub fn is_finite(self) -> (r: bool)
        ensures
            r == self.is_finite_spec(),
    {
        if self.bits >= SIGN {
            self.bits - SIGN < INFINITY
        } else {
            self.bits < INFINITY
        }
    }

    /// `self < other`.
    pub fn lt(self, other: Single) -> (r: bool)
        ensures
            r == self.lt_spec(other),
    {
        proof {
            lemma_key_orders(self, other);
        }
        if self.is_nan() || other.is_nan() {
            return false;
        }
        if self.bits >= SIGN {
            if other.bits >= SIGN {
                other.bits < self.bits
            } else {
                // A negative number is below a positive one; the two zeros are equal.
                self.bits != SIGN || other.bits != 0
            }
        } else {
            other.bits < SIGN && self.bits < other.bits
        }
    }

    /// `self <= other`.
    pub fn le(self, other: Single) -> (r: bool)
        ensures
            r == self.le_spec(other),
    {
        !self.is_nan() && !other.is_nan() && !other.lt(self)
    }

    /// Keeps the value between `low` and `high`.
    pub fn clamp(self, low: Single, high: Single) -> (r: Single)
        ensures
            r == self.clamp_spec(low, high),
    {
        if self.lt(low) {
            low
        } else if high.lt(self) {
            high
        } else {
            self
        }
    }

    /// The larger of `self` and `floor`.
    pub fn at_least(self, floor: Single) -> (r: Single)
        ensures
            r == self.at_least_spec(floor),
    {
        if floor.lt(self) {
            self
        } else {
            floor
        }
    }
}

/// A pattern with a larger magnitude denotes a larger number.
proof fn lemma_magnitude_increases(a: nat, b: nat)
    requires
        a < b,
    ensures
        magnitude_units(a) < magnitude_units(b),
{
    let (ea, fa) = (a / 0x80_0000, a % 0x80_0000);
    let (eb, fb) = (b / 0x80_0000, b % 0x80_0000);
    assert(ea <= eb);
    if ea == eb {
        assert(fa < fb);
        if ea > 0 {
            let p = pow2((ea - 1) as nat);
            lemma_pow2_pos((ea - 1) as nat);
            assert((0x80_0000 + fa) * p < (0x80_0000 + fb) * p) by (nonlinear_arith)
                requires
                    fa < fb,
                    p > 0,
            ;
        }
    } else if ea == 0 {
        let p = pow2((eb - 1) as nat);
        lemma_pow2_pos((eb - 1) as nat);
        assert((0x80_0000 + fb) * p >= 0x80_0000 + fb) by (nonlinear_arith)
            requires
                p >= 1,
        ;
    } else {
        let p = pow2((ea - 1) as nat);
        let q = pow2((eb - 1) as nat);
        lemma_pow2_pos((ea - 1) as nat);
        lemma_pow2_unfold(ea as nat);
        assert(pow2(ea as nat) == 2 * p);
        if ea < eb - 1 {
            lemma_pow2_strictly_increases(ea as nat, (eb - 1) as nat);
        }
        assert((0x80_0000 + fa) * p < (0x80_0000 + fb) * q) by (nonlinear_arith)
            requires
                q >= 2 * p,
                p > 0,
                fa < 0x80_0000,
                fb >= 0,
        ;
    }
}

/// The order keys of two patterns stand as the numbers they denote.
proof fn lemma_key_orders(a: Single, b: Single)
    ensures
        a.key() < b.key() <==> a.units() < b.units(),
        a.key() == b.key() <==> a.units() == b.units(),
{
    let (ma, mb) = (a.magnitude(), b.magnitude());
    if ma < mb {
        lemma_magnitude_increases(ma, mb);
    }
    if mb < ma {
        lemma_magnitude_increases(mb, ma);
    }
    if 0 < ma {
        lemma_magnitude_increases(0, ma);
    }
    if 0 < mb {
        lemma_magnitude_increases(0, mb);
    }
}

/// Equality with 1.0 is equality of patterns: no other pattern denotes the
/// same number.
pub proof fn one_has_a_single_pattern(s: Single)
    ensures
        s.bits == ONE <==> s.units() == (Single { bits: ONE }).units(),
{
    lemma_key_orders(s, Single { bits: ONE });
}

/// 0.0 is at most 1.0.
pub(crate) proof fn lemma_one_is_above_zero()
    ensures
        (Single { bits: ZERO }).le_spec(Single { bits: ONE }),
        (Single { bits: ZERO }).lt_spec(Single { bits: ONE }),
{
    lemma_key_orders(Single { bits: ZERO }, Single { bits: ONE });
}

/// 1.0 lies between the bounds of the zoom, and they are in order.
pub(crate) proof fn lemma_zoom_bounds()
    ensures
        (Single { bits: TENTH }).le_spec(Single { bits: ONE }),
        (Single { bits: ONE }).le_spec(Single { bits: TWENTY }),
        (Single { bits: TENTH }).le_spec(Single { bits: TWENTY }),
{
    lemma_key_orders(Single { bits: TENTH }, Single { bits: ONE });
    lemma_key_orders(Single { bits: ONE }, Single { bits: TWENTY });
}

/// 0.0 is at most 2.0, and a tenth is at most 5.0.
pub(crate) proof fn lemma_range_bounds()
    ensures
        (Single { bits: ZERO }).le_spec(Single { bits: TWO }),
        (Single { bits: TENTH }).le_spec(Single { bits: FIVE }),
{
    lemma_key_orders(Single { bits: ZERO }, Single { bits: TWO });
    lemma_key_orders(Single { bits: TENTH }, Single { bits: FIVE });
}

/// Clamping between two numbers in order gives a value between them, or the
/// NaN that came in; and a value already there is unchanged.
pub proof fn clamp_lands_between(s: Single, low: Single, high: Single)
    requires
        low.le_spec(high),
    ensures
        s.is_nan_spec() ==> s.clamp_spec(low, high) == s,
        !s.is_nan_spec() ==> {
            let c = s.clamp_spec(low, high);
            low.le_spec(c) && c.le_spec(high)
        },
        low.le_spec(s) && s.le_spec(high) ==> s.clamp_spec(low, high) == s,
{
}

/// The patterns named here denote the numbers they are named after, exactly, and
/// a tenth to within half of its last place.
pub proof fn constants_are_what_they_say()
    ensures
        (Single { bits: ZERO }).units() == 0,
        (Single { bits: ONE }).units() > 0,
        (Single { bits: TWO }).units() == 2 * (Single { bits: ONE }).units(),
        (Single { bits: FIVE }).units() == 5 * (Single { bits: ONE }).units(),
        (Single { bits: TEN }).units() == 10 * (Single { bits: ONE }).units(),
        (Single { bits: TWENTY }).units() == 20 * (Single { bits: ONE }).units(),
        (Single { bits: HUNDRED }).units() == 100 * (Single { bits: ONE }).units(),
        ({
            let (t, one) = ((Single { bits: TENTH }).units(), (Single { bits: ONE }).units());
            let below = (Single { bits: (TENTH - 1) as u32 }).units();
            &&& 10 * below < one < 10 * t
            &&& 10 * t - one < one - 10 * below
        }),
{
    let p = pow2(122);
    lemma_pow2_pos(122);
    lemma_pow2_unfold(123);
    lemma_pow2_unfold(124);
    lemma_pow2_unfold(125);
    lemma_pow2_unfold(126);
    lemma_pow2_unfold(127);
    lemma_pow2_unfold(128);
    lemma_pow2_unfold(129);
    lemma_pow2_unfold(130);
    lemma_pow2_unfold(131);
    lemma_pow2_unfold(132);
    assert(pow2(126) == 16 * p && pow2(127) == 32 * p && pow2(128) == 64 * p && pow2(129) == 128 * p
        && pow2(130) == 256 * p && pow2(132) == 1024 * p);
    assert((Single { bits: ONE }).units() == 0x80_0000 * (16 * p));
    assert((Single { bits: TWO }).units() == 0x80_0000 * (32 * p));
    assert((Single { bits: FIVE }).units() == 0xA0_0000 * (64 * p));
    assert((Single { bits: TEN }).units() == 0xA0_0000 * (128 * p));
    assert((Single { bits: TWENTY }).units() == 0xA0_0000 * (256 * p));
    assert((Single { bits: HUNDRED }).units() == 0xC8_0000 * (1024 * p));
    assert((Single { bits: TENTH }).units() == 0xCC_CCCD * p);
    assert((Single { bits: (TENTH - 1) as u32 }).units() == 0xCC_CCCC * p);
}

/// Setting the sign bit negates a number, and the next exponent doubles it.
pub proof fn patterns_denote_numbers(m: u32)
    requires
        m < 0x7F80_0000,
    ensures
        (Single { bits: (m + 0x8000_0000) as u32 }).units() == -(Single { bits: m }).units(),
        0x80_0000 <= m < 0x7F00_0000 ==> (Single { bits: (m + 0x80_0000) as u32 }).units() == 2 * (
        Single { bits: m }).units(),
        m < 0x80_0000 ==> (Single { bits: m }).units() == m,
{
    if 0x80_0000 <= m < 0x7F00_0000 {
        let (e, f) = (m as nat / 0x80_0000, m as nat % 0x80_0000);
        lemma_pow2_unfold(e);
        assert((m as nat + 0x80_0000) / 0x80_0000 == e + 1);
        assert((m as nat + 0x80_0000) % 0x80_0000 == f);
        let p = pow2((e - 1) as nat);
        assert((0x80_0000 + f) * (2 * p) == 2 * ((0x80_0000 + f) * p)) by (nonlinear_arith);
    }
}

/// Numbers are in order, and a NaN is not: of two numbers one is below the other
/// or they are equal; nothing is below itself; the order goes on from one to the
/// next; and no comparison with a NaN holds.
pub proof fn comparisons_are_those_of_numbers(a: Single, b: Single, c: Single)
    ensures
        !a.is_nan_spec() && !b.is_nan_spec() ==> {
            &&& a.lt_spec(b) || b.lt_spec(a) || (a.le_spec(b) && b.le_spec(a))
            &&& a.lt_spec(b) <==> a.units() < b.units()
            &&& a.le_spec(b) <==> !b.lt_spec(a)
        },
        !a.lt_spec(a),
        a.lt_spec(b) && b.lt_spec(c) ==> a.lt_spec(c),
        a.is_nan_spec() ==> !a.lt_spec(b) && !b.lt_spec(a) && !a.le_spec(b) && !b.le_spec(a),
        a.is_nan_spec() ==> !a.is_finite_spec(),
{
}

/// Clamping moves a number no further than it must: one below the range goes to
/// its lower end, one above to its upper end, and the order of numbers is kept.
pub proof fn clamp_moves_to_the_nearer_end(a: Single, b: Single, low: Single, high: Single)
    requires
        low.le_spec(high),
    ensures
        a.lt_spec(low) ==> a.clamp_spec(low, high) == low,
        high.lt_spec(a) ==> a.clamp_spec(low, high) == high,
        a.le_spec(b) ==> a.clamp_spec(low, high).le_spec(b.clamp_spec(low, high)),
        a.clamp_spec(low, high).clamp_spec(low, high) == a.clamp_spec(low, high),
{
}

/// A number kept above a floor is the larger of the two; a NaN gives the floor.
pub proof fn at_least_gives_the_larger(a: Single, floor: Single)
    requires
        !floor.is_nan_spec(),
    ensures
        floor.le_spec(a.at_least_spec(floor)),
        floor.lt_spec(a) ==> a.at_least_spec(floor) == a,
        a.le_spec(floor) || a.is_nan_spec() ==> a.at_least_spec(floor) == floor,
{
}

/// Infinities are numbers above and below every finite one, and neither finite nor
/// NaN.
pub proof fn infinities_bound_the_finite_numbers(s: Single)
    requires
        s.is_finite_spec(),
    ensures
        s.lt_spec(Single { bits: 0x7F80_0000 }),
        (Single { bits: 0xFF80_0000 }).lt_spec(s),
        !(Single { bits: 0x7F80_0000 }).is_finite_spec(),
        !(Single { bits: 0xFF80_0000 }).is_finite_spec(),
        !s.is_nan_spec(),
{
    lemma_key_orders(s, Single { bits: 0x7F80_0000 });
    lemma_key_orders(Single { bits: 0xFF80_0000 }, s);
}

/// A pattern whose exponent is all ones denotes no number unless its fraction is
/// zero, whatever its sign.
pub proof fn nan_patterns_denote_no_number(m: u32)
    ensures
        0x7F80_0000 < m < 0x8000_0000 ==> (Single { bits: m }).is_nan_spec(),
        0xFF80_0000 < m ==> (Single { bits: m }).is_nan_spec(),
        m <= 0x7F80_0000 ==> !(Single { bits: m }).is_nan_spec(),
        0x8000_0000 <= m <= 0xFF80_0000 ==> !(Single { bits: m }).is_nan_spec(),
{
}

} // verus!
