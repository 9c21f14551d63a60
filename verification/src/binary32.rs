//! Single-precision values carried by their IEEE-754 bit pattern.
//!
//! Tracking channels travel as 32-bit words, the form they take in an OSC
//! datagram. Ordering and range limits are decided on the words themselves:
//! apart from NaN, a word's sign and magnitude order it exactly as the number
//! it encodes, which [`lemma_rank_orders_values`] proves. No arithmetic is done
//! on the values here.

use vstd::prelude::*;
use vstd::arithmetic::power2::{
    lemma_pow2_pos, lemma_pow2_strictly_increases, lemma_pow2_unfold, pow2,
};

verus! {

/// Bit 31 of a word: the sign.
pub const SIGN_BIT: u32 = 0x8000_0000;

/// Magnitude of the infinities; any larger magnitude is a NaN.
pub const INFINITY_MAGNITUDE: u32 = 0x7f80_0000;

/// Two to the 23rd: the weight of the exponent field within a magnitude, and
/// the implicit leading bit of a normal number's significand.
pub const HIDDEN_BIT: u32 = 0x80_0000;

/// A binary32 value, identified by its bits.
///
/// Equality on this type is equality of bit patterns: `+0` and `-0` differ and
/// a NaN equals itself. Numeric comparison is [`Binary32::lt`] and
/// [`Binary32::gt`].
#[derive(Clone, Copy, Debug, PartialEq, Eq, Structural)]
pub struct Binary32 {
    pub bits: u32,
}

impl Binary32 {
    /// The word without its sign bit.
    pub open spec fn magnitude(self) -> int {
        if self.bits >= SIGN_BIT {
            self.bits - SIGN_BIT
        } else {
            self.bits as int
        }
    }

    /// Whether the sign bit is set.
    pub open spec fn negative(self) -> bool {
        self.bits >= SIGN_BIT
    }

    /// Whether the word encodes a NaN.
    pub open spec fn nan(self) -> bool {
        self.magnitude() > INFINITY_MAGNITUDE
    }

    /// Position of a non-NaN word on the number line: magnitudes grow with the
    /// encoded absolute value, and the sign mirrors them. Both zeros sit at 0.
    pub open spec fn rank(self) -> int {
        if self.negative() {
            -self.magnitude()
        } else {
            self.magnitude()
        }
    }

    /// Whether the word encodes a number: neither an infinity nor a NaN.
    pub open spec fn finite(self) -> bool {
        self.magnitude() < INFINITY_MAGNITUDE
    }

    /// The exponent field: bits 23 to 30.
    pub open spec fn exponent_field(self) -> int {
        self.magnitude() / (HIDDEN_BIT as int)
    }

    /// The fraction field: bits 0 to 22.
    pub open spec fn fraction_field(self) -> int {
        self.magnitude() % (HIDDEN_BIT as int)
    }

    /// The absolute value that a finite word encodes, counted in units of
    /// `2^-149`, the smallest positive value of the format. A subnormal word
    /// (exponent field 0) encodes its fraction; a normal word encodes its
    /// fraction behind the hidden bit, doubled once for each step of the
    /// exponent above 1.
    pub open spec fn scaled_magnitude(self) -> int {
        if self.exponent_field() == 0 {
            self.fraction_field()
        } else {
            (HIDDEN_BIT + self.fraction_field()) * pow2((self.exponent_field() - 1) as nat)
        }
    }

    /// The value that a finite word encodes, in units of `2^-149`.
    pub open spec fn scaled_value(self) -> int {
        if self.negative() {
            -self.scaled_magnitude()
        } else {
            self.scaled_magnitude()
        }
    }

    /// Numeric `<`: false whenever either side is a NaN.
    pub open spec fn below(self, other: Binary32) -> bool {
        !self.nan() && !other.nan() && self.rank() < other.rank()
    }

    /// Numeric `>`: false whenever either side is a NaN.
    pub open spec fn above(self, other: Binary32) -> bool {
        other.below(self)
    }

    /// Wraps a bit pattern.
    pub fn from_bits(bits: u32) -> (r: Binary32)
        ensures
            r == word(bits),
    {
        Binary32 { bits }
    }

    /// The bit pattern.
    pub fn to_bits(self) -> (r: u32)
        ensures
            r == self.bits,
    {
        self.bits
    }

    /// Whether the word encodes a NaN.
    pub fn is_nan(self) -> (r: bool)
        ensures
            r == self.nan(),
    {
        let magnitude: u32 = if self.bits >= SIGN_BIT {
            self.bits - SIGN_BIT
        } else {
            self.bits
        };
        magnitude > INFINITY_MAGNITUDE
    }

    fn signed_rank(self) -> (r: i64)
        ensures
            r == self.rank(),
    {
        if self.bits >= SIGN_BIT {
            -((self.bits - SIGN_BIT) as i64)
        } else {
            self.bits as i64
        }
    }

    /// Numeric `<`.
    pub fn lt(self, other: Binary32) -> (r: bool)
        ensures
            r == self.below(other),
    {
        !self.is_nan() && !other.is_nan() && self.signed_rank() < other.signed_rank()
    }

    /// Numeric `>`.
    pub fn gt(self, other: Binary32) -> (r: bool)
        ensures
            r == self.above(other),
    {
        other.lt(self)
    }

    /// Whether the value is a number within `lo ..= hi`. A NaN is within no
    /// range.
    pub open spec fn within(self, lo: Binary32, hi: Binary32) -> bool {
        !self.nan() && lo.rank() <= self.rank() <= hi.rank()
    }

    /// The value brought into `lo ..= hi`: a NaN becomes `rest`, a value below
    /// `lo` becomes `lo`, one above `hi` becomes `hi`, and a value within the
    /// range is kept bit for bit.
    pub open spec fn clamped(self, lo: Binary32, hi: Binary32, rest: Binary32) -> Binary32 {
        if self.nan() {
            rest
        } else if self.below(lo) {
            lo
        } else if self.above(hi) {
            hi
        } else {
            self
        }
    }

    fn clamp(self, lo: Binary32, hi: Binary32, rest: Binary32) -> (r: Binary32)
        requires
            !lo.nan(),
            !hi.nan(),
            rest.within(lo, hi),
        ensures
            r == self.clamped(lo, hi, rest),
            r.within(lo, hi),
            self.within(lo, hi) ==> r == self,
    {
        if self.is_nan() {
            rest
        } else if self.lt(lo) {
            lo
        } else if self.gt(hi) {
            hi
        } else {
            self
        }
    }
}

/// Bits of `0.0`.
pub const ZERO_BITS: u32 = 0;

/// Bits of `1.0`.
pub const ONE_BITS: u32 = 0x3f80_0000;

/// Bits of `π/2` rounded to single precision: a quarter turn, 90 degrees in
/// radians.
pub const QUARTER_TURN_BITS: u32 = 0x3fc9_0fdb;

/// Bits of `-π/2` rounded to single precision.
pub const NEG_QUARTER_TURN_BITS: u32 = 0xbfc9_0fdb;

/// Bits of `0.2`, the smoothing factor in force until another is set.
pub const DEFAULT_SMOOTHING_BITS: u32 = 0x3e4c_cccd;

/// The value with the given bits.
pub open spec fn word(bits: u32) -> Binary32 {
    Binary32 { bits }
}

/// Whether an angle in radians is a number within a quarter turn either way.
pub open spec fn angle_in_range(x: Binary32) -> bool {
    x.within(word(NEG_QUARTER_TURN_BITS), word(QUARTER_TURN_BITS))
}

/// Whether a ratio is a number within `0 ..= 1`.
pub open spec fn unit_in_range(x: Binary32) -> bool {
    x.within(word(ZERO_BITS), word(ONE_BITS))
}

/// The angle that is stored for an incoming one: limited to a quarter turn
/// either way, and `0.0` for a NaN.
pub open spec fn angle_clamped(x: Binary32) -> Binary32 {
    x.clamped(word(NEG_QUARTER_TURN_BITS), word(QUARTER_TURN_BITS), word(ZERO_BITS))
}

/// The ratio that is stored for an incoming one: limited to `0 ..= 1`, and
/// `0.0` for a NaN.
pub open spec fn unit_clamped(x: Binary32) -> Binary32 {
    x.clamped(word(ZERO_BITS), word(ONE_BITS), word(ZERO_BITS))
}

/// Brings an angle in radians within a quarter turn either way. No input is
/// refused and none is passed on out of range: a NaN gives `0.0`.
pub fn clamp_angle(x: Binary32) -> (r: Binary32)
    ensures
        r == angle_clamped(x),
        !r.nan(),
        -QUARTER_TURN_BITS <= r.rank() <= QUARTER_TURN_BITS,
        angle_in_range(r),
        angle_in_range(x) ==> r == x,
{
    x.clamp(
        Binary32::from_bits(NEG_QUARTER_TURN_BITS),
        Binary32::from_bits(QUARTER_TURN_BITS),
        Binary32::from_bits(ZERO_BITS),
    )
}

/// Brings a ratio within `0 ..= 1`. No input is refused and none is passed on
/// out of range: a NaN gives `0.0`.
pub fn clamp_unit(x: Binary32) -> (r: Binary32)
    ensures
        r == unit_clamped(x),
        !r.nan(),
        0 <= r.rank() <= ONE_BITS,
        unit_in_range(r),
        unit_in_range(x) ==> r == x,
{
    x.clamp(
        Binary32::from_bits(ZERO_BITS),
        Binary32::from_bits(ONE_BITS),
        Binary32::from_bits(ZERO_BITS),
    )
}

/// The smoothing factor that a requested value stands for: NaN counts as 0,
/// every other value is limited to `0 ..= 1`.
pub open spec fn smoothing_factor(requested: Binary32) -> Binary32 {
    unit_clamped(requested)
}

/// Turns a requested smoothing factor into one that can be stored: never a
/// NaN, never outside `0 ..= 1`.
pub fn sanitize_smoothing_factor(requested: Binary32) -> (r: Binary32)
    ensures
        r == smoothing_factor(requested),
        !r.nan(),
        0 <= r.rank() <= ONE_BITS,
        unit_in_range(requested) ==> r == requested,
{
    clamp_unit(requested)
}

/// The smoothing factor in force until another is set: `0.2`.
pub fn default_smoothing_factor() -> (r: Binary32)
    ensures
        r == word(DEFAULT_SMOOTHING_BITS),
        r == smoothing_factor(r),
{
    Binary32::from_bits(DEFAULT_SMOOTHING_BITS)
}

/// Among finite words a larger magnitude encodes a larger absolute value.
proof fn lemma_magnitude_orders_values(a: Binary32, b: Binary32)
    requires
        a.finite(),
        b.finite(),
        a.magnitude() < b.magnitude(),
    ensures
        0 <= a.scaled_magnitude() < b.scaled_magnitude(),
{
    let h = HIDDEN_BIT as int;
    let (ea, fa) = (a.exponent_field(), a.fraction_field());
    let (eb, fb) = (b.exponent_field(), b.fraction_field());
    assert(0 <= fa < h && 0 <= fb < h);
    assert(a.magnitude() == h * ea + fa && b.magnitude() == h * eb + fb) by {
        vstd::arithmetic::div_mod::lemma_fundamental_div_mod(a.magnitude(), h);
        vstd::arithmetic::div_mod::lemma_fundamental_div_mod(b.magnitude(), h);
    }
    assert(0 <= ea <= eb) by (nonlinear_arith)
        requires
            h == 0x80_0000,
            0 <= fa < h,
            0 <= fb < h,
            0 <= h * ea + fa < h * eb + fb,
    ;
    if ea == eb {
        if ea > 0 {
            let p = pow2((ea - 1) as nat) as int;
            lemma_pow2_pos((ea - 1) as nat);
            assert((h + fa) * p < (h + fb) * p) by (nonlinear_arith)
                requires
                    p > 0,
                    fa < fb,
            ;
            assert(0 <= (h + fa) * p) by (nonlinear_arith)
                requires
                    p > 0,
                    h + fa >= 0,
            ;
        }
    } else {
        // Everything with exponent field `ea` lies under `h * 2^ea`, and
        // everything with a larger exponent field at or above it.
        let top = pow2(ea as nat) as int;
        let pb = pow2((eb - 1) as nat) as int;
        lemma_pow2_pos(ea as nat);
        if eb - 1 > ea {
            lemma_pow2_strictly_increases(ea as nat, (eb - 1) as nat);
        }
        assert(top <= pb);
        assert(h * top <= (h + fb) * pb) by (nonlinear_arith)
            requires
                0 < top <= pb,
                h > 0,
                fb >= 0,
        ;
        if ea == 0 {
            assert(pow2(0) == 1) by {
                vstd::arithmetic::power2::lemma2_to64();
            }
        } else {
            let pa = pow2((ea - 1) as nat) as int;
            lemma_pow2_pos((ea - 1) as nat);
            lemma_pow2_unfold(ea as nat);
            assert(top == 2 * pa);
            assert(0 <= (h + fa) * pa < h * (2 * pa)) by (nonlinear_arith)
                requires
                    pa > 0,
                    0 <= fa < h,
            ;
        }
    }
}

/// The order of words is the order of the numbers they encode: among finite
/// words, one ranks below another exactly when it encodes the smaller value,
/// and two rank alike exactly when they encode the same value. The two zeros
/// are the only distinct finite words that rank alike.
pub proof fn lemma_rank_orders_values(a: Binary32, b: Binary32)
    requires
        a.finite(),
        b.finite(),
    ensures
        a.rank() < b.rank() <==> a.scaled_value() < b.scaled_value(),
        a.rank() == b.rank() <==> a.scaled_value() == b.scaled_value(),
        a.below(b) <==> a.scaled_value() < b.scaled_value(),
        (a.rank() == b.rank() && a != b) ==> a.scaled_value() == 0,
{
    let zero = word(ZERO_BITS);
    assert(zero.magnitude() == 0 && zero.scaled_magnitude() == 0);
    if a.magnitude() > 0 {
        lemma_magnitude_orders_values(zero, a);
    }
    if b.magnitude() > 0 {
        lemma_magnitude_orders_values(zero, b);
    }
    if a.magnitude() < b.magnitude() {
        lemma_magnitude_orders_values(a, b);
    } else if b.magnitude() < a.magnitude() {
        lemma_magnitude_orders_values(b, a);
    } else {
        assert(a.scaled_magnitude() == b.scaled_magnitude());
    }
}

/// Being in range is lying between the bounds: a finite word is within two
/// finite bounds exactly when the value it encodes is at least the lower
/// bound's and at most the upper bound's.
pub proof fn lemma_within_is_between(x: Binary32, lo: Binary32, hi: Binary32)
    requires
        x.finite(),
        lo.finite(),
        hi.finite(),
    ensures
        x.within(lo, hi) <==> lo.scaled_value() <= x.scaled_value() <= hi.scaled_value(),
{
    lemma_rank_orders_values(x, lo);
    lemma_rank_orders_values(hi, x);
}

} // verus!
