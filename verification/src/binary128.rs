//! The IEEE 754 binary128 format: 128 bits, 15 exponent bits, 112 mantissa bits.

use vstd::prelude::*;
use core::cmp::Ordering;
use crate::category::Category;

verus! {

/// Number of total bits in the representation.
pub const BITS: usize = 128;

/// Number of bits in the exponent representation.
pub const EXP_BITS: usize = 15;

/// Number of bits in the mantissa representation.
pub const MANTISSA_BITS: usize = 112;

/// Number of significant digits in base 2.
///
/// Note that the size of the mantissa in the bitwise representation is one
/// smaller than this, since the leading 1 is not stored explicitly.
pub const MANTISSA_DIGITS: usize = 113;

/// All bits except the sign bit.
pub const ABS_MASK: u128 = 0x7fff_ffff_ffff_ffff_ffff_ffff_ffff_ffff;

/// The sign bit.
pub const SIGN_MASK: u128 = 0x8000_0000_0000_0000_0000_0000_0000_0000;

/// The exponent bits.
pub const EXP_MASK: u128 = 0x7fff_0000_0000_0000_0000_0000_0000_0000;

/// The mantissa bits.
pub const MANT_MASK: u128 = 0x0000_ffff_ffff_ffff_ffff_ffff_ffff_ffff;

/// The exponent bit pattern representing 2^0: the bias pattern.
pub const EXP_ZERO: u128 = 0x3fff_0000_0000_0000_0000_0000_0000_0000;

/// The largest exponent bit pattern of a finite number, one step below the
/// all-ones (reserved) pattern.
pub const EXP_MAX: u128 = 0x7ffe_0000_0000_0000_0000_0000_0000_0000;

/// The smallest exponent bit pattern of a normal number, one step above the
/// all-zeros (subnormal) pattern.
pub const EXP_MIN: u128 = 0x0001_0000_0000_0000_0000_0000_0000_0000;

/// The most significant mantissa bit, the `is_quiet` bit of a NaN value.
pub const QUIET_MASK: u128 = 0x0000_8000_0000_0000_0000_0000_0000_0000;

/// The mask constants follow from the format's layout — 128 bits in all, 15 of
/// them exponent, the sign in the top bit — by the conventional derivations.
pub proof fn lemma_mask_layout()
    by (bit_vector)
    ensures
        ABS_MASK == 0xffff_ffff_ffff_ffff_ffff_ffff_ffff_ffffu128 >> 1,
        SIGN_MASK == !ABS_MASK,
        MANT_MASK == ABS_MASK >> 15,
        EXP_MASK == ABS_MASK & !MANT_MASK,
        EXP_ZERO == EXP_MASK & (EXP_MASK >> 1),
        EXP_MAX == EXP_MASK & (EXP_MASK << 1),
        EXP_MIN == EXP_MASK & !EXP_MAX,
        QUIET_MASK == MANT_MASK & !(MANT_MASK >> 1),
{
}

/// The bit-level facts about a single value that the contracts below rest on.
proof fn lemma_bit_facts(b: u128)
    by (bit_vector)
    ensures
        b & ABS_MASK & SIGN_MASK == 0,
        b & ABS_MASK & ABS_MASK == b & ABS_MASK,
        b & ABS_MASK & EXP_MASK == b & EXP_MASK,
        b & ABS_MASK & MANT_MASK == b & MANT_MASK,
        b & ABS_MASK <= ABS_MASK,
        b & SIGN_MASK == 0 || b & SIGN_MASK == SIGN_MASK,
        (b ^ SIGN_MASK) ^ SIGN_MASK == b,
        (b ^ SIGN_MASK) & ABS_MASK == b & ABS_MASK,
        (b ^ SIGN_MASK) & EXP_MASK == b & EXP_MASK,
        (b ^ SIGN_MASK) & MANT_MASK == b & MANT_MASK,
        ((b ^ SIGN_MASK) & SIGN_MASK == 0) <==> b & SIGN_MASK != 0,
        b & SIGN_MASK == 0 ==> b & ABS_MASK == b,
        b & SIGN_MASK == 0 ==> (b | SIGN_MASK) == (b & ABS_MASK) + 0x8000_0000_0000_0000_0000_0000_0000_0000,
        b & SIGN_MASK != 0 ==> !b == 0x7fff_ffff_ffff_ffff_ffff_ffff_ffff_ffffu128 - (b & ABS_MASK),
{
}

/// The bit-level facts about a pair of values that `copysign` and the
/// ordering laws rest on.
proof fn lemma_bit_facts_pair(a: u128, s: u128)
    by (bit_vector)
    ensures
        ((a & ABS_MASK) | (s & SIGN_MASK)) & ABS_MASK == a & ABS_MASK,
        ((a & ABS_MASK) | (s & SIGN_MASK)) & SIGN_MASK == s & SIGN_MASK,
        ((a & ABS_MASK) | (s & SIGN_MASK)) & EXP_MASK == a & EXP_MASK,
        ((a & ABS_MASK) | (s & SIGN_MASK)) & MANT_MASK == a & MANT_MASK,
        (a & SIGN_MASK == s & SIGN_MASK && a & ABS_MASK == s & ABS_MASK) ==> a == s,
{
}

/// The value whose raw bits are `bits`.
pub open spec fn spec_from_bits(bits: u128) -> F128 {
    F128 { bits }
}

/// Whether the sign bit is set.
pub open spec fn spec_sign_negative(bits: u128) -> bool {
    bits & SIGN_MASK != 0
}

/// The category encoded by the exponent and mantissa fields.
pub open spec fn spec_category(bits: u128) -> Category {
    if bits & EXP_MASK == 0 {
        if bits & MANT_MASK == 0 {
            Category::Zero
        } else {
            Category::Subnormal
        }
    } else if bits & EXP_MASK == EXP_MASK {
        if bits & MANT_MASK == 0 {
            Category::Infinite
        } else {
            Category::Nan
        }
    } else {
        Category::Normal
    }
}

/// The bits of the absolute value: the sign bit cleared.
pub open spec fn spec_abs(bits: u128) -> u128 {
    bits & ABS_MASK
}

/// The bits of the negation: the sign bit flipped.
pub open spec fn spec_neg(bits: u128) -> u128 {
    bits ^ SIGN_MASK
}

/// The bits made of the magnitude of `bits` and the sign of `sign_bits`.
pub open spec fn spec_copysign(bits: u128, sign_bits: u128) -> u128 {
    (bits & ABS_MASK) | (sign_bits & SIGN_MASK)
}

/// The bits of the sign of a value: the value itself for NaN, else negative
/// or positive one according to the sign bit.
pub open spec fn spec_signum(bits: u128) -> u128 {
    if spec_category(bits) == Category::Nan {
        bits
    } else if spec_sign_negative(bits) {
        SIGN_MASK | EXP_ZERO
    } else {
        EXP_ZERO
    }
}

/// The sort key that realizes the IEEE 754 `totalOrder` predicate: a value
/// with magnitude bits `m` maps to `m` when the sign is positive and to
/// `-1 - m` when the sign is negative, so keys grow from negative quiet NaN
/// up to positive quiet NaN, and equal keys mean equal bits.
pub open spec fn sort_key(bits: u128) -> int {
    if bits & SIGN_MASK == 0 {
        (bits & ABS_MASK) as int
    } else {
        -1 - ((bits & ABS_MASK) as int)
    }
}

/// The `totalOrder` comparison of two bit patterns, as the comparison of
/// their sort keys.
pub open spec fn spec_total_cmp(a: u128, b: u128) -> Ordering {
    if sort_key(a) < sort_key(b) {
        Ordering::Less
    } else if sort_key(a) == sort_key(b) {
        Ordering::Equal
    } else {
        Ordering::Greater
    }
}

/// The bits of `x` clamped to `[min, max]` under the total order; NaN is
/// returned unchanged.
pub open spec fn spec_clamp(x: u128, min: u128, max: u128) -> u128 {
    if spec_category(x) == Category::Nan {
        x
    } else if sort_key(x) < sort_key(min) {
        min
    } else if sort_key(x) > sort_key(max) {
        max
    } else {
        x
    }
}

/// A newtype containing the raw bits of an IEEE 754 binary128 floating point
/// number.
///
/// Values of this type are hashable and have a well-defined total order: the
/// one given by [`Self::total_cmp`].  As a consequence, `+0.0` is not equal
/// to `-0.0`, and NaN compares equal to NaN if both NaN values have exactly
/// the same bit pattern.
#[derive(Debug, Clone, Copy, Hash, PartialEq, Eq, Structural)]
pub struct F128 {
    /// The raw bits representing this float value.
    pub bits: u128,
}

impl F128 {
    /// Constructs a wrapped float from the raw float bits.
    pub fn from_bits(bits: u128) -> (r: Self)
        ensures
            r == spec_from_bits(bits),
            r.bits == bits,
    {
        F128 { bits }
    }

    /// Returns the raw float bits.
    pub fn to_bits(&self) -> (r: u128)
        ensures
            r == self.bits,
    {
        self.bits
    }

    /// Positive zero (`+0.0`).
    pub fn zero() -> (r: Self)
        ensures
            r.bits == 0,
    {
        F128 { bits: 0 }
    }

    /// Positive one (`+1.0`).
    pub fn one() -> (r: Self)
        ensures
            r.bits == EXP_ZERO,
    {
        F128 { bits: EXP_ZERO }
    }

    /// Positive infinity (`+∞`).
    pub fn infinity() -> (r: Self)
        ensures
            r.bits == EXP_MASK,
    {
        F128 { bits: EXP_MASK }
    }

    /// Not a Number (NaN) with sign bit 0, `is_quiet` bit 0, and arbitrary
    /// payload.
    pub fn snan() -> (r: Self)
        ensures
            r.bits == (EXP_MASK | 1),
    {
        F128 { bits: EXP_MASK | 1 }
    }

    /// Not a Number (NaN) with sign bit 0, `is_quiet` bit 1, and arbitrary
    /// payload.
    pub fn qnan() -> (r: Self)
        ensures
            r.bits == (EXP_MASK | QUIET_MASK | 1),
    {
        F128 { bits: EXP_MASK | QUIET_MASK | 1 }
    }

    /// Not a Number (NaN): the same value as [`Self::qnan`].
    pub fn nan() -> (r: Self)
        ensures
            r.bits == (EXP_MASK | QUIET_MASK | 1),
    {
        Self::qnan()
    }

    /// Negative zero (`−0.0`).
    pub fn neg_zero() -> (r: Self)
        ensures
            r.bits == SIGN_MASK,
    {
        F128 { bits: SIGN_MASK }
    }

    /// Negative one (`−1.0`).
    pub fn neg_one() -> (r: Self)
        ensures
            r.bits == (SIGN_MASK | EXP_ZERO),
    {
        F128 { bits: SIGN_MASK | EXP_ZERO }
    }

    /// Negative infinity (`−∞`).
    pub fn neg_infinity() -> (r: Self)
        ensures
            r.bits == (SIGN_MASK | EXP_MASK),
    {
        F128 { bits: SIGN_MASK | EXP_MASK }
    }

    /// Not a Number (NaN) with sign bit 1, `is_quiet` bit 0, and arbitrary
    /// payload.
    pub fn neg_snan() -> (r: Self)
        ensures
            r.bits == (SIGN_MASK | EXP_MASK | 1),
    {
        F128 { bits: SIGN_MASK | EXP_MASK | 1 }
    }

    /// Not a Number (NaN) with sign bit 1, `is_quiet` bit 1, and arbitrary
    /// payload.
    pub fn neg_qnan() -> (r: Self)
        ensures
            r.bits == (SIGN_MASK | EXP_MASK | QUIET_MASK | 1),
    {
        F128 { bits: SIGN_MASK | EXP_MASK | QUIET_MASK | 1 }
    }

    /// The positive normal value with the greatest possible absolute
    /// magnitude.
    pub fn max() -> (r: Self)
        ensures
            r.bits == (EXP_MAX | MANT_MASK),
    {
        F128 { bits: EXP_MAX | MANT_MASK }
    }

    /// The negative normal value with the greatest possible absolute
    /// magnitude.
    pub fn min() -> (r: Self)
        ensures
            r.bits == (SIGN_MASK | EXP_MAX | MANT_MASK),
    {
        F128 { bits: SIGN_MASK | EXP_MAX | MANT_MASK }
    }

    /// The positive normal value with the least possible absolute magnitude.
    pub fn min_positive() -> (r: Self)
        ensures
            r.bits == EXP_MIN,
    {
        F128 { bits: EXP_MIN }
    }

    /// The negative normal value with the least possible absolute magnitude.
    pub fn max_negative() -> (r: Self)
        ensures
            r.bits == (SIGN_MASK | EXP_MIN),
    {
        F128 { bits: SIGN_MASK | EXP_MIN }
    }

    /// Returns `true` if self has a positive sign, including `+0.0`, `+∞`,
    /// and NaN with clear sign bit.
    pub fn is_sign_positive(&self) -> (r: bool)
        ensures
            r == !spec_sign_negative(self.bits),
    {
        self.bits & SIGN_MASK == 0
    }

    /// Returns `true` if self has a negative sign, including `-0.0`, `-∞`,
    /// and NaN with set sign bit.
    pub fn is_sign_negative(&self) -> (r: bool)
        ensures
            r == spec_sign_negative(self.bits),
    {
        !self.is_sign_positive()
    }

    /// Returns the floating point category of the number.
    pub fn classify(&self) -> (c: Category)
        ensures
            c == spec_category(self.bits),
    {
        let exp: u128 = self.bits & EXP_MASK;
        let mant: u128 = self.bits & MANT_MASK;
        if exp == 0 {
            if mant == 0 {
                Category::Zero
            } else {
                Category::Subnormal
            }
        } else if exp == EXP_MASK {
            if mant == 0 {
                Category::Infinite
            } else {
                Category::Nan
            }
        } else {
            Category::Normal
        }
    }

    /// Returns `true` if the number is `+0.0` or `-0.0`.
    pub fn is_zero(&self) -> (r: bool)
        ensures
            r == (spec_category(self.bits) == Category::Zero),
    {
        crate::category::is_zero(self.classify())
    }

    /// Returns `true` if the number is subnormal.
    pub fn is_subnormal(&self) -> (r: bool)
        ensures
            r == (spec_category(self.bits) == Category::Subnormal),
    {
        crate::category::is_subnormal(self.classify())
    }

    /// Returns `true` if the number is neither zero, infinite, subnormal,
    /// nor NaN.
    pub fn is_normal(&self) -> (r: bool)
        ensures
            r == (spec_category(self.bits) == Category::Normal),
    {
        crate::category::is_normal(self.classify())
    }

    /// Returns `true` if the number is positive or negative infinity.
    pub fn is_infinite(&self) -> (r: bool)
        ensures
            r == (spec_category(self.bits) == Category::Infinite),
    {
        crate::category::is_infinite(self.classify())
    }

    /// Returns `true` if this value is NaN.
    pub fn is_nan(&self) -> (r: bool)
        ensures
            r == (spec_category(self.bits) == Category::Nan),
    {
        crate::category::is_nan(self.classify())
    }

    /// Returns `true` if this number is neither infinite nor NaN.
    pub fn is_finite(&self) -> (r: bool)
        ensures
            r == (spec_category(self.bits) == Category::Zero
                || spec_category(self.bits) == Category::Subnormal
                || spec_category(self.bits) == Category::Normal),
    {
        crate::category::is_finite(self.classify())
    }

    /// Computes the absolute value of `self`.
    ///
    /// The result is always exact: it keeps the magnitude bits of `self`, its
    /// sign is always positive, and its category is the category of `self`.
    pub fn abs(&self) -> (r: Self)
        ensures
            r.bits == spec_abs(self.bits),
            !spec_sign_negative(r.bits),
            spec_abs(r.bits) == spec_abs(self.bits),
            spec_category(r.bits) == spec_category(self.bits),
    {
        proof {
            lemma_bit_facts(self.bits);
        }
        F128 { bits: self.bits & ABS_MASK }
    }

    /// Computes the negation of `self`.
    ///
    /// The result is always exact: it keeps the magnitude bits and the
    /// category of `self` and flips the sign.
    pub fn neg(&self) -> (r: Self)
        ensures
            r.bits == spec_neg(self.bits),
            spec_sign_negative(r.bits) == !spec_sign_negative(self.bits),
            spec_abs(r.bits) == spec_abs(self.bits),
            spec_category(r.bits) == spec_category(self.bits),
    {
        proof {
            lemma_bit_facts(self.bits);
        }
        F128 { bits: self.bits ^ SIGN_MASK }
    }

    /// Returns a number that represents the sign of `self`:
    ///
    /// * [`Self::one`] if the number is positive, including `+0.0` or `+∞`
    /// * [`Self::neg_one`] if the number is negative, including `-0.0` or
    ///   `-∞`
    /// * `self` if the number is NaN
    pub fn signum(&self) -> (r: Self)
        ensures
            r.bits == spec_signum(self.bits),
    {
        if self.is_nan() {
            *self
        } else if self.is_sign_negative() {
            Self::neg_one()
        } else {
            Self::one()
        }
    }

    /// Returns a number composed of the magnitude of `self` and the sign of
    /// `sign`.
    pub fn copysign(&self, sign: Self) -> (r: Self)
        ensures
            r.bits == spec_copysign(self.bits, sign.bits),
            spec_abs(r.bits) == spec_abs(self.bits),
            r.bits & SIGN_MASK == sign.bits & SIGN_MASK,
            spec_sign_negative(r.bits) == spec_sign_negative(sign.bits),
            spec_category(r.bits) == spec_category(self.bits),
    {
        proof {
            lemma_bit_facts_pair(self.bits, sign.bits);
        }
        let self_bits: u128 = self.bits & ABS_MASK;
        let sign_bit: u128 = sign.bits & SIGN_MASK;
        F128 { bits: self_bits | sign_bit }
    }

    /// Returns the ordering between `self` and `rhs`.
    ///
    /// Unlike the standard partial comparison between floating point numbers,
    /// this comparison always produces an ordering in accordance to the
    /// `totalOrder` predicate as defined in the IEEE 754 (2008 revision)
    /// floating point standard.  The values are ordered in the following
    /// sequence:
    ///
    /// * negative quiet NaN
    /// * negative signaling NaN
    /// * negative infinity
    /// * negative numbers
    /// * negative subnormal numbers
    /// * negative zero
    /// * positive zero
    /// * positive subnormal numbers
    /// * positive numbers
    /// * positive infinity
    /// * positive signaling NaN
    /// * positive quiet NaN
    pub fn total_cmp(&self, rhs: Self) -> (r: Ordering)
        ensures
            r == spec_total_cmp(self.bits, rhs.bits),
    {
        proof {
            lemma_bit_facts(self.bits);
            lemma_bit_facts(rhs.bits);
        }
        let lhs_key: u128 = if self.is_sign_negative() {
            !self.bits
        } else {
            self.bits | SIGN_MASK
        };
        let rhs_key: u128 = if rhs.is_sign_negative() {
            !rhs.bits
        } else {
            rhs.bits | SIGN_MASK
        };
        if lhs_key == rhs_key {
            Ordering::Equal
        } else if lhs_key < rhs_key {
            Ordering::Less
        } else {
            Ordering::Greater
        }
    }

    /// Restrict a value to a certain interval unless it is NaN.
    ///
    /// Returns `max` if `self` is greater than `max`, and `min` if `self` is
    /// less than `min`, both under [`Self::total_cmp`].  Otherwise this
    /// returns `self`.  A NaN `self` is returned unchanged.
    ///
    /// The bounds must be valid: neither may be NaN, and `min` must not
    /// order after `max`.  [`Self::checked_clamp`] checks them instead.
    pub fn clamp(&self, min: Self, max: Self) -> (r: Self)
        requires
            spec_category(min.bits) != Category::Nan,
            spec_category(max.bits) != Category::Nan,
            spec_total_cmp(min.bits, max.bits) != Ordering::Greater,
        ensures
            r.bits == spec_clamp(self.bits, min.bits, max.bits),
    {
        if self.is_nan() {
            *self
        } else if matches!(self.total_cmp(min), Ordering::Less) {
            min
        } else if matches!(self.total_cmp(max), Ordering::Greater) {
            max
        } else {
            *self
        }
    }

    /// Like [`Self::clamp`], but instead of demanding valid bounds it
    /// returns `None` exactly when they are invalid: when `min` is NaN, when
    /// `max` is NaN, or when `min` orders after `max` under
    /// [`Self::total_cmp`].
    pub fn checked_clamp(&self, min: Self, max: Self) -> (r: Option<Self>)
        ensures
            (r is None) <==> (spec_category(min.bits) == Category::Nan
                || spec_category(max.bits) == Category::Nan
                || spec_total_cmp(min.bits, max.bits) == Ordering::Greater),
            r is Some ==> (r->0).bits == spec_clamp(self.bits, min.bits, max.bits),
    {
        if min.is_nan() || max.is_nan() {
            None
        } else if matches!(min.total_cmp(max), Ordering::Greater) {
            None
        } else {
            Some(self.clamp(min, max))
        }
    }
}

impl Default for F128 {
    /// Returns positive zero.
    fn default() -> (r: Self)
        ensures
            r.bits == 0,
    {
        F128 { bits: 0 }
    }
}

impl PartialOrd for F128 {
    /// The total order given by [`Self::total_cmp`]: every pair of values is
    /// ordered, so this never returns `None`.
    fn partial_cmp(&self, rhs: &Self) -> (r: Option<Ordering>) {
        Some(self.total_cmp(*rhs))
    }
}

impl vstd::std_specs::cmp::PartialOrdSpecImpl for F128 {
    open spec fn obeys_partial_cmp_spec() -> bool {
        true
    }

    open spec fn partial_cmp_spec(&self, rhs: &Self) -> Option<Ordering> {
        Some(spec_total_cmp(self.bits, rhs.bits))
    }
}

/// Round trip: a value reconstructed from its raw bits is the identical
/// value, and raw bits survive the construction unchanged.
pub proof fn lemma_bits_round_trip(v: F128, bits: u128)
    ensures
        spec_from_bits(v.bits) == v,
        spec_from_bits(bits).bits == bits,
{
}

/// Negation is an involution, and absolute value is idempotent.
pub proof fn lemma_involution(v: F128)
    ensures
        spec_neg(spec_neg(v.bits)) == v.bits,
        spec_abs(spec_abs(v.bits)) == spec_abs(v.bits),
{
    lemma_bit_facts(v.bits);
}

/// Sign consistency: an absolute value always has a positive sign, and
/// `copysign` keeps the magnitude bits of its value and takes the sign bit
/// of its sign source.
pub proof fn lemma_sign_consistency(v: F128, s: F128)
    ensures
        !spec_sign_negative(spec_abs(v.bits)),
        spec_abs(spec_copysign(v.bits, s.bits)) == spec_abs(v.bits),
        spec_copysign(v.bits, s.bits) & SIGN_MASK == s.bits & SIGN_MASK,
{
    lemma_bit_facts(v.bits);
    lemma_bit_facts_pair(v.bits, s.bits);
}

/// The comparison is a strict total order over all bit patterns: it is
/// reflexively equal, equal only on identical bits, antisymmetric, and
/// transitive; every pair of values is comparable, NaN included, since the
/// comparison is a total function into the three orderings.
pub proof fn lemma_total_cmp_strict_total_order(a: F128, b: F128, c: F128)
    ensures
        spec_total_cmp(a.bits, a.bits) == Ordering::Equal,
        spec_total_cmp(a.bits, b.bits) == Ordering::Equal ==> a == b,
        (spec_total_cmp(a.bits, b.bits) == Ordering::Less) <==> (spec_total_cmp(
            b.bits,
            a.bits,
        ) == Ordering::Greater),
        (spec_total_cmp(a.bits, b.bits) == Ordering::Less && spec_total_cmp(b.bits, c.bits)
            == Ordering::Less) ==> spec_total_cmp(a.bits, c.bits) == Ordering::Less,
{
    lemma_bit_facts(a.bits);
    lemma_bit_facts(b.bits);
    lemma_bit_facts_pair(a.bits, b.bits);
}

} // verus!
