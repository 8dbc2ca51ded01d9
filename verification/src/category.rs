//! The floating point categories and their boolean projections.
//!
//! A classification is computed from the exponent and mantissa bit fields of a
//! value and is shared by every float format in this crate.

use vstd::prelude::*;

verus! {

/// The category of a floating point value, derived from its bit pattern.
#[derive(Debug, Clone, Copy, PartialEq, Eq, Structural)]
pub enum Category {
    /// Positive or negative zero: exponent field zero, mantissa zero.
    Zero,
    /// Subnormal number: exponent field zero, mantissa nonzero.
    Subnormal,
    /// Normal number: exponent field neither all zeros nor all ones.
    Normal,
    /// Positive or negative infinity: exponent field all ones, mantissa zero.
    Infinite,
    /// Not a Number: exponent field all ones, mantissa nonzero.
    Nan,
}

/// Returns `true` if the category is [`Category::Zero`].
pub fn is_zero(category: Category) -> (r: bool)
    ensures
        r == (category == Category::Zero),
{
    matches!(category, Category::Zero)
}

/// Returns `true` if the category is [`Category::Subnormal`].
pub fn is_subnormal(category: Category) -> (r: bool)
    ensures
        r == (category == Category::Subnormal),
{
    matches!(category, Category::Subnormal)
}

/// Returns `true` if the category is [`Category::Normal`].
pub fn is_normal(category: Category) -> (r: bool)
    ensures
        r == (category == Category::Normal),
{
    matches!(category, Category::Normal)
}

/// Returns `true` if the category is [`Category::Infinite`].
pub fn is_infinite(category: Category) -> (r: bool)
    ensures
        r == (category == Category::Infinite),
{
    matches!(category, Category::Infinite)
}

/// Returns `true` if the category is [`Category::Nan`].
pub fn is_nan(category: Category) -> (r: bool)
    ensures
        r == (category == Category::Nan),
{
    matches!(category, Category::Nan)
}

/// Returns `true` if the category is finite: zero, subnormal, or normal.
pub fn is_finite(category: Category) -> (r: bool)
    ensures
        r == (category == Category::Zero || category == Category::Subnormal
            || category == Category::Normal),
{
    matches!(category, Category::Zero | Category::Subnormal | Category::Normal)
}

} // verus!
