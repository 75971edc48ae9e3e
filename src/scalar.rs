//! The scalar capability: what a floating-point coordinate type must offer.
//!
//! The arithmetic of a scalar is its own (rounding, infinities and NaN behave as the
//! implementing type defines them); every operation is therefore described by a spec
//! function of the trait, and the vector layer states its results in terms of them.
//! The spec functions have no meaning of their own: a type verified with Verus gives
//! each one its definition, and generic code knows only what the contracts say. Their
//! bodies in the trait are placeholders, so that a type implemented in plain Rust (the
//! native float wrappers) need only supply the executable methods; without them, such
//! a type would have to write out every spec function as a method of its own. A type
//! verified with Verus cannot lean on a placeholder: each executable method must return
//! its spec function's value, and no executable code can produce the unspecified value
//! a placeholder stands for (short of a type with a single value), so the verifier
//! makes it define the spec functions.
//! The predicates after the trait name the few facts about that arithmetic that the
//! library's laws rest on; IEEE-754 single and double precision meet them all.
use vstd::prelude::*;

verus! {

/// A floating-point number usable as a vector coordinate.
pub trait GenericScalar: Copy + PartialEq + PartialOrd + core::fmt::Debug + Send + Sync + Sized {
    /// The unsigned integer type holding the scalar's bit pattern.
    type BitsType: Copy + Eq + Ord + core::hash::Hash + core::fmt::Debug;

    /// The value zero (positive zero).
    open spec fn zero_spec() -> Self {
        arbitrary()
    }

    /// The value one.
    open spec fn one_spec() -> Self {
        arbitrary()
    }

    /// Positive infinity.
    open spec fn infinity_spec() -> Self {
        arbitrary()
    }

    /// The machine epsilon of the scalar width.
    open spec fn epsilon_spec() -> Self {
        arbitrary()
    }

    /// The tolerance used by approximate comparisons when the caller names none.
    open spec fn default_epsilon_spec() -> Self {
        arbitrary()
    }

    /// The ULP distance used by approximate comparisons when the caller names none.
    open spec fn default_max_ulps_spec() -> u32 {
        arbitrary()
    }

    /// `self + o`, rounded.
    open spec fn add_spec(self, o: Self) -> Self {
        arbitrary()
    }

    /// `self - o`, rounded.
    open spec fn sub_spec(self, o: Self) -> Self {
        arbitrary()
    }

    /// `self * o`, rounded.
    open spec fn mul_spec(self, o: Self) -> Self {
        arbitrary()
    }

    /// `self / o`, rounded.
    open spec fn div_spec(self, o: Self) -> Self {
        arbitrary()
    }

    /// `-self`.
    open spec fn neg_spec(self) -> Self {
        arbitrary()
    }

    /// `|self|`.
    open spec fn abs_spec(self) -> Self {
        arbitrary()
    }

    /// The square root of `self`, rounded.
    open spec fn sqrt_spec(self) -> Self {
        arbitrary()
    }

    /// `self < o`; false whenever either side is NaN.
    open spec fn lt_spec(self, o: Self) -> bool {
        arbitrary()
    }

    /// `self` is positive or negative zero.
    open spec fn is_zero_spec(self) -> bool {
        arbitrary()
    }

    /// `self` is not a number.
    open spec fn is_nan_spec(self) -> bool {
        arbitrary()
    }

    /// `self` is neither infinite nor NaN.
    open spec fn is_finite_spec(self) -> bool {
        arbitrary()
    }

    /// `self` is neither zero, subnormal, infinite nor NaN.
    open spec fn is_normal_spec(self) -> bool {
        arbitrary()
    }

    /// The bit pattern of `self`.
    open spec fn to_bits_spec(self) -> Self::BitsType {
        arbitrary()
    }

    /// The scalar with the given bit pattern.
    open spec fn from_bits_spec(bits: Self::BitsType) -> Self {
        arbitrary()
    }

    /// The scalar equal to the integer `v` (every `u8` is representable).
    open spec fn from_u8_spec(v: u8) -> Self {
        arbitrary()
    }

    /// The scalar equal to the integer `v` (every `i8` is representable).
    open spec fn from_i8_spec(v: i8) -> Self {
        arbitrary()
    }

    /// The scalar equal to the integer `v` (every `u16` is representable).
    open spec fn from_u16_spec(v: u16) -> Self {
        arbitrary()
    }

    /// The scalar equal to the integer `v` (every `i16` is representable).
    open spec fn from_i16_spec(v: i16) -> Self {
        arbitrary()
    }

    /// `self` cast to `u8`: truncated toward zero and saturated at the bounds of
    /// `u8`, with NaN giving 0.
    open spec fn to_u8_spec(self) -> u8 {
        arbitrary()
    }

    /// `self` cast to `i8`: truncated toward zero and saturated at the bounds of
    /// `i8`, with NaN giving 0.
    open spec fn to_i8_spec(self) -> i8 {
        arbitrary()
    }

    /// `self` cast to `u16`: truncated toward zero and saturated at the bounds of
    /// `u16`, with NaN giving 0.
    open spec fn to_u16_spec(self) -> u16 {
        arbitrary()
    }

    /// `self` cast to `i16`: truncated toward zero and saturated at the bounds of
    /// `i16`, with NaN giving 0.
    open spec fn to_i16_spec(self) -> i16 {
        arbitrary()
    }

    /// `self` cast to `u32`: truncated toward zero and saturated at the bounds of
    /// `u32`, with NaN giving 0.
    open spec fn to_u32_spec(self) -> u32 {
        arbitrary()
    }

    /// `self` cast to `i32`: truncated toward zero and saturated at the bounds of
    /// `i32`, with NaN giving 0.
    open spec fn to_i32_spec(self) -> i32 {
        arbitrary()
    }

    /// `self` cast to `u64`: truncated toward zero and saturated at the bounds of
    /// `u64`, with NaN giving 0.
    open spec fn to_u64_spec(self) -> u64 {
        arbitrary()
    }

    /// `self` cast to `i64`: truncated toward zero and saturated at the bounds of
    /// `i64`, with NaN giving 0.
    open spec fn to_i64_spec(self) -> i64 {
        arbitrary()
    }

    /// `self` cast to `usize`: truncated toward zero and saturated at the bounds of
    /// `usize`, with NaN giving 0.
    open spec fn to_usize_spec(self) -> usize {
        arbitrary()
    }

    /// `self` cast to `isize`: truncated toward zero and saturated at the bounds of
    /// `isize`, with NaN giving 0.
    open spec fn to_isize_spec(self) -> isize {
        arbitrary()
    }

    /// `self` and `o` differ by at most `epsilon`.
    open spec fn abs_diff_eq_spec(self, o: Self, epsilon: Self) -> bool {
        arbitrary()
    }

    /// `self` and `o` differ by at most `epsilon`, or by at most `max_ulps`
    /// representable steps.
    open spec fn ulps_eq_spec(self, o: Self, epsilon: Self, max_ulps: u32) -> bool {
        arbitrary()
    }

    fn zero() -> (r: Self)
        ensures
            r == Self::zero_spec(),
    ;

    fn one() -> (r: Self)
        ensures
            r == Self::one_spec(),
    ;

    fn two() -> (r: Self)
        ensures
            r == Self::one_spec().add_spec(Self::one_spec()),
    ;

    fn three() -> (r: Self)
        ensures
            r == Self::one_spec().add_spec(Self::one_spec()).add_spec(Self::one_spec()),
    ;

    fn infinity() -> (r: Self)
        ensures
            r == Self::infinity_spec(),
    ;

    fn neg_infinity() -> (r: Self)
        ensures
            r == Self::infinity_spec().neg_spec(),
    ;

    fn epsilon() -> (r: Self)
        ensures
            r == Self::epsilon_spec(),
    ;

    fn default_epsilon() -> (r: Self)
        ensures
            r == Self::default_epsilon_spec(),
    ;

    fn default_max_ulps() -> (r: u32)
        ensures
            r == Self::default_max_ulps_spec(),
    ;

    fn add(self, o: Self) -> (r: Self)
        ensures
            r == self.add_spec(o),
    ;

    fn sub(self, o: Self) -> (r: Self)
        ensures
            r == self.sub_spec(o),
    ;

    fn mul(self, o: Self) -> (r: Self)
        ensures
            r == self.mul_spec(o),
    ;

    fn div(self, o: Self) -> (r: Self)
        ensures
            r == self.div_spec(o),
    ;

    fn neg(self) -> (r: Self)
        ensures
            r == self.neg_spec(),
    ;

    fn abs(self) -> (r: Self)
        ensures
            r == self.abs_spec(),
    ;

    fn sqrt(self) -> (r: Self)
        ensures
            r == self.sqrt_spec(),
    ;

    fn lt(self, o: Self) -> (r: bool)
        ensures
            r == self.lt_spec(o),
    ;

    fn is_zero(self) -> (r: bool)
        ensures
            r == self.is_zero_spec(),
    ;

    fn is_nan(self) -> (r: bool)
        ensures
            r == self.is_nan_spec(),
    ;

    fn is_finite(self) -> (r: bool)
        ensures
            r == self.is_finite_spec(),
    ;

    fn is_normal(self) -> (r: bool)
        ensures
            r == self.is_normal_spec(),
    ;

    /// The bit pattern of `self`, from which `from_bits` gives `self` back exactly.
    fn to_bits(self) -> (r: Self::BitsType)
        ensures
            r == self.to_bits_spec(),
            Self::from_bits_spec(r) == self,
    ;

    /// The scalar with the given bit pattern; every pattern (NaN payloads included)
    /// survives the round trip through `to_bits`.
    fn from_bits(bits: Self::BitsType) -> (r: Self)
        ensures
            r == Self::from_bits_spec(bits),
            r.to_bits_spec() == bits,
    ;

    /// The scalar equal to `v`; casting it back to `u8` gives `v`.
    fn from_u8(v: u8) -> (r: Self)
        ensures
            r == Self::from_u8_spec(v),
            r.to_u8_spec() == v,
    ;

    /// The scalar equal to `v`; casting it back to `i8` gives `v`.
    fn from_i8(v: i8) -> (r: Self)
        ensures
            r == Self::from_i8_spec(v),
            r.to_i8_spec() == v,
    ;

    /// The scalar equal to `v`; casting it back to `u16` gives `v`.
    fn from_u16(v: u16) -> (r: Self)
        ensures
            r == Self::from_u16_spec(v),
            r.to_u16_spec() == v,
    ;

    /// The scalar equal to `v`; casting it back to `i16` gives `v`.
    fn from_i16(v: i16) -> (r: Self)
        ensures
            r == Self::from_i16_spec(v),
            r.to_i16_spec() == v,
    ;

    fn to_u8(self) -> (r: u8)
        ensures
            r == self.to_u8_spec(),
    ;

    fn to_i8(self) -> (r: i8)
        ensures
            r == self.to_i8_spec(),
    ;

    fn to_u16(self) -> (r: u16)
        ensures
            r == self.to_u16_spec(),
    ;

    fn to_i16(self) -> (r: i16)
        ensures
            r == self.to_i16_spec(),
    ;

    fn to_u32(self) -> (r: u32)
        ensures
            r == self.to_u32_spec(),
    ;

    fn to_i32(self) -> (r: i32)
        ensures
            r == self.to_i32_spec(),
    ;

    fn to_u64(self) -> (r: u64)
        ensures
            r == self.to_u64_spec(),
    ;

    fn to_i64(self) -> (r: i64)
        ensures
            r == self.to_i64_spec(),
    ;

    fn to_usize(self) -> (r: usize)
        ensures
            r == self.to_usize_spec(),
    ;

    fn to_isize(self) -> (r: isize)
        ensures
            r == self.to_isize_spec(),
    ;

    fn abs_diff_eq(self, o: Self, epsilon: Self) -> (r: bool)
        ensures
            r == self.abs_diff_eq_spec(o, epsilon),
    ;

    fn ulps_eq(self, o: Self, epsilon: Self, max_ulps: u32) -> (r: bool)
        ensures
            r == self.ulps_eq_spec(o, epsilon, max_ulps),
    ;

    /// Restricts `self` to the range `[min, max]`: `min` when `self < min`, else `max`
    /// when `max < self`, else `self` (so a bound equal to `self` returns `self`, and a
    /// NaN `self` stays NaN). When `max < min` the first test wins: a value below `min`
    /// gives `min`, any other value above `max` gives `max`.
    fn clamp(self, min: Self, max: Self) -> (r: Self)
        ensures
            r == (if self.lt_spec(min) {
                min
            } else if max.lt_spec(self) {
                max
            } else {
                self
            }),
    {
        if self.lt(min) {
            min
        } else if max.lt(self) {
            max
        } else {
            self
        }
    }
}

/// The scalar's zero is a zero, and sums, products and square roots of zeros are zeros.
pub open spec fn zeros_closed<S: GenericScalar>() -> bool {
    &&& S::zero_spec().is_zero_spec()
    &&& forall|a: S, b: S| a.is_zero_spec() && b.is_zero_spec() ==> (#[trigger] a.add_spec(b)).is_zero_spec()
    &&& forall|a: S, b: S| a.is_zero_spec() && b.is_zero_spec() ==> (#[trigger] a.mul_spec(b)).is_zero_spec()
    &&& forall|a: S| a.is_zero_spec() ==> (#[trigger] a.sqrt_spec()).is_zero_spec()
}

/// Only a zero has a zero square root.
pub open spec fn sqrt_zero_only_at_zero<S: GenericScalar>() -> bool {
    forall|a: S| (#[trigger] a.sqrt_spec()).is_zero_spec() ==> a.is_zero_spec()
}

/// The product of two finite scalars does not depend on their order.
pub open spec fn mul_commutes<S: GenericScalar>() -> bool {
    forall|a: S, b: S| a.is_finite_spec() && b.is_finite_spec() ==> #[trigger] a.mul_spec(b) == b.mul_spec(a)
}

/// A finite scalar minus itself is exactly (positive) zero.
pub open spec fn sub_self_is_zero<S: GenericScalar>() -> bool {
    forall|a: S| a.is_finite_spec() ==> #[trigger] a.sub_spec(a) == S::zero_spec()
}

/// Every number is ULP-equal to itself, whatever the tolerances.
pub open spec fn ulps_eq_reflexive<S: GenericScalar>() -> bool {
    forall|a: S, epsilon: S, max_ulps: u32| !a.is_nan_spec() ==> #[trigger] a.ulps_eq_spec(a, epsilon, max_ulps)
}

/// The default tolerance is a number no smaller than zero.
pub open spec fn default_epsilon_non_negative<S: GenericScalar>() -> bool {
    &&& !S::default_epsilon_spec().is_nan_spec()
    &&& !S::default_epsilon_spec().lt_spec(S::zero_spec())
}

/// Every finite scalar is within any tolerance no smaller than zero of itself.
pub open spec fn abs_diff_eq_reflexive<S: GenericScalar>() -> bool {
    forall|a: S, epsilon: S|
        a.is_finite_spec() && !epsilon.is_nan_spec() && !epsilon.lt_spec(S::zero_spec())
            ==> #[trigger] a.abs_diff_eq_spec(a, epsilon)
}

} // verus!
