//! Approximate equality of whole vectors, axis by axis.
use vstd::prelude::*;
use crate::coords::HasXY;
use crate::scalar::GenericScalar;

verus! {

/// Every axis of `a` is ULP-equal to the same axis of `b`.
pub open spec fn all_ulps_eq<S: GenericScalar>(a: Seq<S>, b: Seq<S>, epsilon: S, max_ulps: u32) -> bool {
    forall|i: int| 0 <= i < a.len() ==> #[trigger] a[i].ulps_eq_spec(b[i], epsilon, max_ulps)
}

/// Every axis of `a` is within `epsilon` of the same axis of `b`.
pub open spec fn all_abs_diff_eq<S: GenericScalar>(a: Seq<S>, b: Seq<S>, epsilon: S) -> bool {
    forall|i: int| 0 <= i < a.len() ==> #[trigger] a[i].abs_diff_eq_spec(b[i], epsilon)
}

/// Tolerance-based equality of two values of one type, axis by axis; the values are
/// equal when every axis is.
pub trait Approx: HasXY {
    /// Each axis of `self` equals that of `other` within `epsilon` or within
    /// `max_ulps` representable steps.
    fn is_ulps_eq(self, other: Self, epsilon: Self::Scalar, max_ulps: u32) -> (r: bool)
        ensures
            r == all_ulps_eq(self.coords(), other.coords(), epsilon, max_ulps),
    ;

    /// Each axis of `self` is within `epsilon` of that of `other`.
    fn is_abs_diff_eq(self, other: Self, epsilon: Self::Scalar) -> (r: bool)
        ensures
            r == all_abs_diff_eq(self.coords(), other.coords(), epsilon),
    ;

    /// `is_ulps_eq` with the scalar's default tolerance and ULP distance.
    fn is_ulps_eq_default(self, other: Self) -> (r: bool)
        ensures
            r == all_ulps_eq(
                self.coords(),
                other.coords(),
                Self::Scalar::default_epsilon_spec(),
                Self::Scalar::default_max_ulps_spec(),
            ),
    {
        self.is_ulps_eq(other, Self::Scalar::default_epsilon(), Self::Scalar::default_max_ulps())
    }

    /// `is_abs_diff_eq` with the scalar's default tolerance.
    fn is_abs_diff_eq_default(self, other: Self) -> (r: bool)
        ensures
            r == all_abs_diff_eq(self.coords(), other.coords(), Self::Scalar::default_epsilon_spec()),
    {
        self.is_abs_diff_eq(other, Self::Scalar::default_epsilon())
    }
}

} // verus!
