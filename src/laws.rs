//! Laws that hold of every implementation of the capability traits, stated over the
//! results of the operations they relate (`call_ensures(f, args, r)`: `r` is what
//! `f(args)` returned). Where a law depends on the scalar's arithmetic it names the
//! facts it needs with the predicates of `scalar`; where floating point makes it fail
//! on some inputs, its `requires` leaves exactly those out.
use vstd::prelude::*;
use crate::approx_eq::Approx;
use crate::coords::{HasXY, HasXYZ};
use crate::scalar::{
    abs_diff_eq_reflexive, default_epsilon_non_negative, mul_commutes, sqrt_zero_only_at_zero,
    sub_self_is_zero, ulps_eq_reflexive, zeros_closed, GenericScalar,
};
use crate::vector::{dot2, dot3, GenericVector2, GenericVector3};

verus! {

/// A scalar converted to its bit pattern and back is the same scalar.
pub proof fn lemma_to_bits_from_bits<S: GenericScalar>(x: S, bits: S::BitsType, back: S)
    requires
        call_ensures(S::to_bits, (x,), bits),
        call_ensures(S::from_bits, (bits,), back),
    ensures
        back == x,
{
}

/// A bit pattern converted to a scalar and back is the same pattern.
pub proof fn lemma_from_bits_to_bits<S: GenericScalar>(bits: S::BitsType, x: S, back: S::BitsType)
    requires
        call_ensures(S::from_bits, (bits,), x),
        call_ensures(S::to_bits, (x,), back),
    ensures
        back == bits,
{
}

/// A value built by `new_2d(x, y)` reads back `x` from `x()` and `y` from `y()`.
pub proof fn lemma_new_2d_reads_back<T: HasXY>(x: T::Scalar, y: T::Scalar, v: T, rx: T::Scalar, ry: T::Scalar)
    requires
        call_ensures(T::new_2d, (x, y), v),
        call_ensures(T::x, (v,), rx),
        call_ensures(T::y, (v,), ry),
    ensures
        rx == x,
        ry == y,
{
}

/// Projecting `new_3d(x, y, z)` to 2D gives the same vector as `new_2d(x, y)`.
pub proof fn lemma_new_3d_to_2d<T: GenericVector3>(x: T::Scalar, y: T::Scalar, z: T::Scalar, v: T, w: T::Vector2, u: T::Vector2)
    requires
        call_ensures(T::new_3d, (x, y, z), v),
        call_ensures(T::to_2d, (&v,), w),
        call_ensures(<T::Vector2 as HasXY>::new_2d, (x, y), u),
    ensures
        w.coords() == seq![x, y],
        w.coords() == u.coords(),
{
    <T::Vector2 as GenericVector2>::lemma_dim_xy();
    <T::Vector2 as HasXY>::lemma_coords_len(u);
    assert(v.coords().take(2) =~= seq![x, y]);
    assert(u.coords() =~= seq![x, y]);
}

/// Projecting a 3D vector to 2D and lifting it back with its own z gives the vector
/// back exactly.
pub proof fn lemma_project_lift_round_trip<V3: GenericVector3>(v: V3, projected: V3::Vector2, lifted: V3)
    requires
        call_ensures(V3::to_2d, (&v,), projected),
        call_ensures(<V3::Vector2 as GenericVector2>::to_3d, (projected, v.coords()[2]), lifted),
    ensures
        lifted.coords() == v.coords(),
{
    V3::lemma_dim_xyz();
    V3::lemma_coords_len(v);
    assert(lifted.coords() =~= v.coords());
}

/// Lifting a 2D vector to 3D with any z and projecting it back gives the vector back
/// exactly.
pub proof fn lemma_lift_project_round_trip<V3: GenericVector3>(v: V3::Vector2, z: V3::Scalar, lifted: V3, projected: V3::Vector2)
    requires
        call_ensures(<V3::Vector2 as GenericVector2>::to_3d, (v, z), lifted),
        call_ensures(V3::to_2d, (&lifted,), projected),
    ensures
        projected.coords() == v.coords(),
{
    <V3::Vector2 as GenericVector2>::lemma_dim_xy();
    <V3::Vector2 as HasXY>::lemma_coords_len(v);
    assert(projected.coords() =~= v.coords());
}

/// Scaling a 2D vector by `k`, lifting it to 3D with any `z`, projecting it back and
/// dividing by `k` gives the vector back exactly, whenever dividing by `k` undoes
/// multiplying by `k` on each of its coordinates (as it does for a power of two, or
/// for small integers and a small integer `k`; it need not for other values).
pub proof fn lemma_scale_lift_project_unscale<V3: GenericVector3>(
    v: V3::Vector2,
    k: V3::Scalar,
    z: V3::Scalar,
    scaled: V3::Vector2,
    lifted: V3,
    projected: V3::Vector2,
    result: V3::Vector2,
)
    requires
        call_ensures(<V3::Vector2 as GenericVector2>::mul, (v, k), scaled),
        call_ensures(<V3::Vector2 as GenericVector2>::to_3d, (scaled, z), lifted),
        call_ensures(V3::to_2d, (&lifted,), projected),
        call_ensures(<V3::Vector2 as GenericVector2>::div, (projected, k), result),
        forall|i: int| 0 <= i < 2 ==> #[trigger] v.coords()[i].mul_spec(k).div_spec(k) == v.coords()[i],
    ensures
        result.coords() == v.coords(),
{
    <V3::Vector2 as GenericVector2>::lemma_dim_xy();
    <V3::Vector2 as HasXY>::lemma_coords_len(v);
    assert(projected.coords() =~= scaled.coords());
    assert(result.coords() =~= v.coords()) by {
        assert(result.coords()[0] == v.coords()[0]);
        assert(result.coords()[1] == v.coords()[1]);
    }
}

/// `safe_normalize` of a 2D vector is `None` exactly when its coordinates are zeros
/// (of either sign), for every vector whose squared magnitude is zero only when it is
/// the zero vector: a nonzero vector whose squares underflow to zero is left out, as
/// its magnitude is zero too.
pub proof fn lemma_safe_normalize_none_iff_zero_2d<T: GenericVector2>(v: T, r: Option<T>)
    requires
        zeros_closed::<T::Scalar>(),
        sqrt_zero_only_at_zero::<T::Scalar>(),
        call_ensures(T::safe_normalize, (v,), r),
        dot2(v.coords(), v.coords()).is_zero_spec() ==> v.coords()[0].is_zero_spec() && v.coords()[1].is_zero_spec(),
    ensures
        r is None <==> v.coords()[0].is_zero_spec() && v.coords()[1].is_zero_spec(),
{
    let c = v.coords();
    if c[0].is_zero_spec() && c[1].is_zero_spec() {
        assert(c[0].mul_spec(c[0]).is_zero_spec());
        assert(c[1].mul_spec(c[1]).is_zero_spec());
        assert(dot2(c, c).is_zero_spec());
        assert(dot2(c, c).sqrt_spec().is_zero_spec());
    }
    if dot2(c, c).sqrt_spec().is_zero_spec() {
        assert(dot2(c, c).is_zero_spec());
    }
}

/// `safe_normalize` of a 3D vector is `None` exactly when its coordinates are zeros
/// (of either sign), for every vector whose squared magnitude is zero only when it is
/// the zero vector: a nonzero vector whose squares underflow to zero is left out, as
/// its magnitude is zero too.
pub proof fn lemma_safe_normalize_none_iff_zero_3d<T: GenericVector3>(v: T, r: Option<T>)
    requires
        zeros_closed::<T::Scalar>(),
        sqrt_zero_only_at_zero::<T::Scalar>(),
        call_ensures(T::safe_normalize, (v,), r),
        dot3(v.coords(), v.coords()).is_zero_spec() ==> v.coords()[0].is_zero_spec() && v.coords()[1].is_zero_spec()
            && v.coords()[2].is_zero_spec(),
    ensures
        r is None <==> v.coords()[0].is_zero_spec() && v.coords()[1].is_zero_spec() && v.coords()[2].is_zero_spec(),
{
    let c = v.coords();
    if c[0].is_zero_spec() && c[1].is_zero_spec() && c[2].is_zero_spec() {
        assert(c[0].mul_spec(c[0]).is_zero_spec());
        assert(c[1].mul_spec(c[1]).is_zero_spec());
        assert(c[2].mul_spec(c[2]).is_zero_spec());
        let s = c[0].mul_spec(c[0]).add_spec(c[1].mul_spec(c[1]));
        assert(s.is_zero_spec());
        assert(dot3(c, c).is_zero_spec());
        assert(dot3(c, c).sqrt_spec().is_zero_spec());
    }
    if dot3(c, c).sqrt_spec().is_zero_spec() {
        assert(dot3(c, c).is_zero_spec());
    }
}

/// The 2D vector built from the scalar's `zero()` twice has no direction:
/// `safe_normalize` gives `None`.
pub proof fn lemma_safe_normalize_of_zero_2d<T: GenericVector2>(z: T::Scalar, v: T, r: Option<T>)
    requires
        zeros_closed::<T::Scalar>(),
        call_ensures(T::Scalar::zero, (), z),
        call_ensures(T::new_2d, (z, z), v),
        call_ensures(T::safe_normalize, (v,), r),
    ensures
        r is None,
{
    let c = v.coords();
    assert(c[0].mul_spec(c[0]).is_zero_spec());
    assert(c[1].mul_spec(c[1]).is_zero_spec());
    assert(dot2(c, c).is_zero_spec());
}

/// The 3D vector built from the scalar's `zero()` three times has no direction:
/// `safe_normalize` gives `None`.
pub proof fn lemma_safe_normalize_of_zero_3d<T: GenericVector3>(z: T::Scalar, v: T, r: Option<T>)
    requires
        zeros_closed::<T::Scalar>(),
        call_ensures(T::Scalar::zero, (), z),
        call_ensures(T::new_3d, (z, z, z), v),
        call_ensures(T::safe_normalize, (v,), r),
    ensures
        r is None,
{
    let c = v.coords();
    assert(c[0].mul_spec(c[0]).is_zero_spec());
    assert(c[1].mul_spec(c[1]).is_zero_spec());
    assert(c[2].mul_spec(c[2]).is_zero_spec());
    assert(c[0].mul_spec(c[0]).add_spec(c[1].mul_spec(c[1])).is_zero_spec());
    assert(dot3(c, c).is_zero_spec());
}

/// A 2D vector with finite coordinates minus itself is exactly the zero vector.
pub proof fn lemma_sub_self_2d<T: GenericVector2>(v: T, d: T)
    requires
        sub_self_is_zero::<T::Scalar>(),
        call_ensures(T::sub, (v, v), d),
        v.coords()[0].is_finite_spec(),
        v.coords()[1].is_finite_spec(),
    ensures
        d.coords() == seq![T::Scalar::zero_spec(), T::Scalar::zero_spec()],
{
    T::lemma_dim_xy();
    T::lemma_coords_len(v);
    let c = v.coords();
    assert(c[0].sub_spec(c[0]) == T::Scalar::zero_spec());
    assert(c[1].sub_spec(c[1]) == T::Scalar::zero_spec());
    assert(d.coords() =~= seq![T::Scalar::zero_spec(), T::Scalar::zero_spec()]);
}

/// A 3D vector with finite coordinates minus itself is exactly the zero vector.
pub proof fn lemma_sub_self_3d<T: GenericVector3>(v: T, d: T)
    requires
        sub_self_is_zero::<T::Scalar>(),
        call_ensures(T::sub, (v, v), d),
        v.coords()[0].is_finite_spec(),
        v.coords()[1].is_finite_spec(),
        v.coords()[2].is_finite_spec(),
    ensures
        d.coords() == seq![T::Scalar::zero_spec(), T::Scalar::zero_spec(), T::Scalar::zero_spec()],
{
    T::lemma_dim_xyz();
    T::lemma_coords_len(v);
    let c = v.coords();
    assert(c[0].sub_spec(c[0]) == T::Scalar::zero_spec());
    assert(c[1].sub_spec(c[1]) == T::Scalar::zero_spec());
    assert(c[2].sub_spec(c[2]) == T::Scalar::zero_spec());
    assert(d.coords() =~= seq![T::Scalar::zero_spec(), T::Scalar::zero_spec(), T::Scalar::zero_spec()]);
}

/// The cross product of a vector with itself is exactly the zero vector, whenever the
/// products of its coordinates are finite.
pub proof fn lemma_cross_self_is_zero<T: GenericVector3>(v: T, c: T)
    requires
        mul_commutes::<T::Scalar>(),
        sub_self_is_zero::<T::Scalar>(),
        call_ensures(T::cross, (v, v), c),
        forall|i: int| 0 <= i < 3 ==> #[trigger] v.coords()[i].is_finite_spec(),
        forall|i: int, j: int| 0 <= i < 3 && 0 <= j < 3 ==> #[trigger] v.coords()[i].mul_spec(v.coords()[j]).is_finite_spec(),
    ensures
        c.coords() == seq![T::Scalar::zero_spec(), T::Scalar::zero_spec(), T::Scalar::zero_spec()],
{
    let a = v.coords();
    assert(a[0].is_finite_spec() && a[1].is_finite_spec() && a[2].is_finite_spec());
    assert(a[1].mul_spec(a[2]) == a[2].mul_spec(a[1]));
    assert(a[2].mul_spec(a[0]) == a[0].mul_spec(a[2]));
    assert(a[0].mul_spec(a[1]) == a[1].mul_spec(a[0]));
    assert(a[1].mul_spec(a[2]).is_finite_spec());
    assert(a[2].mul_spec(a[0]).is_finite_spec());
    assert(a[0].mul_spec(a[1]).is_finite_spec());
    assert(c.coords() =~= seq![T::Scalar::zero_spec(), T::Scalar::zero_spec(), T::Scalar::zero_spec()]);
}

/// A vector with no NaN coordinate is ULP-equal to itself under any tolerances.
pub proof fn lemma_is_ulps_eq_reflexive<T: Approx>(v: T, epsilon: T::Scalar, max_ulps: u32, r: bool)
    requires
        ulps_eq_reflexive::<T::Scalar>(),
        call_ensures(T::is_ulps_eq, (v, v, epsilon, max_ulps), r),
        forall|i: int| 0 <= i < v.coords().len() ==> !(#[trigger] v.coords()[i]).is_nan_spec(),
    ensures
        r,
{
    assert forall|i: int| 0 <= i < v.coords().len() implies #[trigger] v.coords()[i].ulps_eq_spec(
        v.coords()[i],
        epsilon,
        max_ulps,
    ) by {
        assert(!v.coords()[i].is_nan_spec());
    }
}

/// A vector with finite coordinates is equal to itself within any tolerance no smaller
/// than zero, the scalar's default tolerance among them.
pub proof fn lemma_is_abs_diff_eq_reflexive<T: Approx>(v: T, epsilon: T::Scalar, r: bool)
    requires
        abs_diff_eq_reflexive::<T::Scalar>(),
        call_ensures(T::is_abs_diff_eq, (v, v, epsilon), r),
        forall|i: int| 0 <= i < v.coords().len() ==> (#[trigger] v.coords()[i]).is_finite_spec(),
        !epsilon.is_nan_spec(),
        !epsilon.lt_spec(T::Scalar::zero_spec()),
    ensures
        r,
{
    assert forall|i: int| 0 <= i < v.coords().len() implies #[trigger] v.coords()[i].abs_diff_eq_spec(
        v.coords()[i],
        epsilon,
    ) by {
        assert(v.coords()[i].is_finite_spec());
    }
}

/// A vector with no NaN coordinate is ULP-equal to itself under the scalar's default
/// tolerance and ULP distance.
pub proof fn lemma_is_ulps_eq_default_reflexive<T: Approx>(v: T, r: bool)
    requires
        ulps_eq_reflexive::<T::Scalar>(),
        call_ensures(T::is_ulps_eq_default, (v, v), r),
        forall|i: int| 0 <= i < v.coords().len() ==> !(#[trigger] v.coords()[i]).is_nan_spec(),
    ensures
        r,
{
    assert forall|i: int| 0 <= i < v.coords().len() implies #[trigger] v.coords()[i].ulps_eq_spec(
        v.coords()[i],
        T::Scalar::default_epsilon_spec(),
        T::Scalar::default_max_ulps_spec(),
    ) by {
        assert(!v.coords()[i].is_nan_spec());
    }
}

/// A vector with finite coordinates is equal to itself within the scalar's default
/// tolerance.
pub proof fn lemma_is_abs_diff_eq_default_reflexive<T: Approx>(v: T, r: bool)
    requires
        abs_diff_eq_reflexive::<T::Scalar>(),
        default_epsilon_non_negative::<T::Scalar>(),
        call_ensures(T::is_abs_diff_eq_default, (v, v), r),
        forall|i: int| 0 <= i < v.coords().len() ==> (#[trigger] v.coords()[i]).is_finite_spec(),
    ensures
        r,
{
    assert forall|i: int| 0 <= i < v.coords().len() implies #[trigger] v.coords()[i].abs_diff_eq_spec(
        v.coords()[i],
        T::Scalar::default_epsilon_spec(),
    ) by {
        assert(v.coords()[i].is_finite_spec());
    }
}

} // verus!
