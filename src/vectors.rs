//! Plain coordinate storage: a 2D and a 3D vector over any scalar, implementing every
//! capability trait. The vector operations are the trait's own implementations.
use vstd::prelude::*;
use crate::approx_eq::Approx;
use crate::coords::{HasXY, HasXYZ};
use crate::scalar::GenericScalar;
use crate::vector::{GenericVector2, GenericVector3};

verus! {

/// A two-dimensional vector stored as its two coordinates.
#[derive(Clone, Copy, Debug, PartialEq)]
pub struct Vector2<S> {
    pub x: S,
    pub y: S,
}

/// A three-dimensional vector stored as its three coordinates.
#[derive(Clone, Copy, Debug, PartialEq)]
pub struct Vector3<S> {
    pub x: S,
    pub y: S,
    pub z: S,
}

impl<S: GenericScalar> Vector2<S> {
    pub fn new(x: S, y: S) -> (r: Self)
        ensures
            r.x == x,
            r.y == y,
    {
        Vector2 { x, y }
    }
}

impl<S: GenericScalar> Vector3<S> {
    pub fn new(x: S, y: S, z: S) -> (r: Self)
        ensures
            r.x == x,
            r.y == y,
            r.z == z,
    {
        Vector3 { x, y, z }
    }
}

impl<S: GenericScalar> HasXY for Vector2<S> {
    type Scalar = S;

    open spec fn dim() -> nat {
        2
    }

    open spec fn coords(self) -> Seq<S> {
        seq![self.x, self.y]
    }

    proof fn lemma_coords_len(v: Self) {
    }

    fn new_2d(x: S, y: S) -> (r: Self) {
        Vector2 { x, y }
    }

    fn x(self) -> (r: S) {
        self.x
    }

    fn x_mut(&mut self) -> (r: &mut S) {
        &mut self.x
    }

    fn set_x(&mut self, val: S) {
        self.x = val;
        assert(self.coords() =~= old(self).coords().update(0, val));
    }

    fn y(self) -> (r: S) {
        self.y
    }

    fn y_mut(&mut self) -> (r: &mut S) {
        &mut self.y
    }

    fn set_y(&mut self, val: S) {
        self.y = val;
        assert(self.coords() =~= old(self).coords().update(1, val));
    }
}

impl<S: GenericScalar> Approx for Vector2<S> {
    fn is_ulps_eq(self, other: Self, epsilon: S, max_ulps: u32) -> (r: bool) {
        let r = self.x.ulps_eq(other.x, epsilon, max_ulps) && self.y.ulps_eq(other.y, epsilon, max_ulps);
        assert(r == (forall|i: int| 0 <= i < 2 ==> #[trigger] self.coords()[i].ulps_eq_spec(other.coords()[i], epsilon, max_ulps))) by {
            if !r {
                if !self.x.ulps_eq_spec(other.x, epsilon, max_ulps) {
                    assert(!self.coords()[0].ulps_eq_spec(other.coords()[0], epsilon, max_ulps));
                } else {
                    assert(!self.coords()[1].ulps_eq_spec(other.coords()[1], epsilon, max_ulps));
                }
            }
        }
        r
    }

    fn is_abs_diff_eq(self, other: Self, epsilon: S) -> (r: bool) {
        let r = self.x.abs_diff_eq(other.x, epsilon) && self.y.abs_diff_eq(other.y, epsilon);
        assert(r == (forall|i: int| 0 <= i < 2 ==> #[trigger] self.coords()[i].abs_diff_eq_spec(other.coords()[i], epsilon))) by {
            if !r {
                if !self.x.abs_diff_eq_spec(other.x, epsilon) {
                    assert(!self.coords()[0].abs_diff_eq_spec(other.coords()[0], epsilon));
                } else {
                    assert(!self.coords()[1].abs_diff_eq_spec(other.coords()[1], epsilon));
                }
            }
        }
        r
    }
}

impl<S: GenericScalar> GenericVector2 for Vector2<S> {
    type Vector3 = Vector3<S>;

    proof fn lemma_dim_xy() {
    }
}

impl<S: GenericScalar> HasXY for Vector3<S> {
    type Scalar = S;

    open spec fn dim() -> nat {
        3
    }

    open spec fn coords(self) -> Seq<S> {
        seq![self.x, self.y, self.z]
    }

    proof fn lemma_coords_len(v: Self) {
    }

    fn new_2d(x: S, y: S) -> (r: Self) {
        Vector3 { x, y, z: S::zero() }
    }

    fn x(self) -> (r: S) {
        self.x
    }

    fn x_mut(&mut self) -> (r: &mut S) {
        &mut self.x
    }

    fn set_x(&mut self, val: S) {
        self.x = val;
        assert(self.coords() =~= old(self).coords().update(0, val));
    }

    fn y(self) -> (r: S) {
        self.y
    }

    fn y_mut(&mut self) -> (r: &mut S) {
        &mut self.y
    }

    fn set_y(&mut self, val: S) {
        self.y = val;
        assert(self.coords() =~= old(self).coords().update(1, val));
    }
}

impl<S: GenericScalar> HasXYZ for Vector3<S> {
    proof fn lemma_dim_xyz() {
    }

    fn new_3d(x: S, y: S, z: S) -> (r: Self) {
        Vector3 { x, y, z }
    }

    fn z(self) -> (r: S) {
        self.z
    }

    fn z_mut(&mut self) -> (r: &mut S) {
        &mut self.z
    }

    fn set_z(&mut self, val: S) {
        self.z = val;
        assert(self.coords() =~= old(self).coords().update(2, val));
    }
}

impl<S: GenericScalar> Approx for Vector3<S> {
    fn is_ulps_eq(self, other: Self, epsilon: S, max_ulps: u32) -> (r: bool) {
        let r = self.x.ulps_eq(other.x, epsilon, max_ulps) && self.y.ulps_eq(other.y, epsilon, max_ulps)
            && self.z.ulps_eq(other.z, epsilon, max_ulps);
        assert(r == (forall|i: int| 0 <= i < 3 ==> #[trigger] self.coords()[i].ulps_eq_spec(other.coords()[i], epsilon, max_ulps))) by {
            if !r {
                if !self.x.ulps_eq_spec(other.x, epsilon, max_ulps) {
                    assert(!self.coords()[0].ulps_eq_spec(other.coords()[0], epsilon, max_ulps));
                } else if !self.y.ulps_eq_spec(other.y, epsilon, max_ulps) {
                    assert(!self.coords()[1].ulps_eq_spec(other.coords()[1], epsilon, max_ulps));
                } else {
                    assert(!self.coords()[2].ulps_eq_spec(other.coords()[2], epsilon, max_ulps));
                }
            }
        }
        r
    }

    fn is_abs_diff_eq(self, other: Self, epsilon: S) -> (r: bool) {
        let r = self.x.abs_diff_eq(other.x, epsilon) && self.y.abs_diff_eq(other.y, epsilon)
            && self.z.abs_diff_eq(other.z, epsilon);
        assert(r == (forall|i: int| 0 <= i < 3 ==> #[trigger] self.coords()[i].abs_diff_eq_spec(other.coords()[i], epsilon))) by {
            if !r {
                if !self.x.abs_diff_eq_spec(other.x, epsilon) {
                    assert(!self.coords()[0].abs_diff_eq_spec(other.coords()[0], epsilon));
                } else if !self.y.abs_diff_eq_spec(other.y, epsilon) {
                    assert(!self.coords()[1].abs_diff_eq_spec(other.coords()[1], epsilon));
                } else {
                    assert(!self.coords()[2].abs_diff_eq_spec(other.coords()[2], epsilon));
                }
            }
        }
        r
    }
}

impl<S: GenericScalar> GenericVector3 for Vector3<S> {
    type Vector2 = Vector2<S>;
}

} // verus!
