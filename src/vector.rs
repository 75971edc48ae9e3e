//! The full vector capability in two and three dimensions.
//!
//! Every operation is stated over the coordinates of its operands and the scalar's own
//! arithmetic, in the order in which the scalar operations are carried out, so that the
//! results are exact statements about rounded floating-point values. The trait methods
//! come with implementations built from the coordinate accessors; a type only has to
//! provide the accessors and the pairing with its partner type.
use vstd::prelude::*;
use crate::approx_eq::Approx;
use crate::coords::{HasXY, HasXYZ};
use crate::scalar::GenericScalar;

verus! {

/// Axis-wise sum.
pub open spec fn add_coords<S: GenericScalar>(a: Seq<S>, b: Seq<S>) -> Seq<S> {
    Seq::new(a.len(), |i: int| a[i].add_spec(b[i]))
}

/// Axis-wise difference.
pub open spec fn sub_coords<S: GenericScalar>(a: Seq<S>, b: Seq<S>) -> Seq<S> {
    Seq::new(a.len(), |i: int| a[i].sub_spec(b[i]))
}

/// Axis-wise negation.
pub open spec fn neg_coords<S: GenericScalar>(a: Seq<S>) -> Seq<S> {
    Seq::new(a.len(), |i: int| a[i].neg_spec())
}

/// Every axis multiplied by `k`.
pub open spec fn scale_coords<S: GenericScalar>(a: Seq<S>, k: S) -> Seq<S> {
    Seq::new(a.len(), |i: int| a[i].mul_spec(k))
}

/// Every axis divided by `k`.
pub open spec fn div_coords<S: GenericScalar>(a: Seq<S>, k: S) -> Seq<S> {
    Seq::new(a.len(), |i: int| a[i].div_spec(k))
}

/// `a.x * b.x + a.y * b.y`.
pub open spec fn dot2<S: GenericScalar>(a: Seq<S>, b: Seq<S>) -> S {
    a[0].mul_spec(b[0]).add_spec(a[1].mul_spec(b[1]))
}

/// `a.x * b.x + a.y * b.y + a.z * b.z`, summed from the left.
pub open spec fn dot3<S: GenericScalar>(a: Seq<S>, b: Seq<S>) -> S {
    a[0].mul_spec(b[0]).add_spec(a[1].mul_spec(b[1])).add_spec(a[2].mul_spec(b[2]))
}

/// `a.x * b.y - a.y * b.x`.
pub open spec fn perp_dot2<S: GenericScalar>(a: Seq<S>, b: Seq<S>) -> S {
    a[0].mul_spec(b[1]).sub_spec(a[1].mul_spec(b[0]))
}

/// The cross product `a × b`.
pub open spec fn cross3<S: GenericScalar>(a: Seq<S>, b: Seq<S>) -> Seq<S> {
    seq![
        a[1].mul_spec(b[2]).sub_spec(b[1].mul_spec(a[2])),
        a[2].mul_spec(b[0]).sub_spec(b[2].mul_spec(a[0])),
        a[0].mul_spec(b[1]).sub_spec(b[0].mul_spec(a[1])),
    ]
}

/// A two-dimensional vector over a floating-point scalar.
pub trait GenericVector2: HasXY + Approx + PartialEq {
    /// The three-dimensional type of the same scalar that `to_3d` lifts into. The
    /// pairing is stated in full on the 3D side (`GenericVector3::Vector2`), whose
    /// bound names this type back; two traits cannot bound each other's associated
    /// types, so here the partner is only required to be a 3D holder.
    type Vector3: HasXYZ<Scalar = Self::Scalar>;

    /// A 2D vector has two axes.
    proof fn lemma_dim_xy()
        ensures
            Self::dim() == 2,
    ;

    /// The 3D vector with the x and y of `self` and the given z.
    fn to_3d(self, z: Self::Scalar) -> (r: Self::Vector3)
        ensures
            r.coords() == self.coords().push(z),
    {
        proof {
            Self::lemma_dim_xy();
            Self::lemma_coords_len(self);
        }
        let r = <Self::Vector3 as HasXYZ>::new_3d(self.x(), self.y(), z);
        assert(r.coords() =~= self.coords().push(z));
        r
    }

    /// The Euclidean length.
    fn magnitude(self) -> (r: Self::Scalar)
        ensures
            r == dot2(self.coords(), self.coords()).sqrt_spec(),
    {
        self.magnitude_sq().sqrt()
    }

    /// The squared Euclidean length.
    fn magnitude_sq(self) -> (r: Self::Scalar)
        ensures
            r == dot2(self.coords(), self.coords()),
    {
        self.dot(self)
    }

    fn dot(self, other: Self) -> (r: Self::Scalar)
        ensures
            r == dot2(self.coords(), other.coords()),
    {
        self.x().mul(other.x()).add(self.y().mul(other.y()))
    }

    /// `x1 * y2 - y1 * x2`: signed, and zero for collinear vectors.
    fn perp_dot(self, rhs: Self) -> (r: Self::Scalar)
        ensures
            r == perp_dot2(self.coords(), rhs.coords()),
    {
        self.x().mul(rhs.y()).sub(self.y().mul(rhs.x()))
    }

    /// The length of `self - rhs`.
    fn distance(self, rhs: Self) -> (r: Self::Scalar)
        ensures
            r == dot2(sub_coords(self.coords(), rhs.coords()), sub_coords(self.coords(), rhs.coords())).sqrt_spec(),
    {
        self.sub(rhs).magnitude()
    }

    /// The squared length of `self - rhs`.
    fn distance_sq(self, rhs: Self) -> (r: Self::Scalar)
        ensures
            r == dot2(sub_coords(self.coords(), rhs.coords()), sub_coords(self.coords(), rhs.coords())),
    {
        self.sub(rhs).magnitude_sq()
    }

    /// `self / magnitude()`; a zero vector gives whatever the scalar's division by
    /// zero gives.
    fn normalize(self) -> (r: Self)
        ensures
            r.coords() == div_coords(self.coords(), dot2(self.coords(), self.coords()).sqrt_spec()),
    {
        self.div(self.magnitude())
    }

    /// `None` exactly when the magnitude is zero, else `Some(self / magnitude())`.
    fn safe_normalize(self) -> (r: Option<Self>)
        ensures
            r is None <==> dot2(self.coords(), self.coords()).sqrt_spec().is_zero_spec(),
            r matches Some(n) ==> n.coords() == div_coords(self.coords(), dot2(self.coords(), self.coords()).sqrt_spec()),
    {
        let l = self.magnitude();
        if l.is_zero() {
            None
        } else {
            Some(self.div(l))
        }
    }

    fn add(self, rhs: Self) -> (r: Self)
        ensures
            r.coords() == add_coords(self.coords(), rhs.coords()),
    {
        proof {
            Self::lemma_dim_xy();
            Self::lemma_coords_len(self);
            Self::lemma_coords_len(rhs);
        }
        let r = Self::new_2d(self.x().add(rhs.x()), self.y().add(rhs.y()));
        assert(r.coords() =~= add_coords(self.coords(), rhs.coords()));
        r
    }

    fn sub(self, rhs: Self) -> (r: Self)
        ensures
            r.coords() == sub_coords(self.coords(), rhs.coords()),
    {
        proof {
            Self::lemma_dim_xy();
            Self::lemma_coords_len(self);
            Self::lemma_coords_len(rhs);
        }
        let r = Self::new_2d(self.x().sub(rhs.x()), self.y().sub(rhs.y()));
        assert(r.coords() =~= sub_coords(self.coords(), rhs.coords()));
        r
    }

    fn neg(self) -> (r: Self)
        ensures
            r.coords() == neg_coords(self.coords()),
    {
        proof {
            Self::lemma_dim_xy();
            Self::lemma_coords_len(self);
        }
        let r = Self::new_2d(self.x().neg(), self.y().neg());
        assert(r.coords() =~= neg_coords(self.coords()));
        r
    }

    /// Every axis multiplied by `k`.
    fn mul(self, k: Self::Scalar) -> (r: Self)
        ensures
            r.coords() == scale_coords(self.coords(), k),
    {
        proof {
            Self::lemma_dim_xy();
            Self::lemma_coords_len(self);
        }
        let r = Self::new_2d(self.x().mul(k), self.y().mul(k));
        assert(r.coords() =~= scale_coords(self.coords(), k));
        r
    }

    /// Every axis divided by `k`.
    fn div(self, k: Self::Scalar) -> (r: Self)
        ensures
            r.coords() == div_coords(self.coords(), k),
    {
        proof {
            Self::lemma_dim_xy();
            Self::lemma_coords_len(self);
        }
        let r = Self::new_2d(self.x().div(k), self.y().div(k));
        assert(r.coords() =~= div_coords(self.coords(), k));
        r
    }

    /// `self = self + rhs`.
    fn add_assign(&mut self, rhs: Self)
        ensures
            final(self).coords() == add_coords(old(self).coords(), rhs.coords()),
    {
        let v = *self;
        *self = v.add(rhs);
    }

    /// The coordinate on axis `i`: 0 is x, 1 is y.
    fn index(self, i: usize) -> (r: Self::Scalar)
        requires
            i < 2,
        ensures
            r == self.coords()[i as int],
    {
        if i == 0 {
            self.x()
        } else {
            self.y()
        }
    }
}

/// A three-dimensional vector over a floating-point scalar.
pub trait GenericVector3: HasXYZ + Approx + PartialEq {
    /// The two-dimensional vector type of the same scalar, whose `to_3d` lifts back
    /// into this type.
    type Vector2: GenericVector2<Scalar = Self::Scalar, Vector3 = Self>;

    /// The 2D vector with the x and y of `self`; z is dropped.
    fn to_2d(&self) -> (r: Self::Vector2)
        ensures
            r.coords() == self.coords().take(2),
    {
        proof {
            Self::lemma_dim_xyz();
            Self::lemma_coords_len(*self);
            <Self::Vector2 as GenericVector2>::lemma_dim_xy();
        }
        let r = <Self::Vector2 as HasXY>::new_2d(self.x(), self.y());
        proof {
            <Self::Vector2 as HasXY>::lemma_coords_len(r);
        }
        assert(r.coords() =~= self.coords().take(2));
        r
    }

    /// The Euclidean length.
    fn magnitude(self) -> (r: Self::Scalar)
        ensures
            r == dot3(self.coords(), self.coords()).sqrt_spec(),
    {
        self.magnitude_sq().sqrt()
    }

    /// The squared Euclidean length.
    fn magnitude_sq(self) -> (r: Self::Scalar)
        ensures
            r == dot3(self.coords(), self.coords()),
    {
        self.dot(self)
    }

    fn dot(self, other: Self) -> (r: Self::Scalar)
        ensures
            r == dot3(self.coords(), other.coords()),
    {
        self.x().mul(other.x()).add(self.y().mul(other.y())).add(self.z().mul(other.z()))
    }

    /// The cross product `self × rhs`.
    fn cross(self, rhs: Self) -> (r: Self)
        ensures
            r.coords() == cross3(self.coords(), rhs.coords()),
    {
        let x = self.y().mul(rhs.z()).sub(rhs.y().mul(self.z()));
        let y = self.z().mul(rhs.x()).sub(rhs.z().mul(self.x()));
        let z = self.x().mul(rhs.y()).sub(rhs.x().mul(self.y()));
        let r = Self::new_3d(x, y, z);
        assert(r.coords() =~= cross3(self.coords(), rhs.coords()));
        r
    }

    /// `self / magnitude()`; a zero vector gives whatever the scalar's division by
    /// zero gives.
    fn normalize(self) -> (r: Self)
        ensures
            r.coords() == div_coords(self.coords(), dot3(self.coords(), self.coords()).sqrt_spec()),
    {
        self.div(self.magnitude())
    }

    /// `None` exactly when the magnitude is zero, else `Some(self / magnitude())`.
    fn safe_normalize(self) -> (r: Option<Self>)
        ensures
            r is None <==> dot3(self.coords(), self.coords()).sqrt_spec().is_zero_spec(),
            r matches Some(n) ==> n.coords() == div_coords(self.coords(), dot3(self.coords(), self.coords()).sqrt_spec()),
    {
        let l = self.magnitude();
        if l.is_zero() {
            None
        } else {
            Some(self.div(l))
        }
    }

    /// The length of `self - rhs`.
    fn distance(self, rhs: Self) -> (r: Self::Scalar)
        ensures
            r == dot3(sub_coords(self.coords(), rhs.coords()), sub_coords(self.coords(), rhs.coords())).sqrt_spec(),
    {
        self.sub(rhs).magnitude()
    }

    /// The squared length of `self - rhs`.
    fn distance_sq(self, rhs: Self) -> (r: Self::Scalar)
        ensures
            r == dot3(sub_coords(self.coords(), rhs.coords()), sub_coords(self.coords(), rhs.coords())),
    {
        self.sub(rhs).magnitude_sq()
    }

    fn add(self, rhs: Self) -> (r: Self)
        ensures
            r.coords() == add_coords(self.coords(), rhs.coords()),
    {
        proof {
            Self::lemma_dim_xyz();
            Self::lemma_coords_len(self);
            Self::lemma_coords_len(rhs);
        }
        let r = Self::new_3d(self.x().add(rhs.x()), self.y().add(rhs.y()), self.z().add(rhs.z()));
        assert(r.coords() =~= add_coords(self.coords(), rhs.coords()));
        r
    }

    fn sub(self, rhs: Self) -> (r: Self)
        ensures
            r.coords() == sub_coords(self.coords(), rhs.coords()),
    {
        proof {
            Self::lemma_dim_xyz();
            Self::lemma_coords_len(self);
            Self::lemma_coords_len(rhs);
        }
        let r = Self::new_3d(self.x().sub(rhs.x()), self.y().sub(rhs.y()), self.z().sub(rhs.z()));
        assert(r.coords() =~= sub_coords(self.coords(), rhs.coords()));
        r
    }

    fn neg(self) -> (r: Self)
        ensures
            r.coords() == neg_coords(self.coords()),
    {
        proof {
            Self::lemma_dim_xyz();
            Self::lemma_coords_len(self);
        }
        let r = Self::new_3d(self.x().neg(), self.y().neg(), self.z().neg());
        assert(r.coords() =~= neg_coords(self.coords()));
        r
    }

    /// Every axis multiplied by `k`.
    fn mul(self, k: Self::Scalar) -> (r: Self)
        ensures
            r.coords() == scale_coords(self.coords(), k),
    {
        proof {
            Self::lemma_dim_xyz();
            Self::lemma_coords_len(self);
        }
        let r = Self::new_3d(self.x().mul(k), self.y().mul(k), self.z().mul(k));
        assert(r.coords() =~= scale_coords(self.coords(), k));
        r
    }

    /// Every axis divided by `k`.
    fn div(self, k: Self::Scalar) -> (r: Self)
        ensures
            r.coords() == div_coords(self.coords(), k),
    {
        proof {
            Self::lemma_dim_xyz();
            Self::lemma_coords_len(self);
        }
        let r = Self::new_3d(self.x().div(k), self.y().div(k), self.z().div(k));
        assert(r.coords() =~= div_coords(self.coords(), k));
        r
    }

    /// `self = self + rhs`.
    fn add_assign(&mut self, rhs: Self)
        ensures
            final(self).coords() == add_coords(old(self).coords(), rhs.coords()),
    {
        let v = *self;
        *self = v.add(rhs);
    }

    /// The coordinate on axis `i`: 0 is x, 1 is y, 2 is z.
    fn index(self, i: usize) -> (r: Self::Scalar)
        requires
            i < 3,
        ensures
            r == self.coords()[i as int],
    {
        if i == 0 {
            self.x()
        } else if i == 1 {
            self.y()
        } else {
            self.z()
        }
    }
}

} // verus!
