//! The coordinate capability: named-axis access without vector arithmetic.
//!
//! A holder is modelled by the sequence of its coordinates, `coords()`: two of them
//! for a 2D type, three for a 3D type. Index 0 is x, 1 is y and 2 is z.
use vstd::prelude::*;
use crate::scalar::GenericScalar;

verus! {

/// A value with an x and a y coordinate of one scalar type.
pub trait HasXY: Copy + core::fmt::Debug + Send + Sync + Sized {
    type Scalar: GenericScalar;

    /// The number of axes of the type: 2 or 3.
    spec fn dim() -> nat;

    /// The coordinates of the value, x first.
    spec fn coords(self) -> Seq<Self::Scalar>;

    /// Every value of the type has `dim()` coordinates.
    proof fn lemma_coords_len(v: Self)
        ensures
            v.coords().len() == Self::dim(),
            2 <= Self::dim() <= 3,
    ;

    /// A value with the given x and y; on a 3D type the remaining axis is zero.
    fn new_2d(x: Self::Scalar, y: Self::Scalar) -> (r: Self)
        ensures
            r.coords().len() == Self::dim(),
            r.coords()[0] == x,
            r.coords()[1] == y,
            forall|i: int| 2 <= i < Self::dim() ==> r.coords()[i] == Self::Scalar::zero_spec(),
    ;

    fn x(self) -> (r: Self::Scalar)
        ensures
            r == self.coords()[0],
    ;

    /// A mutable reference to the x coordinate; what is written through it becomes x.
    fn x_mut(&mut self) -> (r: &mut Self::Scalar)
        ensures
            *r == old(self).coords()[0],
            final(self).coords() == old(self).coords().update(0, *final(r)),
    ;

    fn set_x(&mut self, val: Self::Scalar)
        ensures
            final(self).coords() == old(self).coords().update(0, val),
    ;

    fn y(self) -> (r: Self::Scalar)
        ensures
            r == self.coords()[1],
    ;

    /// A mutable reference to the y coordinate; what is written through it becomes y.
    fn y_mut(&mut self) -> (r: &mut Self::Scalar)
        ensures
            *r == old(self).coords()[1],
            final(self).coords() == old(self).coords().update(1, *final(r)),
    ;

    fn set_y(&mut self, val: Self::Scalar)
        ensures
            final(self).coords() == old(self).coords().update(1, val),
    ;
}

/// A value with x, y and z coordinates of one scalar type.
pub trait HasXYZ: HasXY {
    /// A 3D holder has three axes.
    proof fn lemma_dim_xyz()
        ensures
            Self::dim() == 3,
    ;

    fn new_3d(x: Self::Scalar, y: Self::Scalar, z: Self::Scalar) -> (r: Self)
        ensures
            r.coords() == seq![x, y, z],
    ;

    fn z(self) -> (r: Self::Scalar)
        ensures
            r == self.coords()[2],
    ;

    /// A mutable reference to the z coordinate; what is written through it becomes z.
    fn z_mut(&mut self) -> (r: &mut Self::Scalar)
        ensures
            *r == old(self).coords()[2],
            final(self).coords() == old(self).coords().update(2, *final(r)),
    ;

    fn set_z(&mut self, val: Self::Scalar)
        ensures
            final(self).coords() == old(self).coords().update(2, val),
    ;
}

} // verus!
