//! The world transform of an entity.

use crate::binary32::{ONE, ZERO};
use crate::vector::{Matrix4, Point};
use vstd::prelude::*;

verus! {

/// An affine transform from the space of a model to the world: the three
/// columns of its linear part and its translation.
#[derive(Clone, Copy, Debug, PartialEq, Eq, Structural)]
pub struct GlobalTransform {
    pub x_axis: Point,
    pub y_axis: Point,
    pub z_axis: Point,
    pub translation: Point,
}

impl GlobalTransform {
    /// The columns of the 4x4 matrix of the transform: each column of the
    /// linear part with a fourth entry of zero, then the translation with a
    /// fourth entry of one.
    pub open spec fn matrix_cols(&self) -> Seq<u32> {
        seq![
            self.x_axis.x,
            self.x_axis.y,
            self.x_axis.z,
            ZERO,
            self.y_axis.x,
            self.y_axis.y,
            self.y_axis.z,
            ZERO,
            self.z_axis.x,
            self.z_axis.y,
            self.z_axis.z,
            ZERO,
            self.translation.x,
            self.translation.y,
            self.translation.z,
            ONE,
        ]
    }

    /// The transform that leaves every point where it is.
    pub fn identity() -> (r: Self)
        ensures
            r.x_axis == (Point { x: ONE, y: ZERO, z: ZERO }),
            r.y_axis == (Point { x: ZERO, y: ONE, z: ZERO }),
            r.z_axis == (Point { x: ZERO, y: ZERO, z: ONE }),
            r.translation == (Point { x: ZERO, y: ZERO, z: ZERO }),
    {
        GlobalTransform {
            x_axis: Point { x: ONE, y: ZERO, z: ZERO },
            y_axis: Point { x: ZERO, y: ONE, z: ZERO },
            z_axis: Point { x: ZERO, y: ZERO, z: ONE },
            translation: Point { x: ZERO, y: ZERO, z: ZERO },
        }
    }

    /// The 4x4 matrix of the transform.
    #[inline]
    pub fn to_matrix(&self) -> (r: Matrix4)
        ensures
            r@ == self.matrix_cols(),
    {
        let cols: [u32; 16] = [
            self.x_axis.x,
            self.x_axis.y,
            self.x_axis.z,
            ZERO,
            self.y_axis.x,
            self.y_axis.y,
            self.y_axis.z,
            ZERO,
            self.z_axis.x,
            self.z_axis.y,
            self.z_axis.z,
            ZERO,
            self.translation.x,
            self.translation.y,
            self.translation.z,
            ONE,
        ];
        assert(cols@ =~= self.matrix_cols());
        Matrix4::from_cols_array(cols)
    }

    /// Where the transform takes the origin.
    #[inline]
    pub fn translation(&self) -> (r: Point)
        ensures
            r == self.translation,
    {
        self.translation
    }
}

} // verus!
