//! Points, homogeneous vectors and 4x4 matrices over binary32 bit patterns,
//! and the arithmetic that `glam` does on them.
//!
//! A bit pattern becomes a `glam` value, and a result a bit pattern again,
//! through `bytemuck::cast`, which keeps every bit. What `glam` computes is
//! stored with every NaN replaced by `QUIET_NAN`, so that a stored result
//! does not depend on the NaN that a machine happens to produce.

use crate::binary32::{canonical, canonicalize, negate, negated, ONE, ZERO};
use vstd::prelude::*;

verus! {

/// A point or a direction in space. Each coordinate is the bit pattern of a
/// binary32 number, and two points are equal when their bit patterns are.
#[derive(Clone, Copy, Debug, PartialEq, Eq, Hash, Structural)]
pub struct Point {
    pub x: u32,
    pub y: u32,
    pub z: u32,
}

/// A homogeneous vector of four binary32 bit patterns.
#[derive(Clone, Copy, Debug, PartialEq, Eq, Hash, Structural)]
pub struct Vector4 {
    pub x: u32,
    pub y: u32,
    pub z: u32,
    pub w: u32,
}

/// A 4x4 matrix of binary32 bit patterns, column after column.
#[derive(Clone, Copy, Debug)]
pub struct Matrix4 {
    pub cols: [u32; 16],
}

/// The point with every NaN among its coordinates replaced by `QUIET_NAN`.
pub open spec fn canonical_point(p: Point) -> Point {
    Point { x: canonical(p.x), y: canonical(p.y), z: canonical(p.z) }
}

/// The vector with every NaN among its coordinates replaced by `QUIET_NAN`.
pub open spec fn canonical_vector4(v: Vector4) -> Vector4 {
    Vector4 { x: canonical(v.x), y: canonical(v.y), z: canonical(v.z), w: canonical(v.w) }
}

/// The point with the sign of each coordinate flipped.
pub open spec fn opposite(p: Point) -> Point {
    Point { x: negated(p.x), y: negated(p.y), z: negated(p.z) }
}

/// The dot product of `a` and `b` in binary32 arithmetic, in canonical form.
pub uninterp spec fn dot_product(a: Point, b: Point) -> u32;

/// The cross product `a x b` in binary32 arithmetic, in canonical form.
pub uninterp spec fn cross_product(a: Point, b: Point) -> Point;

/// The difference `a - b` in binary32 arithmetic, in canonical form.
pub uninterp spec fn difference(a: Point, b: Point) -> Point;

/// `a` scaled to length one in binary32 arithmetic, in canonical form.
pub uninterp spec fn unit_vector(a: Point) -> Point;

/// The product of the matrix with the columns `cols` and the column vector `v`
/// in binary32 arithmetic, in canonical form.
pub uninterp spec fn matrix_times_vector(cols: Seq<u32>, v: Vector4) -> Vector4;

/// `p` as a homogeneous vector with `w` equal to one.
pub open spec fn homogeneous(p: Point) -> Vector4 {
    Vector4 { x: p.x, y: p.y, z: p.z, w: ONE }
}

/// The first three coordinates of `v`.
pub open spec fn truncated(v: Vector4) -> Point {
    Point { x: v.x, y: v.y, z: v.z }
}

/// The image of the point `p` under the matrix with the columns `cols`: the
/// matrix times `p` with a fourth coordinate of one, and the fourth coordinate
/// of the product dropped.
pub open spec fn transformed(cols: Seq<u32>, p: Point) -> Point {
    truncated(matrix_times_vector(cols, homogeneous(p)))
}

/// The columns of the identity matrix.
pub open spec fn identity_cols() -> Seq<u32> {
    seq![ONE, ZERO, ZERO, ZERO, ZERO, ONE, ZERO, ZERO, ZERO, ZERO, ONE, ZERO, ZERO, ZERO, ZERO, ONE]
}

/// `glam::Vec3::dot`: the three products of matching coordinates, summed from
/// left to right. Apart from the payload of a NaN the result is fixed by the
/// arguments.
#[verifier::external_body]
fn glam_dot(a: Point, b: Point) -> (r: u32)
    ensures
        canonical(r) == dot_product(a, b),
{
    let va: glam::Vec3 = bytemuck::cast([a.x, a.y, a.z]);
    let vb: glam::Vec3 = bytemuck::cast([b.x, b.y, b.z]);
    bytemuck::cast(va.dot(vb))
}

/// `glam::Vec3::cross`. Apart from the payload of a NaN the result is fixed by
/// the arguments.
#[verifier::external_body]
fn glam_cross(a: Point, b: Point) -> (r: Point)
    ensures
        canonical_point(r) == cross_product(a, b),
{
    let va: glam::Vec3 = bytemuck::cast([a.x, a.y, a.z]);
    let vb: glam::Vec3 = bytemuck::cast([b.x, b.y, b.z]);
    let [x, y, z]: [u32; 3] = bytemuck::cast(va.cross(vb));
    Point { x, y, z }
}

/// The `-` of two `glam::Vec3`: the differences of matching coordinates.
/// Apart from the payload of a NaN the result is fixed by the arguments.
#[verifier::external_body]
fn glam_sub(a: Point, b: Point) -> (r: Point)
    ensures
        canonical_point(r) == difference(a, b),
{
    let va: glam::Vec3 = bytemuck::cast([a.x, a.y, a.z]);
    let vb: glam::Vec3 = bytemuck::cast([b.x, b.y, b.z]);
    let [x, y, z]: [u32; 3] = bytemuck::cast(va - vb);
    Point { x, y, z }
}

/// `glam::Vec3::normalize`: the vector times the reciprocal of its length. It
/// does not panic as `glam` is built here; a vector without a finite non-zero
/// length gives coordinates that are NaN or infinite. Apart from the payload
/// of a NaN the result is fixed by the argument.
#[verifier::external_body]
fn glam_normalize(a: Point) -> (r: Point)
    ensures
        canonical_point(r) == unit_vector(a),
{
    let va: glam::Vec3 = bytemuck::cast([a.x, a.y, a.z]);
    let [x, y, z]: [u32; 3] = bytemuck::cast(va.normalize());
    Point { x, y, z }
}

/// The `*` of a `glam::Mat4` and a `glam::Vec4`: the columns of the matrix
/// scaled by the coordinates of the vector and summed from the first to the
/// last. Apart from the payload of a NaN the result is fixed by the
/// arguments.
#[verifier::external_body]
fn glam_mul_vec4(m: &Matrix4, v: Vector4) -> (r: Vector4)
    ensures
        canonical_vector4(r) == matrix_times_vector(m.cols@, v),
{
    let gm: glam::Mat4 = bytemuck::cast(m.cols);
    let gv: glam::Vec4 = bytemuck::cast([v.x, v.y, v.z, v.w]);
    let [x, y, z, w]: [u32; 4] = bytemuck::cast(gm * gv);
    Vector4 { x, y, z, w }
}

/// Stores every NaN among the coordinates of `p` as `QUIET_NAN`.
fn canonicalize_point(p: Point) -> (r: Point)
    ensures
        r == canonical_point(p),
{
    Point { x: canonicalize(p.x), y: canonicalize(p.y), z: canonicalize(p.z) }
}

impl Point {
    /// The point with the given coordinates.
    pub fn new(x: u32, y: u32, z: u32) -> (r: Point)
        ensures
            r == (Point { x, y, z }),
    {
        Point { x, y, z }
    }

    /// The origin.
    pub fn zero() -> (r: Point)
        ensures
            r == (Point { x: ZERO, y: ZERO, z: ZERO }),
    {
        Point { x: ZERO, y: ZERO, z: ZERO }
    }

    /// The dot product of `self` and `rhs`.
    pub fn dot(self, rhs: Point) -> (r: u32)
        ensures
            r == dot_product(self, rhs),
    {
        canonicalize(glam_dot(self, rhs))
    }

    /// The cross product of `self` and `rhs`.
    pub fn cross(self, rhs: Point) -> (r: Point)
        ensures
            r == cross_product(self, rhs),
    {
        canonicalize_point(glam_cross(self, rhs))
    }

    /// The difference `self - rhs`.
    pub fn sub(self, rhs: Point) -> (r: Point)
        ensures
            r == difference(self, rhs),
    {
        canonicalize_point(glam_sub(self, rhs))
    }

    /// `self` with the sign of each coordinate flipped.
    pub fn neg(self) -> (r: Point)
        ensures
            r == opposite(self),
    {
        Point { x: negate(self.x), y: negate(self.y), z: negate(self.z) }
    }

    /// `self` scaled to length one.
    pub fn normalize(self) -> (r: Point)
        ensures
            r == unit_vector(self),
    {
        canonicalize_point(glam_normalize(self))
    }
}

impl Matrix4 {
    /// The sixteen entries of the matrix, column after column.
    pub open spec fn view(&self) -> Seq<u32> {
        self.cols@
    }

    /// The matrix with the given columns.
    pub fn from_cols_array(cols: [u32; 16]) -> (r: Matrix4)
        ensures
            r@ == cols@,
    {
        Matrix4 { cols }
    }

    /// The identity matrix.
    pub fn identity() -> (r: Matrix4)
        ensures
            r@ == identity_cols(),
    {
        let cols: [u32; 16] = [
            ONE, ZERO, ZERO, ZERO,
            ZERO, ONE, ZERO, ZERO,
            ZERO, ZERO, ONE, ZERO,
            ZERO, ZERO, ZERO, ONE,
        ];
        assert(cols@ =~= identity_cols());
        Matrix4 { cols }
    }

    /// The image of the point `p` under the matrix.
    pub fn transform_point(&self, p: Point) -> (r: Point)
        ensures
            r == transformed(self@, p),
    {
        let v = Vector4 { x: p.x, y: p.y, z: p.z, w: ONE };
        let raw = glam_mul_vec4(self, v);
        Point { x: canonicalize(raw.x), y: canonicalize(raw.y), z: canonicalize(raw.z) }
    }
}

} // verus!
