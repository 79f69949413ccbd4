//! Points and 4x4 matrices.

use vstd::prelude::*;
use crate::scalar::Scalar;

verus! {

/// A point of three coordinates.
#[derive(Clone, Copy, Debug, PartialEq, Eq, Structural)]
pub struct Point3 {
    pub x: Scalar,
    pub y: Scalar,
    pub z: Scalar,
}

impl Point3 {
    /// The point with the given coordinates.
    pub fn new(x: Scalar, y: Scalar, z: Scalar) -> (p: Point3)
        ensures
            p == (Point3 { x, y, z }),
    {
        Point3 { x, y, z }
    }

    /// The point whose coordinates have the given bit patterns.
    pub fn from_bits(x: u32, y: u32, z: u32) -> (p: Point3)
        ensures
            p == (Point3 { x: Scalar { bits: x }, y: Scalar { bits: y }, z: Scalar { bits: z } }),
    {
        Point3 { x: Scalar { bits: x }, y: Scalar { bits: y }, z: Scalar { bits: z } }
    }
}

/// A 4x4 matrix, its sixteen entries in column-major order.
#[derive(Clone, Copy, Debug, PartialEq, Eq)]
pub struct Matrix4 {
    pub cols: [Scalar; 16],
}

impl Matrix4 {
    /// The identity matrix: ones on the diagonal, zeros elsewhere.
    pub open spec fn identity_spec() -> Matrix4 {
        let o = Scalar::zero_spec();
        let l = Scalar::one_spec();
        Matrix4 { cols: [l, o, o, o, o, l, o, o, o, o, l, o, o, o, o, l] }
    }

    /// The identity matrix.
    pub fn identity() -> (m: Matrix4)
        ensures
            m == Matrix4::identity_spec(),
    {
        let o = Scalar::zero();
        let l = Scalar::one();
        let m = Matrix4 { cols: [l, o, o, o, o, l, o, o, o, o, l, o, o, o, o, l] };
        assert(m.cols =~= Matrix4::identity_spec().cols);
        m
    }

    /// The matrix with the given entries, in column-major order.
    pub fn from_cols_array(cols: [Scalar; 16]) -> (m: Matrix4)
        ensures
            m.cols == cols,
    {
        Matrix4 { cols }
    }

    /// The entries, in column-major order.
    pub fn to_cols_array(&self) -> (cols: [Scalar; 16])
        ensures
            cols == self.cols,
    {
        self.cols
    }
}

} // verus!
