//! Vertices, colours and transforms.

use vstd::prelude::*;
use crate::scalar::{Scalar, ZERO, ONE};

verus! {

/// A vertex of the frame's vertex buffer: a position, and two coordinates
/// from which the fragment stage interpolates coverage across a fringe.
#[derive(Clone, Copy, Debug, PartialEq, Eq, Structural)]
pub struct Vertex {
    pub x: Scalar,
    pub y: Scalar,
    pub u: Scalar,
    pub v: Scalar,
}

impl Vertex {
    pub fn new(x: Scalar, y: Scalar, u: Scalar, v: Scalar) -> (r: Self)
        ensures
            r == (Vertex { x, y, u, v }),
    {
        Vertex { x, y, u, v }
    }
}

/// A colour with alpha.
#[derive(Clone, Copy, Debug, PartialEq, Eq, Structural)]
pub struct Color {
    pub r: Scalar,
    pub g: Scalar,
    pub b: Scalar,
    pub a: Scalar,
}

impl Color {
    /// The four channels in the order red, green, blue, alpha.
    pub open spec fn channels(self) -> [Scalar; 4] {
        [self.r, self.g, self.b, self.a]
    }

    pub fn to_array(self) -> (r: [Scalar; 4])
        ensures
            r == self.channels(),
    {
        [self.r, self.g, self.b, self.a]
    }
}

/// An affine transform of the plane: the matrix
///
/// ```text
/// | m[0] m[2] m[4] |
/// | m[1] m[3] m[5] |
/// |  0    0    1   |
/// ```
#[derive(Clone, Copy, Debug, PartialEq, Eq)]
pub struct Transform2D(pub [Scalar; 6]);

impl Transform2D {
    /// The transform as the three columns of a 3×3 matrix, each padded to
    /// four numbers, which is how a uniform buffer lays a matrix out.
    pub open spec fn mat3x4(self) -> [Scalar; 12] {
        [
            self.0[0],
            self.0[1],
            ZERO,
            ZERO,
            self.0[2],
            self.0[3],
            ZERO,
            ZERO,
            self.0[4],
            self.0[5],
            ONE,
            ZERO,
        ]
    }

    /// The transform that maps every point to itself.
    pub fn identity() -> (r: Self)
        ensures
            r.0 == [ONE, ZERO, ZERO, ONE, ZERO, ZERO],
    {
        Transform2D([ONE, ZERO, ZERO, ONE, ZERO, ZERO])
    }

    pub fn to_mat3x4(self) -> (r: [Scalar; 12])
        ensures
            r == self.mat3x4(),
    {
        [
            self.0[0],
            self.0[1],
            ZERO,
            ZERO,
            self.0[2],
            self.0[3],
            ZERO,
            ZERO,
            self.0[4],
            self.0[5],
            ONE,
            ZERO,
        ]
    }
}

} // verus!
