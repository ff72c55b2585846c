//! The two descriptions that a draw request carries: what to paint with,
//! and where painting is clipped.
//!
//! Both are resolved: where a uniform takes arithmetic to derive from the
//! description (a colour times its alpha, the inverse of a transform), the
//! description holds the derived value.

use vstd::prelude::*;
use crate::geometry::{Color, Transform2D};
use crate::scalar::Scalar;
use crate::texture::ImageId;

verus! {

/// What to paint with: a gradient between two colours, or an image.
#[derive(Clone, Copy, Debug, PartialEq, Eq)]
pub struct Paint {
    /// The gradient's inner colour, premultiplied by its alpha.
    pub inner_color: Color,
    /// The gradient's outer colour, premultiplied by its alpha.
    pub outer_color: Color,
    /// The size of the image, or the lengths that shape the gradient.
    pub extent: [Scalar; 2],
    /// The corner radius of the gradient's box.
    pub radius: Scalar,
    /// The width over which the gradient blends.
    pub feather: Scalar,
    /// The inverse of the paint's transform.
    pub inverse: Transform2D,
    /// The inverse of the paint's transform flipped about the horizontal
    /// line at half the height of `extent`. It is read only for an image
    /// that the backend stores bottom-up.
    pub flipped_inverse: Transform2D,
    /// The image to sample, if the paint has one.
    pub image: Option<ImageId>,
    /// The stroke multiplier of the paint's own stroke width: half the
    /// width plus half the fringe, in units of the fringe.
    pub stroke_mult: Scalar,
}

/// Where painting is clipped: a box of half-size `extent` about the origin
/// of the scissor's own frame.
#[derive(Clone, Copy, Debug, PartialEq, Eq)]
pub struct Scissor {
    /// Half the size of the box. A component below `-0.5` means that
    /// nothing is clipped.
    pub extent: [Scalar; 2],
    /// The inverse of the scissor's transform.
    pub inverse: Transform2D,
    /// How long a step of one fringe is in the scissor's frame, along each
    /// axis: with `m` the scissor's transform, the Euclidean lengths of
    /// `(m[0], m[2])` and of `(m[1], m[3])`, each divided by the fringe
    /// width.
    pub scale: [Scalar; 2],
}

} // verus!
