//! What a path cache hands over: the contours of a path, expanded into
//! rings of vertices.

use vstd::prelude::*;
use crate::geometry::Vertex;
use crate::scalar::Scalar;

verus! {

/// Whether a contour is known to be convex.
#[derive(Clone, Copy, Debug, PartialEq, Eq, Structural)]
pub enum Convexity {
    Concave,
    Convex,
    Unknown,
}

/// How two segments of a stroke are joined.
#[derive(Clone, Copy, Debug, PartialEq, Eq, Structural)]
pub enum LineJoin {
    Miter,
    Round,
    Bevel,
}

/// One contour of an expanded path. Either ring may be empty.
#[derive(Clone, Debug, PartialEq, Eq)]
pub struct Contour {
    /// The ring that covers the contour's interior.
    pub fill: Vec<Vertex>,
    /// The ring that covers the contour's outline or fringe.
    pub stroke: Vec<Vertex>,
    pub convexity: Convexity,
}

/// A contour as a mathematical value.
pub struct ContourView {
    pub fill: Seq<Vertex>,
    pub stroke: Seq<Vertex>,
    pub convexity: Convexity,
}

impl View for Contour {
    type V = ContourView;

    open spec fn view(&self) -> ContourView {
        ContourView { fill: self.fill@, stroke: self.stroke@, convexity: self.convexity }
    }
}

/// The contours of a path and the box that bounds them, as
/// `[min x, min y, max x, max y]`.
#[derive(Clone, Debug, PartialEq, Eq)]
pub struct ExpandedPath {
    pub contours: Vec<Contour>,
    pub bounds: [Scalar; 4],
}

/// The contours of `contours` as mathematical values, in order.
pub open spec fn contour_views(contours: Seq<Contour>) -> Seq<ContourView> {
    Seq::new(contours.len(), |i: int| contours[i]@)
}

impl View for ExpandedPath {
    type V = ExpandedPathView;

    open spec fn view(&self) -> ExpandedPathView {
        ExpandedPathView { contours: contour_views(self.contours@), bounds: self.bounds }
    }
}

/// An expanded path as a mathematical value.
pub struct ExpandedPathView {
    pub contours: Seq<ContourView>,
    pub bounds: [Scalar; 4],
}

} // verus!
