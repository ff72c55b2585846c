//! Draw commands: what a backend replays, in order, to draw a frame.
//!
//! A command holds no vertices. It names them by spans of the frame's vertex
//! buffer, each an offset and a length.

use vstd::prelude::*;
use crate::params::Params;
use crate::texture::ImageId;

verus! {

/// An offset into the frame's vertex buffer, and a number of vertices.
pub type Span = (usize, usize);

/// The vertices that one contour contributed to a command. A ring without
/// vertices has no span.
#[derive(Clone, Copy, Debug, PartialEq, Eq)]
pub struct Drawable {
    pub fill_verts: Option<Span>,
    pub stroke_verts: Option<Span>,
}

impl Default for Drawable {
    fn default() -> (r: Self)
        ensures
            r == (Drawable { fill_verts: None, stroke_verts: None }),
    {
        Drawable { fill_verts: None, stroke_verts: None }
    }
}

/// How a command is drawn, with the uniforms of each of its passes.
///
/// The flavor is chosen when the command is made and stays as it is. It
/// holds numbers alone, so that a backend can match on it and knows all
/// that there is to a draw.
#[derive(Clone, Copy, Debug, PartialEq, Eq)]
pub enum Flavor {
    /// One convex contour, drawn directly: its fill ring as a fan, its
    /// stroke ring, the fringe, as a strip.
    ConvexFill { params: Params },
    /// Contours that may be concave or overlap. First the fill rings are
    /// marked in the stencil buffer, as fans, with `fill_params`. Then the
    /// stroke rings, the fringes, and the command's quad are drawn with
    /// `stroke_params` where the stencil buffer is marked.
    ConcaveFill { fill_params: Params, stroke_params: Params },
    /// A stroke drawn in one pass: the stroke rings as strips.
    Stroke { params: Params },
    /// A stroke marked in the stencil buffer with `pass1`, then covered with
    /// `pass2`, so that where it overlaps itself it is blended once.
    StencilStroke { pass1: Params, pass2: Params },
    /// The command's triangles, textured.
    Triangles { params: Params },
}

/// One draw command.
#[derive(Clone, Debug, PartialEq, Eq)]
pub struct Command {
    pub flavor: Flavor,
    /// One entry for each contour, in the contours' order.
    pub drawables: Vec<Drawable>,
    /// Triangles beside the contours: the quad that covers a concave fill,
    /// or the triangles of a triangle command.
    pub triangles_verts: Option<Span>,
    /// The texture to bind.
    pub image: Option<ImageId>,
}

/// A command as a mathematical value.
pub struct CommandView {
    pub flavor: Flavor,
    pub drawables: Seq<Drawable>,
    pub triangles_verts: Option<Span>,
    pub image: Option<ImageId>,
}

impl View for Command {
    type V = CommandView;

    open spec fn view(&self) -> CommandView {
        CommandView {
            flavor: self.flavor,
            drawables: self.drawables@,
            triangles_verts: self.triangles_verts,
            image: self.image,
        }
    }
}

/// The commands of `commands` as mathematical values, in order.
pub open spec fn command_views(commands: Seq<Command>) -> Seq<CommandView> {
    Seq::new(commands.len(), |i: int| commands[i]@)
}

impl Command {
    /// A command of the given flavor that draws nothing yet.
    pub fn new(flavor: Flavor) -> (r: Self)
        ensures
            r@ == (CommandView {
                flavor,
                drawables: Seq::<Drawable>::empty(),
                triangles_verts: None,
                image: None,
            }),
    {
        Command { flavor, drawables: Vec::new(), triangles_verts: None, image: None }
    }
}

/// Whether `span`, if there is one, lies in the vertices from `low` up to
/// `high`.
pub open spec fn span_within(span: Option<Span>, low: int, high: int) -> bool {
    match span {
        Some((offset, len)) => low <= offset && offset + len <= high,
        None => true,
    }
}

/// Whether two spans share no vertex. A missing span shares none.
pub open spec fn spans_disjoint(a: Option<Span>, b: Option<Span>) -> bool {
    match (a, b) {
        (Some((a_offset, a_len)), Some((b_offset, b_len))) => a_offset + a_len <= b_offset
            || b_offset + b_len <= a_offset,
        _ => true,
    }
}

impl CommandView {
    /// Whether no two spans of the command share a vertex: not the rings of
    /// two contours, nor the two rings of one, nor a ring and the command's
    /// triangles.
    pub open spec fn spans_apart(self) -> bool {
        &&& forall|i: int, j: int|
            #![trigger self.drawables[i], self.drawables[j]]
            0 <= i < self.drawables.len() && 0 <= j < self.drawables.len() ==> {
                let a = self.drawables[i];
                let b = self.drawables[j];
                &&& spans_disjoint(a.fill_verts, a.stroke_verts)
                &&& i != j ==> {
                    &&& spans_disjoint(a.fill_verts, b.fill_verts)
                    &&& spans_disjoint(a.fill_verts, b.stroke_verts)
                    &&& spans_disjoint(a.stroke_verts, b.fill_verts)
                    &&& spans_disjoint(a.stroke_verts, b.stroke_verts)
                }
            }
        &&& forall|i: int|
            0 <= i < self.drawables.len() ==> {
                &&& spans_disjoint(
                    (#[trigger] self.drawables[i]).fill_verts,
                    self.triangles_verts,
                )
                &&& spans_disjoint(self.drawables[i].stroke_verts, self.triangles_verts)
            }
    }

    /// Whether every span of the command lies in the vertices from `low` up
    /// to `high`.
    pub open spec fn within(self, low: int, high: int) -> bool {
        &&& span_within(self.triangles_verts, low, high)
        &&& forall|i: int|
            0 <= i < self.drawables.len() ==> {
                &&& span_within(#[trigger] self.drawables[i].fill_verts, low, high)
                &&& span_within(self.drawables[i].stroke_verts, low, high)
            }
    }
}

} // verus!
