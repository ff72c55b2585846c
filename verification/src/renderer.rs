//! The command assembler: it gathers the draw commands and the vertices of
//! a frame, and hands both to the backend when the frame is flushed.

use vstd::prelude::*;
use image::DynamicImage;
use crate::backend::{GpuRendererBackend, Request};
use crate::command::{Command, CommandView, Flavor, command_views, span_within, spans_disjoint};
use crate::error::ErrorKind;
use crate::frame::{append_contours, drawables, lemma_drawables_apart, ring_vertices};
use crate::geometry::{Color, Vertex};
use crate::paint::{Paint, Scissor};
use crate::params::{Params, ShaderType, missing, reported, uniforms, zeroed};
use crate::path::{ContourView, Convexity, ExpandedPath, ExpandedPathView, LineJoin};
use crate::scalar::{Scalar, HALF, NEG_ONE, ONE, ZERO};
use crate::texture::{ImageFlags, ImageId, TextureInfo, TextureType};

verus! {

/// The stroke threshold of a pass that keeps every pixel: `-1.0`.
pub const KEEP_ALL: Scalar = NEG_ONE;

/// The stroke threshold of the pass that covers a stencilled stroke:
/// `1.0 - 0.5 / 255.0`. It keeps the pixels whose coverage rounds to full.
pub const COVER_THRESHOLD: Scalar = 0x3f7f_7f7f;

/// The tolerance to which curves are flattened: `0.25`.
pub const TESSELLATION_TOLERANCE: Scalar = 0x3e80_0000;

/// The distance under which two points count as one: `0.01`.
pub const DISTANCE_TOLERANCE: Scalar = 0x3c23_d70a;

/// The miter limit of the fringe of a fill: `2.4`.
pub const FILL_MITER_LIMIT: Scalar = 0x4019_999a;

/// What to ask of the path cache before a path is filled.
#[derive(Clone, Copy, Debug, PartialEq, Eq)]
pub struct FillExpansion {
    pub tess_tol: Scalar,
    pub dist_tol: Scalar,
    /// How far the fringe reaches beyond the shape.
    pub fringe: Scalar,
    pub line_join: LineJoin,
    pub miter_limit: Scalar,
    /// The width of one fringe.
    pub fringe_width: Scalar,
}

/// What to ask of the path cache before a path is stroked. The width of the
/// expansion is half the paint's stroke width, to either side of the path.
#[derive(Clone, Copy, Debug, PartialEq, Eq)]
pub struct StrokeExpansion {
    pub tess_tol: Scalar,
    pub dist_tol: Scalar,
    /// The width of the fringe beside the stroke.
    pub fringe: Scalar,
    /// The width of one fringe.
    pub fringe_width: Scalar,
}

/// Whether contours can be filled directly: there is one, and it is convex.
pub open spec fn is_convex(contours: Seq<ContourView>) -> bool {
    contours.len() == 1 && contours[0].convexity == Convexity::Convex
}

/// The uniforms of the pass that marks a concave fill in the stencil
/// buffer. It draws no colour.
pub open spec fn stencil_params() -> Params {
    Params { stroke_thr: KEEP_ALL, shader_type: ShaderType::Simple.selector(), ..zeroed() }
}

/// The quad that covers the box `bounds`, as a triangle strip.
pub open spec fn bounding_quad(bounds: [Scalar; 4]) -> Seq<Vertex> {
    seq![
        Vertex { x: bounds[2], y: bounds[3], u: HALF, v: ONE },
        Vertex { x: bounds[2], y: bounds[1], u: HALF, v: ONE },
        Vertex { x: bounds[0], y: bounds[3], u: HALF, v: ONE },
        Vertex { x: bounds[0], y: bounds[1], u: HALF, v: ONE },
    ]
}

/// The vertices that filling `path` adds to the frame.
pub open spec fn fill_vertices(path: ExpandedPathView) -> Seq<Vertex> {
    if is_convex(path.contours) {
        ring_vertices(path.contours, true)
    } else {
        ring_vertices(path.contours, true) + bounding_quad(path.bounds)
    }
}

/// The command that filling `path` adds to the frame, when the frame holds
/// `base` vertices already and `params` are the uniforms of the paint.
pub open spec fn fill_command(
    base: int,
    params: Params,
    image: Option<ImageId>,
    path: ExpandedPathView,
) -> CommandView {
    if is_convex(path.contours) {
        CommandView {
            flavor: Flavor::ConvexFill { params },
            drawables: drawables(base, path.contours, true),
            triangles_verts: None,
            image,
        }
    } else {
        CommandView {
            flavor: Flavor::ConcaveFill { fill_params: stencil_params(), stroke_params: params },
            drawables: drawables(base, path.contours, true),
            triangles_verts: Some(
                ((base + ring_vertices(path.contours, true).len()) as usize, 4usize),
            ),
            image,
        }
    }
}

/// The command that stroking `path` adds to the frame. `covered` are the
/// paint's uniforms with the threshold [`COVER_THRESHOLD`], `params` those
/// with [`KEEP_ALL`].
pub open spec fn stroke_command(
    base: int,
    stencil_strokes: bool,
    params: Params,
    covered: Params,
    image: Option<ImageId>,
    path: ExpandedPathView,
) -> CommandView {
    CommandView {
        flavor: if stencil_strokes {
            Flavor::StencilStroke { pass1: params, pass2: covered }
        } else {
            Flavor::Stroke { params }
        },
        drawables: drawables(base, path.contours, false),
        triangles_verts: None,
        image,
    }
}

/// The command that drawing `count` triangle vertices adds to the frame.
/// `params` are the uniforms of the paint; the command samples its texture
/// whatever the paint says.
pub open spec fn triangles_command(
    base: int,
    params: Params,
    image: Option<ImageId>,
    count: int,
) -> CommandView {
    CommandView {
        flavor: Flavor::Triangles {
            params: Params { shader_type: ShaderType::Img.selector(), ..params },
        },
        drawables: Seq::empty(),
        triangles_verts: Some((base as usize, count as usize)),
        image,
    }
}

/// The renderer: a backend, and the frame that is being assembled for it.
///
/// Every method that calls the backend states that call in its contract:
/// which method was called with what, and that the backend afterwards is
/// what the call made of the backend before. Beside the frame the renderer
/// keeps a record of these calls in their order. The record is ghost
/// state, to which each such method adds its call.
pub struct GpuRenderer<T> {
    stencil_strokes: bool,
    backend: T,
    cmds: Vec<Command>,
    verts: Vec<Vertex>,
    fringe_width: Scalar,
    requests: Ghost<Seq<Request>>,
}

impl<T: GpuRendererBackend> GpuRenderer<T> {
    /// The backend.
    pub closed spec fn backend(self) -> T {
        self.backend
    }

    /// The requests that the renderer has made of its backend, oldest
    /// first. Asking about a texture is no request.
    pub closed spec fn requests(self) -> Seq<Request> {
        self.requests@
    }

    /// The commands of the frame so far, oldest first.
    pub closed spec fn commands(self) -> Seq<CommandView> {
        command_views(self.cmds@)
    }

    /// The vertices of the frame so far.
    pub closed spec fn vertices(self) -> Seq<Vertex> {
        self.verts@
    }

    /// Whether strokes are drawn in two passes through the stencil buffer.
    pub closed spec fn stencil_strokes(self) -> bool {
        self.stencil_strokes
    }

    /// The width of the anti-aliasing fringe, in pixels.
    pub closed spec fn fringe_width(self) -> Scalar {
        self.fringe_width
    }

    /// Whether every span of every command lies in the frame's vertices,
    /// and every vertex of the frame has an index.
    pub open spec fn well_formed(self) -> bool {
        &&& self.vertices().len() <= usize::MAX
        &&& forall|i: int|
            0 <= i < self.commands().len() ==> (#[trigger] self.commands()[i]).within(
                0,
                self.vertices().len() as int,
            )
    }

    /// Whether `self` is `before` with the frame as it was.
    pub open spec fn keeps_frame(self, before: Self) -> bool {
        &&& self.stencil_strokes() == before.stencil_strokes()
        &&& self.fringe_width() == before.fringe_width()
        &&& self.vertices() == before.vertices()
        &&& self.commands() == before.commands()
    }

    /// Whether `self` is `before` with nothing changed.
    pub open spec fn unchanged(self, before: Self) -> bool {
        &&& self.backend() == before.backend()
        &&& self.requests() == before.requests()
        &&& self.keeps_frame(before)
    }

    /// Whether `self` is `before` with `vertices` and then `command` added
    /// to the frame, and nothing else changed.
    pub open spec fn extends(self, before: Self, vertices: Seq<Vertex>, command: CommandView) -> bool {
        &&& self.backend() == before.backend()
        &&& self.requests() == before.requests()
        &&& self.stencil_strokes() == before.stencil_strokes()
        &&& self.fringe_width() == before.fringe_width()
        &&& self.vertices() == before.vertices() + vertices
        &&& self.commands() == before.commands().push(command)
    }

    /// Whether `self` is `before` after `path` was filled with `paint`, of
    /// whose image the backend reported `texture`.
    pub open spec fn filled(
        self,
        before: Self,
        paint: Paint,
        scissor: Scissor,
        path: ExpandedPathView,
        texture: Option<TextureInfo>,
    ) -> bool {
        self.extends(
            before,
            fill_vertices(path),
            fill_command(
                before.vertices().len() as int,
                uniforms(paint, scissor, ONE, KEEP_ALL, texture),
                paint.image,
                path,
            ),
        )
    }

    /// Whether `self` is `before` after `path` was stroked with `paint`, of
    /// whose image the backend reported `texture`.
    pub open spec fn stroked(
        self,
        before: Self,
        paint: Paint,
        scissor: Scissor,
        path: ExpandedPathView,
        texture: Option<TextureInfo>,
    ) -> bool {
        self.extends(
            before,
            ring_vertices(path.contours, false),
            stroke_command(
                before.vertices().len() as int,
                before.stencil_strokes(),
                uniforms(paint, scissor, paint.stroke_mult, KEEP_ALL, texture),
                uniforms(paint, scissor, paint.stroke_mult, COVER_THRESHOLD, texture),
                paint.image,
                path,
            ),
        )
    }

    /// Whether `self` is `before` after the triangles `verts` were drawn
    /// with `paint`, of whose image the backend reported `texture`.
    pub open spec fn triangulated(
        self,
        before: Self,
        paint: Paint,
        scissor: Scissor,
        verts: Seq<Vertex>,
        texture: Option<TextureInfo>,
    ) -> bool {
        self.extends(
            before,
            verts,
            triangles_command(
                before.vertices().len() as int,
                uniforms(paint, scissor, ONE, KEEP_ALL, texture),
                paint.image,
                verts.len() as int,
            ),
        )
    }

    /// Whether `self` is `before` after a flush: the backend has been
    /// handed the frame of `before`, and the frame is empty.
    pub open spec fn flushed(self, before: Self) -> bool {
        &&& self.requests() == before.requests().push(
            Request::Render { verts: before.vertices(), commands: before.commands() },
        )
        &&& self.stencil_strokes() == before.stencil_strokes()
        &&& self.fringe_width() == before.fringe_width()
        &&& self.vertices() == Seq::<Vertex>::empty()
        &&& self.commands() == Seq::<CommandView>::empty()
    }

    /// Whether `self` is `before` after `request` was made of the backend,
    /// with the frame as it was.
    pub open spec fn asked(self, before: Self, request: Request) -> bool {
        &&& self.requests() == before.requests().push(request)
        &&& self.keeps_frame(before)
    }

    /// A renderer for `backend`, with an empty frame, a fringe of one pixel
    /// and stencilled strokes.
    pub fn new(backend: T) -> (r: Self)
        ensures
            r.backend() == backend,
            r.requests() == Seq::<Request>::empty(),
            r.commands() == Seq::<CommandView>::empty(),
            r.vertices() == Seq::<Vertex>::empty(),
            r.stencil_strokes(),
            r.fringe_width() == ONE,
            r.well_formed(),
    {
        GpuRenderer {
            stencil_strokes: true,
            backend,
            cmds: Vec::new(),
            verts: Vec::new(),
            fringe_width: ONE,
            requests: Ghost(Seq::empty()),
        }
    }

    /// Chooses between stencilled strokes and strokes drawn in one pass.
    pub fn set_stencil_strokes(&mut self, enabled: bool)
        ensures
            final(self).stencil_strokes() == enabled,
            final(self).backend() == old(self).backend(),
            final(self).requests() == old(self).requests(),
            final(self).fringe_width() == old(self).fringe_width(),
            final(self).vertices() == old(self).vertices(),
            final(self).commands() == old(self).commands(),
    {
        self.stencil_strokes = enabled;
    }

    /// What to ask of the path cache before a fill: the fixed tolerances,
    /// and a mitered fringe as wide as the renderer's for a shape that is
    /// anti-aliased, no fringe for one that is not.
    pub fn fill_expansion(&self, shape_anti_alias: bool) -> (r: FillExpansion)
        ensures
            r == (FillExpansion {
                tess_tol: TESSELLATION_TOLERANCE,
                dist_tol: DISTANCE_TOLERANCE,
                fringe: if shape_anti_alias {
                    self.fringe_width()
                } else {
                    ZERO
                },
                line_join: LineJoin::Miter,
                miter_limit: FILL_MITER_LIMIT,
                fringe_width: self.fringe_width(),
            }),
    {
        FillExpansion {
            tess_tol: TESSELLATION_TOLERANCE,
            dist_tol: DISTANCE_TOLERANCE,
            fringe: if shape_anti_alias {
                self.fringe_width
            } else {
                ZERO
            },
            line_join: LineJoin::Miter,
            miter_limit: FILL_MITER_LIMIT,
            fringe_width: self.fringe_width,
        }
    }

    /// What to ask of the path cache before a stroke: the fixed
    /// tolerances, and a fringe as wide as the renderer's for a shape that
    /// is anti-aliased, no fringe for one that is not.
    pub fn stroke_expansion(&self, shape_anti_alias: bool) -> (r: StrokeExpansion)
        ensures
            r == (StrokeExpansion {
                tess_tol: TESSELLATION_TOLERANCE,
                dist_tol: DISTANCE_TOLERANCE,
                fringe: if shape_anti_alias {
                    self.fringe_width()
                } else {
                    ZERO
                },
                fringe_width: self.fringe_width(),
            }),
    {
        StrokeExpansion {
            tess_tol: TESSELLATION_TOLERANCE,
            dist_tol: DISTANCE_TOLERANCE,
            fringe: if shape_anti_alias {
                self.fringe_width
            } else {
                ZERO
            },
            fringe_width: self.fringe_width,
        }
    }

    /// Fills `path` with `paint`, clipped by `scissor`, given what the
    /// backend reports of the paint's image (`None` for a paint without
    /// one).
    ///
    /// One command is added to the frame, and the rings of the path's
    /// contours to the frame's vertices: for each contour its fill ring,
    /// then its stroke ring. A single convex contour is filled directly.
    /// Anything else, a path without contours too, is filled through the
    /// stencil buffer, and ends in a quad over the path's bounds. The
    /// fringe of a fill is a stroke one fringe wide, whose stroke
    /// multiplier is `1.0`.
    pub fn fill_with(
        &mut self,
        paint: &Paint,
        scissor: &Scissor,
        path: &ExpandedPath,
        texture: Option<TextureInfo>,
    )
        ensures
            final(self).filled(*old(self), *paint, *scissor, path@, texture),
            final(self).commands().last().flavor is ConvexFill <==> is_convex(path@.contours),
            final(self).commands().last().flavor is ConcaveFill <==> !is_convex(path@.contours),
            final(self).commands().last().within(
                old(self).vertices().len() as int,
                final(self).vertices().len() as int,
            ),
            final(self).commands().last().spans_apart(),
            old(self).well_formed() ==> final(self).well_formed(),
    {
        let params = Params::build(paint, scissor, ONE, KEEP_ALL, texture);

        let convex = path.contours.len() == 1 && path.contours[0].convexity == Convexity::Convex;
        let flavor = if convex {
            Flavor::ConvexFill { params }
        } else {
            let mut fill_params = Params::default();
            fill_params.stroke_thr = KEEP_ALL;
            fill_params.shader_type = ShaderType::Simple.to_scalar();
            Flavor::ConcaveFill { fill_params, stroke_params: params }
        };

        let mut cmd = Command::new(flavor);
        cmd.image = paint.image;
        cmd.drawables = append_contours(&mut self.verts, &path.contours, true);

        if !convex {
            let offset: usize = self.verts.len();
            self.verts.push(Vertex::new(path.bounds[2], path.bounds[3], HALF, ONE));
            self.verts.push(Vertex::new(path.bounds[2], path.bounds[1], HALF, ONE));
            self.verts.push(Vertex::new(path.bounds[0], path.bounds[3], HALF, ONE));
            self.verts.push(Vertex::new(path.bounds[0], path.bounds[1], HALF, ONE));
            cmd.triangles_verts = Some((offset, 4));
        }

        proof {
            let base = old(self).vertices().len() as int;
            if path.contours.len() == 1 {
                assert(path@.contours[0] == path.contours@[0]@);
            }
            assert(self.verts@ =~= old(self).verts@ + fill_vertices(path@));
            assert(cmd@ == fill_command(base, params, paint.image, path@));
            assert(self.verts.len() == self.verts@.len());
            self.lemma_command_added(*old(self), path@.contours, true, cmd@);
        }
        let ghost added = cmd@;
        self.cmds.push(cmd);
        proof {
            assert(command_views(self.cmds@) =~= command_views(old(self).cmds@).push(added));
            self.lemma_extends_well_formed(*old(self), added);
        }
    }

    /// Fills `path` with `paint`, clipped by `scissor`.
    ///
    /// The backend is asked about the paint's image, and the path is
    /// filled as [`GpuRenderer::fill_with`] does with what it answers. A
    /// paint without an image asks nothing and is always filled. If the
    /// backend answers that it does not know the paint's image, that is
    /// reported and the renderer stays as it was.
    pub fn fill(&mut self, paint: &Paint, scissor: &Scissor, path: &ExpandedPath) -> (r: Result<
        (),
        ErrorKind,
    >)
        ensures
            paint.image is None ==> r is Ok && final(self).filled(
                *old(self),
                *paint,
                *scissor,
                path@,
                None,
            ),
            r is Ok ==> exists|texture: Option<TextureInfo>|
                reported(&old(self).backend(), *paint, texture) && #[trigger] final(self).filled(
                    *old(self),
                    *paint,
                    *scissor,
                    path@,
                    texture,
                ),
            r is Err ==> r == Err::<(), ErrorKind>(ErrorKind::ImageIdNotFound) && missing(
                &old(self).backend(),
                *paint,
            ) && final(self).unchanged(*old(self)),
            r is Ok ==> (final(self).commands().last().flavor is ConvexFill <==> is_convex(
                path@.contours,
            )),
            r is Ok ==> (final(self).commands().last().flavor is ConcaveFill <==> !is_convex(
                path@.contours,
            )),
            r is Ok ==> final(self).commands().last().within(
                old(self).vertices().len() as int,
                final(self).vertices().len() as int,
            ),
            r is Ok ==> final(self).commands().last().spans_apart(),
            old(self).well_formed() ==> final(self).well_formed(),
    {
        match TextureInfo::of_paint(&self.backend, paint) {
            Ok(texture) => {
                self.fill_with(paint, scissor, path, texture);
                Ok(())
            },
            Err(e) => Err(e),
        }
    }

    /// Strokes `path` with `paint`, clipped by `scissor`, given what the
    /// backend reports of the paint's image (`None` for a paint without
    /// one).
    ///
    /// One command is added to the frame, and the stroke rings of the
    /// path's contours to the frame's vertices. With stencilled strokes the
    /// command has two passes, the first with the threshold `-1.0`, the
    /// second with `1.0 - 0.5 / 255.0`; without, it has the first pass
    /// alone.
    pub fn stroke_with(
        &mut self,
        paint: &Paint,
        scissor: &Scissor,
        path: &ExpandedPath,
        texture: Option<TextureInfo>,
    )
        ensures
            final(self).stroked(*old(self), *paint, *scissor, path@, texture),
            old(self).stencil_strokes() ==> (final(self).commands().last().flavor matches Flavor::StencilStroke {
                pass1,
                pass2,
            } && pass1.stroke_thr == NEG_ONE && pass2.stroke_thr == COVER_THRESHOLD),
            !old(self).stencil_strokes() ==> (final(self).commands().last().flavor matches Flavor::Stroke {
                params,
            } && params.stroke_thr == NEG_ONE),
            final(self).commands().last().within(
                old(self).vertices().len() as int,
                final(self).vertices().len() as int,
            ),
            final(self).commands().last().spans_apart(),
            old(self).well_formed() ==> final(self).well_formed(),
    {
        let params = Params::build(paint, scissor, paint.stroke_mult, KEEP_ALL, texture);

        let flavor = if self.stencil_strokes {
            let pass2 = Params::build(paint, scissor, paint.stroke_mult, COVER_THRESHOLD, texture);
            Flavor::StencilStroke { pass1: params, pass2 }
        } else {
            Flavor::Stroke { params }
        };

        let mut cmd = Command::new(flavor);
        cmd.image = paint.image;
        cmd.drawables = append_contours(&mut self.verts, &path.contours, false);

        proof {
            assert(self.verts.len() == self.verts@.len());
            self.lemma_command_added(*old(self), path@.contours, false, cmd@);
        }
        let ghost added = cmd@;
        self.cmds.push(cmd);
        proof {
            assert(command_views(self.cmds@) =~= command_views(old(self).cmds@).push(added));
            self.lemma_extends_well_formed(*old(self), added);
        }
    }

    /// Strokes `path` with `paint`, clipped by `scissor`.
    ///
    /// The backend is asked about the paint's image, and the path is
    /// stroked as [`GpuRenderer::stroke_with`] does with what it reports.
    /// A paint without an image asks nothing and is always stroked. If the
    /// backend does not know the paint's image, that is reported and the
    /// frame stays as it was.
    pub fn stroke(&mut self, paint: &Paint, scissor: &Scissor, path: &ExpandedPath) -> (r: Result<
        (),
        ErrorKind,
    >)
        ensures
            paint.image is None ==> r is Ok && final(self).stroked(
                *old(self),
                *paint,
                *scissor,
                path@,
                None,
            ),
            r is Ok ==> exists|texture: Option<TextureInfo>|
                reported(&old(self).backend(), *paint, texture) && #[trigger] final(self).stroked(
                    *old(self),
                    *paint,
                    *scissor,
                    path@,
                    texture,
                ),
            r is Err ==> r == Err::<(), ErrorKind>(ErrorKind::ImageIdNotFound) && missing(
                &old(self).backend(),
                *paint,
            ) && final(self).unchanged(*old(self)),
            r is Ok && old(self).stencil_strokes() ==> (final(self).commands().last().flavor matches Flavor::StencilStroke {
                pass1,
                pass2,
            } && pass1.stroke_thr == NEG_ONE && pass2.stroke_thr == COVER_THRESHOLD),
            r is Ok && !old(self).stencil_strokes() ==> (final(self).commands().last().flavor matches Flavor::Stroke {
                params,
            } && params.stroke_thr == NEG_ONE),
            r is Ok ==> final(self).commands().last().within(
                old(self).vertices().len() as int,
                final(self).vertices().len() as int,
            ),
            r is Ok ==> final(self).commands().last().spans_apart(),
            old(self).well_formed() ==> final(self).well_formed(),
    {
        match TextureInfo::of_paint(&self.backend, paint) {
            Ok(texture) => {
                self.stroke_with(paint, scissor, path, texture);
                Ok(())
            },
            Err(e) => Err(e),
        }
    }

    /// Draws the triangles `verts`, textured with the image of `paint` and
    /// clipped by `scissor`, given what the backend reports of that image
    /// (`None` for a paint without one).
    ///
    /// One command is added to the frame, and `verts` as they are to the
    /// frame's vertices. The command samples its texture at the vertices'
    /// own coordinates, whatever the paint would have it do.
    pub fn triangles_with(
        &mut self,
        paint: &Paint,
        scissor: &Scissor,
        verts: &[Vertex],
        texture: Option<TextureInfo>,
    )
        ensures
            final(self).triangulated(*old(self), *paint, *scissor, verts@, texture),
            final(self).commands().last().within(
                old(self).vertices().len() as int,
                final(self).vertices().len() as int,
            ),
            old(self).well_formed() ==> final(self).well_formed(),
    {
        let mut params = Params::build(paint, scissor, ONE, KEEP_ALL, texture);
        params.shader_type = ShaderType::Img.to_scalar();

        let mut cmd = Command::new(Flavor::Triangles { params });
        cmd.image = paint.image;
        cmd.triangles_verts = Some((self.verts.len(), verts.len()));
        let ghost added = cmd@;
        self.cmds.push(cmd);

        self.verts.extend_from_slice(verts);

        proof {
            assert(self.verts@ =~= old(self).verts@ + verts@);
            assert(self.verts.len() == self.verts@.len());
            assert(command_views(self.cmds@) =~= command_views(old(self).cmds@).push(added));
            self.lemma_extends_well_formed(*old(self), added);
        }
    }

    /// Draws the triangles `verts`, textured with the image of `paint` and
    /// clipped by `scissor`.
    ///
    /// The backend is asked about the paint's image, and the triangles are
    /// drawn as [`GpuRenderer::triangles_with`] does with what it reports.
    /// If the backend does not know the paint's image, that is reported
    /// and the frame stays as it was.
    pub fn triangles(&mut self, paint: &Paint, scissor: &Scissor, verts: &[Vertex]) -> (r: Result<
        (),
        ErrorKind,
    >)
        ensures
            paint.image is None ==> r is Ok && final(self).triangulated(
                *old(self),
                *paint,
                *scissor,
                verts@,
                None,
            ),
            r is Ok ==> exists|texture: Option<TextureInfo>|
                reported(&old(self).backend(), *paint, texture) && #[trigger] final(self).triangulated(
                    *old(self),
                    *paint,
                    *scissor,
                    verts@,
                    texture,
                ),
            r is Err ==> r == Err::<(), ErrorKind>(ErrorKind::ImageIdNotFound) && missing(
                &old(self).backend(),
                *paint,
            ) && final(self).unchanged(*old(self)),
            r is Ok ==> final(self).commands().last().within(
                old(self).vertices().len() as int,
                final(self).vertices().len() as int,
            ),
            old(self).well_formed() ==> final(self).well_formed(),
    {
        match TextureInfo::of_paint(&self.backend, paint) {
            Ok(texture) => {
                self.triangles_with(paint, scissor, verts, texture);
                Ok(())
            },
            Err(e) => Err(e),
        }
    }

    /// Hands the frame to the backend, once, and starts an empty one.
    ///
    /// The backend's `render` is called with the vertices and the commands
    /// of the frame as they were. The frame is taken out of the renderer
    /// before that call: the renderer's frame is empty whatever becomes of
    /// it.
    pub fn flush(&mut self)
        ensures
            final(self).flushed(*old(self)),
            exists|backend: &mut T, vertices: &[Vertex], commands: &[Command]|
                mut_ref_current(backend) == old(self).backend() && mut_ref_future(backend) == final(self).backend() && vertices@ == old(self).vertices() && command_views(commands@) == old(self).commands() && #[trigger] call_ensures(
                    T::render,
                    (backend, vertices, commands),
                    (),
                ),
            final(self).well_formed(),
    {
        let mut verts: Vec<Vertex> = Vec::new();
        let mut cmds: Vec<Command> = Vec::new();
        core::mem::swap(&mut self.verts, &mut verts);
        core::mem::swap(&mut self.cmds, &mut cmds);

        self.backend.render(verts.as_slice(), cmds.as_slice());
        proof {
            self.requests@ = self.requests@.push(
                Request::Render { verts: verts@, commands: command_views(cmds@) },
            );
        }

        // The buffers are kept for the next frame.
        cmds.clear();
        verts.clear();
        core::mem::swap(&mut self.verts, &mut verts);
        core::mem::swap(&mut self.cmds, &mut cmds);
        proof {
            assert(command_views(self.cmds@) =~= Seq::<CommandView>::empty());
        }
    }

    /// Has the backend fill a rectangle of the target with `color`. The
    /// frame is not touched.
    pub fn clear_rect(&mut self, x: u32, y: u32, width: u32, height: u32, color: Color)
        ensures
            final(self).asked(*old(self), Request::ClearRect { x, y, width, height, color }),
            exists|backend: &mut T|
                mut_ref_current(backend) == old(self).backend() && mut_ref_future(backend) == final(self).backend() && #[trigger] call_ensures(
                    T::clear_rect,
                    (backend, x, y, width, height, color),
                    (),
                ),
    {
        self.backend.clear_rect(x, y, width, height, color);
        proof {
            self.requests@ = self.requests@.push(Request::ClearRect { x, y, width, height, color });
        }
    }

    /// Tells the backend the size of the target. The frame is not touched.
    pub fn set_size(&mut self, width: u32, height: u32, dpi: Scalar)
        ensures
            final(self).asked(*old(self), Request::SetSize { width, height, dpi }),
            exists|backend: &mut T|
                mut_ref_current(backend) == old(self).backend() && mut_ref_future(backend) == final(self).backend() && #[trigger] call_ensures(
                    T::set_size,
                    (backend, width, height, dpi),
                    (),
                ),
    {
        self.backend.set_size(width, height, dpi);
        proof {
            self.requests@ = self.requests@.push(Request::SetSize { width, height, dpi });
        }
    }

    /// Has the backend create a texture, and returns the handle that the
    /// backend gave it. The frame is not touched.
    pub fn create_texture(
        &mut self,
        texture_type: TextureType,
        width: u32,
        height: u32,
        flags: ImageFlags,
    ) -> (created: ImageId)
        ensures
            final(self).asked(
                *old(self),
                Request::CreateTexture { texture_type, width, height, flags, created },
            ),
            exists|backend: &mut T|
                mut_ref_current(backend) == old(self).backend() && mut_ref_future(backend) == final(self).backend() && #[trigger] call_ensures(
                    T::create_texture,
                    (backend, texture_type, width, height, flags),
                    created,
                ),
    {
        let created = self.backend.create_texture(texture_type, width, height, flags);
        proof {
            self.requests@ = self.requests@.push(
                Request::CreateTexture { texture_type, width, height, flags, created },
            );
        }
        created
    }

    /// Has the backend replace a rectangle of the texture `id` with pixels
    /// of `image`. The frame is not touched.
    pub fn update_texture(&mut self, id: ImageId, image: &DynamicImage, x: u32, y: u32, w: u32, h: u32)
        ensures
            final(self).asked(
                *old(self),
                Request::UpdateTexture { id, image: *image, x, y, w, h },
            ),
            exists|backend: &mut T|
                mut_ref_current(backend) == old(self).backend() && mut_ref_future(backend) == final(self).backend() && #[trigger] call_ensures(
                    T::update_texture,
                    (backend, id, image, x, y, w, h),
                    (),
                ),
    {
        self.backend.update_texture(id, image, x, y, w, h);
        proof {
            self.requests@ = self.requests@.push(
                Request::UpdateTexture { id, image: *image, x, y, w, h },
            );
        }
    }

    /// Has the backend delete the texture `id`. The frame is not touched.
    pub fn delete_texture(&mut self, id: ImageId)
        ensures
            final(self).asked(*old(self), Request::DeleteTexture { id }),
            exists|backend: &mut T|
                mut_ref_current(backend) == old(self).backend() && mut_ref_future(backend) == final(self).backend() && #[trigger] call_ensures(T::delete_texture, (backend, id), ()),
    {
        self.backend.delete_texture(id);
        proof {
            self.requests@ = self.requests@.push(Request::DeleteTexture { id });
        }
    }

    /// The vertices of a frame fit the range of their indices, whatever the
    /// renderer has been through.
    pub proof fn lemma_vertices_fit(self)
        ensures
            self.vertices().len() <= usize::MAX,
    {
        assert(self.verts.len() == self.verts@.len());
    }

    /// Flushing is idempotent on the frame: a second flush right after a
    /// first hands the backend an empty list of commands over no vertices,
    /// and leaves the frame empty.
    ///
    /// The second hypothesis and the second conclusion speak of the call
    /// of `render` that the second flush makes, as the contract of `flush`
    /// states it.
    pub proof fn lemma_flush_twice(start: Self, once: Self, twice: Self)
        requires
            once.flushed(start),
            twice.flushed(once),
            exists|backend: &mut T, vertices: &[Vertex], commands: &[Command]|
                mut_ref_current(backend) == once.backend() && mut_ref_future(backend)
                    == twice.backend() && vertices@ == once.vertices() && command_views(commands@)
                    == once.commands() && #[trigger] call_ensures(
                    T::render,
                    (backend, vertices, commands),
                    (),
                ),
        ensures
            exists|backend: &mut T, vertices: &[Vertex], commands: &[Command]|
                mut_ref_current(backend) == once.backend() && mut_ref_future(backend)
                    == twice.backend() && vertices@ == Seq::<Vertex>::empty() && commands@
                    == Seq::<Command>::empty() && #[trigger] call_ensures(
                    T::render,
                    (backend, vertices, commands),
                    (),
                ),
            twice.requests() == once.requests().push(
                Request::Render {
                    verts: Seq::<Vertex>::empty(),
                    commands: Seq::<CommandView>::empty(),
                },
            ),
            twice.keeps_frame(once),
            twice.well_formed(),
    {
        let (backend, vertices, commands) = choose|
            backend: &mut T,
            vertices: &[Vertex],
            commands: &[Command],
        |
            mut_ref_current(backend) == once.backend() && mut_ref_future(backend)
                == twice.backend() && vertices@ == once.vertices() && command_views(commands@)
                == once.commands() && #[trigger] call_ensures(
                T::render,
                (backend, vertices, commands),
                (),
            );
        assert(command_views(commands@).len() == 0);
        assert(commands@ =~= Seq::<Command>::empty());
        twice.lemma_vertices_fit();
    }

    /// The spans of a command made of `contours` lie in the vertices that
    /// it added, and no two of them share a vertex.
    proof fn lemma_command_added(
        self,
        before: Self,
        contours: Seq<ContourView>,
        with_fill: bool,
        command: CommandView,
    )
        requires
            command.drawables == drawables(before.vertices().len() as int, contours, with_fill),
            before.vertices().len() + ring_vertices(contours, with_fill).len()
                <= self.vertices().len() <= usize::MAX,
            span_within(
                command.triangles_verts,
                (before.vertices().len() + ring_vertices(contours, with_fill).len()) as int,
                self.vertices().len() as int,
            ),
        ensures
            command.within(before.vertices().len() as int, self.vertices().len() as int),
            command.spans_apart(),
    {
        let base = before.vertices().len() as int;
        assert forall|i: int, j: int|
            0 <= i < command.drawables.len() && 0 <= j < command.drawables.len() implies {
            let a = #[trigger] command.drawables[i];
            let b = #[trigger] command.drawables[j];
            &&& spans_disjoint(a.fill_verts, a.stroke_verts)
            &&& i != j ==> {
                &&& spans_disjoint(a.fill_verts, b.fill_verts)
                &&& spans_disjoint(a.fill_verts, b.stroke_verts)
                &&& spans_disjoint(a.stroke_verts, b.fill_verts)
                &&& spans_disjoint(a.stroke_verts, b.stroke_verts)
            }
        } by {
            lemma_drawables_apart(base, contours, with_fill, i, j);
        }
        assert forall|i: int| 0 <= i < command.drawables.len() implies {
            let a = #[trigger] command.drawables[i];
            &&& span_within(a.fill_verts, base, self.vertices().len() as int)
            &&& span_within(a.stroke_verts, base, self.vertices().len() as int)
            &&& spans_disjoint(a.fill_verts, command.triangles_verts)
            &&& spans_disjoint(a.stroke_verts, command.triangles_verts)
        } by {
            lemma_drawables_apart(base, contours, with_fill, i, i);
        }
    }

    /// A frame stays well formed when vertices are added to it, and a
    /// command whose spans lie in the frame's vertices.
    proof fn lemma_extends_well_formed(self, before: Self, command: CommandView)
        requires
            before.vertices().len() <= self.vertices().len(),
            self.commands() == before.commands().push(command),
            command.within(0, self.vertices().len() as int),
        ensures
            before.well_formed() ==> self.well_formed(),
    {
        if before.well_formed() {
            self.lemma_vertices_fit();
            assert forall|i: int| 0 <= i < self.commands().len() implies (
            #[trigger] self.commands()[i]).within(0, self.vertices().len() as int) by {
                if i < before.commands().len() {
                    assert(self.commands()[i] == before.commands()[i]);
                    assert(before.commands()[i].within(0, before.vertices().len() as int));
                }
            }
        }
    }
}

} // verus!
