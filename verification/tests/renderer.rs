use gpu_renderer::backend::GpuRendererBackend;
use gpu_renderer::params::{Params, ShaderType};
use gpu_renderer::renderer::{
    FillExpansion, GpuRenderer, StrokeExpansion, COVER_THRESHOLD, DISTANCE_TOLERANCE,
    FILL_MITER_LIMIT, KEEP_ALL, TESSELLATION_TOLERANCE,
};
use gpu_renderer::texture::{ImageFlags, ImageId, TextureInfo, TextureType, FLIP_Y, PREMULTIPLIED};
use gpu_renderer::{
    Color, Command, Contour, Convexity, Drawable, ErrorKind, ExpandedPath, Flavor, LineJoin, Paint,
    Scissor, Transform2D, Vertex,
};
use image::DynamicImage;
use std::cell::RefCell;
use std::rc::Rc;

fn s(x: f32) -> u32 {
    x.to_bits()
}

/// What a backend was asked, in order.
#[derive(Clone, Debug, PartialEq)]
enum Asked {
    ClearRect(u32, u32, u32, u32, Color),
    SetSize(u32, u32, u32),
    Render(Vec<Vertex>, Vec<Command>),
    CreateTexture(TextureType, u32, u32, ImageFlags, ImageId),
    UpdateTexture(ImageId, (u32, u32), u32, u32, u32, u32),
    DeleteTexture(ImageId),
}

/// A backend that draws nothing and writes down what it is asked.
struct Recorder {
    asked: Rc<RefCell<Vec<Asked>>>,
    textures: Vec<(ImageId, TextureType, ImageFlags, (u32, u32))>,
    next: u32,
}

impl Recorder {
    fn new() -> (Recorder, Rc<RefCell<Vec<Asked>>>) {
        let asked = Rc::new(RefCell::new(Vec::new()));
        (Recorder { asked: asked.clone(), textures: Vec::new(), next: 1 }, asked)
    }

    fn with_texture(kind: TextureType, flags: u32) -> (Recorder, Rc<RefCell<Vec<Asked>>>, ImageId) {
        let (mut recorder, asked) = Recorder::new();
        let id = recorder.create_texture(kind, 64, 32, ImageFlags::from_bits(flags));
        asked.borrow_mut().clear();
        (recorder, asked, id)
    }
}

impl GpuRendererBackend for Recorder {
    fn clear_rect(&mut self, x: u32, y: u32, width: u32, height: u32, color: Color) {
        self.asked.borrow_mut().push(Asked::ClearRect(x, y, width, height, color));
    }

    fn set_size(&mut self, width: u32, height: u32, dpi: u32) {
        self.asked.borrow_mut().push(Asked::SetSize(width, height, dpi));
    }

    fn render(&mut self, verts: &[Vertex], commands: &[Command]) {
        self.asked.borrow_mut().push(Asked::Render(verts.to_vec(), commands.to_vec()));
    }

    fn create_texture(
        &mut self,
        texture_type: TextureType,
        width: u32,
        height: u32,
        flags: ImageFlags,
    ) -> ImageId {
        let id = ImageId(self.next);
        self.next += 1;
        self.textures.push((id, texture_type, flags, (width, height)));
        self.asked.borrow_mut().push(Asked::CreateTexture(texture_type, width, height, flags, id));
        id
    }

    fn update_texture(&mut self, id: ImageId, image: &DynamicImage, x: u32, y: u32, w: u32, h: u32) {
        let size = match image.as_rgba8() {
            Some(pixels) => pixels.dimensions(),
            None => (0, 0),
        };
        self.asked.borrow_mut().push(Asked::UpdateTexture(id, size, x, y, w, h));
    }

    fn delete_texture(&mut self, id: ImageId) {
        self.textures.retain(|t| t.0 != id);
        self.asked.borrow_mut().push(Asked::DeleteTexture(id));
    }

    fn texture_flags(&self, id: ImageId) -> ImageFlags {
        match self.textures.iter().find(|t| t.0 == id) {
            Some(t) => t.2,
            None => panic!("the flags of a missing texture were asked for"),
        }
    }

    fn texture_size(&self, id: ImageId) -> (u32, u32) {
        match self.textures.iter().find(|t| t.0 == id) {
            Some(t) => t.3,
            None => panic!("the size of a missing texture was asked for"),
        }
    }

    fn texture_type(&self, id: ImageId) -> Option<TextureType> {
        self.textures.iter().find(|t| t.0 == id).map(|t| t.1)
    }
}

fn last_frame(asked: &Rc<RefCell<Vec<Asked>>>) -> (Vec<Vertex>, Vec<Command>) {
    match asked.borrow().last() {
        Some(Asked::Render(verts, commands)) => (verts.clone(), commands.clone()),
        other => panic!("the last request was no render: {:?}", other),
    }
}

fn renders(asked: &Rc<RefCell<Vec<Asked>>>) -> usize {
    asked.borrow().iter().filter(|a| matches!(a, Asked::Render(..))).count()
}

fn v(x: f32, y: f32) -> Vertex {
    Vertex::new(s(x), s(y), s(0.5), s(1.0))
}

fn ring(points: &[(f32, f32)]) -> Vec<Vertex> {
    points.iter().map(|p| v(p.0, p.1)).collect()
}

fn square() -> Vec<Vertex> {
    ring(&[(0.0, 0.0), (10.0, 0.0), (10.0, 10.0), (0.0, 10.0)])
}

fn solid() -> Paint {
    let white = Color { r: s(1.0), g: s(1.0), b: s(1.0), a: s(1.0) };
    Paint {
        inner_color: white,
        outer_color: white,
        extent: [s(0.0), s(0.0)],
        radius: s(0.0),
        feather: s(1.0),
        inverse: Transform2D::identity(),
        flipped_inverse: Transform2D::identity(),
        image: None,
        stroke_mult: s(1.0),
    }
}

fn textured(id: ImageId) -> Paint {
    Paint {
        extent: [s(64.0), s(32.0)],
        flipped_inverse: Transform2D([s(1.0), s(0.0), s(0.0), s(-1.0), s(0.0), s(32.0)]),
        image: Some(id),
        ..solid()
    }
}

fn identity_scissor() -> Scissor {
    Scissor { extent: [s(-1.0), s(-1.0)], inverse: Transform2D::identity(), scale: [s(1.0), s(1.0)] }
}

fn contour(fill: Vec<Vertex>, stroke: Vec<Vertex>, convexity: Convexity) -> Contour {
    Contour { fill, stroke, convexity }
}

fn path(contours: Vec<Contour>) -> ExpandedPath {
    ExpandedPath { contours, bounds: [s(-1.0), s(-2.0), s(11.0), s(12.0)] }
}

fn spans(command: &Command) -> Vec<(usize, usize)> {
    let mut all = Vec::new();
    for d in &command.drawables {
        all.extend(d.fill_verts);
        all.extend(d.stroke_verts);
    }
    all.extend(command.triangles_verts);
    all
}

fn assert_apart_and_within(command: &Command, low: usize, high: usize) {
    let all = spans(command);
    for (i, a) in all.iter().enumerate() {
        assert!(low <= a.0 && a.0 + a.1 <= high, "{:?} outside {}..{}", a, low, high);
        for b in &all[i + 1..] {
            assert!(a.0 + a.1 <= b.0 || b.0 + b.1 <= a.0, "{:?} meets {:?}", a, b);
        }
    }
}

#[test]
fn convex_square_is_filled_directly() {
    let (backend, asked) = Recorder::new();
    let mut renderer = GpuRenderer::new(backend);
    // Without anti-aliasing no fringe is asked for, and the contour comes
    // without a stroke ring.
    assert_eq!(renderer.fill_expansion(false).fringe, s(0.0));
    let square_path = path(vec![contour(square(), vec![], Convexity::Convex)]);

    assert_eq!(renderer.fill(&solid(), &identity_scissor(), &square_path), Ok(()));
    renderer.flush();

    let (verts, commands) = last_frame(&asked);
    assert_eq!(commands.len(), 1);
    assert_eq!(verts, square());
    let command = &commands[0];
    assert_eq!(command.drawables, vec![Drawable { fill_verts: Some((0, 4)), stroke_verts: None }]);
    assert_eq!(command.triangles_verts, None);
    assert_eq!(command.image, None);
    match command.flavor {
        Flavor::ConvexFill { params } => {
            assert_eq!(f32::from_bits(params.shader_type), 0.0);
            assert_eq!(params.shader_type, ShaderType::FillGradient.to_scalar());
            assert_eq!(f32::from_bits(params.stroke_thr), -1.0);
            assert_eq!(f32::from_bits(params.stroke_mult), 1.0);
            assert_eq!(
                params,
                Params::build(&solid(), &identity_scissor(), s(1.0), s(-1.0), None)
            );
        },
        other => panic!("not a convex fill: {:?}", other),
    }
}

#[test]
fn polyline_is_stroked_through_the_stencil() {
    let (backend, asked) = Recorder::new();
    let mut renderer = GpuRenderer::new(backend);
    let outline = ring(&[(0.0, -1.0), (0.0, 1.0), (10.0, -1.0), (10.0, 1.0)]);
    let line = path(vec![contour(vec![], outline.clone(), Convexity::Unknown)]);
    let paint = Paint { stroke_mult: s(1.5), ..solid() };

    assert_eq!(renderer.stroke(&paint, &identity_scissor(), &line), Ok(()));
    renderer.flush();

    let (verts, commands) = last_frame(&asked);
    assert_eq!(commands.len(), 1);
    assert_eq!(verts, outline);
    assert_eq!(
        commands[0].drawables,
        vec![Drawable { fill_verts: None, stroke_verts: Some((0, 4)) }]
    );
    assert_eq!(commands[0].triangles_verts, None);
    match commands[0].flavor {
        Flavor::StencilStroke { pass1, pass2 } => {
            assert_eq!(f32::from_bits(pass1.stroke_thr), -1.0);
            assert_eq!(f32::from_bits(pass2.stroke_thr), 1.0 - 0.5 / 255.0);
            assert_eq!(pass1.stroke_mult, s(1.5));
            assert_eq!(pass2, Params { stroke_thr: pass2.stroke_thr, ..pass1 });
            assert_eq!(pass1, Params::build(&paint, &identity_scissor(), s(1.5), s(-1.0), None));
        },
        other => panic!("not a stencilled stroke: {:?}", other),
    }
}

#[test]
fn ring_of_two_contours_is_filled_through_the_stencil() {
    let (backend, asked) = Recorder::new();
    let mut renderer = GpuRenderer::new(backend);
    let inner = ring(&[(3.0, 3.0), (3.0, 7.0), (7.0, 7.0), (7.0, 3.0)]);
    let ring_path = path(vec![
        contour(square(), vec![], Convexity::Convex),
        contour(inner.clone(), vec![], Convexity::Convex),
    ]);

    assert_eq!(renderer.fill(&solid(), &identity_scissor(), &ring_path), Ok(()));
    renderer.flush();

    let (verts, commands) = last_frame(&asked);
    assert_eq!(commands.len(), 1);
    let command = &commands[0];
    assert!(matches!(command.flavor, Flavor::ConcaveFill { .. }));
    assert_eq!(
        command.drawables,
        vec![
            Drawable { fill_verts: Some((0, 4)), stroke_verts: None },
            Drawable { fill_verts: Some((4, 4)), stroke_verts: None },
        ]
    );
    assert_eq!(command.triangles_verts, Some((8, 4)));
    assert_eq!(verts.len(), 12);
    assert_eq!(&verts[0..4], &square()[..]);
    assert_eq!(&verts[4..8], &inner[..]);
}

#[test]
fn bounding_quad_covers_the_bounds() {
    let (backend, asked) = Recorder::new();
    let mut renderer = GpuRenderer::new(backend);
    let concave = path(vec![contour(square(), vec![], Convexity::Concave)]);

    renderer.fill(&solid(), &identity_scissor(), &concave).unwrap();
    renderer.flush();

    let (verts, commands) = last_frame(&asked);
    assert_eq!(commands[0].triangles_verts, Some((4, 4)));
    let quad: Vec<(f32, f32, f32, f32)> = verts[4..8]
        .iter()
        .map(|v| (f32::from_bits(v.x), f32::from_bits(v.y), f32::from_bits(v.u), f32::from_bits(v.v)))
        .collect();
    assert_eq!(
        quad,
        vec![
            (11.0, 12.0, 0.5, 1.0),
            (11.0, -2.0, 0.5, 1.0),
            (-1.0, 12.0, 0.5, 1.0),
            (-1.0, -2.0, 0.5, 1.0),
        ]
    );
}

#[test]
fn concave_fill_marks_the_stencil_with_plain_uniforms() {
    let (backend, asked) = Recorder::new();
    let mut renderer = GpuRenderer::new(backend);
    let concave = path(vec![contour(square(), vec![], Convexity::Concave)]);
    let scissor = Scissor {
        extent: [s(5.0), s(5.0)],
        inverse: Transform2D([s(1.0), s(0.0), s(0.0), s(1.0), s(-5.0), s(-5.0)]),
        scale: [s(1.0), s(1.0)],
    };

    renderer.fill(&solid(), &scissor, &concave).unwrap();
    renderer.flush();

    let (_, commands) = last_frame(&asked);
    match commands[0].flavor {
        Flavor::ConcaveFill { fill_params, stroke_params } => {
            let expected = Params {
                stroke_thr: s(-1.0),
                shader_type: s(2.0),
                ..Params::default()
            };
            assert_eq!(fill_params, expected);
            assert_eq!(fill_params.shader_type, ShaderType::Simple.to_scalar());
            assert_eq!(stroke_params, Params::build(&solid(), &scissor, s(1.0), s(-1.0), None));
            assert_eq!(f32::from_bits(stroke_params.stroke_thr), -1.0);
        },
        other => panic!("not a concave fill: {:?}", other),
    }
}

#[test]
fn fill_strategy_follows_count_and_convexity() {
    let cases: Vec<(Vec<Convexity>, bool)> = vec![
        (vec![], false),
        (vec![Convexity::Convex], true),
        (vec![Convexity::Concave], false),
        (vec![Convexity::Unknown], false),
        (vec![Convexity::Convex, Convexity::Convex], false),
        (vec![Convexity::Concave, Convexity::Convex], false),
        (vec![Convexity::Convex, Convexity::Convex, Convexity::Convex], false),
    ];
    for (convexities, direct) in cases {
        let (backend, asked) = Recorder::new();
        let mut renderer = GpuRenderer::new(backend);
        let contours = convexities.iter().map(|c| contour(square(), vec![], *c)).collect();
        renderer.fill(&solid(), &identity_scissor(), &path(contours)).unwrap();
        renderer.flush();
        let (_, commands) = last_frame(&asked);
        assert_eq!(commands.len(), 1);
        assert_eq!(
            matches!(commands[0].flavor, Flavor::ConvexFill { .. }),
            direct,
            "{:?}",
            convexities
        );
        assert_eq!(
            matches!(commands[0].flavor, Flavor::ConcaveFill { .. }),
            !direct,
            "{:?}",
            convexities
        );
        assert_eq!(commands[0].triangles_verts.is_some(), !direct);
        assert_eq!(commands[0].drawables.len(), convexities.len());
    }
}

#[test]
fn path_without_contours_is_a_command_without_drawables() {
    let (backend, asked) = Recorder::new();
    let mut renderer = GpuRenderer::new(backend);

    assert_eq!(renderer.fill(&solid(), &identity_scissor(), &path(vec![])), Ok(()));
    assert_eq!(renderer.stroke(&solid(), &identity_scissor(), &path(vec![])), Ok(()));
    renderer.flush();

    let (verts, commands) = last_frame(&asked);
    assert_eq!(commands.len(), 2);
    assert!(matches!(commands[0].flavor, Flavor::ConcaveFill { .. }));
    assert!(commands[0].drawables.is_empty());
    assert_eq!(commands[0].triangles_verts, Some((0, 4)));
    assert!(matches!(commands[1].flavor, Flavor::StencilStroke { .. }));
    assert!(commands[1].drawables.is_empty());
    assert_eq!(commands[1].triangles_verts, None);
    assert_eq!(verts.len(), 4);
}

#[test]
fn empty_rings_have_no_span() {
    let (backend, asked) = Recorder::new();
    let mut renderer = GpuRenderer::new(backend);
    let fringe = ring(&[(0.0, 0.0), (1.0, 1.0), (2.0, 2.0)]);
    let mixed = path(vec![
        contour(vec![], vec![], Convexity::Convex),
        contour(square(), fringe.clone(), Convexity::Convex),
        contour(vec![], fringe.clone(), Convexity::Concave),
        contour(square(), vec![], Convexity::Unknown),
    ]);

    renderer.fill(&solid(), &identity_scissor(), &mixed).unwrap();
    renderer.stroke(&solid(), &identity_scissor(), &mixed).unwrap();
    renderer.flush();

    let (verts, commands) = last_frame(&asked);
    assert_eq!(
        commands[0].drawables,
        vec![
            Drawable { fill_verts: None, stroke_verts: None },
            Drawable { fill_verts: Some((0, 4)), stroke_verts: Some((4, 3)) },
            Drawable { fill_verts: None, stroke_verts: Some((7, 3)) },
            Drawable { fill_verts: Some((10, 4)), stroke_verts: None },
        ]
    );
    assert_eq!(commands[0].triangles_verts, Some((14, 4)));
    // A stroke takes the stroke rings alone.
    assert_eq!(
        commands[1].drawables,
        vec![
            Drawable { fill_verts: None, stroke_verts: None },
            Drawable { fill_verts: None, stroke_verts: Some((18, 3)) },
            Drawable { fill_verts: None, stroke_verts: Some((21, 3)) },
            Drawable { fill_verts: None, stroke_verts: None },
        ]
    );
    assert_eq!(verts.len(), 24);
    assert_eq!(&verts[4..7], &fringe[..]);
    assert_eq!(&verts[18..21], &fringe[..]);
    assert_eq!(&verts[21..24], &fringe[..]);
}

#[test]
fn spans_lie_in_the_buffer_and_apart() {
    let (backend, asked) = Recorder::new();
    let mut renderer = GpuRenderer::new(backend);
    let fringe = ring(&[(0.0, 0.0), (1.0, 1.0), (2.0, 2.0), (3.0, 3.0), (4.0, 4.0)]);
    let many = path(vec![
        contour(square(), fringe.clone(), Convexity::Convex),
        contour(vec![], fringe.clone(), Convexity::Convex),
        contour(square(), vec![], Convexity::Concave),
        contour(square(), fringe.clone(), Convexity::Convex),
    ]);

    let mut low = 0;
    let mut bounds = Vec::new();
    let mut expected = 0;
    for round in 0..6 {
        if round % 3 == 0 {
            renderer.fill(&solid(), &identity_scissor(), &many).unwrap();
            expected += 3 * 4 + 3 * 5 + 4;
        } else if round % 3 == 1 {
            renderer.stroke(&solid(), &identity_scissor(), &many).unwrap();
            expected += 3 * 5;
        } else {
            renderer.triangles(&solid(), &identity_scissor(), &square()).unwrap();
            expected += 4;
        }
        bounds.push((low, expected));
        low = expected;
    }
    renderer.flush();

    let (verts, commands) = last_frame(&asked);
    assert_eq!(verts.len(), expected);
    assert_eq!(commands.len(), 6);
    for (command, (low, high)) in commands.iter().zip(bounds) {
        assert_apart_and_within(command, low, high);
        assert_apart_and_within(command, 0, verts.len());
    }
}

#[test]
fn stroke_without_stencil_has_one_pass() {
    let (backend, asked) = Recorder::new();
    let mut renderer = GpuRenderer::new(backend);
    renderer.set_stencil_strokes(false);
    let line = path(vec![contour(vec![], square(), Convexity::Unknown)]);
    let paint = Paint { stroke_mult: s(3.0), ..solid() };

    renderer.stroke(&paint, &identity_scissor(), &line).unwrap();
    renderer.set_stencil_strokes(true);
    renderer.stroke(&paint, &identity_scissor(), &line).unwrap();
    renderer.flush();

    let (_, commands) = last_frame(&asked);
    match commands[0].flavor {
        Flavor::Stroke { params } => {
            assert_eq!(f32::from_bits(params.stroke_thr), -1.0);
            assert_eq!(params, Params::build(&paint, &identity_scissor(), s(3.0), s(-1.0), None));
        },
        other => panic!("not a plain stroke: {:?}", other),
    }
    assert!(matches!(commands[1].flavor, Flavor::StencilStroke { .. }));
}

#[test]
fn thresholds_are_exact() {
    assert_eq!(KEEP_ALL, (-1.0f32).to_bits());
    assert_eq!(COVER_THRESHOLD, (1.0f32 - 0.5 / 255.0).to_bits());
    assert_eq!(COVER_THRESHOLD, 0x3f7f_7f7f);
    assert_eq!(f32::from_bits(COVER_THRESHOLD), 1.0 - 0.5 / 255.0);
}

#[test]
fn triangles_are_recorded_as_given() {
    let (backend, asked) = Recorder::new();
    let mut renderer = GpuRenderer::new(backend);
    let first = ring(&[(0.0, 0.0), (1.0, 0.0), (0.0, 1.0)]);
    let second = ring(&[(5.0, 5.0), (6.0, 5.0), (5.0, 6.0), (6.0, 5.0), (6.0, 6.0), (5.0, 6.0)]);

    assert_eq!(renderer.triangles(&solid(), &identity_scissor(), &first), Ok(()));
    assert_eq!(renderer.triangles(&solid(), &identity_scissor(), &[]), Ok(()));
    assert_eq!(renderer.triangles(&solid(), &identity_scissor(), &second), Ok(()));
    renderer.flush();

    let (verts, commands) = last_frame(&asked);
    assert_eq!(commands.len(), 3);
    assert_eq!(commands[0].triangles_verts, Some((0, 3)));
    assert_eq!(commands[1].triangles_verts, Some((3, 0)));
    assert_eq!(commands[2].triangles_verts, Some((3, 6)));
    assert_eq!(&verts[0..3], &first[..]);
    assert_eq!(&verts[3..9], &second[..]);
    for command in &commands {
        assert!(command.drawables.is_empty());
        match command.flavor {
            Flavor::Triangles { params } => {
                assert_eq!(f32::from_bits(params.shader_type), 3.0);
                assert_eq!(
                    params,
                    Params {
                        shader_type: ShaderType::Img.to_scalar(),
                        ..Params::build(&solid(), &identity_scissor(), s(1.0), s(-1.0), None)
                    }
                );
            },
            other => panic!("not triangles: {:?}", other),
        }
    }
}

#[test]
fn multiplier_of_fills_and_triangles_is_one() {
    // A fill is stroked one fringe wide, and triangles one pixel wide in a
    // fringe of one pixel: (w * 0.5 + f * 0.5) / f with w = f.
    for f in [1.0f32, 0.75, 2.0, 3.5] {
        assert_eq!((f * 0.5 + f * 0.5) / f, 1.0);
    }
    let (backend, asked) = Recorder::new();
    let mut renderer = GpuRenderer::new(backend);
    let paint = Paint { stroke_mult: s(9.0), ..solid() };
    renderer
        .fill(&paint, &identity_scissor(), &path(vec![contour(square(), vec![], Convexity::Convex)]))
        .unwrap();
    renderer.triangles(&paint, &identity_scissor(), &square()).unwrap();
    renderer.flush();
    let (_, commands) = last_frame(&asked);
    match (commands[0].flavor, commands[1].flavor) {
        (Flavor::ConvexFill { params: fill }, Flavor::Triangles { params: triangles }) => {
            assert_eq!(f32::from_bits(fill.stroke_mult), 1.0);
            assert_eq!(f32::from_bits(triangles.stroke_mult), 1.0);
        },
        other => panic!("unexpected flavors: {:?}", other),
    }
}

#[test]
fn flush_hands_over_once_and_resets() {
    let (backend, asked) = Recorder::new();
    let mut renderer = GpuRenderer::new(backend);
    let square_path = path(vec![contour(square(), vec![], Convexity::Convex)]);

    renderer.fill(&solid(), &identity_scissor(), &square_path).unwrap();
    renderer.stroke(&solid(), &identity_scissor(), &square_path).unwrap();
    assert_eq!(renders(&asked), 0);
    renderer.flush();
    assert_eq!(renders(&asked), 1);
    let (verts, commands) = last_frame(&asked);
    assert_eq!(verts.len(), 4);
    assert_eq!(commands.len(), 2);

    // The next frame starts at the beginning of the buffer.
    renderer.fill(&solid(), &identity_scissor(), &square_path).unwrap();
    renderer.flush();
    assert_eq!(renders(&asked), 2);
    let (verts, commands) = last_frame(&asked);
    assert_eq!(verts, square());
    assert_eq!(commands.len(), 1);
    assert_eq!(commands[0].drawables[0].fill_verts, Some((0, 4)));
}

#[test]
fn flush_of_an_empty_frame_hands_over_nothing() {
    let (backend, asked) = Recorder::new();
    let mut renderer = GpuRenderer::new(backend);

    renderer.flush();
    assert_eq!(*asked.borrow(), vec![Asked::Render(vec![], vec![])]);

    renderer.triangles(&solid(), &identity_scissor(), &square()).unwrap();
    renderer.flush();
    renderer.flush();
    renderer.flush();
    let all = asked.borrow();
    assert_eq!(all.len(), 4);
    assert!(matches!(&all[1], Asked::Render(verts, commands) if verts.len() == 4 && commands.len() == 1));
    assert_eq!(all[2], Asked::Render(vec![], vec![]));
    assert_eq!(all[3], Asked::Render(vec![], vec![]));
}

#[test]
fn image_paint_binds_the_image() {
    let (backend, asked, id) = Recorder::with_texture(TextureType::Rgba, FLIP_Y);
    let mut renderer = GpuRenderer::new(backend);
    let square_path = path(vec![contour(square(), vec![], Convexity::Convex)]);
    let paint = textured(id);
    let reported =
        Some(TextureInfo { flags: ImageFlags::from_bits(FLIP_Y), kind: TextureType::Rgba });

    assert_eq!(renderer.fill(&paint, &identity_scissor(), &square_path), Ok(()));
    assert_eq!(renderer.stroke(&paint, &identity_scissor(), &square_path), Ok(()));
    assert_eq!(renderer.triangles(&paint, &identity_scissor(), &square()), Ok(()));
    renderer.flush();

    let (_, commands) = last_frame(&asked);
    assert_eq!(commands.len(), 3);
    for command in &commands {
        assert_eq!(command.image, Some(id));
    }
    let expected = Params::build(&paint, &identity_scissor(), s(1.0), s(-1.0), reported);
    assert_eq!(f32::from_bits(expected.shader_type), 1.0);
    assert_eq!(f32::from_bits(expected.tex_type), 1.0);
    assert_eq!(expected.paint_mat, paint.flipped_inverse.to_mat3x4());
    assert_eq!(commands[0].flavor, Flavor::ConvexFill { params: expected });
    assert_eq!(
        commands[1].flavor,
        Flavor::StencilStroke {
            pass1: expected,
            pass2: Params { stroke_thr: COVER_THRESHOLD, ..expected },
        }
    );
    assert_eq!(
        commands[2].flavor,
        Flavor::Triangles { params: Params { shader_type: s(3.0), ..expected } }
    );
}

#[test]
fn with_variants_take_the_report_as_given() {
    let (backend, asked) = Recorder::new();
    let mut renderer = GpuRenderer::new(backend);
    let square_path = path(vec![contour(square(), vec![], Convexity::Convex)]);
    let paint = textured(ImageId(40));
    let reported =
        Some(TextureInfo { flags: ImageFlags::from_bits(PREMULTIPLIED), kind: TextureType::Alpha });

    renderer.fill_with(&paint, &identity_scissor(), &square_path, reported);
    renderer.stroke_with(&paint, &identity_scissor(), &square_path, reported);
    renderer.triangles_with(&paint, &identity_scissor(), &square(), reported);
    renderer.flush();

    let (verts, commands) = last_frame(&asked);
    assert_eq!(verts.len(), 8);
    let expected = Params::build(&paint, &identity_scissor(), s(1.0), s(-1.0), reported);
    assert_eq!(f32::from_bits(expected.tex_type), 2.0);
    assert_eq!(commands[0].flavor, Flavor::ConvexFill { params: expected });
    assert_eq!(commands[0].image, Some(ImageId(40)));
    assert!(matches!(commands[1].flavor, Flavor::StencilStroke { pass1, .. } if pass1 == expected));
    assert!(commands[1].drawables.iter().all(|d| d.stroke_verts.is_none()));
    assert_eq!(
        commands[2].flavor,
        Flavor::Triangles { params: Params { shader_type: s(3.0), ..expected } }
    );
    assert_eq!(commands[2].triangles_verts, Some((4, 4)));
}

#[test]
fn missing_image_is_reported_and_leaves_the_frame() {
    let (backend, asked, id) = Recorder::with_texture(TextureType::Rgba, 0);
    let mut renderer = GpuRenderer::new(backend);
    let square_path = path(vec![contour(square(), vec![], Convexity::Convex)]);
    let missing = textured(ImageId(id.0 + 1));

    renderer.fill(&solid(), &identity_scissor(), &square_path).unwrap();
    assert_eq!(
        renderer.fill(&missing, &identity_scissor(), &square_path),
        Err(ErrorKind::ImageIdNotFound)
    );
    assert_eq!(
        renderer.stroke(&missing, &identity_scissor(), &square_path),
        Err(ErrorKind::ImageIdNotFound)
    );
    assert_eq!(
        renderer.triangles(&missing, &identity_scissor(), &square()),
        Err(ErrorKind::ImageIdNotFound)
    );
    renderer.flush();

    let (verts, commands) = last_frame(&asked);
    assert_eq!(verts, square());
    assert_eq!(commands.len(), 1);

    // A texture that was deleted is missing too.
    renderer.delete_texture(id);
    assert_eq!(
        renderer.fill(&textured(id), &identity_scissor(), &square_path),
        Err(ErrorKind::ImageIdNotFound)
    );
    renderer.flush();
    assert_eq!(last_frame(&asked), (vec![], vec![]));
}

#[test]
fn requests_pass_through_and_leave_the_frame() {
    let (backend, asked) = Recorder::new();
    let mut renderer = GpuRenderer::new(backend);
    let square_path = path(vec![contour(square(), vec![], Convexity::Convex)]);
    let red = Color { r: s(1.0), g: s(0.0), b: s(0.0), a: s(1.0) };

    renderer.fill(&solid(), &identity_scissor(), &square_path).unwrap();
    renderer.set_size(800, 600, s(2.0));
    renderer.clear_rect(1, 2, 30, 40, red);
    let id = renderer.create_texture(TextureType::Alpha, 16, 8, ImageFlags::from_bits(FLIP_Y));
    renderer.update_texture(id, &DynamicImage::new_rgba8(5, 6), 1, 2, 3, 4);
    renderer.delete_texture(id);
    renderer.flush();

    let all = asked.borrow();
    assert_eq!(all.len(), 6);
    assert_eq!(all[0], Asked::SetSize(800, 600, s(2.0)));
    assert_eq!(all[1], Asked::ClearRect(1, 2, 30, 40, red));
    assert_eq!(
        all[2],
        Asked::CreateTexture(TextureType::Alpha, 16, 8, ImageFlags::from_bits(FLIP_Y), id)
    );
    assert_eq!(all[3], Asked::UpdateTexture(id, (5, 6), 1, 2, 3, 4));
    assert_eq!(all[4], Asked::DeleteTexture(id));
    assert!(matches!(&all[5], Asked::Render(verts, commands) if verts.len() == 4 && commands.len() == 1));
}

#[test]
fn created_texture_is_known_to_later_paints() {
    let (backend, asked) = Recorder::new();
    let mut renderer = GpuRenderer::new(backend);
    let id = renderer.create_texture(TextureType::Alpha, 16, 8, ImageFlags::empty());

    renderer.triangles(&textured(id), &identity_scissor(), &square()).unwrap();
    renderer.flush();

    let (_, commands) = last_frame(&asked);
    match commands[0].flavor {
        Flavor::Triangles { params } => {
            assert_eq!(f32::from_bits(params.tex_type), 2.0);
            assert_eq!(f32::from_bits(params.shader_type), 3.0);
        },
        other => panic!("not triangles: {:?}", other),
    }
}

#[test]
fn expansions_follow_anti_aliasing() {
    let (backend, _asked) = Recorder::new();
    let renderer = GpuRenderer::new(backend);

    assert_eq!(
        renderer.fill_expansion(true),
        FillExpansion {
            tess_tol: s(0.25),
            dist_tol: s(0.01),
            fringe: s(1.0),
            line_join: LineJoin::Miter,
            miter_limit: s(2.4),
            fringe_width: s(1.0),
        }
    );
    assert_eq!(
        renderer.fill_expansion(false),
        FillExpansion {
            tess_tol: s(0.25),
            dist_tol: s(0.01),
            fringe: s(0.0),
            line_join: LineJoin::Miter,
            miter_limit: s(2.4),
            fringe_width: s(1.0),
        }
    );
    assert_eq!(
        renderer.stroke_expansion(true),
        StrokeExpansion { tess_tol: s(0.25), dist_tol: s(0.01), fringe: s(1.0), fringe_width: s(1.0) }
    );
    assert_eq!(
        renderer.stroke_expansion(false),
        StrokeExpansion { tess_tol: s(0.25), dist_tol: s(0.01), fringe: s(0.0), fringe_width: s(1.0) }
    );
    assert_eq!(
        [TESSELLATION_TOLERANCE, DISTANCE_TOLERANCE, FILL_MITER_LIMIT],
        [s(0.25), s(0.01), s(2.4)]
    );
}

#[test]
fn texture_reports_are_taken_from_the_backend() {
    let (backend, _asked, id) = Recorder::with_texture(TextureType::Alpha, FLIP_Y | PREMULTIPLIED);
    let expected =
        TextureInfo { flags: ImageFlags::from_bits(FLIP_Y | PREMULTIPLIED), kind: TextureType::Alpha };

    assert_eq!(TextureInfo::of(&backend, id), Ok(expected));
    assert_eq!(TextureInfo::of(&backend, ImageId(id.0 + 1)), Err(ErrorKind::ImageIdNotFound));

    assert_eq!(TextureInfo::of_paint(&backend, &textured(id)), Ok(Some(expected)));
    assert_eq!(TextureInfo::of_paint(&backend, &solid()), Ok(None));
    assert_eq!(
        TextureInfo::of_paint(&backend, &textured(ImageId(id.0 + 1))),
        Err(ErrorKind::ImageIdNotFound)
    );
}

#[test]
fn new_command_draws_nothing() {
    let params = Params::default();
    let command = Command::new(Flavor::Stroke { params });
    assert_eq!(command.flavor, Flavor::Stroke { params });
    assert!(command.drawables.is_empty());
    assert_eq!(command.triangles_verts, None);
    assert_eq!(command.image, None);
    assert_eq!(Drawable::default(), Drawable { fill_verts: None, stroke_verts: None });
}
