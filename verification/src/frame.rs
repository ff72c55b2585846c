//! How contours are laid into the vertex buffer, and the spans that name
//! them there.

use vstd::prelude::*;
use crate::command::{Drawable, Span, span_within, spans_disjoint};
use crate::geometry::Vertex;
use crate::path::{Contour, ContourView, contour_views};

verus! {

/// The vertices that one contour contributes: its fill ring, where fill
/// rings are wanted, then its stroke ring.
pub open spec fn contour_vertices(contour: ContourView, with_fill: bool) -> Seq<Vertex> {
    if with_fill {
        contour.fill + contour.stroke
    } else {
        contour.stroke
    }
}

/// The vertices that `contours` contribute, contour after contour.
pub open spec fn ring_vertices(contours: Seq<ContourView>, with_fill: bool) -> Seq<Vertex>
    decreases contours.len(),
{
    if contours.len() == 0 {
        Seq::empty()
    } else {
        ring_vertices(contours.drop_last(), with_fill) + contour_vertices(
            contours.last(),
            with_fill,
        )
    }
}

/// The span of `len` vertices at `offset`; none for no vertices.
pub open spec fn span_of(offset: int, len: int) -> Option<Span> {
    if len == 0 {
        None
    } else {
        Some((offset as usize, len as usize))
    }
}

/// The spans of the contour at `index`, when the first vertex of the first
/// contour lies at `base`.
pub open spec fn drawable_at(
    base: int,
    contours: Seq<ContourView>,
    with_fill: bool,
    index: int,
) -> Drawable {
    let offset = base + ring_vertices(contours.take(index), with_fill).len();
    let contour = contours[index];
    if with_fill {
        Drawable {
            fill_verts: span_of(offset, contour.fill.len() as int),
            stroke_verts: span_of(offset + contour.fill.len(), contour.stroke.len() as int),
        }
    } else {
        Drawable { fill_verts: None, stroke_verts: span_of(offset, contour.stroke.len() as int) }
    }
}

/// One drawable for each contour, in the contours' order.
pub open spec fn drawables(base: int, contours: Seq<ContourView>, with_fill: bool) -> Seq<
    Drawable,
> {
    Seq::new(contours.len(), |i: int| drawable_at(base, contours, with_fill, i))
}

/// One more contour adds its vertices at the end.
pub proof fn lemma_ring_vertices_step(contours: Seq<ContourView>, with_fill: bool, index: int)
    requires
        0 <= index < contours.len(),
    ensures
        ring_vertices(contours.take(index + 1), with_fill) == ring_vertices(
            contours.take(index),
            with_fill,
        ) + contour_vertices(contours[index], with_fill),
{
    let longer = contours.take(index + 1);
    assert(longer.drop_last() =~= contours.take(index));
    assert(longer.last() == contours[index]);
}

/// The contours before `index`, and the contour at `index`, take no more
/// room than all the contours together.
pub proof fn lemma_ring_vertices_prefix(contours: Seq<ContourView>, with_fill: bool, index: int)
    requires
        0 <= index < contours.len(),
    ensures
        ring_vertices(contours.take(index), with_fill).len() + contour_vertices(
            contours[index],
            with_fill,
        ).len() <= ring_vertices(contours, with_fill).len(),
    decreases contours.len(),
{
    if index == contours.len() - 1 {
        assert(contours.take(index) =~= contours.drop_last());
    } else {
        let shorter = contours.drop_last();
        lemma_ring_vertices_prefix(shorter, with_fill, index);
        assert(shorter.take(index) =~= contours.take(index));
    }
}

/// Contours that come earlier lie earlier in the buffer.
pub proof fn lemma_ring_vertices_ordered(
    contours: Seq<ContourView>,
    with_fill: bool,
    first: int,
    second: int,
)
    requires
        0 <= first < second < contours.len(),
    ensures
        ring_vertices(contours.take(first), with_fill).len() + contour_vertices(
            contours[first],
            with_fill,
        ).len() <= ring_vertices(contours.take(second), with_fill).len(),
{
    let shorter = contours.take(second);
    lemma_ring_vertices_prefix(shorter, with_fill, first);
    assert(shorter.take(first) =~= contours.take(first));
}

/// The spans of every contour lie among the vertices that the contours
/// contributed, and the spans of two contours share no vertex.
pub proof fn lemma_drawables_apart(
    base: int,
    contours: Seq<ContourView>,
    with_fill: bool,
    first: int,
    second: int,
)
    requires
        0 <= base,
        base + ring_vertices(contours, with_fill).len() <= usize::MAX,
        0 <= first < contours.len(),
        0 <= second < contours.len(),
    ensures
        ({
            let a = drawables(base, contours, with_fill)[first];
            let b = drawables(base, contours, with_fill)[second];
            let end = base + ring_vertices(contours, with_fill).len();
            &&& span_within(a.fill_verts, base, end)
            &&& span_within(a.stroke_verts, base, end)
            &&& spans_disjoint(a.fill_verts, a.stroke_verts)
            &&& first != second ==> {
                &&& spans_disjoint(a.fill_verts, b.fill_verts)
                &&& spans_disjoint(a.fill_verts, b.stroke_verts)
                &&& spans_disjoint(a.stroke_verts, b.fill_verts)
                &&& spans_disjoint(a.stroke_verts, b.stroke_verts)
            }
        }),
{
    lemma_ring_vertices_prefix(contours, with_fill, first);
    lemma_ring_vertices_prefix(contours, with_fill, second);
    if first < second {
        lemma_ring_vertices_ordered(contours, with_fill, first, second);
    } else if second < first {
        lemma_ring_vertices_ordered(contours, with_fill, second, first);
    }
}

/// Appends the rings of `contours` to `verts`, and returns the spans at
/// which they lie.
pub fn append_contours(verts: &mut Vec<Vertex>, contours: &Vec<Contour>, with_fill: bool) -> (r:
    Vec<Drawable>)
    ensures
        final(verts)@ == old(verts)@ + ring_vertices(contour_views(contours@), with_fill),
        r@ == drawables(old(verts)@.len() as int, contour_views(contours@), with_fill),
{
    let ghost views = contour_views(contours@);
    let ghost base = old(verts)@.len() as int;
    let mut out: Vec<Drawable> = Vec::new();
    let mut i: usize = 0;
    assert(views.take(0) =~= Seq::<ContourView>::empty());
    while i < contours.len()
        invariant
            i <= contours.len(),
            views == contour_views(contours@),
            base == old(verts)@.len(),
            verts@ == old(verts)@ + ring_vertices(views.take(i as int), with_fill),
            out@.len() == i,
            forall|k: int| 0 <= k < i ==> out@[k] == drawable_at(base, views, with_fill, k),
        decreases contours.len() - i,
    {
        let contour = &contours[i];
        let mut drawable = Drawable::default();
        let ghost before = verts@;
        proof {
            lemma_ring_vertices_step(views, with_fill, i as int);
            assert(views[i as int] == contour@);
        }

        if with_fill && contour.fill.len() > 0 {
            drawable.fill_verts = Some((verts.len(), contour.fill.len()));
            verts.extend_from_slice(contour.fill.as_slice());
        }
        assert(verts@ =~= before + if with_fill {
            contour@.fill
        } else {
            Seq::<Vertex>::empty()
        });

        let ghost between = verts@;
        if contour.stroke.len() > 0 {
            drawable.stroke_verts = Some((verts.len(), contour.stroke.len()));
            verts.extend_from_slice(contour.stroke.as_slice());
        }
        assert(verts@ =~= between + contour@.stroke);
        assert(verts@ =~= before + contour_vertices(contour@, with_fill));

        out.push(drawable);
        i = i + 1;
    }
    assert(views.take(i as int) =~= views);
    assert(out@ =~= drawables(base, views, with_fill));
    out
}

} // verus!
