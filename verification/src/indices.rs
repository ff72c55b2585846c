//! Index lists for devices that cannot draw a triangle fan as such.

use vstd::prelude::*;

verus! {

/// The number of indices that list the triangles of a fan of `count`
/// vertices: three for each vertex after the second.
pub open spec fn fan_index_count(count: int) -> int {
    if count < 3 {
        0
    } else {
        3 * (count - 2)
    }
}

/// The index at `position` in the list of the triangles of a fan whose first
/// vertex is `start`. Triangle `k` joins the first vertex to the vertices
/// `k + 1` and `k + 2` of the fan, in that order.
pub open spec fn fan_index(start: int, position: int) -> int {
    if position % 3 == 0 {
        start
    } else if position % 3 == 1 {
        start + position / 3 + 1
    } else {
        start + position / 3 + 2
    }
}

/// The triangles of the fan over the `count` vertices from `start`, as a
/// list of indices. A fan of fewer than three vertices has no triangle.
pub open spec fn fan_indices(start: u32, count: u32) -> Seq<u32> {
    Seq::new(
        fan_index_count(count as int) as nat,
        |position: int| fan_index(start as int, position) as u32,
    )
}

/// Appends the triangles of the fan over the `count` vertices from `start`
/// to `indices`, and returns how many indices that were.
///
/// The fan's last vertex must have an index: where the fan has a triangle,
/// `start + count - 1` may not pass the range of `u32`.
pub fn extend_with_triangle_fan_indices(indices: &mut Vec<u32>, start: u32, count: u32) -> (added:
    usize)
    requires
        count >= 3 ==> start + count - 1 <= u32::MAX,
    ensures
        final(indices)@ == old(indices)@ + fan_indices(start, count),
        added == fan_index_count(count as int),
        added <= 3 * count,
{
    let mut added: usize = 0;
    if count < 3 {
        assert(indices@ =~= old(indices)@ + fan_indices(start, count));
        return added;
    }
    let mut second: u32 = 1;
    while second < count - 1
        invariant
            3 <= count,
            start + count - 1 <= u32::MAX,
            1 <= second <= count - 1,
            added == 3 * (second - 1),
            indices@.len() == old(indices)@.len() + added,
            forall|i: int| 0 <= i < old(indices)@.len() ==> indices@[i] == old(indices)@[i],
            forall|position: int|
                0 <= position < added ==> indices@[old(indices)@.len() + position] == fan_index(
                    start as int,
                    position,
                ),
        decreases count - second,
    {
        let ghost before = indices@;
        indices.push(start);
        indices.push(start + second);
        indices.push(start + second + 1);
        assert forall|position: int| 0 <= position < added + 3 implies indices@[old(
            indices,
        )@.len() + position] == fan_index(start as int, position) by {
            if position < added {
                assert(indices@[old(indices)@.len() + position] == before[old(indices)@.len()
                    + position]);
            }
        }
        assert(indices.len() == indices@.len());
        added = added + 3;
        second = second + 1;
    }
    assert(indices@ =~= old(indices)@ + fan_indices(start, count));
    added
}

} // verus!
