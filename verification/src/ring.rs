//! Mathematical model of the ring geometry: the vertex ring, the full
//! triangulation of a closed ring, and the trimming that reflects a partial
//! fill, together with the laws proved about them.

use vstd::prelude::*;

verus! {

/// One triangle of the mesh, as three indices into the vertex buffer.
///
/// The winding order is consistent across all segments, so a renderer can
/// cull back faces uniformly.
#[derive(Clone, Copy, Debug, PartialEq, Eq, Structural)]
pub struct Triangle {
    pub a: u32,
    pub b: u32,
    pub c: u32,
}

/// One vertex of the ring, described exactly rather than by coordinates.
///
/// The vertex is the point `(0, r, 0)` rotated about the Z axis by
/// `step / segment_count` of a full turn, where `r` is the outer radius when
/// `outer` is true and the hole radius otherwise. A host renderer evaluates
/// this description to floating-point coordinates.
#[derive(Clone, Copy, Debug, PartialEq, Eq, Structural)]
pub struct RingVertex {
    pub step: usize,
    pub outer: bool,
}

/// The vertex ring of `n` segments: `2 * n` vertices, interleaved so that
/// index `2i` is the outer vertex of segment `i` and `2i + 1` its inner one.
pub open spec fn vertex_ring(n: int) -> Seq<RingVertex> {
    Seq::new((2 * n) as nat, |j: int| (RingVertex { step: (j / 2) as usize, outer: j % 2 == 0 }))
}

/// Triangle `k` of the full ring of `n` segments.
///
/// Segment `i` contributes triangles `2i` and `2i + 1`. Both share the edge
/// between outer vertex `2i` and the next segment's inner vertex; the index
/// `2i + 2` wraps around to `0` on the last segment, closing the ring.
pub open spec fn ring_triangle(n: int, k: int) -> Triangle
    recommends
        1 <= n,
        0 <= k < 2 * n,
{
    let i: int = k / 2;
    let next: int = (2 * i + 2) % (2 * n);
    if k % 2 == 0 {
        Triangle { a: (2 * i) as u32, b: next as u32, c: (next + 1) as u32 }
    } else {
        Triangle { a: (2 * i) as u32, b: (next + 1) as u32, c: (2 * i + 1) as u32 }
    }
}

/// The complete closed ring of `n` segments: `2 * n` triangles.
pub open spec fn full_ring(n: int) -> Seq<Triangle> {
    Seq::new((2 * n) as nat, |k: int| ring_triangle(n, k))
}

/// How many whole segments are trimmed from the tail of the full ring for a
/// fill of `v` out of `m`, over `n` segments.
///
/// This is `floor((1 - v/m) * n)` clamped into `[0, n]`: a fill at or above
/// `m` trims nothing, a fill at or below `0` trims everything, and in between
/// the real number `(m - v) * n / m` is rounded down.
pub open spec fn trimmed_segments(n: int, m: int, v: int) -> int
    recommends
        0 <= n,
        1 <= m,
{
    if v <= 0 {
        n
    } else if v >= m {
        0
    } else {
        ((m - v) * n) / m
    }
}

/// The triangle list for a fill of `v` out of `m` over `n` segments: the full
/// ring with `2 * trimmed_segments(n, m, v)` triangles removed from the tail.
pub open spec fn filled_triangles(n: int, m: int, v: int) -> Seq<Triangle>
    recommends
        0 <= n,
        1 <= m,
{
    full_ring(n).take(2 * (n - trimmed_segments(n, m, v)))
}

/// `v` clamped into `[0, m]`.
pub open spec fn clamped(v: int, m: int) -> int {
    if v < 0 {
        0
    } else if v > m {
        m
    } else {
        v
    }
}

/// The index buffer a mesh store consumes: the three corners of each triangle
/// in order, flattened into one sequence.
pub open spec fn flat_indices(tris: Seq<Triangle>) -> Seq<u32> {
    Seq::new(
        tris.len() * 3,
        |j: int|
            {
                let t = tris[j / 3];
                if j % 3 == 0 {
                    t.a
                } else if j % 3 == 1 {
                    t.b
                } else {
                    t.c
                }
            },
    )
}

/// All three indices of `t` lie below `bound`.
pub open spec fn triangle_in_bounds(t: Triangle, bound: int) -> bool {
    t.a < bound && t.b < bound && t.c < bound
}

/// The number of trimmed segments never leaves `[0, n]`: removal can neither
/// underflow the triangle list nor ask for more than the whole ring, whatever
/// value the fill takes.
pub proof fn lemma_trimmed_in_range(n: int, m: int, v: int)
    requires
        0 <= n,
        1 <= m,
    ensures
        0 <= trimmed_segments(n, m, v) <= n,
{
    if 0 < v < m {
        assert(0 <= ((m - v) * n) / m <= n) by (nonlinear_arith)
            requires
                0 <= n,
                1 <= m,
                0 < v < m,
        ;
    }
}

/// Law: every triangle of the full ring of `n` segments refers only to
/// vertices that exist, that is, to indices below `2 * n`.
pub proof fn lemma_full_ring_in_bounds(n: int)
    requires
        1 <= n,
        2 * n <= u32::MAX,
    ensures
        full_ring(n).len() == 2 * n,
        forall|k: int|
            0 <= k < 2 * n ==> triangle_in_bounds(#[trigger] full_ring(n)[k], 2 * n),
{
    assert forall|k: int| 0 <= k < 2 * n implies triangle_in_bounds(
        #[trigger] full_ring(n)[k],
        2 * n,
    ) by {
        let i: int = k / 2;
        assert(0 <= i < n);
        let next: int = (2 * i + 2) % (2 * n);
        if i < n - 1 {
            vstd::arithmetic::div_mod::lemma_small_mod((2 * i + 2) as nat, (2 * n) as nat);
            assert(next == 2 * i + 2);
        } else {
            assert(2 * i + 2 == 2 * n);
            vstd::arithmetic::div_mod::lemma_mod_self_0(2 * n);
            assert(next == 0);
        }
        assert(next + 1 < 2 * n);
    }
}

/// Law: every triangle of a trimmed list refers only to vertices that exist.
/// The trimmed list is a prefix of the full ring, so its triangles inherit
/// the full ring's bounds.
pub proof fn lemma_filled_in_bounds(n: int, m: int, v: int)
    requires
        1 <= n,
        2 * n <= u32::MAX,
        1 <= m,
    ensures
        forall|k: int|
            0 <= k < filled_triangles(n, m, v).len() ==> triangle_in_bounds(
                #[trigger] filled_triangles(n, m, v)[k],
                2 * n,
            ),
{
    lemma_trimmed_in_range(n, m, v);
    lemma_full_ring_in_bounds(n);
}

/// Law: the filled triangle count is non-decreasing in the fill value. For a
/// fixed segment count and maximum, raising the value never removes
/// triangles.
pub proof fn lemma_fill_monotonic(n: int, m: int, v1: int, v2: int)
    requires
        1 <= n,
        1 <= m,
        v1 <= v2,
    ensures
        filled_triangles(n, m, v1).len() <= filled_triangles(n, m, v2).len(),
{
    lemma_trimmed_in_range(n, m, v1);
    lemma_trimmed_in_range(n, m, v2);
    if 0 < v1 < m && 0 < v2 < m {
        vstd::arithmetic::mul::lemma_mul_inequality(m - v2, m - v1, n);
        vstd::arithmetic::div_mod::lemma_div_is_ordered((m - v2) * n, (m - v1) * n, m);
    }
    assert(trimmed_segments(n, m, v2) <= trimmed_segments(n, m, v1));
}

/// Law: the triangulation is a pure function of its arguments. Two triangle
/// lists formed from identical `(segment_count, max_value, value)` arguments
/// are identical; no hidden state affects the result.
pub proof fn lemma_triangulation_deterministic(
    n: int,
    m: int,
    v: int,
    tris1: Seq<Triangle>,
    tris2: Seq<Triangle>,
)
    requires
        tris1 == filled_triangles(n, m, v),
        tris2 == filled_triangles(n, m, v),
    ensures
        tris1 == tris2,
{
}

} // verus!
