//! The stateful radial-bar component: configuration, current value, and the
//! executable vertex and triangle generation.

use vstd::prelude::*;

use crate::ring::clamped;
use crate::ring::filled_triangles;
use crate::ring::flat_indices;
use crate::ring::full_ring;
use crate::ring::lemma_filled_in_bounds;
use crate::ring::lemma_trimmed_in_range;
use crate::ring::ring_triangle;
use crate::ring::triangle_in_bounds;
use crate::ring::trimmed_segments;
use crate::ring::vertex_ring;
use crate::ring::RingVertex;
use crate::ring::Triangle;

verus! {

/// Largest supported segment count: with at most this many segments, every
/// vertex index (below `2 * segment_count`) fits in a `u32` index buffer.
pub const MAX_SEGMENT_COUNT: usize = 0x7fff_ffff;

/// A configuration the triangulation cannot work with: a zero segment count
/// (no angular step) or a non-positive maximum value (used as a divisor).
#[derive(Clone, Copy, Debug, PartialEq, Eq, Structural)]
pub struct InvalidConfiguration;

/// A radial bar: a ring of `segment_count` segments whose filled angular
/// extent shows `value` out of `max_value`.
///
/// `vertices` is fixed for the lifetime of the bar; `indices` is regenerated
/// whenever `value` changes.
#[derive(Clone, Debug)]
pub struct RadialBar2D {
    pub value: i64,
    pub max_value: i64,
    pub segment_count: usize,
    pub vertices: Vec<RingVertex>,
    pub indices: Vec<Triangle>,
}

impl RadialBar2D {
    /// The configuration is usable and the vertex ring is the one generated
    /// for `segment_count`.
    pub open spec fn valid_config(&self) -> bool {
        &&& 1 <= self.segment_count <= MAX_SEGMENT_COUNT
        &&& 1 <= self.max_value
        &&& self.vertices@ == vertex_ring(self.segment_count as int)
    }

    /// Well-formed: the configuration is usable and the index buffer is the
    /// triangulation of the current value.
    pub open spec fn wf(&self) -> bool {
        &&& self.valid_config()
        &&& self.indices@ == filled_triangles(
            self.segment_count as int,
            self.max_value as int,
            self.value as int,
        )
    }

    /// Law: a well-formed bar satisfies the structural mesh invariants: the
    /// vertex buffer has exactly `2 * segment_count` entries, and every index
    /// of every triangle in the index buffer refers to an existing vertex.
    pub proof fn lemma_mesh_invariants(&self)
        requires
            self.wf(),
        ensures
            self.vertices@.len() == 2 * self.segment_count,
            forall|k: int|
                0 <= k < self.indices@.len() ==> triangle_in_bounds(
                    #[trigger] self.indices@[k],
                    self.vertices@.len() as int,
                ),
    {
        lemma_filled_in_bounds(
            self.segment_count as int,
            self.max_value as int,
            self.value as int,
        );
    }

    /// Builds a radial bar: generates the vertex ring once and triangulates
    /// the initial value.
    ///
    /// A zero segment count or a non-positive maximum value cannot be
    /// triangulated and is rejected; nothing else fails. The initial value is
    /// clamped into `[0, max_value]`.
    pub fn new(value: i64, max_value: i64, segment_count: usize) -> (result: Result<
        RadialBar2D,
        InvalidConfiguration,
    >)
        requires
            segment_count <= MAX_SEGMENT_COUNT,
        ensures
            result is Err <==> (segment_count == 0 || max_value <= 0),
            result matches Ok(bar) ==> {
                &&& bar.wf()
                &&& bar.segment_count == segment_count
                &&& bar.max_value == max_value
                &&& bar.value as int == clamped(value as int, max_value as int)
                &&& bar.vertices@ == vertex_ring(segment_count as int)
                &&& bar.indices@ == filled_triangles(
                    segment_count as int,
                    max_value as int,
                    bar.value as int,
                )
            },
    {
        if segment_count == 0 || max_value <= 0 {
            return Err(InvalidConfiguration);
        }
        let value: i64 = if value < 0 {
            0
        } else if value > max_value {
            max_value
        } else {
            value
        };
        let vertices = Self::generate_vertices(segment_count);
        let indices = Self::form_valuebar_triangles(segment_count, max_value, value);
        Ok(RadialBar2D { value, max_value, segment_count, vertices, indices })
    }

    /// Generates the vertex ring for the mesh: `2 * segment_count` vertices,
    /// outer then inner for each segment in turn.
    pub fn generate_vertices(segment_count: usize) -> (out: Vec<RingVertex>)
        requires
            segment_count <= MAX_SEGMENT_COUNT,
        ensures
            out@ == vertex_ring(segment_count as int),
            out@.len() == 2 * segment_count,
    {
        let mut out: Vec<RingVertex> = Vec::new();
        let mut rot: usize = 0;
        while rot < segment_count
            invariant
                rot <= segment_count <= MAX_SEGMENT_COUNT,
                out@.len() == 2 * rot,
                forall|j: int|
                    0 <= j < out@.len() ==> out@[j] == vertex_ring(segment_count as int)[j],
            decreases segment_count - rot,
        {
            out.push(RingVertex { step: rot, outer: true });
            out.push(RingVertex { step: rot, outer: false });
            proof {
                let n: int = segment_count as int;
                let j0: int = 2 * rot as int;
                assert(j0 / 2 == rot as int && j0 % 2 == 0);
                assert((j0 + 1) / 2 == rot as int && (j0 + 1) % 2 == 1);
                assert(out@[j0] == vertex_ring(n)[j0]);
                assert(out@[j0 + 1] == vertex_ring(n)[j0 + 1]);
            }
            rot = rot + 1;
        }
        proof {
            assert(out@ =~= vertex_ring(segment_count as int));
        }
        out
    }

    /// Forms the triangulation of the complete closed ring, ignoring the
    /// current `value`: two triangles per segment, with the vertex indices of
    /// the last segment wrapping back to the first.
    pub fn form_triangles(segment_count: usize) -> (triangles: Vec<Triangle>)
        requires
            segment_count <= MAX_SEGMENT_COUNT,
        ensures
            triangles@ == full_ring(segment_count as int),
            triangles@.len() == 2 * segment_count,
    {
        let mut triangles: Vec<Triangle> = Vec::new();
        let two_n: usize = segment_count * 2;
        let mut segment_index: usize = 0;
        while segment_index < segment_count
            invariant
                segment_index <= segment_count <= MAX_SEGMENT_COUNT,
                two_n == 2 * segment_count,
                triangles@.len() == 2 * segment_index,
                forall|k: int|
                    0 <= k < triangles@.len() ==> triangles@[k] == full_ring(
                        segment_count as int,
                    )[k],
            decreases segment_count - segment_index,
        {
            let base: usize = segment_index * 2;
            let next: usize = (base + 2) % two_n;
            triangles.push(Triangle { a: base as u32, b: next as u32, c: (next + 1) as u32 });
            triangles.push(
                Triangle { a: base as u32, b: (next + 1) as u32, c: (base + 1) as u32 },
            );
            proof {
                let n: int = segment_count as int;
                let i: int = segment_index as int;
                let k0: int = 2 * i;
                assert(k0 / 2 == i && k0 % 2 == 0);
                assert((k0 + 1) / 2 == i && (k0 + 1) % 2 == 1);
                assert(next as int == (2 * i + 2) % (2 * n));
                assert(next < two_n) by {
                    vstd::arithmetic::div_mod::lemma_mod_division_less_than_divisor(
                        2 * i + 2,
                        2 * n,
                    );
                }
                assert(triangles@[k0] == ring_triangle(n, k0));
                assert(triangles@[k0 + 1] == ring_triangle(n, k0 + 1));
                assert(triangles@[k0] == full_ring(n)[k0]);
                assert(triangles@[k0 + 1] == full_ring(n)[k0 + 1]);
            }
            segment_index = segment_index + 1;
        }
        proof {
            assert(triangles@ =~= full_ring(segment_count as int));
        }
        triangles
    }

    /// Forms the triangulation for the current fill: the full ring with
    /// `2 * trimmed_segments(..)` triangles removed from the tail, so that the
    /// remaining angular extent shows `value` out of `max_value` at segment
    /// granularity.
    ///
    /// The number of removed segments is `floor((1 - value/max_value) *
    /// segment_count)`, clamped into `[0, segment_count]`: a value at or
    /// above `max_value` keeps the whole ring, one at or below `0` keeps
    /// nothing.
    pub fn form_valuebar_triangles(segment_count: usize, max_value: i64, value: i64) -> (triangles:
        Vec<Triangle>)
        requires
            segment_count <= MAX_SEGMENT_COUNT,
            1 <= max_value,
        ensures
            triangles@ == filled_triangles(
                segment_count as int,
                max_value as int,
                value as int,
            ),
    {
        let ghost n: int = segment_count as int;
        let ghost m: int = max_value as int;
        let ghost v: int = value as int;
        proof {
            lemma_trimmed_in_range(n, m, v);
        }
        let mut triangles = Self::form_triangles(segment_count);
        let detached_value_segments: usize = if value <= 0 {
            segment_count
        } else if value >= max_value {
            0
        } else {
            proof {
                vstd::arithmetic::mul::lemma_mul_upper_bound(
                    m - v,
                    i64::MAX as int,
                    n,
                    MAX_SEGMENT_COUNT as int,
                );
            }
            let numerator: u128 = ((max_value - value) as u128) * (segment_count as u128);
            (numerator / (max_value as u128)) as usize
        };
        proof {
            assert(detached_value_segments as int == trimmed_segments(n, m, v));
            assert(full_ring(n).take(2 * n) =~= full_ring(n));
        }
        if detached_value_segments > 0 {
            let mut segment: usize = 0;
            while segment < detached_value_segments
                invariant
                    n == segment_count as int,
                    segment <= detached_value_segments,
                    detached_value_segments <= segment_count <= MAX_SEGMENT_COUNT,
                    triangles@ == full_ring(segment_count as int).take(
                        2 * (segment_count - segment),
                    ),
                decreases detached_value_segments - segment,
            {
                let ghost len0: int = 2 * (segment_count as int - segment as int);
                proof {
                    assert(triangles@.len() == len0);
                }
                triangles.pop();
                proof {
                    assert(triangles@ =~= full_ring(n).take(len0 - 1));
                }
                triangles.pop();
                proof {
                    assert(triangles@ =~= full_ring(n).take(len0 - 2));
                }
                segment = segment + 1;
            }
        }
        proof {
            assert(triangles@ =~= filled_triangles(n, m, v));
        }
        triangles
    }

    /// Flattens a triangle list into the index buffer a mesh store consumes:
    /// the three corners of each triangle, in order.
    fn flatten(triangles: &Vec<Triangle>) -> (buffer: Vec<u32>)
        ensures
            buffer@ == flat_indices(triangles@),
            buffer@.len() == 3 * triangles@.len(),
    {
        let mut buffer: Vec<u32> = Vec::new();
        let mut t: usize = 0;
        while t < triangles.len()
            invariant
                t <= triangles@.len(),
                buffer@.len() == 3 * t,
                forall|j: int|
                    0 <= j < buffer@.len() ==> buffer@[j] == flat_indices(triangles@)[j],
            decreases triangles@.len() - t,
        {
            let tri = triangles[t];
            buffer.push(tri.a);
            buffer.push(tri.b);
            buffer.push(tri.c);
            proof {
                let j0: int = 3 * t as int;
                assert(j0 / 3 == t as int && j0 % 3 == 0);
                assert((j0 + 1) / 3 == t as int && (j0 + 1) % 3 == 1);
                assert((j0 + 2) / 3 == t as int && (j0 + 2) % 3 == 2);
            }
            t = t + 1;
        }
        proof {
            assert(buffer@ =~= flat_indices(triangles@));
        }
        buffer
    }

    /// Applies re-triangulation for the current `value`: recomputes the index
    /// buffer and returns it flattened, ready to be pushed into the external
    /// mesh store. The vertex buffer is untouched.
    pub fn regenerate_mesh(&mut self) -> (buffer: Vec<u32>)
        requires
            old(self).valid_config(),
        ensures
            final(self).wf(),
            final(self).value == old(self).value,
            final(self).max_value == old(self).max_value,
            final(self).segment_count == old(self).segment_count,
            final(self).vertices@ == old(self).vertices@,
            buffer@ == flat_indices(final(self).indices@),
    {
        let indices = Self::form_valuebar_triangles(self.segment_count, self.max_value, self.value);
        let buffer = Self::flatten(&indices);
        self.indices = indices;
        buffer
    }

    /// Adds `val` to the current value, clamping the result into
    /// `[0, max_value]`, then recomputes and returns the flattened index
    /// buffer.
    pub fn add_value(&mut self, val: i64) -> (buffer: Vec<u32>)
        requires
            old(self).valid_config(),
        ensures
            final(self).wf(),
            final(self).value as int == clamped(
                old(self).value + val,
                old(self).max_value as int,
            ),
            final(self).max_value == old(self).max_value,
            final(self).segment_count == old(self).segment_count,
            final(self).vertices@ == old(self).vertices@,
            buffer@ == flat_indices(final(self).indices@),
    {
        let sum: i128 = self.value as i128 + val as i128;
        self.value = if sum < 0 {
            0
        } else if sum > self.max_value as i128 {
            self.max_value
        } else {
            sum as i64
        };
        self.regenerate_mesh()
    }

    /// Replaces the current value with `val` unconditionally, then recomputes
    /// and returns the flattened index buffer.
    ///
    /// Unlike [`Self::add_value`] this does not clamp: a value outside
    /// `[0, max_value]` is stored as given, and only the triangulation bounds
    /// its visible effect (the bar shows empty below `0` and full above
    /// `max_value`). Callers that want the clamped behaviour on an absolute
    /// write should clamp before calling.
    pub fn set_value(&mut self, val: i64) -> (buffer: Vec<u32>)
        requires
            old(self).valid_config(),
        ensures
            final(self).wf(),
            final(self).value == val,
            final(self).max_value == old(self).max_value,
            final(self).segment_count == old(self).segment_count,
            final(self).vertices@ == old(self).vertices@,
            buffer@ == flat_indices(final(self).indices@),
    {
        self.value = val;
        self.regenerate_mesh()
    }
}

} // verus!

