use radial_bar::RadialBar2D;
use radial_bar::Triangle;

fn tri(a: u32, b: u32, c: u32) -> Triangle {
    Triangle { a, b, c }
}

#[test]
fn vertex_count_matches_segment_count() {
    for n in [1usize, 2, 3, 10, 18] {
        let vertices = RadialBar2D::generate_vertices(n);
        assert_eq!(vertices.len(), 2 * n);
    }
}

#[test]
fn vertices_interleave_outer_then_inner() {
    let vertices = RadialBar2D::generate_vertices(4);
    for i in 0..4usize {
        assert_eq!(vertices[2 * i].step, i);
        assert!(vertices[2 * i].outer);
        assert_eq!(vertices[2 * i + 1].step, i);
        assert!(!vertices[2 * i + 1].outer);
    }
}

#[test]
fn full_ring_exact_triangles_three_segments() {
    let triangles = RadialBar2D::form_triangles(3);
    let expected = vec![
        tri(0, 2, 3),
        tri(0, 3, 1),
        tri(2, 4, 5),
        tri(2, 5, 3),
        tri(4, 0, 1),
        tri(4, 1, 5),
    ];
    assert_eq!(triangles, expected);
}

#[test]
fn full_ring_count_and_index_bounds() {
    for n in [1usize, 2, 5, 18] {
        let triangles = RadialBar2D::form_triangles(n);
        assert_eq!(triangles.len(), 2 * n);
        for t in &triangles {
            assert!((t.a as usize) < 2 * n);
            assert!((t.b as usize) < 2 * n);
            assert!((t.c as usize) < 2 * n);
        }
    }
}

#[test]
fn boundary_fill_full() {
    let triangles = RadialBar2D::form_valuebar_triangles(18, 360, 360);
    assert_eq!(triangles.len(), 36);
    assert_eq!(triangles, RadialBar2D::form_triangles(18));
}

#[test]
fn boundary_fill_empty() {
    let triangles = RadialBar2D::form_valuebar_triangles(18, 360, 0);
    assert_eq!(triangles.len(), 0);
}

#[test]
fn segment_granularity() {
    // f = 0.55, so floor(0.45 * 10) = 4 segments are removed: 12 triangles stay.
    let triangles = RadialBar2D::form_valuebar_triangles(10, 100, 55);
    assert_eq!(triangles.len(), 12);
}

#[test]
fn trimming_keeps_a_prefix_of_the_full_ring() {
    let full = RadialBar2D::form_triangles(10);
    let trimmed = RadialBar2D::form_valuebar_triangles(10, 100, 55);
    assert_eq!(trimmed[..], full[..12]);
}

#[test]
fn fill_is_monotonic_in_value() {
    let mut previous = 0usize;
    for v in 0..=100i64 {
        let len = RadialBar2D::form_valuebar_triangles(10, 100, v).len();
        assert!(len >= previous);
        previous = len;
    }
    assert_eq!(previous, 20);
}

#[test]
fn value_above_max_keeps_the_whole_ring() {
    let triangles = RadialBar2D::form_valuebar_triangles(10, 100, 250);
    assert_eq!(triangles.len(), 20);
}

#[test]
fn negative_value_removes_everything() {
    let triangles = RadialBar2D::form_valuebar_triangles(10, 100, -30);
    assert_eq!(triangles.len(), 0);
}

#[test]
fn reconstruction_is_idempotent() {
    let first = RadialBar2D::form_valuebar_triangles(18, 360, 123);
    let second = RadialBar2D::form_valuebar_triangles(18, 360, 123);
    assert_eq!(first, second);
}
