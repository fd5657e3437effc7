use radial_bar::InvalidConfiguration;
use radial_bar::RadialBar2D;

#[test]
fn new_rejects_zero_segment_count() {
    let result = RadialBar2D::new(10, 100, 0);
    assert_eq!(result.unwrap_err(), InvalidConfiguration);
}

#[test]
fn new_rejects_zero_max_value() {
    let result = RadialBar2D::new(10, 0, 18);
    assert_eq!(result.unwrap_err(), InvalidConfiguration);
}

#[test]
fn new_rejects_negative_max_value() {
    let result = RadialBar2D::new(10, -5, 18);
    assert_eq!(result.unwrap_err(), InvalidConfiguration);
}

#[test]
fn new_builds_full_bar() {
    let bar = RadialBar2D::new(360, 360, 18).unwrap();
    assert_eq!(bar.value, 360);
    assert_eq!(bar.max_value, 360);
    assert_eq!(bar.segment_count, 18);
    assert_eq!(bar.vertices.len(), 36);
    assert_eq!(bar.indices.len(), 36);
}

#[test]
fn new_clamps_initial_value() {
    let high = RadialBar2D::new(500, 360, 18).unwrap();
    assert_eq!(high.value, 360);
    let low = RadialBar2D::new(-5, 360, 18).unwrap();
    assert_eq!(low.value, 0);
    assert_eq!(low.indices.len(), 0);
}

#[test]
fn add_value_clamps_at_max() {
    let mut bar = RadialBar2D::new(300, 360, 18).unwrap();
    bar.add_value(100);
    assert_eq!(bar.value, 360);
    assert_eq!(bar.indices.len(), 36);
}

#[test]
fn add_value_clamps_at_zero() {
    let mut bar = RadialBar2D::new(300, 360, 18).unwrap();
    bar.add_value(-1000);
    assert_eq!(bar.value, 0);
    assert_eq!(bar.indices.len(), 0);
}

#[test]
fn add_value_moves_the_fill() {
    let mut bar = RadialBar2D::new(100, 100, 10).unwrap();
    assert_eq!(bar.indices.len(), 20);
    bar.add_value(-45);
    // value 55 of 100: 4 segments trimmed, 12 triangles stay.
    assert_eq!(bar.value, 55);
    assert_eq!(bar.indices.len(), 12);
}

#[test]
fn set_value_does_not_clamp() {
    let mut bar = RadialBar2D::new(100, 360, 18).unwrap();
    bar.set_value(400);
    assert_eq!(bar.value, 400);
    // The triangulation still shows at most the full ring.
    assert_eq!(bar.indices.len(), 36);
    bar.set_value(-10);
    assert_eq!(bar.value, -10);
    assert_eq!(bar.indices.len(), 0);
}

#[test]
fn set_value_regenerates_indices() {
    let mut bar = RadialBar2D::new(100, 100, 10).unwrap();
    bar.set_value(55);
    assert_eq!(bar.indices.len(), 12);
    assert_eq!(bar.indices[..], RadialBar2D::form_triangles(10)[..12]);
}

#[test]
fn mutation_leaves_vertices_untouched() {
    let mut bar = RadialBar2D::new(100, 100, 10).unwrap();
    let vertices_before = bar.vertices.clone();
    bar.set_value(55);
    bar.add_value(20);
    assert_eq!(bar.vertices, vertices_before);
}

#[test]
fn regenerate_mesh_returns_flattened_indices() {
    let mut bar = RadialBar2D::new(2, 2, 2).unwrap();
    let buffer = bar.regenerate_mesh();
    // Two segments: (0,2,3) (0,3,1) (2,0,1) (2,1,3), flattened corner by corner.
    assert_eq!(buffer, vec![0, 2, 3, 0, 3, 1, 2, 0, 1, 2, 1, 3]);
}

#[test]
fn mutators_return_the_new_index_buffer() {
    let mut bar = RadialBar2D::new(0, 100, 10).unwrap();
    let buffer = bar.add_value(55);
    assert_eq!(buffer.len(), 3 * bar.indices.len());
    let buffer = bar.set_value(100);
    assert_eq!(buffer.len(), 60);
}
