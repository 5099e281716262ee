use voxel_mesh::{Cell, MeshBuilder, MeshError, Position, RenderMesh, Vector2, Vector3, MAX_VERTICES};

fn scalar(value: f64) -> u64 {
    value.to_bits()
}

fn point(x: f64, y: f64, z: f64) -> Position {
    Position::local(Vector3::new(scalar(x), scalar(y), scalar(z)))
}

fn normal(x: f64, y: f64, z: f64) -> Vector3 {
    Vector3::new(scalar(x), scalar(y), scalar(z))
}

fn uv(u: f64, v: f64) -> Vector2 {
    Vector2::new(scalar(u), scalar(v))
}

/// A triangle whose corners are told apart by `tag`.
fn triangle(tag: f64) -> MeshBuilder {
    MeshBuilder::from_parts(
        vec![point(tag, 0.0, 0.0), point(tag, 1.0, 0.0), point(tag, 0.0, 1.0)],
        vec![normal(0.0, 0.0, 1.0); 3],
        vec![uv(0.0, 0.0), uv(1.0, 0.0), uv(0.0, 1.0)],
        vec![0, 1, 2],
    )
    .unwrap()
}

fn corners(mesh: &RenderMesh) -> Vec<Position> {
    mesh.indices.iter().map(|&i| mesh.positions[i as usize]).collect()
}

#[test]
fn new_buffer_is_empty() {
    let buffer = MeshBuilder::new();
    assert!(buffer.is_empty());
    assert_eq!(buffer.vertex_count(), 0);
    assert_eq!(buffer.index_count(), 0);
    let mesh = buffer.to_render_mesh();
    assert!(mesh.positions.is_empty());
    assert!(mesh.normals.is_empty());
    assert!(mesh.uvs.is_empty());
    assert!(mesh.indices.is_empty());
    assert!(MeshBuilder::default().is_empty());
}

#[test]
fn append_moves_indices_up_by_the_vertices_held() {
    let mut buffer = triangle(1.0);
    let positions = vec![point(2.0, 0.0, 0.0), point(2.0, 1.0, 0.0), point(2.0, 0.0, 1.0), point(2.0, 1.0, 1.0)];
    let normals = vec![normal(1.0, 0.0, 0.0); 4];
    let uvs = vec![uv(0.0, 0.0), uv(1.0, 0.0), uv(0.0, 1.0), uv(1.0, 1.0)];
    assert_eq!(buffer.append(&positions, &normals, &uvs, &[0, 1, 2, 2, 1, 3]), Ok(()));
    let mesh = buffer.to_render_mesh();
    assert_eq!(mesh.positions.len(), 7);
    assert_eq!(mesh.normals.len(), 7);
    assert_eq!(mesh.uvs.len(), 7);
    assert_eq!(mesh.indices, vec![0, 1, 2, 3, 4, 5, 5, 4, 6]);
    assert_eq!(mesh.positions[3], positions[0]);
    assert_eq!(mesh.positions[6], positions[3]);
    assert_eq!(mesh.normals[2], normal(0.0, 0.0, 1.0));
    assert_eq!(mesh.normals[3], normal(1.0, 0.0, 0.0));
    assert_eq!(mesh.uvs[6], uv(1.0, 1.0));
    assert_eq!(buffer.vertex_count(), 7);
    assert_eq!(buffer.index_count(), 9);
}

#[test]
fn append_to_empty_buffer_keeps_indices() {
    let mut buffer = MeshBuilder::new();
    let positions = vec![point(0.0, 0.0, 0.0), point(1.0, 0.0, 0.0), point(0.0, 1.0, 0.0)];
    assert_eq!(buffer.append(&positions, &[normal(0.0, 0.0, 1.0); 3], &[uv(0.0, 0.0); 3], &[2, 1, 0]), Ok(()));
    assert_eq!(buffer.to_render_mesh().indices, vec![2, 1, 0]);
    assert_eq!(buffer.to_render_mesh().positions, positions);
}

#[test]
fn append_refuses_counts_that_disagree() {
    let mut buffer = triangle(1.0);
    let before = buffer.to_render_mesh();
    let positions = vec![point(0.0, 0.0, 0.0), point(1.0, 0.0, 0.0), point(0.0, 1.0, 0.0)];
    let three = [normal(0.0, 0.0, 1.0); 3];
    let two = [normal(0.0, 0.0, 1.0); 2];
    let uvs3 = [uv(0.0, 0.0); 3];
    let uvs4 = [uv(0.0, 0.0); 4];
    assert_eq!(buffer.append(&positions, &two, &uvs3, &[0, 1, 2]), Err(MeshError::InvalidGeometry));
    assert_eq!(buffer.append(&positions, &three, &uvs4, &[0, 1, 2]), Err(MeshError::InvalidGeometry));
    assert_eq!(buffer.append(&positions[..2], &three, &uvs3, &[0, 1, 1]), Err(MeshError::InvalidGeometry));
    assert_eq!(buffer.to_render_mesh(), before);
}

#[test]
fn append_refuses_an_index_outside_the_fragment() {
    let mut buffer = triangle(1.0);
    let before = buffer.to_render_mesh();
    let positions = vec![point(0.0, 0.0, 0.0), point(1.0, 0.0, 0.0), point(0.0, 1.0, 0.0)];
    let normals = [normal(0.0, 0.0, 1.0); 3];
    let uvs = [uv(0.0, 0.0); 3];
    assert_eq!(buffer.append(&positions, &normals, &uvs, &[0, 1, 3]), Err(MeshError::InvalidGeometry));
    assert_eq!(buffer.to_render_mesh(), before);
    assert_eq!(buffer.append(&positions, &normals, &uvs, &[0, 1, 2]), Ok(()));
    assert_eq!(buffer.append(&[], &[], &[], &[0]), Err(MeshError::InvalidGeometry));
    assert_eq!(buffer.append(&[], &[], &[], &[]), Ok(()));
    assert_eq!(buffer.vertex_count(), 6);
}

#[test]
fn from_parts_checks_the_four_lists() {
    let positions = vec![point(0.0, 0.0, 0.0), point(1.0, 0.0, 0.0)];
    let normals = vec![normal(0.0, 1.0, 0.0); 2];
    let uvs = vec![uv(0.5, 0.5); 2];
    let buffer = MeshBuilder::from_parts(positions.clone(), normals.clone(), uvs.clone(), vec![1, 0, 1]).unwrap();
    let mesh = buffer.to_render_mesh();
    assert_eq!(mesh.positions, positions);
    assert_eq!(mesh.normals, normals);
    assert_eq!(mesh.uvs, uvs);
    assert_eq!(mesh.indices, vec![1, 0, 1]);
    assert_eq!(
        MeshBuilder::from_parts(positions.clone(), normals.clone(), uvs.clone(), vec![2]).err(),
        Some(MeshError::InvalidGeometry)
    );
    assert_eq!(
        MeshBuilder::from_parts(positions.clone(), vec![], uvs.clone(), vec![]).err(),
        Some(MeshError::InvalidGeometry)
    );
    assert_eq!(MeshBuilder::from_parts(positions, normals, vec![], vec![]).err(), Some(MeshError::InvalidGeometry));
}

#[test]
fn merge_is_append_of_the_other_buffer() {
    let mut merged = triangle(1.0);
    assert_eq!(merged.merge(&triangle(2.0)), Ok(()));
    let mut appended = triangle(1.0);
    let other = triangle(2.0).to_render_mesh();
    assert_eq!(appended.append(&other.positions, &other.normals, &other.uvs, &other.indices), Ok(()));
    assert_eq!(merged.to_render_mesh(), appended.to_render_mesh());
    assert_eq!(merged.to_render_mesh().indices, vec![0, 1, 2, 3, 4, 5]);
}

#[test]
fn merge_is_associative() {
    let (a, b, c) = (triangle(1.0), triangle(2.0), triangle(3.0));
    let mut left = triangle(1.0);
    left.merge(&b).unwrap();
    left.merge(&c).unwrap();
    let mut tail = triangle(2.0);
    tail.merge(&c).unwrap();
    let mut right = triangle(1.0);
    right.merge(&tail).unwrap();
    let (left, right) = (left.to_render_mesh(), right.to_render_mesh());
    assert_eq!(left, right);
    assert_eq!(left.indices, vec![0, 1, 2, 3, 4, 5, 6, 7, 8]);
    assert_eq!(corners(&left), corners(&right));
    let mut expected = corners(&a.to_render_mesh());
    expected.extend(corners(&b.to_render_mesh()));
    expected.extend(corners(&c.to_render_mesh()));
    assert_eq!(corners(&left), expected);
}

#[test]
fn merge_keeps_every_index_below_the_vertex_count() {
    let mut buffer = MeshBuilder::new();
    for round in 0..40 {
        buffer.merge(&triangle(round as f64)).unwrap();
        let mesh = buffer.to_render_mesh();
        assert_eq!(mesh.positions.len(), 3 * (round + 1));
        assert_eq!(mesh.normals.len(), mesh.positions.len());
        assert_eq!(mesh.uvs.len(), mesh.positions.len());
        assert!(mesh.indices.iter().all(|&i| (i as usize) < mesh.positions.len()));
    }
    assert_eq!(buffer.to_render_mesh().indices[117..], [117, 118, 119]);
}

#[test]
fn merging_the_empty_buffer_changes_nothing() {
    let mut buffer = triangle(1.0);
    buffer.merge(&MeshBuilder::new()).unwrap();
    assert_eq!(buffer.to_render_mesh(), triangle(1.0).to_render_mesh());
    let mut empty = MeshBuilder::new();
    empty.merge(&triangle(1.0)).unwrap();
    assert_eq!(empty.to_render_mesh(), triangle(1.0).to_render_mesh());
}

#[test]
fn render_mesh_can_be_taken_again() {
    let buffer = triangle(4.0);
    let first = buffer.to_render_mesh();
    let second = buffer.to_render_mesh();
    assert_eq!(first, second);
    assert_eq!(first.positions[1], point(4.0, 1.0, 0.0));
    assert_eq!(buffer.vertex_count(), 3);
}

#[test]
fn positions_know_their_cell() {
    let at_origin = point(0.25, 0.5, 0.75);
    assert_eq!(at_origin.cell, Cell::new(0, 0, 0));
    assert!(at_origin.cell.is_origin());
    let moved = at_origin.translate(Cell::new(3, -4, 5));
    assert_eq!(moved.cell, Cell::new(3, -4, 5));
    assert_eq!(moved.local, at_origin.local);
    assert!(!moved.cell.is_origin());
    assert!(triangle(1.0).is_at_origin());
    let away = MeshBuilder::from_parts(vec![moved], vec![normal(0.0, 0.0, 1.0)], vec![uv(0.0, 0.0)], vec![0]).unwrap();
    assert!(!away.is_at_origin());
}

#[test]
fn the_vertex_limit_is_what_32_bits_can_index() {
    assert_eq!(MAX_VERTICES as u64, u32::MAX as u64);
}

#[test]
fn every_error_has_its_own_description() {
    let all = [
        MeshError::InvalidGeometry,
        MeshError::MissingFaceObject,
        MeshError::UnsupportedPrimitive,
        MeshError::ParseError,
        MeshError::UnknownTemplate,
        MeshError::OutOfBounds,
    ];
    for (i, a) in all.iter().enumerate() {
        assert!(!a.describe().is_empty());
        for b in &all[i + 1..] {
            assert_ne!(a.describe(), b.describe());
        }
    }
    assert_eq!(MeshError::OutOfBounds.describe(), "coordinate outside of the chunk");
}
