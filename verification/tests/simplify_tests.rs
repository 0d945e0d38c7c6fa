use bevy_meshopt::{Indices, Mesh, OptError, SimplifyParams, TargetIndices, Topology};

fn bits3(p: [f32; 3]) -> [u32; 3] {
    [p[0].to_bits(), p[1].to_bits(), p[2].to_bits()]
}

/// A flat 3x3 vertex grid of 8 triangles; easy to decimate.
fn grid_mesh() -> Mesh {
    let mut positions = Vec::new();
    for r in 0..3 {
        for c in 0..3 {
            positions.push(bits3([c as f32, r as f32, 0.0]));
        }
    }
    let mut indices: Vec<u32> = Vec::new();
    for r in 0..2u32 {
        for c in 0..2u32 {
            let v0 = r * 3 + c;
            indices.extend_from_slice(&[v0, v0 + 3, v0 + 1, v0 + 1, v0 + 3, v0 + 4]);
        }
    }
    Mesh {
        topology: Topology::TriangleList,
        indices: Some(Indices::U32(indices)),
        positions: Some(positions),
    }
}

fn lenient(target: TargetIndices) -> SimplifyParams<'static> {
    SimplifyParams {
        max_error: 1.0f32.to_bits(),
        target_index_count: target,
        options: 0,
        sloppy: false,
        vertex_locks: None,
    }
}

#[test]
fn simplify_reaches_absolute_target_on_flat_grid() {
    let mesh = grid_mesh();
    let (indices, _err) = mesh
        .simplify_new_indices(&lenient(TargetIndices::Count(6)))
        .unwrap();
    assert!(indices.len() <= 6);
    assert_eq!(indices.len() % 3, 0);
    assert!(indices.iter().all(|&i| (i as usize) < 9));
}

#[test]
fn simplified_indices_stay_within_vertex_count() {
    let mesh = grid_mesh();
    for k in [3usize, 6, 12, 24] {
        let (indices, _err) = mesh
            .simplify_new_indices(&lenient(TargetIndices::Count(k)))
            .unwrap();
        assert_eq!(indices.len() % 3, 0);
        assert!(indices.len() <= 24);
        assert!(indices.iter().all(|&i| (i as usize) < 9));
    }
}

#[test]
fn simplify_reports_a_nonnegative_error() {
    let mesh = grid_mesh();
    let (_indices, err) = mesh
        .simplify_new_indices(&lenient(TargetIndices::Count(6)))
        .unwrap();
    assert!(f32::from_bits(err) >= 0.0);
}

#[test]
fn sloppy_mode_reaches_the_target() {
    let mesh = grid_mesh();
    let mut params = lenient(TargetIndices::Count(6));
    params.sloppy = true;
    let (indices, _err) = mesh.simplify_new_indices(&params).unwrap();
    assert!(indices.len() <= 6);
    assert_eq!(indices.len() % 3, 0);
    assert!(indices.iter().all(|&i| (i as usize) < 9));
}

#[test]
fn fully_locked_mesh_keeps_all_triangles() {
    let mesh = grid_mesh();
    let locks = vec![true; 9];
    let mut params = lenient(TargetIndices::Count(3));
    params.vertex_locks = Some(&locks);
    let (indices, _err) = mesh.simplify_new_indices(&params).unwrap();
    assert_eq!(indices.len(), 24);
}

#[test]
fn unlocked_lock_mask_still_allows_reduction() {
    let mesh = grid_mesh();
    let locks = vec![false; 9];
    let mut params = lenient(TargetIndices::Count(6));
    params.vertex_locks = Some(&locks);
    let (exact, _err) = mesh.simplify_new_indices(&params).unwrap();
    assert!(exact.len() <= 6);
    params.sloppy = true;
    let (sloppy, _err) = mesh.simplify_new_indices(&params).unwrap();
    assert!(sloppy.len() <= 6);
    assert_eq!(sloppy.len() % 3, 0);
}

#[test]
fn simplify_writes_the_reduced_buffer_back() {
    let mut mesh = grid_mesh();
    let expected = mesh
        .simplify_new_indices(&lenient(TargetIndices::Count(6)))
        .unwrap();
    mesh.simplify(&lenient(TargetIndices::Count(6))).unwrap();
    assert_eq!(mesh.indices, Some(Indices::U32(expected.0)));
    assert_eq!(mesh.positions, grid_mesh().positions);
}

#[test]
fn partial_triangle_count_fails_simplification() {
    let mut mesh = grid_mesh();
    mesh.indices = Some(Indices::U32(vec![0, 1, 2, 3]));
    let before = mesh.clone();
    let r = mesh.simplify(&lenient(TargetIndices::Count(3)));
    assert!(matches!(r, Err(OptError::InvalidIndexCount(4))));
    assert_eq!(mesh, before);
}

#[test]
fn missing_positions_fail_simplification_without_mutation() {
    let mut mesh = grid_mesh();
    mesh.positions = None;
    let before = mesh.clone();
    let r = mesh.simplify(&lenient(TargetIndices::Count(6)));
    assert!(matches!(r, Err(OptError::MissingPositions)));
    assert_eq!(mesh, before);
}

#[test]
fn mismatched_vertex_locks_are_rejected_before_decimation() {
    let mut mesh = grid_mesh();
    let locks = vec![false; 5];
    let mut params = lenient(TargetIndices::Count(6));
    params.vertex_locks = Some(&locks);
    let before = mesh.clone();
    let r = mesh.simplify(&params);
    assert!(matches!(r, Err(OptError::InvalidVertexLockCount(5))));
    assert_eq!(mesh, before);

    params.sloppy = true;
    let r = mesh.simplify(&params);
    assert!(matches!(r, Err(OptError::InvalidVertexLockCount(5))));
    assert_eq!(mesh, before);
}

#[test]
fn degenerate_results_are_never_committed() {
    // an explicit target of zero indices still keeps the mesh's buffer when
    // the decimator would return fewer than one triangle; with a flat grid
    // and a huge error allowance the sloppy mode can reach zero
    let mut mesh = grid_mesh();
    let mut params = lenient(TargetIndices::Count(0));
    params.sloppy = true;
    mesh.simplify(&params).unwrap();
    match &mesh.indices {
        Some(Indices::U32(v)) => assert!(v.len() >= 3),
        _ => panic!("canonical indices expected"),
    }
}

#[test]
fn default_parameters_are_the_documented_ones() {
    let p = SimplifyParams::default();
    assert_eq!(p.max_error, 0.01f32.to_bits());
    assert!(matches!(p.target_index_count, TargetIndices::Multiplier(b) if b == 0.5f32.to_bits()));
    assert_eq!(p.options, 0);
    assert!(!p.sloppy);
    assert!(p.vertex_locks.is_none());
}
