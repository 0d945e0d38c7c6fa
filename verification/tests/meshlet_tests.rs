use bevy_meshopt::{Indices, Mesh, OptError, Topology};

fn bits3(p: [f32; 3]) -> [u32; 3] {
    [p[0].to_bits(), p[1].to_bits(), p[2].to_bits()]
}

/// A flat 3x3 vertex grid of 8 triangles.
fn grid_mesh() -> Mesh {
    let mut positions = Vec::new();
    for r in 0..3 {
        for c in 0..3 {
            positions.push(bits3([c as f32, r as f32, 0.0]));
        }
    }
    let mut indices: Vec<u32> = Vec::new();
    for r in 0..2u32 {
        for c in 0..2u32 {
            let v0 = r * 3 + c;
            indices.extend_from_slice(&[v0, v0 + 3, v0 + 1, v0 + 1, v0 + 3, v0 + 4]);
        }
    }
    Mesh {
        topology: Topology::TriangleList,
        indices: Some(Indices::U32(indices)),
        positions: Some(positions),
    }
}

#[test]
fn meshlets_cover_the_grid() {
    let mesh = grid_mesh();
    let meshlets = mesh.meshlets(64, 124, 0.0f32.to_bits()).unwrap();
    assert!(meshlets.len() >= 1);
    let mut triangles = 0;
    for m in meshlets.iter() {
        triangles += m.triangles.len() / 3;
        assert!(m.vertices.len() <= 64);
        assert!(m.triangles.len() / 3 <= 124);
        // every meshlet vertex refers back into the original vertex buffer
        assert!(m.vertices.iter().all(|&v| (v as usize) < 9));
    }
    assert_eq!(triangles, 8);
}

#[test]
fn partial_triangle_count_never_reaches_clustering() {
    let mut mesh = grid_mesh();
    mesh.indices = Some(Indices::U32(vec![0, 1, 2, 3]));
    let r = mesh.meshlets(64, 124, 0.0f32.to_bits());
    assert!(matches!(r, Err(OptError::InvalidIndexCount(4))));
}

#[test]
fn meshlets_validate_the_mesh_first() {
    let mut mesh = grid_mesh();
    mesh.positions = None;
    assert!(matches!(mesh.meshlets(64, 124, 0.0f32.to_bits()), Err(OptError::MissingPositions)));

    let mut mesh = grid_mesh();
    mesh.topology = Topology::PointList;
    assert!(matches!(
        mesh.meshlets(64, 124, 0.0f32.to_bits()),
        Err(OptError::UnsupportedPrimitiveTopology(Topology::PointList))
    ));

    let mut mesh = grid_mesh();
    mesh.indices = None;
    assert!(matches!(mesh.meshlets(64, 124, 0.0f32.to_bits()), Err(OptError::MissingIndices)));
}

#[test]
fn cone_weight_is_passed_through() {
    let mesh = grid_mesh();
    let balanced = mesh.meshlets(4, 4, 0.0f32.to_bits()).unwrap();
    let culled = mesh.meshlets(4, 4, 1.0f32.to_bits()).unwrap();
    // both weights split the same flat grid into the same number of
    // triangles overall
    let count = |ms: &meshopt::clusterize::Meshlets| -> usize {
        ms.iter().map(|m| m.triangles.len() / 3).sum()
    };
    assert_eq!(count(&balanced), 8);
    assert_eq!(count(&culled), 8);
}
