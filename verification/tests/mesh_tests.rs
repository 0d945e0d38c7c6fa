use bevy_meshopt::mesh::{mesh_indices, mesh_positions, take_mesh_indices_mut};
use bevy_meshopt::{Indices, Mesh, OptError, Topology};

fn bits3(p: [f32; 3]) -> [u32; 3] {
    [p[0].to_bits(), p[1].to_bits(), p[2].to_bits()]
}

fn quad_positions() -> Vec<[u32; 3]> {
    vec![
        bits3([0.0, 0.0, 0.0]),
        bits3([1.0, 0.0, 0.0]),
        bits3([1.0, 1.0, 0.0]),
        bits3([0.0, 1.0, 0.0]),
    ]
}

#[test]
fn widens_narrow_indices_preserving_values() {
    let mut mesh = Mesh {
        topology: Topology::TriangleList,
        indices: Some(Indices::U16(vec![0, 1, 2, 0, 2, 3])),
        positions: Some(quad_positions()),
    };
    mesh.assert_indices_u32();
    assert_eq!(mesh.indices, Some(Indices::U32(vec![0, 1, 2, 0, 2, 3])));
}

#[test]
fn widening_twice_is_a_no_op() {
    let mut mesh = Mesh {
        topology: Topology::TriangleList,
        indices: Some(Indices::U16(vec![2, 1, 0])),
        positions: Some(quad_positions()),
    };
    mesh.assert_indices_u32();
    let after_first = mesh.clone();
    mesh.assert_indices_u32();
    assert_eq!(mesh, after_first);
}

#[test]
fn widening_leaves_canonical_and_absent_indices_alone() {
    let mut mesh = Mesh {
        topology: Topology::TriangleList,
        indices: Some(Indices::U32(vec![0, 1, 2])),
        positions: Some(quad_positions()),
    };
    let before = mesh.clone();
    mesh.assert_indices_u32();
    assert_eq!(mesh, before);

    let mut empty = Mesh { topology: Topology::TriangleList, indices: None, positions: None };
    empty.assert_indices_u32();
    assert_eq!(empty.indices, None);
}

#[test]
fn missing_indices_are_reported() {
    let mesh = Mesh {
        topology: Topology::TriangleList,
        indices: None,
        positions: Some(quad_positions()),
    };
    assert!(matches!(mesh_indices(&mesh), Err(OptError::MissingIndices)));
}

#[test]
fn narrow_indices_are_an_unsupported_format() {
    let mesh = Mesh {
        topology: Topology::TriangleList,
        indices: Some(Indices::U16(vec![0, 1, 2])),
        positions: Some(quad_positions()),
    };
    assert!(matches!(mesh_indices(&mesh), Err(OptError::UnsupportedIndexFormat)));
}

#[test]
fn partial_triangle_count_is_invalid() {
    let mesh = Mesh {
        topology: Topology::TriangleList,
        indices: Some(Indices::U32(vec![0, 1, 2, 3])),
        positions: Some(quad_positions()),
    };
    assert!(matches!(mesh_indices(&mesh), Err(OptError::InvalidIndexCount(4))));
}

#[test]
fn empty_index_buffer_is_invalid() {
    let mesh = Mesh {
        topology: Topology::TriangleList,
        indices: Some(Indices::U32(vec![])),
        positions: Some(quad_positions()),
    };
    assert!(matches!(mesh_indices(&mesh), Err(OptError::InvalidIndexCount(0))));
}

#[test]
fn non_triangle_list_topology_is_rejected() {
    let mesh = Mesh {
        topology: Topology::TriangleStrip,
        indices: Some(Indices::U32(vec![0, 1, 2])),
        positions: Some(quad_positions()),
    };
    assert!(matches!(
        mesh_positions(&mesh),
        Err(OptError::UnsupportedPrimitiveTopology(Topology::TriangleStrip))
    ));
}

#[test]
fn valid_indices_can_be_borrowed() {
    let mesh = Mesh {
        topology: Topology::TriangleList,
        indices: Some(Indices::U32(vec![0, 1, 2, 0, 2, 3])),
        positions: Some(quad_positions()),
    };
    assert_eq!(mesh_indices(&mesh).unwrap(), &vec![0, 1, 2, 0, 2, 3]);
    assert_eq!(mesh_positions(&mesh).unwrap(), &quad_positions());
}

#[test]
fn taking_indices_removes_them_and_restores_nothing_on_success() {
    let mut mesh = Mesh {
        topology: Topology::TriangleList,
        indices: Some(Indices::U32(vec![0, 1, 2])),
        positions: Some(quad_positions()),
    };
    assert_eq!(take_mesh_indices_mut(&mut mesh).unwrap(), vec![0, 1, 2]);
    assert_eq!(mesh.indices, None);
}

#[test]
fn taking_indices_from_an_unsuitable_mesh_leaves_it_untouched() {
    let mut mesh = Mesh {
        topology: Topology::TriangleList,
        indices: Some(Indices::U32(vec![0, 1, 2, 3])),
        positions: Some(quad_positions()),
    };
    let before = mesh.clone();
    assert!(matches!(take_mesh_indices_mut(&mut mesh), Err(OptError::InvalidIndexCount(4))));
    assert_eq!(mesh, before);

    let mut narrow = Mesh {
        topology: Topology::TriangleList,
        indices: Some(Indices::U16(vec![0, 1, 2])),
        positions: Some(quad_positions()),
    };
    let before = narrow.clone();
    assert!(matches!(take_mesh_indices_mut(&mut narrow), Err(OptError::UnsupportedIndexFormat)));
    assert_eq!(narrow, before);
}

#[test]
fn absent_positions_are_reported() {
    let mesh = Mesh {
        topology: Topology::TriangleList,
        indices: Some(Indices::U32(vec![0, 1, 2])),
        positions: None,
    };
    assert!(matches!(mesh_positions(&mesh), Err(OptError::MissingPositions)));
}
