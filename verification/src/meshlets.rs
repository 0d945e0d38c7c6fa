use vstd::prelude::*;

verus! {

use crate::fbits;
use crate::mesh::{
    index_error,
    mesh_indices,
    mesh_positions,
    position_error,
    valid_indices_u32,
    Mesh,
    OptError,
};

/// meshopt's aggregate of bounded-size clusters. The cluster internals are
/// not owned by this library: the value is carried through opaquely, and
/// only supplying a correctly shaped vertex view to the builder is this
/// library's responsibility.
#[verifier::external_type_specification]
#[verifier::external_body]
pub struct ExMeshlets(meshopt::clusterize::Meshlets);

/// The validation verdict of meshlet building: the index buffer first, then
/// positions and topology.
pub open spec fn meshlets_error(m: Mesh) -> Option<OptError> {
    if index_error(m) is Some {
        index_error(m)
    } else {
        position_error(m)
    }
}

/// Relies on meshopt::clusterize::build_meshlets: splits the mesh into
/// meshlets of at most the given vertex and triangle counts, reading the
/// positions through a 12-byte-stride view over their bytes; the cone
/// weight trades cluster balance against normal-cone tightness. The call
/// always succeeds: the view is built over exactly twelve bytes per
/// vertex, so its one failure condition (a byte length not divisible by
/// the stride) cannot arise, and the clustering routine is total on inputs
/// within its limits. The error arm stands only to surface the view
/// constructor's own message, as the library reports it.
#[verifier::external_body]
fn run_build_meshlets(
    indices: &Vec<u32>,
    positions: &Vec<[u32; 3]>,
    max_vertices: usize,
    max_triangles: usize,
    cone_weight_bits: u32,
) -> (r: Result<meshopt::clusterize::Meshlets, String>)
    requires
        indices@.len() % 3 == 0,
        valid_indices_u32(indices@, positions@.len()),
        3 <= max_vertices <= 256,
        1 <= max_triangles <= 512,
        max_triangles % 4 == 0,
        fbits::ge_zero(cone_weight_bits),
        fbits::le_one(cone_weight_bits),
    ensures
        r is Ok,
{
    let adapter = match meshopt::VertexDataAdapter::new(
        bytemuck::cast_slice(positions.as_slice()), core::mem::size_of::<[u32; 3]>(), 0,
    ) {
        Ok(a) => a,
        Err(e) => return Err(e.to_string()),
    };
    Ok(meshopt::clusterize::build_meshlets(
        indices, &adapter, max_vertices, max_triangles, bytemuck::cast(cone_weight_bits),
    ))
}

impl Mesh {
    /// Builds meshlets over the validated index buffer and position view.
    /// The size bounds must lie within the clustering library's limits
    /// (vertices per meshlet in [3, 256]; triangles per meshlet in
    /// [1, 512] and a multiple of four), and the cone weight pattern must
    /// denote a value in [0, 1]. An unsuitable mesh is rejected before the
    /// clustering call runs; once validation passes, success is owed, since
    /// the position view (twelve bytes per vertex, no offset) can never be
    /// malformed. A failure the view constructor could report in its own
    /// right would be wrapped verbatim.
    pub fn meshlets(
        &self,
        max_vertices: usize,
        max_triangles: usize,
        cone_weight: u32,
    ) -> (r: Result<meshopt::clusterize::Meshlets, OptError>)
        requires
            self.wf(),
            3 <= max_vertices <= 256,
            1 <= max_triangles <= 512,
            max_triangles % 4 == 0,
            fbits::ge_zero(cone_weight),
            fbits::le_one(cone_weight),
        ensures
            r is Ok <==> meshlets_error(*self) is None,
            match r {
                Ok(_) => meshlets_error(*self) is None,
                Err(e) => meshlets_error(*self) == Some(e),
            },
    {
        let indices = match mesh_indices(self) {
            Ok(v) => v,
            Err(e) => {
                return Err(e);
            },
        };
        let positions = match mesh_positions(self) {
            Ok(p) => p,
            Err(e) => {
                return Err(e);
            },
        };

        match run_build_meshlets(indices, positions, max_vertices, max_triangles, cone_weight) {
            Ok(m) => Ok(m),
            Err(msg) => Err(OptError::Meshopt(msg)),
        }
    }
}

} // verus!
