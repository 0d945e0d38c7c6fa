use vstd::prelude::*;

verus! {

use vstd::pervasive::unreached;
use crate::mesh::{index_error, position_error, triangles_of, valid_indices_u32, Indices, Mesh, OptError};

/// What meshopt's vertex-cache optimizer produces for a given index buffer
/// and vertex count; a deterministic function of its arguments.
pub uninterp spec fn vcache_of(indices: Seq<u32>, vertex_count: nat) -> Seq<u32>;

/// What meshopt's overdraw optimizer produces for a given index buffer,
/// position attribute and threshold pattern; a deterministic function of its
/// arguments.
pub uninterp spec fn overdraw_of(
    indices: Seq<u32>,
    positions: Seq<[u32; 3]>,
    threshold_bits: u32,
) -> Seq<u32>;

/// What meshopt's vertex-fetch optimizer produces for a given index buffer
/// and position attribute: the remapped indices, the reordered positions,
/// and the number of vertices still referenced; a deterministic function of
/// its arguments.
pub uninterp spec fn vfetch_of(indices: Seq<u32>, positions: Seq<[u32; 3]>) -> (
    Seq<u32>,
    Seq<[u32; 3]>,
    nat,
);

/// Relies on meshopt::optimize_vertex_cache_in_place: reorders the triangle
/// indices in place to reduce vertex shader invocations. The pass emits
/// each input triangle verbatim exactly once, so the result is a
/// permutation of the input's triangles, windings kept, of the same
/// length, drawing its index values from the input.
#[verifier::external_body]
fn vcache_in_place(indices: &mut Vec<u32>, vertex_count: usize)
    requires
        old(indices)@.len() % 3 == 0,
        valid_indices_u32(old(indices)@, vertex_count as nat),
    ensures
        final(indices)@ == vcache_of(old(indices)@, vertex_count as nat),
        final(indices)@.len() == old(indices)@.len(),
        triangles_of(final(indices)@).to_multiset() == triangles_of(old(indices)@).to_multiset(),
        forall|i: int|
            0 <= i < final(indices)@.len() ==> old(indices)@.contains(final(indices)@[i]),
{
    meshopt::optimize_vertex_cache_in_place(indices, vertex_count);
}

/// Relies on meshopt::optimize_overdraw_in_place: reorders the triangle
/// indices in place to reduce pixel overdraw, reading the positions through
/// a 12-byte-stride view over their bytes and degrading cache efficiency at
/// most by the given threshold. The pass copies whole clusters of the
/// input's triangles verbatim in a permuted order, so the result is a
/// permutation of the input's triangles, windings kept, of the same
/// length, drawing its index values from the input.
#[verifier::external_body]
fn overdraw_in_place(indices: &mut Vec<u32>, positions: &Vec<[u32; 3]>, threshold_bits: u32)
    requires
        old(indices)@.len() % 3 == 0,
        valid_indices_u32(old(indices)@, positions@.len()),
    ensures
        final(indices)@ == overdraw_of(old(indices)@, positions@, threshold_bits),
        final(indices)@.len() == old(indices)@.len(),
        triangles_of(final(indices)@).to_multiset() == triangles_of(old(indices)@).to_multiset(),
        forall|i: int|
            0 <= i < final(indices)@.len() ==> old(indices)@.contains(final(indices)@[i]),
{
    let adapter = meshopt::VertexDataAdapter::new(
        bytemuck::cast_slice(positions.as_slice()), core::mem::size_of::<[u32; 3]>(), 0,
    ).unwrap();
    meshopt::optimize_overdraw_in_place(indices, &adapter, bytemuck::cast(threshold_bits));
}

/// Relies on meshopt::optimize_vertex_fetch_in_place: reorders the vertex
/// records in place for fetch locality and remaps the indices accordingly,
/// returning how many vertices the index buffer still references. Both
/// buffers keep their length, every remapped index addresses one of the
/// referenced vertices, and each record is copied whole as its vertex is
/// first referenced, so reading a position through a remapped index yields
/// what the old index read before the call.
#[verifier::external_body]
fn vfetch_in_place(indices: &mut Vec<u32>, positions: &mut Vec<[u32; 3]>) -> (r: usize)
    requires
        old(indices)@.len() % 3 == 0,
        valid_indices_u32(old(indices)@, old(positions)@.len()),
    ensures
        (final(indices)@, final(positions)@, r as nat) == vfetch_of(
            old(indices)@,
            old(positions)@,
        ),
        final(indices)@.len() == old(indices)@.len(),
        final(positions)@.len() == old(positions)@.len(),
        r <= old(positions)@.len(),
        valid_indices_u32(final(indices)@, r as nat),
        forall|i: int|
            0 <= i < final(indices)@.len() ==> final(positions)@[final(indices)@[i] as int] == old(
                positions,
            )@[old(indices)@[i] as int],
{
    meshopt::optimize_vertex_fetch_in_place(indices, positions)
}

/// The validation verdict of the vertex-cache pass: positions and topology
/// are checked first, then the index buffer.
pub open spec fn cache_error(m: Mesh) -> Option<OptError> {
    if position_error(m) is Some {
        position_error(m)
    } else {
        index_error(m)
    }
}

/// The validation verdict of the overdraw pass: the index buffer is checked
/// first, then positions and topology.
pub open spec fn overdraw_error(m: Mesh) -> Option<OptError> {
    if index_error(m) is Some {
        index_error(m)
    } else {
        position_error(m)
    }
}

/// The validation verdict of the vertex-fetch pass: the index buffer is
/// checked first, then the position attribute alone — this pass does not
/// read the declared topology.
pub open spec fn fetch_error(m: Mesh) -> Option<OptError> {
    if index_error(m) is Some {
        index_error(m)
    } else if m.positions is None {
        Some(OptError::MissingPositions)
    } else {
        None
    }
}

impl Mesh {
    /// The canonical index buffer as a sequence; empty when absent or narrow.
    pub open spec fn index_seq(self) -> Seq<u32> {
        match self.indices {
            Some(Indices::U32(v)) => v@,
            _ => Seq::empty(),
        }
    }

    /// The position attribute as a sequence; empty when absent.
    pub open spec fn position_seq(self) -> Seq<[u32; 3]> {
        match self.positions {
            Some(p) => p@,
            None => Seq::empty(),
        }
    }

    /// Reorders the triangles of the index buffer to improve vertex-cache
    /// reuse during sequential rendering. Positions are untouched; on
    /// failure the mesh is untouched.
    pub fn optimize_vertex_cache(&mut self) -> (r: Result<(), OptError>)
        requires
            old(self).wf(),
        ensures
            final(self).topology == old(self).topology,
            final(self).positions == old(self).positions,
            final(self).wf(),
            match cache_error(*old(self)) {
                Some(e) => r == Err::<(), OptError>(e) && *final(self) == *old(self),
                None => {
                    &&& r is Ok
                    &&& final(self).index_seq() == vcache_of(
                        old(self).index_seq(),
                        old(self).vertex_count(),
                    )
                    &&& final(self).indices matches Some(Indices::U32(_))
                    &&& final(self).index_seq().len() == old(self).index_seq().len()
                    &&& triangles_of(final(self).index_seq()).to_multiset() == triangles_of(
                        old(self).index_seq(),
                    ).to_multiset()
                    &&& valid_indices_u32(final(self).index_seq(), old(self).vertex_count())
                },
            },
    {
        let positions_len = match crate::mesh::mesh_positions(self) {
            Ok(p) => p.len(),
            Err(e) => {
                return Err(e);
            },
        };
        let ghost old_seq = self.index_seq();
        let mut v = match crate::mesh::take_mesh_indices_mut(self) {
            Ok(v) => v,
            Err(e) => {
                return Err(e);
            },
        };
        vcache_in_place(&mut v, positions_len);
        proof {
            assert forall|i: int| 0 <= i < v@.len() implies (v@[i] as nat) < positions_len as nat by {
                let x = v@[i];
                assert(old_seq.contains(x));
                let j = choose|j: int| 0 <= j < old_seq.len() && old_seq[j] == x;
            }
        }
        self.indices = Some(Indices::U32(v));
        Ok(())
    }

    /// Reorders the triangles of the index buffer to reduce pixel overdraw,
    /// using position data for its front-to-back heuristics; the threshold
    /// pattern bounds how far cache efficiency may degrade. Positions are
    /// untouched; on failure the mesh is untouched.
    pub fn optimize_overdraw(&mut self, threshold: u32) -> (r: Result<(), OptError>)
        requires
            old(self).wf(),
        ensures
            final(self).topology == old(self).topology,
            final(self).positions == old(self).positions,
            final(self).wf(),
            match overdraw_error(*old(self)) {
                Some(e) => r == Err::<(), OptError>(e) && *final(self) == *old(self),
                None => {
                    &&& r is Ok
                    &&& final(self).index_seq() == overdraw_of(
                        old(self).index_seq(),
                        old(self).position_seq(),
                        threshold,
                    )
                    &&& final(self).indices matches Some(Indices::U32(_))
                    &&& final(self).index_seq().len() == old(self).index_seq().len()
                    &&& triangles_of(final(self).index_seq()).to_multiset() == triangles_of(
                        old(self).index_seq(),
                    ).to_multiset()
                    &&& valid_indices_u32(final(self).index_seq(), old(self).vertex_count())
                },
            },
    {
        let ghost old_seq = self.index_seq();
        let mut v = match crate::mesh::take_mesh_indices_mut(self) {
            Ok(v) => v,
            Err(e) => {
                return Err(e);
            },
        };
        match crate::mesh::mesh_positions(self) {
            Ok(_) => (),
            Err(e) => {
                self.indices = Some(Indices::U32(v));
                return Err(e);
            },
        };
        let p = match &self.positions {
            Some(p) => p,
            None => unreached(),
        };
        overdraw_in_place(&mut v, p, threshold);
        proof {
            assert forall|i: int| 0 <= i < v@.len() implies (v@[i] as nat) < p@.len() by {
                let x = v@[i];
                assert(old_seq.contains(x));
                let j = choose|j: int| 0 <= j < old_seq.len() && old_seq[j] == x;
            }
        }
        self.indices = Some(Indices::U32(v));
        Ok(())
    }

    /// Compacts and reorders the position attribute for fetch locality and
    /// remaps the index buffer accordingly. This is the one pass that
    /// mutates positions, so attributes keyed by vertex index elsewhere must
    /// be re-derived by the host. On failure the mesh is untouched.
    pub fn optimize_vertex_fetch(&mut self) -> (r: Result<(), OptError>)
        requires
            old(self).wf(),
        ensures
            final(self).topology == old(self).topology,
            final(self).wf(),
            match fetch_error(*old(self)) {
                Some(e) => r == Err::<(), OptError>(e) && *final(self) == *old(self),
                None => {
                    let f = vfetch_of(old(self).index_seq(), old(self).position_seq());
                    &&& r is Ok
                    &&& final(self).index_seq() == f.0
                    &&& final(self).position_seq() == f.1
                    &&& final(self).indices matches Some(Indices::U32(_))
                    &&& final(self).positions is Some
                    &&& final(self).index_seq().len() == old(self).index_seq().len()
                    &&& final(self).position_seq().len() == old(self).position_seq().len()
                    &&& valid_indices_u32(final(self).index_seq(), f.2)
                    &&& ({
                        let pos0 = old(self).position_seq();
                        let idx0 = old(self).index_seq();
                        let pos1 = final(self).position_seq();
                        let idx1 = final(self).index_seq();
                        forall|i: int|
                            0 <= i < idx1.len() ==> pos1[idx1[i] as int] == pos0[idx0[i] as int]
                    })
                },
            },
    {
        let mut v = match crate::mesh::take_mesh_indices_mut(self) {
            Ok(v) => v,
            Err(e) => {
                return Err(e);
            },
        };
        if self.positions.is_none() {
            self.indices = Some(Indices::U32(v));
            return Err(OptError::MissingPositions);
        }
        let mut p = match self.positions.take() {
            Some(p) => p,
            None => unreached(),
        };
        let _referenced = vfetch_in_place(&mut v, &mut p);
        self.indices = Some(Indices::U32(v));
        self.positions = Some(p);
        Ok(())
    }

    /// Runs vertex-cache, overdraw and vertex-fetch optimization in that
    /// fixed order with the given overdraw threshold. The composite effect
    /// equals calling the three passes by hand in the same order: once the
    /// cache pass accepts the mesh, the later passes cannot fail, so the
    /// sequence either stops on the cache pass's verdict with the mesh
    /// untouched or rewrites the mesh by the three reorderings composed.
    pub fn optimize_full(&mut self, overdraw_threshold: u32) -> (r: Result<(), OptError>)
        requires
            old(self).wf(),
        ensures
            final(self).topology == old(self).topology,
            final(self).wf(),
            match cache_error(*old(self)) {
                Some(e) => r == Err::<(), OptError>(e) && *final(self) == *old(self),
                None => {
                    let i1 = vcache_of(old(self).index_seq(), old(self).vertex_count());
                    let i2 = overdraw_of(i1, old(self).position_seq(), overdraw_threshold);
                    let f = vfetch_of(i2, old(self).position_seq());
                    &&& r is Ok
                    &&& final(self).index_seq() == f.0
                    &&& final(self).position_seq() == f.1
                    &&& final(self).indices matches Some(Indices::U32(_))
                    &&& final(self).positions is Some
                },
            },
    {
        self.optimize_vertex_cache()?;
        self.optimize_overdraw(overdraw_threshold)?;
        self.optimize_vertex_fetch()
    }
}

} // verus!
