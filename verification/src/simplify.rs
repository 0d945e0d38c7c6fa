use vstd::prelude::*;

verus! {

use crate::fbits;
use crate::mesh::{
    index_error,
    mesh_indices,
    mesh_positions,
    position_error,
    valid_indices_u32,
    Indices,
    Mesh,
    OptError,
};
use crate::target::TargetIndices;

/// Parameters of one simplification call. Scalar values are carried as the
/// bit patterns of single-precision values.
#[derive(Debug, Clone, Copy)]
pub struct SimplifyParams<'a> {
    /// Maximum error allowed during simplification, as a single-precision
    /// bit pattern. This will be somewhat ignored if using sloppy mode.
    pub max_error: u32,
    /// Target index count for simplification.
    pub target_index_count: TargetIndices,
    /// Option bits handed through to the geometry library's simplifier
    /// (border and seam preservation and the like); opaque here.
    pub options: u32,
    /// Note: Sloppy will ignore all option bits.
    pub sloppy: bool,
    /// Lock specific vertices in place during simplification; one entry per
    /// vertex when present.
    pub vertex_locks: Option<&'a [bool]>,
}

impl Default for SimplifyParams<'_> {
    /// Exact mode, no options, no locks, half the index count as the
    /// target, and a maximum error of one percent of the mesh extents
    /// (0x3c23d70a is the single-precision pattern nearest to 0.01).
    fn default() -> (r: Self)
        ensures
            r.max_error == 0x3c23d70au32,
            r.target_index_count == TargetIndices::Multiplier(0x3f000000u32),
            r.options == 0u32,
            r.sloppy == false,
            r.vertex_locks is None,
    {
        SimplifyParams {
            max_error: 0x3c23d70a,
            target_index_count: TargetIndices::Multiplier(0x3f000000),
            options: 0,
            sloppy: false,
            vertex_locks: None,
        }
    }
}

/// What meshopt's exact simplifier produces for a given index buffer,
/// position attribute, target count, error bound pattern and option bits:
/// the simplified index buffer and the achieved error pattern. A
/// deterministic function of its arguments.
pub uninterp spec fn simplify_of(
    indices: Seq<u32>,
    positions: Seq<[u32; 3]>,
    target: nat,
    error_bits: u32,
    options_bits: u32,
) -> (Seq<u32>, u32);

/// What meshopt's exact simplifier produces under a vertex lock mask; a
/// deterministic function of its arguments.
pub uninterp spec fn simplify_locks_of(
    indices: Seq<u32>,
    positions: Seq<[u32; 3]>,
    locks: Seq<bool>,
    target: nat,
    error_bits: u32,
    options_bits: u32,
) -> (Seq<u32>, u32);

/// What meshopt's sloppy simplifier produces; options play no part in
/// sloppy mode. A deterministic function of its arguments.
pub uninterp spec fn sloppy_of(
    indices: Seq<u32>,
    positions: Seq<[u32; 3]>,
    target: nat,
    error_bits: u32,
) -> (Seq<u32>, u32);

/// What meshopt's sloppy simplifier produces under a vertex lock mask; a
/// deterministic function of its arguments.
pub uninterp spec fn sloppy_locks_of(
    indices: Seq<u32>,
    positions: Seq<[u32; 3]>,
    locks: Seq<bool>,
    target: nat,
    error_bits: u32,
) -> (Seq<u32>, u32);

/// Relies on meshopt::simplify: reduces the number of triangles while
/// attempting to preserve appearance, stopping at the target count or once
/// the error bound is reached. The result is a triangle list of at most the
/// input's length that references vertices of the original position buffer.
#[verifier::external_body]
fn run_simplify(
    indices: &Vec<u32>,
    positions: &Vec<[u32; 3]>,
    target: usize,
    error_bits: u32,
    options_bits: u32,
) -> (r: (Vec<u32>, u32))
    requires
        indices@.len() % 3 == 0,
        valid_indices_u32(indices@, positions@.len()),
        target <= indices@.len(),
        fbits::ge_zero(error_bits),
    ensures
        (r.0@, r.1) == simplify_of(indices@, positions@, target as nat, error_bits, options_bits),
        r.0@.len() % 3 == 0,
        r.0@.len() <= indices@.len(),
        valid_indices_u32(r.0@, positions@.len()),
{
    let adapter = meshopt::VertexDataAdapter::new(
        bytemuck::cast_slice(positions.as_slice()), core::mem::size_of::<[u32; 3]>(), 0,
    ).unwrap();
    let mut err = bytemuck::cast(0u32);
    let out = meshopt::simplify(
        indices, &adapter, target, bytemuck::cast(error_bits),
        meshopt::SimplifyOptions::from_bits_truncate(options_bits), Some(&mut err),
    );
    let err_bits: u32 = bytemuck::cast(err);
    (out, err_bits)
}

/// Relies on meshopt::simplify_with_locks: as meshopt::simplify, while
/// respecting a lock mask with one entry per vertex.
#[verifier::external_body]
fn run_simplify_with_locks(
    indices: &Vec<u32>,
    positions: &Vec<[u32; 3]>,
    locks: &[bool],
    target: usize,
    error_bits: u32,
    options_bits: u32,
) -> (r: (Vec<u32>, u32))
    requires
        indices@.len() % 3 == 0,
        valid_indices_u32(indices@, positions@.len()),
        locks@.len() == positions@.len(),
        target <= indices@.len(),
        fbits::ge_zero(error_bits),
    ensures
        (r.0@, r.1) == simplify_locks_of(
            indices@,
            positions@,
            locks@,
            target as nat,
            error_bits,
            options_bits,
        ),
        r.0@.len() % 3 == 0,
        r.0@.len() <= indices@.len(),
        valid_indices_u32(r.0@, positions@.len()),
{
    let adapter = meshopt::VertexDataAdapter::new(
        bytemuck::cast_slice(positions.as_slice()), core::mem::size_of::<[u32; 3]>(), 0,
    ).unwrap();
    let mut err = bytemuck::cast(0u32);
    let out = meshopt::simplify_with_locks(
        indices, &adapter, locks, target, bytemuck::cast(error_bits),
        meshopt::SimplifyOptions::from_bits_truncate(options_bits), Some(&mut err),
    );
    let err_bits: u32 = bytemuck::cast(err);
    (out, err_bits)
}

/// Relies on meshopt::simplify_sloppy: reduces the number of triangles,
/// sacrificing appearance for performance; always able to reach the target
/// count. The result is a triangle list of at most the input's length that
/// references vertices of the original position buffer.
#[verifier::external_body]
fn run_simplify_sloppy(
    indices: &Vec<u32>,
    positions: &Vec<[u32; 3]>,
    target: usize,
    error_bits: u32,
) -> (r: (Vec<u32>, u32))
    requires
        indices@.len() % 3 == 0,
        valid_indices_u32(indices@, positions@.len()),
        target <= indices@.len(),
        fbits::ge_zero(error_bits),
    ensures
        (r.0@, r.1) == sloppy_of(indices@, positions@, target as nat, error_bits),
        r.0@.len() % 3 == 0,
        r.0@.len() <= indices@.len(),
        valid_indices_u32(r.0@, positions@.len()),
{
    let adapter = meshopt::VertexDataAdapter::new(
        bytemuck::cast_slice(positions.as_slice()), core::mem::size_of::<[u32; 3]>(), 0,
    ).unwrap();
    let mut err = bytemuck::cast(0u32);
    let out = meshopt::simplify_sloppy(
        indices, &adapter, target, bytemuck::cast(error_bits), Some(&mut err),
    );
    let err_bits: u32 = bytemuck::cast(err);
    (out, err_bits)
}

/// Relies on meshopt::simplify_sloppy_with_locks: as
/// meshopt::simplify_sloppy, while respecting a lock mask with one entry
/// per vertex.
#[verifier::external_body]
fn run_simplify_sloppy_with_locks(
    indices: &Vec<u32>,
    positions: &Vec<[u32; 3]>,
    locks: &[bool],
    target: usize,
    error_bits: u32,
) -> (r: (Vec<u32>, u32))
    requires
        indices@.len() % 3 == 0,
        valid_indices_u32(indices@, positions@.len()),
        locks@.len() == positions@.len(),
        target <= indices@.len(),
        fbits::ge_zero(error_bits),
    ensures
        (r.0@, r.1) == sloppy_locks_of(indices@, positions@, locks@, target as nat, error_bits),
        r.0@.len() % 3 == 0,
        r.0@.len() <= indices@.len(),
        valid_indices_u32(r.0@, positions@.len()),
{
    let adapter = meshopt::VertexDataAdapter::new(
        bytemuck::cast_slice(positions.as_slice()), core::mem::size_of::<[u32; 3]>(), 0,
    ).unwrap();
    let mut err = bytemuck::cast(0u32);
    let out = meshopt::simplify_sloppy_with_locks(
        indices, &adapter, locks, target, bytemuck::cast(error_bits), Some(&mut err),
    );
    let err_bits: u32 = bytemuck::cast(err);
    (out, err_bits)
}

/// The validation verdict of a simplification call: the index buffer, then
/// positions and topology, then the lock mask length.
pub open spec fn simplify_error(m: Mesh, params: SimplifyParams) -> Option<OptError> {
    if index_error(m) is Some {
        index_error(m)
    } else if position_error(m) is Some {
        position_error(m)
    } else {
        match params.vertex_locks {
            Some(l) => if l@.len() != m.vertex_count() {
                Some(OptError::InvalidVertexLockCount(l@.len() as usize))
            } else {
                None
            },
            None => None,
        }
    }
}

/// The simplified index buffer and achieved error a valid call produces:
/// the variant picked by the mode and the lock mask, applied to the derived
/// target count.
pub open spec fn spec_simplified(m: Mesh, params: SimplifyParams) -> (Seq<u32>, u32) {
    let target = params.target_index_count.spec_count(m.index_seq().len());
    match params.vertex_locks {
        Some(l) => if params.sloppy {
            sloppy_locks_of(m.index_seq(), m.position_seq(), l@, target, params.max_error)
        } else {
            simplify_locks_of(
                m.index_seq(),
                m.position_seq(),
                l@,
                target,
                params.max_error,
                params.options,
            )
        },
        None => if params.sloppy {
            sloppy_of(m.index_seq(), m.position_seq(), target, params.max_error)
        } else {
            simplify_of(m.index_seq(), m.position_seq(), target, params.max_error, params.options)
        },
    }
}

impl Mesh {
    /// Computes the simplified index buffer and the achieved error pattern
    /// without touching the mesh. The lock mask, when present, must have
    /// one entry per vertex; a mismatch is rejected before the decimation
    /// call runs.
    pub fn simplify_new_indices(&self, params: &SimplifyParams) -> (r: Result<
        (Vec<u32>, u32),
        OptError,
    >)
        requires
            self.wf(),
            fbits::ge_zero(params.max_error),
        ensures
            match r {
                Ok(out) => {
                    &&& simplify_error(*self, *params) is None
                    &&& (out.0@, out.1) == spec_simplified(*self, *params)
                    &&& out.0@.len() % 3 == 0
                    &&& out.0@.len() <= self.index_seq().len()
                    &&& valid_indices_u32(out.0@, self.vertex_count())
                },
                Err(e) => simplify_error(*self, *params) == Some(e),
            },
    {
        let indices = match mesh_indices(self) {
            Ok(v) => v,
            Err(e) => {
                return Err(e);
            },
        };
        let positions = match mesh_positions(self) {
            Ok(p) => p,
            Err(e) => {
                return Err(e);
            },
        };
        match params.vertex_locks {
            Some(locks) => {
                if locks.len() != positions.len() {
                    return Err(OptError::InvalidVertexLockCount(locks.len()));
                }
            },
            None => (),
        }

        let target_index_count = params.target_index_count.count(indices.len());

        let result = match params.vertex_locks {
            Some(locks) => if params.sloppy {
                run_simplify_sloppy_with_locks(
                    indices,
                    positions,
                    locks,
                    target_index_count,
                    params.max_error,
                )
            } else {
                run_simplify_with_locks(
                    indices,
                    positions,
                    locks,
                    target_index_count,
                    params.max_error,
                    params.options,
                )
            },
            None => if params.sloppy {
                run_simplify_sloppy(indices, positions, target_index_count, params.max_error)
            } else {
                run_simplify(
                    indices,
                    positions,
                    target_index_count,
                    params.max_error,
                    params.options,
                )
            },
        };

        Ok(result)
    }

    /// Simplifies the mesh in place: the computed index buffer replaces the
    /// old one when it holds at least one triangle, while a degenerate
    /// result is discarded and the mesh keeps its prior indices. Returns
    /// the achieved error pattern.
    pub fn simplify(&mut self, params: &SimplifyParams) -> (r: Result<u32, OptError>)
        requires
            old(self).wf(),
            fbits::ge_zero(params.max_error),
        ensures
            final(self).topology == old(self).topology,
            final(self).positions == old(self).positions,
            final(self).wf(),
            match r {
                Ok(err_bits) => {
                    let out = spec_simplified(*old(self), *params);
                    &&& simplify_error(*old(self), *params) is None
                    &&& err_bits == out.1
                    &&& if out.0.len() >= 3 {
                        final(self).indices matches Some(Indices::U32(w)) && w@ == out.0
                    } else {
                        final(self).indices == old(self).indices
                    }
                },
                Err(e) => simplify_error(*old(self), *params) == Some(e) && *final(self) == *old(
                    self,
                ),
            },
    {
        let (new_indices, error) = match self.simplify_new_indices(params) {
            Ok(t) => t,
            Err(e) => {
                return Err(e);
            },
        };
        if new_indices.len() >= 3 {
            self.indices = Some(Indices::U32(new_indices));
        }
        Ok(error)
    }
}

} // verus!
