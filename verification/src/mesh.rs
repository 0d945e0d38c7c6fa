use vstd::prelude::*;

verus! {

use vstd::pervasive::unreached;

/// The primitive topology a mesh declares for its index buffer. Only
/// triangle lists are processed here; every other declared topology is
/// rejected before any geometry routine runs.
#[derive(Debug, Clone, Copy, PartialEq, Eq, Structural)]
pub enum Topology {
    PointList,
    LineList,
    LineStrip,
    TriangleList,
    TriangleStrip,
}

/// An index buffer, either in the canonical 32-bit form or in the narrower
/// 16-bit encoding that normalization widens.
#[derive(Debug, Clone, PartialEq)]
pub enum Indices {
    U16(Vec<u16>),
    U32(Vec<u32>),
}

/// The mesh state this library reads and rewrites: a declared topology, an
/// optional index buffer, and an optional position attribute. A position is
/// a 3-component single-precision vector carried as its three bit patterns;
/// the geometry routines read the patterns as the values they denote. A mesh
/// whose position attribute is absent, or held by the host in any other
/// component layout, is represented with `positions` equal to `None`.
#[derive(Debug, Clone, PartialEq)]
pub struct Mesh {
    pub topology: Topology,
    pub indices: Option<Indices>,
    pub positions: Option<Vec<[u32; 3]>>,
}

/// Every index of the sequence addresses one of `n` vertices.
pub open spec fn valid_indices_u32(s: Seq<u32>, n: nat) -> bool {
    forall|i: int| 0 <= i < s.len() ==> (s[i] as nat) < n
}

/// Every 16-bit index of the sequence addresses one of `n` vertices.
pub open spec fn valid_indices_u16(s: Seq<u16>, n: nat) -> bool {
    forall|i: int| 0 <= i < s.len() ==> (s[i] as nat) < n
}

/// The triangles of an index sequence: its consecutive triples, windings
/// kept, in listed order.
pub open spec fn triangles_of(s: Seq<u32>) -> Seq<(u32, u32, u32)> {
    Seq::new(s.len() / 3, |i: int| (s[3 * i], s[3 * i + 1], s[3 * i + 2]))
}

impl Mesh {
    /// The number of vertices the position attribute holds.
    pub open spec fn vertex_count(self) -> nat {
        match self.positions {
            Some(p) => p@.len(),
            None => 0,
        }
    }

    /// The mesh invariant the host maintains and every operation here
    /// preserves: when both buffers are present, every index value addresses
    /// a vertex of the position attribute.
    pub open spec fn wf(self) -> bool {
        match self.positions {
            Some(p) => match self.indices {
                Some(Indices::U32(v)) => valid_indices_u32(v@, p@.len()),
                Some(Indices::U16(v)) => valid_indices_u16(v@, p@.len()),
                None => true,
            },
            None => true,
        }
    }
}

/// Why a mesh is unsuitable for an operation. Every operation reports the
/// first failure it meets and leaves the mesh untouched.
#[derive(Debug, Clone, PartialEq)]
pub enum OptError {
    /// No index buffer is present.
    MissingIndices,
    /// An index buffer is present but not in the canonical 32-bit form.
    UnsupportedIndexFormat,
    /// The position attribute is absent or not in the 3-component
    /// single-precision layout.
    MissingPositions,
    /// The mesh does not declare a triangle list.
    UnsupportedPrimitiveTopology(Topology),
    /// The index count is zero or not a multiple of three.
    InvalidIndexCount(usize),
    /// A vertex lock mask does not have one entry per vertex.
    InvalidVertexLockCount(usize),
    /// The geometry library reported a failure of its own.
    Meshopt(String),
}

/// The verdict of the index-buffer validation: present, canonical, and a
/// positive whole number of triangles.
pub open spec fn index_error(m: Mesh) -> Option<OptError> {
    match m.indices {
        None => Some(OptError::MissingIndices),
        Some(Indices::U16(_)) => Some(OptError::UnsupportedIndexFormat),
        Some(Indices::U32(v)) => if v@.len() % 3 != 0 || v@.len() == 0 {
            Some(OptError::InvalidIndexCount(v@.len() as usize))
        } else {
            None
        },
    }
}

/// The verdict of the position validation: a triangle list with a position
/// attribute present.
pub open spec fn position_error(m: Mesh) -> Option<OptError> {
    if m.topology != Topology::TriangleList {
        Some(OptError::UnsupportedPrimitiveTopology(m.topology))
    } else if m.positions is None {
        Some(OptError::MissingPositions)
    } else {
        None
    }
}

/// Borrows the validated canonical index buffer of a mesh, or reports the
/// first reason it is unsuitable.
pub fn mesh_indices(mesh: &Mesh) -> (r: Result<&Vec<u32>, OptError>)
    ensures
        match r {
            Ok(v) => index_error(*mesh) is None && mesh.indices == Some(Indices::U32(*v)),
            Err(e) => index_error(*mesh) == Some(e),
        },
{
    let indices = match &mesh.indices {
        Some(Indices::U32(v)) => v,
        Some(Indices::U16(_)) => {
            return Err(OptError::UnsupportedIndexFormat);
        },
        None => {
            return Err(OptError::MissingIndices);
        },
    };

    if indices.len() % 3 != 0 || indices.len() == 0 {
        return Err(OptError::InvalidIndexCount(indices.len()));
    }

    Ok(indices)
}

/// Borrows the validated position attribute of a triangle-list mesh, or
/// reports the first reason it is unsuitable.
pub fn mesh_positions(mesh: &Mesh) -> (r: Result<&Vec<[u32; 3]>, OptError>)
    ensures
        match r {
            Ok(p) => position_error(*mesh) is None && mesh.positions == Some(*p),
            Err(e) => position_error(*mesh) == Some(e),
        },
{
    match mesh.topology {
        Topology::TriangleList => {},
        _ => {
            return Err(OptError::UnsupportedPrimitiveTopology(mesh.topology));
        },
    }

    match &mesh.positions {
        Some(p) => Ok(p),
        None => Err(OptError::MissingPositions),
    }
}

/// Removes and returns the validated canonical index buffer of a mesh, so
/// that a pass can rewrite it while reading other parts of the mesh; the
/// caller puts the rewritten buffer back. An unsuitable mesh keeps its
/// index buffer and the first reason is reported.
pub fn take_mesh_indices_mut(mesh: &mut Mesh) -> (r: Result<Vec<u32>, OptError>)
    ensures
        final(mesh).topology == old(mesh).topology,
        final(mesh).positions == old(mesh).positions,
        match r {
            Ok(v) => {
                &&& index_error(*old(mesh)) is None
                &&& old(mesh).indices == Some(Indices::U32(v))
                &&& final(mesh).indices is None
            },
            Err(e) => index_error(*old(mesh)) == Some(e) && *final(mesh) == *old(mesh),
        },
{
    match mesh_indices(mesh) {
        Ok(_) => (),
        Err(e) => {
            return Err(e);
        },
    };
    match mesh.indices.take() {
        Some(Indices::U32(v)) => Ok(v),
        _ => unreached(),
    }
}

/// Widens a 16-bit index buffer to the canonical 32-bit form, preserving
/// order and values exactly.
pub fn widen_indices(v: &Vec<u16>) -> (r: Vec<u32>)
    ensures
        r@ == v@.map(|i: int, x: u16| x as u32),
{
    let mut w: Vec<u32> = Vec::new();
    let mut i: usize = 0;
    while i < v.len()
        invariant
            i <= v@.len(),
            w@ == v@.take(i as int).map(|j: int, x: u16| x as u32),
        decreases v@.len() - i,
    {
        w.push(v[i] as u32);
        proof {
            assert(v@.take(i + 1int).map(|j: int, x: u16| x as u32) =~= v@.take(i as int).map(
                |j: int, x: u16| x as u32,
            ).push(v@[i as int] as u32));
        }
        i = i + 1;
    }
    proof {
        assert(v@.take(v@.len() as int) =~= v@);
    }
    w
}

impl Mesh {
    /// Best-effort upgrade of the index encoding: a 16-bit buffer is
    /// replaced in place by its 32-bit equivalent, order and values kept;
    /// any other state is left untouched, so a second call is a no-op.
    pub fn assert_indices_u32(&mut self)
        ensures
            match old(self).indices {
                Some(Indices::U16(v)) => final(self).indices matches Some(Indices::U32(w)) && w@
                    == v@.map(|i: int, x: u16| x as u32),
                _ => *final(self) == *old(self),
            },
            final(self).positions == old(self).positions,
            final(self).topology == old(self).topology,
            !(final(self).indices matches Some(Indices::U16(_))),
            old(self).wf() ==> final(self).wf(),
    {
        let is_u16 = match &self.indices {
            Some(Indices::U16(_)) => true,
            _ => false,
        };
        if !is_u16 {
            return ;
        }
        let taken = self.indices.take();
        match taken {
            Some(Indices::U16(v)) => {
                let w = widen_indices(&v);
                self.indices = Some(Indices::U32(w));
            },
            _ => {
                proof {
                    assert(false);
                }
            },
        }
    }
}

} // verus!
