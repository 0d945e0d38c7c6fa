pub mod fbits;
pub mod mesh;
pub mod meshlets;
pub mod optimize;
pub mod simplify;
pub mod target;

pub use mesh::{Indices, Mesh, OptError, Topology};
pub use simplify::SimplifyParams;
pub use target::TargetIndices;
