//! A resource-aliasing cache for a "bubbles" material: per (mesh, material)
//! pair it binds the mesh's own vertex buffer as a read-only storage array,
//! next to the material's uniform and a fixed six-vertex quad, and decides
//! each frame which pairs are ready to draw.
pub mod layout;
pub mod quad;
pub mod material;
pub mod cache;
pub mod draw;
pub mod laws;
pub mod extract;
