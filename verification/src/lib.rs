//! Exact geometry, colour and bookkeeping for a regular polygon drawn as a
//! fan of triangles.

pub mod color;
pub mod layout;
pub mod mesh;
pub mod ratio;
pub mod state;
pub mod surface;
