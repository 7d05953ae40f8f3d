//! A backend-agnostic GPU resource layer: textures addressed through a
//! dimensionality model, pixel-format descriptors, shader-visible data
//! arrays, and a binding-state cache that elides redundant device binds.
//!
//! The layer enforces the safety checks a graphics driver does not: byte
//! counts are validated before any transfer, row alignment is negotiated
//! for every transfer, and binding state is kept consistent with the
//! device. An in-memory backend implements the capability contracts and
//! serves as the reference model; a real driver backend can sit behind the
//! same contracts.

pub mod dim;
pub mod pixel;
pub mod state;
pub mod backend;
pub mod texture;
pub mod mem_backend;
pub mod shader;
pub mod windowing;
