//! A backend-neutral model of GPU resources: vertex layouts, buffers, vertex
//! arrays, shader sources, textures and a glyph cache, with the decisions a
//! graphics backend has to carry out stated as verified contracts.

pub mod buffer;
pub mod vertex_array;
pub mod shader;
pub mod texture;
pub mod glyph;
pub mod event;
pub mod mesh;
pub mod text;
