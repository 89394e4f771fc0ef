//! Shapes and meshes: vertex data laid out for the shaders, and the
//! objects that record its upload and drawing.

pub mod data;
pub mod mesh;
pub mod shape;
pub mod vertex;

pub use shape::{Shape, Triangle, VertLine, textured_cube, bald_cube, normalized_cube, cube_indices};
