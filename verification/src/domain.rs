//! Project abstractions and relations: the traits the renderer objects
//! implement and the small primitive types they exchange.

pub mod mesh;
pub mod shader;
pub mod texture;
pub mod vdata;
