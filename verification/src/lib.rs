//! Loads 3D models from OBJ, glTF, STL and PLY sources into one canonical shape.

pub mod format;
pub mod gltf;
pub mod model;
pub mod obj;
pub mod path;
pub mod ply;
pub mod stl;

pub use crate::format::{get_format, Source};
pub use crate::model::{
    AlphaMode, Image, Indices, MagFilter, Material, Mesh, MinFilter, Model3D, ModelError,
    ModelFormat, RenderMode, Sampler, Texture, Vertex, WrappingMode,
};
