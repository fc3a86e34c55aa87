//! The asset converters' file formats: textures, models and materials.

pub mod bytes;
pub mod material;
pub mod model;
pub mod texture;
