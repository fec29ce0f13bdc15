//! A small verified image-asset library: a converter between encoded image
//! byte streams (a lossless raster container and the radiance
//! high-dynamic-range format) and in-memory pixel buffers, an asset bundle
//! mapping logical paths to encoded bytes, and a passive voxel-grid
//! container.
//!
//! The compressed formats themselves are handled by an external codec
//! library; this crate verifies everything around those calls: format
//! sniffing, regrouping of interleaved byte runs into fixed-arity per-pixel
//! tuples, the dimension invariants of every buffer, and the exact
//! conditions under which each conversion succeeds or fails.

pub mod assets;
pub mod img;
pub mod texture;
pub mod volume;

pub use assets::RawAssets;
pub use img::deserialize_img;
pub use img::serialize_img;
pub use img::DecodeError;
pub use img::EncodeError;
pub use texture::Texture2D;
pub use texture::Texture3D;
pub use texture::TextureData;
pub use volume::Vec3;
pub use volume::VoxelGrid;
