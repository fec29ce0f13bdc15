//! In-memory pixel buffers: a tagged union over the supported per-pixel
//! layouts, paired with the image dimensions.

use vstd::prelude::*;

verus! {

/// Decoded pixel data as a flat, row-major sequence of fixed-arity per-pixel
/// tuples. One variant per channel arity and precision; the arity of each
/// tuple is fixed by the variant's element type.
///
/// High-dynamic-range pixels are held as the IEEE 754 single-precision bit
/// patterns of their three radiance components, since the verified library
/// does not compute with floating-point values itself.
#[derive(Debug, Clone, PartialEq, Eq)]
pub enum TextureData {
    /// Single 8-bit channel per pixel (luma).
    RU8(Vec<u8>),
    /// Two 8-bit channels per pixel (luma and alpha).
    RgU8(Vec<[u8; 2]>),
    /// Three 8-bit channels per pixel (red, green, blue).
    RgbU8(Vec<[u8; 3]>),
    /// Four 8-bit channels per pixel (red, green, blue, alpha).
    RgbaU8(Vec<[u8; 4]>),
    /// Three high-dynamic-range channels per pixel, each the bit pattern of a
    /// single-precision float radiance value.
    RgbF32Bits(Vec<[u32; 3]>),
}

impl TextureData {
    /// How many pixels this buffer holds, regardless of layout.
    pub open spec fn pixel_count(&self) -> nat {
        match self {
            TextureData::RU8(v) => v@.len(),
            TextureData::RgU8(v) => v@.len(),
            TextureData::RgbU8(v) => v@.len(),
            TextureData::RgbaU8(v) => v@.len(),
            TextureData::RgbF32Bits(v) => v@.len(),
        }
    }
}

/// A two-dimensional pixel buffer: pixel data plus its width and height.
#[derive(Debug, Clone, PartialEq, Eq)]
pub struct Texture2D {
    /// The pixel data, row-major.
    pub data: TextureData,
    /// Width in pixels.
    pub width: u32,
    /// Height in pixels.
    pub height: u32,
}

impl Texture2D {
    /// The buffer holds exactly one per-pixel tuple for each of the
    /// `width * height` pixels.
    pub open spec fn wf(&self) -> bool {
        self.data.pixel_count() == self.width * self.height
    }
}

impl Default for Texture2D {
    /// An empty single-channel buffer of zero extent.
    fn default() -> (r: Self)
        ensures
            r.data matches TextureData::RU8(v) && v@ == Seq::<u8>::empty(),
            r.width == 0,
            r.height == 0,
            r.wf(),
    {
        Texture2D { data: TextureData::RU8(Vec::new()), width: 0, height: 0 }
    }
}

/// A three-dimensional pixel buffer: voxel data plus width, height and depth.
#[derive(Debug, Clone, PartialEq, Eq)]
pub struct Texture3D {
    /// The voxel data, row-major within each slice, slices in order.
    pub data: TextureData,
    /// Width in voxels.
    pub width: u32,
    /// Height in voxels.
    pub height: u32,
    /// Depth in voxels.
    pub depth: u32,
}

impl Texture3D {
    /// The buffer holds exactly one per-voxel tuple for each of the
    /// `width * height * depth` voxels.
    pub open spec fn wf(&self) -> bool {
        self.data.pixel_count() == self.width * self.height * self.depth
    }
}

impl Default for Texture3D {
    /// An empty single-channel buffer of zero extent.
    fn default() -> (r: Self)
        ensures
            r.data matches TextureData::RU8(v) && v@ == Seq::<u8>::empty(),
            r.width == 0,
            r.height == 0,
            r.depth == 0,
            r.wf(),
    {
        Texture3D { data: TextureData::RU8(Vec::new()), width: 0, height: 0, depth: 0 }
    }
}

} // verus!
