//! Volume data types, for example [`VoxelGrid`].

use crate::texture::Texture3D;
use crate::texture::TextureData;
use vstd::prelude::*;

verus! {

/// The bit pattern of the single-precision float `2.0`.
pub const F32_BITS_TWO: u32 = 0x4000_0000;

/// True when `bits` is the IEEE 754 single-precision bit pattern of a
/// positive, finite value: the sign bit is clear, the value is not zero, and
/// the exponent field is not all ones (which would mean an infinity or NaN).
pub open spec fn f32_bits_positive_finite(bits: u32) -> bool {
    0 < bits < 0x7f80_0000
}

/// A three-component physical extent. Each component is held as the IEEE 754
/// single-precision bit pattern of its value, since the verified library does
/// not compute with floating-point values itself.
#[derive(Debug, Clone, Copy, PartialEq, Eq, Structural)]
pub struct Vec3 {
    /// Bit pattern of the extent along the first axis.
    pub x_bits: u32,
    /// Bit pattern of the extent along the second axis.
    pub y_bits: u32,
    /// Bit pattern of the extent along the third axis.
    pub z_bits: u32,
}

impl Vec3 {
    /// Every component encodes a positive, finite value.
    pub open spec fn wf(&self) -> bool {
        f32_bits_positive_finite(self.x_bits) && f32_bits_positive_finite(self.y_bits)
            && f32_bits_positive_finite(self.z_bits)
    }
}

/// Volume data consisting of voxel data inside a cube.
#[derive(Debug)]
pub struct VoxelGrid {
    /// Name.
    pub name: String,

    /// Voxel data, ie. small cubes in 3D (analogue to pixels in 2D) that
    /// contain 1-4 values.
    pub voxels: Texture3D,

    /// The size of the cube that is spanned by the voxel data.
    pub size: Vec3,
}

impl VoxelGrid {
    /// The voxel buffer matches its dimensions and the spanned size is
    /// positive along every axis.
    pub open spec fn wf(&self) -> bool {
        self.voxels.wf() && self.size.wf()
    }
}

impl Default for VoxelGrid {
    /// An empty, unnamed grid spanning the default cube of two units along
    /// each axis.
    fn default() -> (r: Self)
        ensures
            r.name@ == Seq::<char>::empty(),
            r.voxels.data matches TextureData::RU8(v) && v@ == Seq::<u8>::empty(),
            r.voxels.width == 0,
            r.voxels.height == 0,
            r.voxels.depth == 0,
            r.size == (Vec3 { x_bits: F32_BITS_TWO, y_bits: F32_BITS_TWO, z_bits: F32_BITS_TWO }),
            r.wf(),
    {
        Self {
            name: String::default(),
            voxels: Texture3D::default(),
            size: Vec3 { x_bits: F32_BITS_TWO, y_bits: F32_BITS_TWO, z_bits: F32_BITS_TWO },
        }
    }
}

} // verus!
