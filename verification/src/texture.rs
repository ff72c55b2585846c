//! Textures as the renderer sees them: a handle, and what the backend reports
//! of the texture behind it.

use vstd::prelude::*;
use image::DynamicImage;

verus! {

/// `image::DynamicImage`: the pixels of a texture update. The renderer hands
/// such an image on to its backend and never looks inside.
#[verifier::external_type_specification]
#[verifier::external_body]
pub struct ExDynamicImage(DynamicImage);

/// The handle of a texture that a backend has created.
#[derive(Clone, Copy, Debug, PartialEq, Eq, Structural, Hash)]
pub struct ImageId(pub u32);

/// The pixel layout of a texture.
#[derive(Clone, Copy, Debug, PartialEq, Eq, Structural, Hash)]
pub enum TextureType {
    Rgb,
    Rgba,
    Alpha,
}

/// Mipmaps are generated for the texture.
pub const GENERATE_MIPMAPS: u32 = 0x01;

/// The texture repeats along x.
pub const REPEAT_X: u32 = 0x02;

/// The texture repeats along y.
pub const REPEAT_Y: u32 = 0x04;

/// The texture's rows are stored bottom-up.
pub const FLIP_Y: u32 = 0x08;

/// The texture's colours are premultiplied by their alpha.
pub const PREMULTIPLIED: u32 = 0x10;

/// The texture is sampled without interpolation.
pub const NEAREST: u32 = 0x20;

/// A set of texture flags, one bit each.
#[derive(Clone, Copy, Debug, PartialEq, Eq, Structural, Hash)]
pub struct ImageFlags {
    pub bits: u32,
}

impl ImageFlags {
    /// Whether every bit of `flags` is set.
    pub open spec fn has(self, flags: u32) -> bool {
        self.bits & flags == flags
    }

    /// The set with no flag.
    pub fn empty() -> (r: Self)
        ensures
            r.bits == 0,
    {
        ImageFlags { bits: 0 }
    }

    /// The set with exactly the bits of `bits`.
    pub fn from_bits(bits: u32) -> (r: Self)
        ensures
            r.bits == bits,
    {
        ImageFlags { bits }
    }

    /// Whether every bit of `flags` is set.
    pub fn contains(self, flags: u32) -> (r: bool)
        ensures
            r == self.has(flags),
    {
        self.bits & flags == flags
    }
}

/// What a backend reports of one of its textures.
#[derive(Clone, Copy, Debug, PartialEq, Eq, Structural)]
pub struct TextureInfo {
    pub flags: ImageFlags,
    pub kind: TextureType,
}

} // verus!
