//! Identifiers that tie rendered resources to pipelines and frames.

use vstd::prelude::*;

verus! {

/// One independently rendered surface with its own resource namespace.
#[derive(Debug, Clone, Copy, PartialEq, Eq, Structural, Hash, PartialOrd, Ord)]
pub struct PipelineId(pub u32, pub u32);

/// Frame generation counter of a pipeline.
#[derive(Debug, Clone, Copy, PartialEq, Eq, Structural, Hash, PartialOrd, Ord)]
pub struct Epoch(pub u32);

/// Handle under which the rasterizer refers to a registered texture.
#[derive(Debug, Clone, Copy, PartialEq, Eq, Structural, Hash, PartialOrd, Ord)]
pub struct ExternalImageId(pub u64);

/// Namespace of the keys that one rasterizer instance hands out.
#[derive(Debug, Clone, Copy, PartialEq, Eq, Structural, Hash, PartialOrd, Ord)]
pub struct IdNamespace(pub u32);

/// Key under which the rasterizer knows an image.
#[derive(Debug, Clone, Copy, PartialEq, Eq, Structural, Hash, PartialOrd, Ord)]
pub struct ImageKey {
    pub namespace: IdNamespace,
    pub key: u32,
}

/// Key under which the rasterizer knows a font at one size.
#[derive(Debug, Clone, Copy, PartialEq, Eq, Structural, Hash, PartialOrd, Ord)]
pub struct FontInstanceKey {
    pub namespace: IdNamespace,
    pub key: u32,
}

/// Identity of an image in the resource cache.
#[derive(Debug, Clone, Copy, PartialEq, Eq, Structural, Hash, PartialOrd, Ord)]
pub struct ImageId(pub u64);

/// Layout of the pixels of a raw image.
#[derive(Debug, Clone, Copy, PartialEq, Eq, Structural, Hash)]
pub enum RawImageFormat {
    R8,
    R16,
    RG16,
    BGRA8,
    RGBAF32,
    RG8,
    RGBAI32,
    RGBA8,
}

/// Shape and properties of the pixel data of an image.
#[derive(Debug, Clone, Copy, PartialEq, Eq, Hash)]
pub struct ImageDescriptor {
    /// Format of the image data
    pub format: RawImageFormat,
    /// Width and height of the image in pixels
    pub dimensions: (usize, usize),
    /// Optional stride of the image in bytes
    pub stride: Option<i32>,
    /// Offset of the first pixel in bytes
    pub offset: i32,
    /// Whether the image has no transparent pixel
    pub is_opaque: bool,
    /// Whether the rasterizer may build smaller copies of the image
    pub allow_mipmaps: bool,
}

/// An image as the rasterizer knows it.
#[derive(Debug, Clone, Copy, PartialEq, Eq, Hash)]
pub struct ImageInfo {
    pub key: ImageKey,
    pub descriptor: ImageDescriptor,
}

} // verus!
