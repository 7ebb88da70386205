//! Bindless descriptor table data: image handles, texture parameters,
//! image formats, and the fixed three-binding layout of the renderer's
//! single bindless descriptor set.
use vstd::prelude::*;

use crate::MAX_BINDLESS_DESCRIPTOR_COUNT;

verus! {

/// Opaque handle into the bindless image array. Handles are assigned
/// monotonically from 0 and each equals the array slot its descriptor
/// write targets; once issued they are stable for the renderer's lifetime.
#[derive(Clone, Copy, PartialEq, Eq, Hash, Debug, Structural)]
pub struct BindlessImageHandle(pub u32);

/// Whether a texture's pixel data is linear or perceptually (gamma)
/// encoded; decides the color format its image is created with.
#[derive(Clone, Copy, Debug, PartialEq, Eq, Structural)]
pub enum TexGamma {
    Linear,
    Srgb,
}

/// Parameters a texture is registered with.
#[derive(Clone, Copy, Debug, PartialEq, Eq, Structural)]
pub struct TexParams {
    pub gamma: TexGamma,
}

/// Decoded RGBA8 pixel data, four bytes per texel, row-major.
pub struct RawRgba8Image {
    pub data: Vec<u8>,
    pub width: u32,
    pub height: u32,
}

/// GPU image formats this renderer asks the device for.
#[derive(Clone, Copy, Debug, PartialEq, Eq, Structural)]
pub enum ImageFormat {
    R8G8B8A8Unorm,
    R8G8B8A8Srgb,
    R32G32B32A32Sfloat,
    R16G16B16A16Sfloat,
    D24UnormS8Uint,
    R8Unorm,
}

/// The color format a texture is uploaded with: gamma-aware formats for
/// perceptually encoded data, plain unsigned-normalized otherwise.
pub open spec fn texture_format(gamma: TexGamma) -> ImageFormat {
    match gamma {
        TexGamma::Linear => ImageFormat::R8G8B8A8Unorm,
        TexGamma::Srgb => ImageFormat::R8G8B8A8Srgb,
    }
}

/// A sampled image kept alive for the renderer's lifetime after being
/// registered in the bindless array.
#[derive(Clone, Copy, Debug, PartialEq, Eq, Structural)]
pub struct BindlessImage {
    pub format: ImageFormat,
    pub width: u32,
    pub height: u32,
    /// Bytes per row of the uploaded pixel data: four per texel.
    pub row_pitch: u64,
}

/// Descriptor kinds the bindless set uses.
#[derive(Clone, Copy, Debug, PartialEq, Eq, Structural)]
pub enum DescriptorType {
    StorageBuffer,
    SampledImage,
}

/// One binding of a descriptor-set layout.
#[derive(Clone, Copy, Debug, PartialEq, Eq, Structural)]
pub struct DescriptorBindingDesc {
    pub binding: u32,
    pub descriptor_count: u32,
    pub ty: DescriptorType,
    pub is_bindless: bool,
}

/// The bindless set's three regions: the mesh descriptor table buffer at
/// binding 0, the geometry arena buffer at binding 1, and the
/// variable-length sampled-image array at binding 2.
pub open spec fn bindless_layout() -> Seq<DescriptorBindingDesc> {
    seq![
        DescriptorBindingDesc {
            binding: 0,
            descriptor_count: 1,
            ty: DescriptorType::StorageBuffer,
            is_bindless: false,
        },
        DescriptorBindingDesc {
            binding: 1,
            descriptor_count: 1,
            ty: DescriptorType::StorageBuffer,
            is_bindless: false,
        },
        DescriptorBindingDesc {
            binding: 2,
            descriptor_count: MAX_BINDLESS_DESCRIPTOR_COUNT as u32,
            ty: DescriptorType::SampledImage,
            is_bindless: true,
        },
    ]
}

/// Builds the bindless descriptor-set layout description. It is immutable
/// process-wide configuration: every call returns the same three bindings,
/// so reinstalling it into a render graph each frame is idempotent.
pub fn bindless_descriptor_set_layout() -> (r: Vec<DescriptorBindingDesc>)
    ensures
        r@ == bindless_layout(),
{
    let mut r: Vec<DescriptorBindingDesc> = Vec::new();
    r.push(DescriptorBindingDesc {
        binding: 0,
        descriptor_count: 1,
        ty: DescriptorType::StorageBuffer,
        is_bindless: false,
    });
    r.push(DescriptorBindingDesc {
        binding: 1,
        descriptor_count: 1,
        ty: DescriptorType::StorageBuffer,
        is_bindless: false,
    });
    r.push(DescriptorBindingDesc {
        binding: 2,
        descriptor_count: MAX_BINDLESS_DESCRIPTOR_COUNT as u32,
        ty: DescriptorType::SampledImage,
        is_bindless: true,
    });
    proof {
        assert(r@ =~= bindless_layout());
    }
    r
}

} // verus!
