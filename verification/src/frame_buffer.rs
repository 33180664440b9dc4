//! A depth-stencil framebuffer whose texture shaders can also sample.

use vstd::prelude::*;

use crate::descriptors::DepthStencilStateDescriptor;
use crate::descriptors::Extent3d;
use crate::descriptors::TextureDescriptor;
use crate::descriptors::TextureDimension;
use crate::descriptors::TextureFormat;
use crate::descriptors::TEXTURE_USAGE_OUTPUT_ATTACHMENT;
use crate::descriptors::TEXTURE_USAGE_SAMPLED;

verus! {

/// A readable depth-stencil target: its format and the texture that backs
/// it.
#[derive(Debug)]
pub struct ReadableDepthStencilFramebuffer {
    format: TextureFormat,
    texture: TextureDescriptor,
}

impl ReadableDepthStencilFramebuffer {
    pub closed spec fn format_spec(&self) -> TextureFormat {
        self.format
    }

    pub closed spec fn texture_spec(&self) -> TextureDescriptor {
        self.texture
    }

    /// Plans a depth-stencil target of the given size, in the format the
    /// depth-stencil state asks for, that shaders may also sample.
    pub fn new(desc: DepthStencilStateDescriptor, size: Extent3d) -> (r: Self)
        ensures
            r.format_spec() == desc.format,
            r.texture_spec() == (TextureDescriptor {
                size,
                array_layer_count: 1,
                mip_level_count: 1,
                sample_count: 1,
                dimension: TextureDimension::D2,
                format: desc.format,
                usage: TEXTURE_USAGE_OUTPUT_ATTACHMENT | TEXTURE_USAGE_SAMPLED,
            }),
    {
        let texture = TextureDescriptor {
            size,
            array_layer_count: 1,
            mip_level_count: 1,
            sample_count: 1,
            dimension: TextureDimension::D2,
            format: desc.format,
            usage: TEXTURE_USAGE_OUTPUT_ATTACHMENT | TEXTURE_USAGE_SAMPLED,
        };
        ReadableDepthStencilFramebuffer { format: desc.format, texture }
    }

    pub fn format(&self) -> (r: TextureFormat)
        ensures
            r == self.format_spec(),
    {
        self.format
    }

    pub fn get_texture(&self) -> (r: &TextureDescriptor)
        ensures
            *r == self.texture_spec(),
    {
        &self.texture
    }
}

} // verus!
