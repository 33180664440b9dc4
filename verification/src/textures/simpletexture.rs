//! A plain two-dimensional RGBA texture, visible to the fragment stage.

use vstd::prelude::*;

use core::marker::PhantomData;

use crate::descriptors::AddressMode;
use crate::descriptors::BindGroup;
use crate::descriptors::BindGroupLayout;
use crate::descriptors::BindGroupLayoutEntry;
use crate::descriptors::Binding;
use crate::descriptors::BindingResource;
use crate::descriptors::BindingType;
use crate::descriptors::CommandBuffer;
use crate::descriptors::CompareFunction;
use crate::descriptors::Extent3d;
use crate::descriptors::FilterMode;
use crate::descriptors::GpuCommand;
use crate::descriptors::Origin3d;
use crate::descriptors::SamplerDescriptor;
use crate::descriptors::TextureComponentType;
use crate::descriptors::TextureDescriptor;
use crate::descriptors::TextureDimension;
use crate::descriptors::TextureFormat;
use crate::descriptors::TextureView;
use crate::descriptors::TextureViewDimension;
use crate::descriptors::SHADER_STAGE_FRAGMENT;
use crate::descriptors::TEXTURE_USAGE_COPY_DST;
use crate::descriptors::TEXTURE_USAGE_SAMPLED;
use crate::texture::simple_bindings_spec;
use crate::texture::simple_layout_entries_spec;
use crate::texture::simple_sampler_spec;
use crate::texture::simple_texture_descriptor_spec;
use crate::texture::ImageData;
use crate::textures::LoadableTexture;
use crate::textures::TextureData;
use crate::textures::TextureShaderLayout;
use crate::RenderError;

verus! {

/// The slot-table key of [`SimpleTexture`]; no other texture type of the
/// program may use it.
pub const SIMPLE_TEXTURE_KEY: u64 = 0x5349_4d50_5445_5831;

/// A plain two-dimensional RGBA texture sampled by the fragment stage.
pub struct SimpleTexture;

impl TextureShaderLayout for SimpleTexture {
    open spec fn key_spec() -> u64 {
        SIMPLE_TEXTURE_KEY
    }

    open spec fn visibility_spec() -> u32 {
        SHADER_STAGE_FRAGMENT
    }

    open spec fn layout_entries_spec() -> Seq<BindGroupLayoutEntry> {
        simple_layout_entries_spec(SHADER_STAGE_FRAGMENT)
    }

    fn type_key() -> u64 {
        SIMPLE_TEXTURE_KEY
    }

    fn visibility() -> u32 {
        SHADER_STAGE_FRAGMENT
    }

    fn get_layout() -> (r: BindGroupLayout) {
        let entries = vec![
            BindGroupLayoutEntry {
                binding: 0,
                visibility: SHADER_STAGE_FRAGMENT,
                ty: BindingType::SampledTexture {
                    dimension: TextureViewDimension::D2,
                    component_type: TextureComponentType::Float,
                    multisampled: false,
                },
            },
            BindGroupLayoutEntry {
                binding: 1,
                visibility: SHADER_STAGE_FRAGMENT,
                ty: BindingType::Sampler { comparison: true },
            },
        ];
        proof {
            assert(entries@ =~= simple_layout_entries_spec(SHADER_STAGE_FRAGMENT));
        }
        BindGroupLayout { entries }
    }
}

impl LoadableTexture for SimpleTexture {
    /// Builds the texture sized to the image, stages the image's bytes, and
    /// records the one copy command that uploads them; the bind group hands
    /// the only view and the sampler to shaders.
    fn load_texture(img: &ImageData) -> (r: Result<
        (TextureData<SimpleTexture>, CommandBuffer),
        RenderError,
    >)
        ensures
            r is Ok,
            r matches Ok(pair) ==> {
                &&& pair.0.texture_spec() == simple_texture_descriptor_spec(
                    img.width_spec(),
                    img.height_spec(),
                )
                &&& pair.0.views_spec() =~= seq![
                    TextureView {
                        texture: simple_texture_descriptor_spec(img.width_spec(), img.height_spec()),
                    },
                ]
                &&& pair.0.sampler_spec() == simple_sampler_spec()
                &&& pair.0.bind_group_spec().bindings@ == simple_bindings_spec()
                &&& pair.1.commands@.len() == 1
                &&& (pair.1.commands@[0] matches GpuCommand::CopyBufferToTexture {
                    source_bytes,
                    source_offset,
                    bytes_per_row,
                    rows_per_image,
                    mip_level,
                    array_layer,
                    origin,
                    size,
                } && {
                    &&& source_bytes@ == img.rgba_spec()
                    &&& source_offset == 0
                    &&& bytes_per_row == 4 * img.width_spec()
                    &&& rows_per_image == 0
                    &&& mip_level == 0
                    &&& array_layer == 0
                    &&& origin == (Origin3d { x: 0, y: 0, z: 0 })
                    &&& size == (Extent3d {
                        width: img.width_spec(),
                        height: img.height_spec(),
                        depth: 1,
                    })
                })
            },
    {
        let width = img.width();
        let height = img.height();
        let size = Extent3d { width, height, depth: 1 };
        let texture = TextureDescriptor {
            size,
            array_layer_count: 1,
            mip_level_count: 1,
            sample_count: 1,
            dimension: TextureDimension::D2,
            format: TextureFormat::Rgba8UnormSrgb,
            usage: TEXTURE_USAGE_SAMPLED | TEXTURE_USAGE_COPY_DST,
        };
        let staging = img.rgba_bytes();
        let upload = GpuCommand::CopyBufferToTexture {
            source_bytes: staging,
            source_offset: 0,
            bytes_per_row: 4 * (width as u64),
            rows_per_image: 0,
            mip_level: 0,
            array_layer: 0,
            origin: Origin3d { x: 0, y: 0, z: 0 },
            size,
        };
        let commands = vec![upload];
        let command_buffer = CommandBuffer { commands };
        let view = TextureView { texture };
        let sampler = SamplerDescriptor {
            address_mode_u: AddressMode::Repeat,
            address_mode_v: AddressMode::Repeat,
            address_mode_w: AddressMode::Repeat,
            mag_filter: FilterMode::Linear,
            min_filter: FilterMode::Nearest,
            mipmap_filter: FilterMode::Nearest,
            compare: CompareFunction::Always,
        };
        let bindings = vec![
            Binding { binding: 0, resource: BindingResource::TextureView { view_index: 0 } },
            Binding { binding: 1, resource: BindingResource::Sampler },
        ];
        proof {
            assert(bindings@ =~= simple_bindings_spec());
        }
        let texture_data = TextureData::new(
            BindGroup { bindings },
            texture,
            vec![view],
            sampler,
        );
        Ok((texture_data, command_buffer))
    }
}

} // verus!
