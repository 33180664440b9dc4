//! Textures: decoded image data, the texture objects built from it, and the
//! upload commands that fill them.
//!
//! Opening and decoding an image file happens outside the library; the
//! builders here take the decoded pixels as an [`ImageData`].

use vstd::prelude::*;

use core::marker::PhantomData;

use crate::descriptors::AddressMode;
use crate::descriptors::BindGroup;
use crate::descriptors::BindGroupLayout;
use crate::descriptors::BindGroupLayoutEntry;
use crate::descriptors::Binding;
use crate::descriptors::BindingResource;
use crate::descriptors::BindingType;
use crate::descriptors::CommandBuffer;
use crate::descriptors::CompareFunction;
use crate::descriptors::Extent3d;
use crate::descriptors::FilterMode;
use crate::descriptors::GpuCommand;
use crate::descriptors::Origin3d;
use crate::descriptors::SamplerDescriptor;
use crate::descriptors::TextureComponentType;
use crate::descriptors::TextureDescriptor;
use crate::descriptors::TextureDimension;
use crate::descriptors::TextureFormat;
use crate::descriptors::TextureView;
use crate::descriptors::TextureViewDimension;
use crate::descriptors::TEXTURE_USAGE_COPY_DST;
use crate::descriptors::TEXTURE_USAGE_SAMPLED;
use crate::RenderError;

verus! {

/// A decoded image: its dimensions and its pixels as tightly packed
/// four-byte RGBA rows, bottom row first.
#[derive(Debug)]
pub struct ImageData {
    width: u32,
    height: u32,
    rgba: Vec<u8>,
}

impl ImageData {
    /// There are exactly four bytes for each of the `width * height`
    /// pixels.
    #[verifier::type_invariant]
    pub closed spec fn wf(&self) -> bool {
        self.rgba@.len() == 4 * self.width * self.height
    }

    pub closed spec fn width_spec(&self) -> u32 {
        self.width
    }

    pub closed spec fn height_spec(&self) -> u32 {
        self.height
    }

    pub closed spec fn rgba_spec(&self) -> Seq<u8> {
        self.rgba@
    }

    /// Wraps decoded pixels. Fails exactly when the byte count does not
    /// match the dimensions.
    pub fn new(width: u32, height: u32, rgba: Vec<u8>) -> (r: Result<ImageData, RenderError>)
        ensures
            r is Ok <==> rgba@.len() == 4 * width * height,
            r matches Ok(img) ==> {
                &&& img.width_spec() == width
                &&& img.height_spec() == height
                &&& img.rgba_spec() == rgba@
            },
            r matches Err(e) ==> e is TextureLoadError,
    {
        proof {
            assert((4u128 * (width as u128)) * (height as u128) <= 0x400000000u128
                * 0xffffffffu128) by (nonlinear_arith)
                requires
                    (width as u128) <= 0xffffffffu128,
                    (height as u128) <= 0xffffffffu128,
            ;
        }
        let expected: u128 = 4u128 * (width as u128) * (height as u128);
        if rgba.len() as u128 == expected {
            Ok(ImageData { width, height, rgba })
        } else {
            Err(
                RenderError::TextureLoadError(
                    "image byte length does not match its dimensions".to_owned(),
                ),
            )
        }
    }

    pub fn width(&self) -> (r: u32)
        ensures
            r == self.width_spec(),
    {
        self.width
    }

    pub fn height(&self) -> (r: u32)
        ensures
            r == self.height_spec(),
    {
        self.height
    }

    /// A copy of the pixel bytes.
    pub fn rgba_bytes(&self) -> (r: Vec<u8>)
        ensures
            r@ == self.rgba_spec(),
    {
        let bytes = self.rgba.clone();
        proof {
            assert(bytes@ =~= self.rgba@);
        }
        bytes
    }
}

/// A texture type: something that can be loaded from decoded image data
/// and that knows its bind group layout.
pub trait Texture: Sized {
    /// Builds the texture objects and the upload commands for the given
    /// image, bound to the given shader stages.
    fn load(img: &ImageData, visibility: u32) -> Result<
        (TextureData<Self>, CommandBuffer),
        RenderError,
    >;

    /// The bind group layout every texture of this type is bound through.
    fn get_or_create_layout(visibility: u32) -> BindGroupLayout;
}

/// A loaded texture: the created texture, its default view, its sampler,
/// and the bind group that hands both to shaders.
#[derive(Debug)]
pub struct TextureData<T> {
    pub(crate) bind_group: BindGroup,
    pub texture: TextureDescriptor,
    pub view: TextureView,
    pub sampler: SamplerDescriptor,
    _marker: PhantomData<T>,
}

impl<T> TextureData<T> {
    /// The bind group that hands the view and the sampler to shaders.
    pub closed spec fn bind_group_spec(&self) -> BindGroup {
        self.bind_group
    }

    pub closed spec fn texture_spec(&self) -> TextureDescriptor {
        self.texture
    }

    pub closed spec fn view_spec(&self) -> TextureView {
        self.view
    }

    pub closed spec fn sampler_spec(&self) -> SamplerDescriptor {
        self.sampler
    }
}

/// A plain two-dimensional RGBA texture sampled by shaders.
pub struct SimpleTexture;

/// The texture descriptor a simple texture of the given size is created
/// with.
pub open spec fn simple_texture_descriptor_spec(width: u32, height: u32) -> TextureDescriptor {
    TextureDescriptor {
        size: Extent3d { width, height, depth: 1 },
        array_layer_count: 1,
        mip_level_count: 1,
        sample_count: 1,
        dimension: TextureDimension::D2,
        format: TextureFormat::Rgba8UnormSrgb,
        usage: TEXTURE_USAGE_SAMPLED | TEXTURE_USAGE_COPY_DST,
    }
}

/// The sampler a simple texture is sampled with.
pub open spec fn simple_sampler_spec() -> SamplerDescriptor {
    SamplerDescriptor {
        address_mode_u: AddressMode::Repeat,
        address_mode_v: AddressMode::Repeat,
        address_mode_w: AddressMode::Repeat,
        mag_filter: FilterMode::Linear,
        min_filter: FilterMode::Nearest,
        mipmap_filter: FilterMode::Nearest,
        compare: CompareFunction::Always,
    }
}

/// The two layout slots of a simple texture: the sampled texture at binding
/// 0 and its comparison sampler at binding 1.
pub open spec fn simple_layout_entries_spec(visibility: u32) -> Seq<BindGroupLayoutEntry> {
    seq![
        BindGroupLayoutEntry {
            binding: 0,
            visibility,
            ty: BindingType::SampledTexture {
                dimension: TextureViewDimension::D2,
                component_type: TextureComponentType::Float,
                multisampled: false,
            },
        },
        BindGroupLayoutEntry { binding: 1, visibility, ty: BindingType::Sampler { comparison: true } },
    ]
}

/// The two filled slots of a simple texture's bind group: its only view at
/// binding 0 and its sampler at binding 1.
pub open spec fn simple_bindings_spec() -> Seq<Binding> {
    seq![
        Binding { binding: 0, resource: BindingResource::TextureView { view_index: 0 } },
        Binding { binding: 1, resource: BindingResource::Sampler },
    ]
}

impl Texture for SimpleTexture {
    fn get_or_create_layout(visibility: u32) -> (r: BindGroupLayout)
        ensures
            r.entries@ == simple_layout_entries_spec(visibility),
    {
        let entries = vec![
            BindGroupLayoutEntry {
                binding: 0,
                visibility,
                ty: BindingType::SampledTexture {
                    dimension: TextureViewDimension::D2,
                    component_type: TextureComponentType::Float,
                    multisampled: false,
                },
            },
            BindGroupLayoutEntry {
                binding: 1,
                visibility,
                ty: BindingType::Sampler { comparison: true },
            },
        ];
        proof {
            assert(entries@ =~= simple_layout_entries_spec(visibility));
        }
        BindGroupLayout { entries }
    }

    /// Builds the texture sized to the image, stages the image's bytes, and
    /// records the one copy command that uploads them; the bind group hands
    /// the default view and the sampler to shaders.
    fn load(img: &ImageData, visibility: u32) -> (r: Result<
        (TextureData<SimpleTexture>, CommandBuffer),
        RenderError,
    >)
        ensures
            r is Ok,
            r matches Ok(pair) ==> {
                &&& pair.0.texture_spec() == simple_texture_descriptor_spec(
                    img.width_spec(),
                    img.height_spec(),
                )
                &&& pair.0.view_spec() == (TextureView {
                    texture: simple_texture_descriptor_spec(img.width_spec(), img.height_spec()),
                })
                &&& pair.0.sampler_spec() == simple_sampler_spec()
                &&& pair.0.bind_group_spec().bindings@ == simple_bindings_spec()
                &&& pair.1.commands@.len() == 1
                &&& (pair.1.commands@[0] matches GpuCommand::CopyBufferToTexture {
                    source_bytes,
                    source_offset,
                    bytes_per_row,
                    rows_per_image,
                    mip_level,
                    array_layer,
                    origin,
                    size,
                } && {
                    &&& source_bytes@ == img.rgba_spec()
                    &&& source_offset == 0
                    &&& bytes_per_row == 4 * img.width_spec()
                    &&& rows_per_image == 0
                    &&& mip_level == 0
                    &&& array_layer == 0
                    &&& origin == (Origin3d { x: 0, y: 0, z: 0 })
                    &&& size == (Extent3d {
                        width: img.width_spec(),
                        height: img.height_spec(),
                        depth: 1,
                    })
                })
            },
    {
        let width = img.width();
        let height = img.height();
        let size = Extent3d { width, height, depth: 1 };
        let texture = TextureDescriptor {
            size,
            array_layer_count: 1,
            mip_level_count: 1,
            sample_count: 1,
            dimension: TextureDimension::D2,
            format: TextureFormat::Rgba8UnormSrgb,
            usage: TEXTURE_USAGE_SAMPLED | TEXTURE_USAGE_COPY_DST,
        };
        let staging = img.rgba_bytes();
        let upload = GpuCommand::CopyBufferToTexture {
            source_bytes: staging,
            source_offset: 0,
            bytes_per_row: 4 * (width as u64),
            rows_per_image: 0,
            mip_level: 0,
            array_layer: 0,
            origin: Origin3d { x: 0, y: 0, z: 0 },
            size,
        };
        let commands = vec![upload];
        let command_buffer = CommandBuffer { commands };
        let view = TextureView { texture };
        let sampler = SamplerDescriptor {
            address_mode_u: AddressMode::Repeat,
            address_mode_v: AddressMode::Repeat,
            address_mode_w: AddressMode::Repeat,
            mag_filter: FilterMode::Linear,
            min_filter: FilterMode::Nearest,
            mipmap_filter: FilterMode::Nearest,
            compare: CompareFunction::Always,
        };
        let bindings = vec![
            Binding { binding: 0, resource: BindingResource::TextureView { view_index: 0 } },
            Binding { binding: 1, resource: BindingResource::Sampler },
        ];
        proof {
            assert(bindings@ =~= simple_bindings_spec());
        }
        let texture_data = TextureData {
            bind_group: BindGroup { bindings },
            sampler,
            view,
            texture,
            _marker: PhantomData,
        };
        Ok((texture_data, command_buffer))
    }
}

} // verus!
