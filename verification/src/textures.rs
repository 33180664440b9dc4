//! Textures as render nodes consume them: a layout trait that ties a
//! texture type to its bind group layout and slot key, the data of a loaded
//! texture, and loading traits.

use vstd::prelude::*;

use core::marker::PhantomData;

use crate::descriptors::BindGroup;
use crate::descriptors::BindGroupLayout;
use crate::descriptors::BindGroupLayoutEntry;
use crate::descriptors::CommandBuffer;
use crate::descriptors::SamplerDescriptor;
use crate::descriptors::TextureDescriptor;
use crate::descriptors::TextureView;
use crate::texture::ImageData;
use crate::RenderError;

pub mod simpletexture;

verus! {

/// A texture type a shader can bind: it names itself with a key (standing
/// in for the type's runtime identity), the stages that see it, and its
/// bind group layout.
///
/// Every implementing type must pick a key that no other texture type of
/// the program uses.
pub trait TextureShaderLayout: Sized {
    /// The key that identifies this texture type in slot tables;
    /// unspecified until an implementation picks it.
    open spec fn key_spec() -> u64 {
        arbitrary()
    }

    /// The shader stages this texture is visible to; unspecified until an
    /// implementation picks it.
    open spec fn visibility_spec() -> u32 {
        arbitrary()
    }

    /// The slots of this texture type's bind group layout; unspecified
    /// until an implementation picks it.
    open spec fn layout_entries_spec() -> Seq<BindGroupLayoutEntry> {
        arbitrary()
    }

    fn type_key() -> (r: u64)
        ensures
            r == Self::key_spec(),
    ;

    fn visibility() -> (r: u32)
        ensures
            r == Self::visibility_spec(),
    ;

    fn get_layout() -> (r: BindGroupLayout)
        ensures
            r.entries@ == Self::layout_entries_spec(),
    ;
}

/// A loaded texture: the created texture, its views, its sampler, and the
/// bind group that hands them to shaders.
#[derive(Debug)]
pub struct TextureData<T> {
    _marker: PhantomData<T>,
    pub bind_group: BindGroup,
    pub views: Vec<TextureView>,
    pub sampler: SamplerDescriptor,
    pub texture: TextureDescriptor,
}

impl<T> TextureData<T> {
    /// The bind group that hands the views and the sampler to shaders.
    pub closed spec fn bind_group_spec(&self) -> BindGroup {
        self.bind_group
    }

    pub closed spec fn views_spec(&self) -> Seq<TextureView> {
        self.views@
    }

    pub closed spec fn sampler_spec(&self) -> SamplerDescriptor {
        self.sampler
    }

    pub closed spec fn texture_spec(&self) -> TextureDescriptor {
        self.texture
    }

    /// The bind group that hands the views and the sampler to shaders.
    pub fn get_bind_group(&self) -> (r: &BindGroup)
        ensures
            *r == self.bind_group_spec(),
    {
        &self.bind_group
    }

    pub fn new(
        bind_group: BindGroup,
        texture: TextureDescriptor,
        views: Vec<TextureView>,
        sampler: SamplerDescriptor,
    ) -> (r: Self)
        ensures
            r.bind_group_spec() == bind_group,
            r.texture_spec() == texture,
            r.views_spec() == views@,
            r.sampler_spec() == sampler,
    {
        TextureData { bind_group, texture, views, sampler, _marker: PhantomData }
    }
}

/// A texture type that can be loaded from decoded image data.
pub trait LoadableTexture: Sized + TextureShaderLayout {
    /// Builds the texture objects and the upload commands for the given
    /// image.
    fn load_texture(img: &ImageData) -> Result<(TextureData<Self>, CommandBuffer), RenderError>;
}

/// A texture type that can be allocated empty, to be rendered into.
pub trait RenderTargetTexture: Sized + TextureShaderLayout {
    fn allocate_texture() -> TextureData<Self>;
}

} // verus!
