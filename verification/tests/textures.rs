use smol_renderer::descriptors::BindingResource;
use smol_renderer::descriptors::BindingType;
use smol_renderer::descriptors::CompareFunction;
use smol_renderer::descriptors::FilterMode;
use smol_renderer::descriptors::GpuCommand;
use smol_renderer::descriptors::TextureComponentType;
use smol_renderer::descriptors::TextureFormat;
use smol_renderer::descriptors::TextureViewDimension;
use smol_renderer::descriptors::SHADER_STAGE_FRAGMENT;
use smol_renderer::descriptors::TEXTURE_USAGE_COPY_DST;
use smol_renderer::descriptors::TEXTURE_USAGE_SAMPLED;
use smol_renderer::descriptors::DepthStencilStateDescriptor;
use smol_renderer::descriptors::Extent3d;
use smol_renderer::descriptors::StencilStateFaceDescriptor;
use smol_renderer::descriptors::TextureDimension;
use smol_renderer::descriptors::TEXTURE_USAGE_OUTPUT_ATTACHMENT;
use smol_renderer::frame_buffer::ReadableDepthStencilFramebuffer;
use smol_renderer::texture::ImageData;
use smol_renderer::textures::simpletexture::SimpleTexture;
use smol_renderer::textures::LoadableTexture;
use smol_renderer::textures::TextureShaderLayout;
use smol_renderer::RenderError;
use smol_renderer::Texture;

#[test]
fn image_data_rejects_a_byte_count_off_by_one() {
    let result = ImageData::new(2, 2, vec![0; 15]);
    assert!(matches!(result, Err(RenderError::TextureLoadError(_))));
}

#[test]
fn image_data_takes_matching_bytes() {
    let img = ImageData::new(2, 2, vec![0; 16]).unwrap();
    assert_eq!(img.width(), 2);
    assert_eq!(img.height(), 2);
    assert_eq!(img.rgba_bytes(), vec![0; 16]);
}

#[test]
fn simple_texture_layout_has_a_texture_and_a_sampler_slot() {
    let layout = SimpleTexture::get_layout();
    assert_eq!(layout.entries.len(), 2);
    assert_eq!(layout.entries[0].binding, 0);
    assert_eq!(layout.entries[0].visibility, SHADER_STAGE_FRAGMENT);
    assert_eq!(
        layout.entries[0].ty,
        BindingType::SampledTexture {
            dimension: TextureViewDimension::D2,
            component_type: TextureComponentType::Float,
            multisampled: false,
        }
    );
    assert_eq!(layout.entries[1].binding, 1);
    assert_eq!(layout.entries[1].ty, BindingType::Sampler { comparison: true });
}

#[test]
fn load_texture_plans_the_upload() {
    let pixels: Vec<u8> = vec![1, 2, 3, 4, 5, 6, 7, 8];
    let img = ImageData::new(2, 1, pixels.clone()).unwrap();
    let (data, commands) = SimpleTexture::load_texture(&img).unwrap();

    assert_eq!(data.texture.size.width, 2);
    assert_eq!(data.texture.size.height, 1);
    assert_eq!(data.texture.size.depth, 1);
    assert_eq!(data.texture.format, TextureFormat::Rgba8UnormSrgb);
    assert_eq!(data.texture.usage, TEXTURE_USAGE_SAMPLED | TEXTURE_USAGE_COPY_DST);
    assert_eq!(data.texture.mip_level_count, 1);
    assert_eq!(data.texture.sample_count, 1);

    assert_eq!(data.views.len(), 1);
    assert_eq!(data.views[0].texture, data.texture);

    assert_eq!(data.sampler.mag_filter, FilterMode::Linear);
    assert_eq!(data.sampler.min_filter, FilterMode::Nearest);
    assert_eq!(data.sampler.compare, CompareFunction::Always);

    assert_eq!(data.bind_group.bindings.len(), 2);
    assert_eq!(data.bind_group.bindings[0].resource, BindingResource::TextureView {
        view_index: 0,
    });
    assert_eq!(data.bind_group.bindings[1].resource, BindingResource::Sampler);

    assert_eq!(commands.commands.len(), 1);
    match &commands.commands[0] {
        GpuCommand::CopyBufferToTexture { source_bytes, bytes_per_row, rows_per_image, size, .. } => {
            assert_eq!(source_bytes, &pixels);
            assert_eq!(*bytes_per_row, 8);
            assert_eq!(*rows_per_image, 0);
            assert_eq!(size.width, 2);
            assert_eq!(size.height, 1);
        }
        other => panic!("expected a texture upload, got {:?}", other),
    }
}

#[test]
fn the_standalone_simple_texture_loads_too() {
    let img = ImageData::new(1, 1, vec![9, 9, 9, 9]).unwrap();
    let loaded = smol_renderer::SimpleTexture::load(&img, SHADER_STAGE_FRAGMENT);
    let (data, commands) = loaded.unwrap();
    assert_eq!(data.texture.size.width, 1);
    assert_eq!(data.view.texture, data.texture);
    assert_eq!(commands.commands.len(), 1);

    let layout = smol_renderer::SimpleTexture::get_or_create_layout(SHADER_STAGE_FRAGMENT);
    assert_eq!(layout.entries.len(), 2);
    assert_eq!(layout.entries[1].ty, BindingType::Sampler { comparison: true });
}

#[test]
fn framebuffer_plans_a_readable_depth_texture() {
    let desc = DepthStencilStateDescriptor {
        format: TextureFormat::Depth32Float,
        depth_write_enabled: true,
        depth_compare: CompareFunction::Less,
        stencil_front: StencilStateFaceDescriptor::ignore(),
        stencil_back: StencilStateFaceDescriptor::ignore(),
        stencil_read_mask: 0,
        stencil_write_mask: 0,
    };
    let framebuffer = ReadableDepthStencilFramebuffer::new(
        desc,
        Extent3d { width: 640, height: 480, depth: 1 },
    );
    assert_eq!(framebuffer.format(), TextureFormat::Depth32Float);
    let texture = framebuffer.get_texture();
    assert_eq!(texture.size.width, 640);
    assert_eq!(texture.size.height, 480);
    assert_eq!(texture.dimension, TextureDimension::D2);
    assert_eq!(texture.format, TextureFormat::Depth32Float);
    assert_eq!(texture.usage, TEXTURE_USAGE_OUTPUT_ATTACHMENT | TEXTURE_USAGE_SAMPLED);
}
