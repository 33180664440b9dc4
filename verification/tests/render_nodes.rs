use std::sync::Arc;

use smol_renderer::descriptors::CompareFunction;
use smol_renderer::descriptors::Face;
use smol_renderer::descriptors::FrontFace;
use smol_renderer::descriptors::GpuCommand;
use smol_renderer::descriptors::IndexFormat;
use smol_renderer::descriptors::InputStepMode;
use smol_renderer::descriptors::PrimitiveTopology;
use smol_renderer::descriptors::RenderCommand;
use smol_renderer::descriptors::TextureFormat;
use smol_renderer::descriptors::VertexAttributeDescriptor;
use smol_renderer::descriptors::VertexFormat;
use smol_renderer::descriptors::COLOR_WRITE_ALL;
use smol_renderer::descriptors::SHADER_STAGE_VERTEX;
use smol_renderer::texture::ImageData;
use smol_renderer::textures::simpletexture::SimpleTexture;
use smol_renderer::textures::LoadableTexture;
use smol_renderer::textures::TextureShaderLayout;
use smol_renderer::FragmentShader;
use smol_renderer::GpuData;
use smol_renderer::RenderError;
use smol_renderer::RenderNode;
use smol_renderer::UniformBindGroup;
use smol_renderer::VertexBuffer;
use smol_renderer::VertexShader;

#[derive(Debug, PartialEq)]
struct CameraUniform {
    view: i32,
}

#[derive(Debug, PartialEq)]
struct ModelUniform {
    model: i32,
}

#[derive(Debug, PartialEq)]
struct Vertex {
    x: i32,
    y: i32,
}

impl GpuData for CameraUniform {
    fn type_key() -> u64 {
        20
    }
    fn byte_size() -> usize {
        std::mem::size_of::<CameraUniform>()
    }
    fn as_raw_bytes(&self) -> Vec<u8> {
        self.view.to_le_bytes().to_vec()
    }
}

impl GpuData for ModelUniform {
    fn type_key() -> u64 {
        21
    }
    fn byte_size() -> usize {
        std::mem::size_of::<ModelUniform>()
    }
    fn as_raw_bytes(&self) -> Vec<u8> {
        self.model.to_le_bytes().to_vec()
    }
}

impl GpuData for Vertex {
    fn type_key() -> u64 {
        22
    }
    fn byte_size() -> usize {
        std::mem::size_of::<Vertex>()
    }
    fn as_raw_bytes(&self) -> Vec<u8> {
        let mut bytes = self.x.to_le_bytes().to_vec();
        bytes.extend_from_slice(&self.y.to_le_bytes());
        bytes
    }
}

impl VertexBuffer for Vertex {
    fn step_mode() -> InputStepMode {
        InputStepMode::Vertex
    }
    fn get_attributes() -> Vec<VertexAttributeDescriptor> {
        vec![VertexAttributeDescriptor { offset: 0, format: VertexFormat::Int2, shader_location: 0 }]
    }
}

fn local_group() -> UniformBindGroup {
    UniformBindGroup::with_name("locals")
        .add_binding::<ModelUniform>(SHADER_STAGE_VERTEX)
        .unwrap()
        .build()
}

fn shared_group() -> UniformBindGroup {
    UniformBindGroup::with_name("camera")
        .add_binding::<CameraUniform>(SHADER_STAGE_VERTEX)
        .unwrap()
        .build()
}

#[test]
fn building_without_a_vertex_shader_fails() {
    let result = RenderNode::builder()
        .set_fragment_shader(FragmentShader::new(vec![3, 4]))
        .build(TextureFormat::Bgra8UnormSrgb);
    assert!(matches!(result, Err(RenderError::MissingVertexShader)));
}

#[test]
fn build_assembles_the_pipeline_descriptor() {
    let shared = Arc::new(shared_group());
    let shared_entries = shared.get_layout().entries.clone();
    let local = local_group();
    let local_entries = local.get_layout().entries.clone();

    let node = RenderNode::builder()
        .add_vertex_buffer::<Vertex>()
        .add_shared_uniform_bind_group(shared)
        .add_local_uniform_bind_group(local)
        .add_texture::<SimpleTexture>()
        .set_vertex_shader(VertexShader::new(vec![119734787, 65536]))
        .set_fragment_shader(FragmentShader::new(vec![119734787, 65537]))
        .set_default_rasterization_state()
        .set_default_depth_stencil_state()
        .build(TextureFormat::Bgra8UnormSrgb)
        .unwrap();

    let pipeline = node.get_pipeline();

    let layouts = &pipeline.layout.bind_group_layouts;
    assert_eq!(layouts.len(), 3);
    assert_eq!(layouts[0].entries, shared_entries);
    assert_eq!(layouts[1].entries, local_entries);
    assert_eq!(layouts[2].entries, SimpleTexture::get_layout().entries);

    assert_eq!(pipeline.vertex_stage.module, vec![119734787, 65536]);
    assert_eq!(pipeline.vertex_stage.entry_point, "main");
    let fragment = pipeline.fragment_stage.as_ref().unwrap();
    assert_eq!(fragment.module, vec![119734787, 65537]);
    assert_eq!(fragment.entry_point, "main");

    let rasterization = pipeline.rasterization_state.unwrap();
    assert_eq!(rasterization.front_face, FrontFace::Ccw);
    assert_eq!(rasterization.cull_mode, Some(Face::Back));
    assert_eq!(rasterization.depth_bias, 0);

    let depth = pipeline.depth_stencil_state.unwrap();
    assert_eq!(depth.format, TextureFormat::Depth32Float);
    assert!(depth.depth_write_enabled);
    assert_eq!(depth.depth_compare, CompareFunction::Less);
    assert_eq!(depth.stencil_read_mask, 0);
    assert_eq!(depth.stencil_write_mask, 0);

    assert_eq!(pipeline.primitive_topology, PrimitiveTopology::TriangleList);
    assert_eq!(pipeline.color_states.len(), 1);
    assert_eq!(pipeline.color_states[0].format, TextureFormat::Bgra8UnormSrgb);
    assert_eq!(pipeline.color_states[0].write_mask, COLOR_WRITE_ALL);

    assert_eq!(pipeline.vertex_state.index_format, IndexFormat::Uint32);
    assert_eq!(pipeline.vertex_state.vertex_buffers.len(), 1);
    assert_eq!(pipeline.vertex_state.vertex_buffers[0].stride, 8);
    assert_eq!(pipeline.vertex_state.vertex_buffers[0].step_mode, InputStepMode::Vertex);

    assert_eq!(pipeline.sample_count, 1);
    assert_eq!(pipeline.sample_mask, u32::MAX);
    assert!(!pipeline.alpha_to_coverage_enabled);
}

#[test]
fn update_reaches_the_indexed_local_group() {
    let node = RenderNode::builder()
        .add_local_uniform_bind_group(local_group())
        .set_vertex_shader(VertexShader::new(vec![1]))
        .build(TextureFormat::Bgra8UnormSrgb)
        .unwrap();

    let command = node.update(0, &ModelUniform { model: 7 }).unwrap();
    match command {
        GpuCommand::CopyBufferToBuffer { source_bytes, destination_index, copy_size, .. } => {
            assert_eq!(source_bytes, vec![7, 0, 0, 0]);
            assert_eq!(destination_index, 0);
            assert_eq!(copy_size, 4);
        }
        other => panic!("expected a buffer copy, got {:?}", other),
    }

    let missing = node.update(0, &CameraUniform { view: 1 });
    assert!(matches!(missing, Err(RenderError::GpuDataTypeNotPresent)));
}

#[test]
fn runner_binds_groups_then_typed_slots() {
    let node = RenderNode::builder()
        .add_vertex_buffer::<Vertex>()
        .add_local_uniform_bind_group(local_group())
        .add_texture::<SimpleTexture>()
        .set_vertex_shader(VertexShader::new(vec![1]))
        .build(TextureFormat::Bgra8UnormSrgb)
        .unwrap();

    let mut runner = node.runner();
    {
        let commands = runner.commands();
        assert_eq!(commands.len(), 2);
        assert!(matches!(commands[0], RenderCommand::SetPipeline));
        match &commands[1] {
            RenderCommand::SetBindGroup { index, bind_group } => {
                assert_eq!(*index, 0);
                assert_eq!(bind_group.bindings.len(), 1);
            }
            other => panic!("expected a bind group, got {:?}", other),
        }
    }

    let img = ImageData::new(1, 1, vec![0, 0, 0, 0]).unwrap();
    let (texture_data, _upload) = SimpleTexture::load_texture(&img).unwrap();
    runner.set_texture_data(1, &texture_data);

    let vertices = Vertex::allocate_immutable_buffer(&[Vertex { x: 1, y: 2 }]);
    runner.set_vertex_buffer_data(0, &vertices);

    let commands = runner.commands();
    assert_eq!(commands.len(), 4);
    match &commands[2] {
        RenderCommand::SetBindGroup { index, bind_group } => {
            assert_eq!(*index, 1);
            assert_eq!(bind_group.bindings.len(), 2);
        }
        other => panic!("expected a bind group, got {:?}", other),
    }
    match &commands[3] {
        RenderCommand::SetVertexBuffer { slot, buffer } => {
            assert_eq!(*slot, 0);
            assert_eq!(buffer.contents, vec![1, 0, 0, 0, 2, 0, 0, 0]);
        }
        other => panic!("expected a vertex buffer bind, got {:?}", other),
    }
}
