use smol_renderer::descriptors::GpuCommand;
use smol_renderer::descriptors::InputStepMode;
use smol_renderer::descriptors::VertexAttributeDescriptor;
use smol_renderer::descriptors::VertexFormat;
use smol_renderer::descriptors::BUFFER_USAGE_COPY_DST;
use smol_renderer::descriptors::BUFFER_USAGE_VERTEX;
use smol_renderer::GpuData;
use smol_renderer::VertexBuffer;
use smol_renderer::VertexBufferData;

#[derive(Debug, PartialEq)]
struct Vertex {
    x: i32,
    y: i32,
}

impl GpuData for Vertex {
    fn type_key() -> u64 {
        10
    }
    fn byte_size() -> usize {
        std::mem::size_of::<Vertex>()
    }
    fn as_raw_bytes(&self) -> Vec<u8> {
        let mut bytes = self.x.to_le_bytes().to_vec();
        bytes.extend_from_slice(&self.y.to_le_bytes());
        bytes
    }
}

impl VertexBuffer for Vertex {
    fn step_mode() -> InputStepMode {
        InputStepMode::Vertex
    }
    fn get_attributes() -> Vec<VertexAttributeDescriptor> {
        vec![VertexAttributeDescriptor { offset: 0, format: VertexFormat::Int2, shader_location: 0 }]
    }
}

#[test]
fn descriptor_reports_stride_step_mode_and_attributes() {
    let descriptor = Vertex::get_descriptor();
    assert_eq!(descriptor.stride, 8);
    assert_eq!(descriptor.step_mode, InputStepMode::Vertex);
    assert_eq!(
        descriptor.attributes,
        vec![VertexAttributeDescriptor { offset: 0, format: VertexFormat::Int2, shader_location: 0 }]
    );
}

#[test]
fn immutable_buffer_lays_vertex_bytes_end_to_end() {
    let data = Vertex::allocate_immutable_buffer(&[Vertex { x: 1, y: 2 }, Vertex { x: 3, y: 4 }]);
    let buffer = data.get_gpu_buffer();
    assert_eq!(buffer.contents, vec![1, 0, 0, 0, 2, 0, 0, 0, 3, 0, 0, 0, 4, 0, 0, 0]);
    assert_eq!(buffer.usage, BUFFER_USAGE_VERTEX);
}

#[test]
fn mutable_buffer_is_also_a_copy_destination() {
    let data = Vertex::allocate_mutable_buffer(&[Vertex { x: -1, y: 0 }]);
    let buffer = data.get_gpu_buffer();
    assert_eq!(buffer.contents, vec![255, 255, 255, 255, 0, 0, 0, 0]);
    assert_eq!(buffer.usage, BUFFER_USAGE_VERTEX | BUFFER_USAGE_COPY_DST);
}

#[test]
fn update_stages_the_new_vertex_bytes() {
    let data = Vertex::allocate_mutable_buffer(&[Vertex { x: 0, y: 0 }]);
    let command = data.update(&[Vertex { x: 5, y: 6 }]);
    match command {
        GpuCommand::CopyBufferToBuffer {
            source_bytes,
            source_offset,
            destination_index,
            destination_offset,
            copy_size,
        } => {
            assert_eq!(source_bytes, vec![5, 0, 0, 0, 6, 0, 0, 0]);
            assert_eq!(source_offset, 0);
            assert_eq!(destination_index, 0);
            assert_eq!(destination_offset, 0);
            assert_eq!(copy_size, 8);
        }
        other => panic!("expected a buffer copy, got {:?}", other),
    }
}
