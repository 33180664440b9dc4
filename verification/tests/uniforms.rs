use smol_renderer::descriptors::BindingResource;
use smol_renderer::descriptors::BindingType;
use smol_renderer::descriptors::GpuCommand;
use smol_renderer::descriptors::BUFFER_USAGE_COPY_DST;
use smol_renderer::descriptors::BUFFER_USAGE_UNIFORM;
use smol_renderer::descriptors::SHADER_STAGE_FRAGMENT;
use smol_renderer::descriptors::SHADER_STAGE_VERTEX;
use smol_renderer::GpuData;
use smol_renderer::RenderError;
use smol_renderer::UniformBindGroup;

#[derive(Debug, PartialEq)]
struct Data1 {
    dummy: i32,
}

#[derive(Debug, PartialEq)]
struct Data2 {
    dummy: i32,
}

#[derive(Debug, PartialEq)]
struct Data3 {
    dummy: i32,
}

impl GpuData for Data1 {
    fn type_key() -> u64 {
        1
    }
    fn byte_size() -> usize {
        std::mem::size_of::<Data1>()
    }
    fn as_raw_bytes(&self) -> Vec<u8> {
        self.dummy.to_le_bytes().to_vec()
    }
}

impl GpuData for Data2 {
    fn type_key() -> u64 {
        2
    }
    fn byte_size() -> usize {
        std::mem::size_of::<Data2>()
    }
    fn as_raw_bytes(&self) -> Vec<u8> {
        self.dummy.to_le_bytes().to_vec()
    }
}

impl GpuData for Data3 {
    fn type_key() -> u64 {
        3
    }
    fn byte_size() -> usize {
        std::mem::size_of::<Data3>()
    }
    fn as_raw_bytes(&self) -> Vec<u8> {
        self.dummy.to_le_bytes().to_vec()
    }
}

struct Empty;

impl GpuData for Empty {
    fn type_key() -> u64 {
        4
    }
    fn byte_size() -> usize {
        0
    }
    fn as_raw_bytes(&self) -> Vec<u8> {
        Vec::new()
    }
}

#[test]
fn construction() -> Result<(), RenderError> {
    let group = UniformBindGroup::builder()
        .add_binding::<Data1>(SHADER_STAGE_VERTEX)?
        .add_binding::<Data2>(SHADER_STAGE_FRAGMENT)?
        .build();

    let data1 = Data1 { dummy: 1 };

    let data2 = Data2 { dummy: 2 };
    let data3 = Data3 { dummy: 3 };

    assert!(group.update_buffer_data(&data1).is_ok());
    assert!(group.update_buffer_data(&data2).is_ok());
    assert!(group.update_buffer_data(&data3).is_err());
    Ok(())
}

#[test]
fn duplicate_binding_is_rejected() {
    let result = UniformBindGroup::builder()
        .add_binding::<Data1>(SHADER_STAGE_VERTEX)
        .unwrap()
        .add_binding::<Data1>(SHADER_STAGE_FRAGMENT);
    assert!(matches!(result, Err(RenderError::GpuDataTypeAlreadyPresent)));
}

#[test]
fn zero_sized_data_is_rejected() {
    let result = UniformBindGroup::builder().add_binding::<Empty>(SHADER_STAGE_VERTEX);
    assert!(matches!(result, Err(RenderError::ZeroSizedGpuData)));
}

#[test]
fn build_assigns_slots_in_registration_order() {
    let group = UniformBindGroup::builder()
        .add_binding::<Data1>(SHADER_STAGE_VERTEX)
        .unwrap()
        .add_binding::<Data2>(SHADER_STAGE_FRAGMENT)
        .unwrap()
        .build();

    let buffers = group.get_buffers();
    assert_eq!(buffers.len(), 2);
    assert_eq!(buffers[0].0, 1);
    assert_eq!(buffers[1].0, 2);
    for (_, descriptor) in buffers.iter() {
        assert_eq!(descriptor.size, 4);
        assert_eq!(descriptor.usage, BUFFER_USAGE_UNIFORM | BUFFER_USAGE_COPY_DST);
        assert!(!descriptor.mapped_at_creation);
    }

    let layout = group.get_layout();
    assert_eq!(layout.entries.len(), 2);
    assert_eq!(layout.entries[0].binding, 0);
    assert_eq!(layout.entries[0].visibility, SHADER_STAGE_VERTEX);
    assert_eq!(
        layout.entries[0].ty,
        BindingType::UniformBuffer { dynamic: false, min_binding_size: Some(4) }
    );
    assert_eq!(layout.entries[1].binding, 1);
    assert_eq!(layout.entries[1].visibility, SHADER_STAGE_FRAGMENT);

    let bind_group = group.get_bind_group();
    assert_eq!(bind_group.bindings.len(), 2);
    assert_eq!(bind_group.bindings[0].binding, 0);
    assert_eq!(bind_group.bindings[0].resource, BindingResource::Buffer { buffer_index: 0 });
    assert_eq!(bind_group.bindings[1].binding, 1);
    assert_eq!(bind_group.bindings[1].resource, BindingResource::Buffer { buffer_index: 1 });
}

#[test]
fn update_stages_exact_bytes_for_the_right_slot() {
    let group = UniformBindGroup::builder()
        .add_binding::<Data1>(SHADER_STAGE_VERTEX)
        .unwrap()
        .add_binding::<Data2>(SHADER_STAGE_FRAGMENT)
        .unwrap()
        .build();

    let command = group.update_buffer_data(&Data2 { dummy: -1 }).unwrap();
    match command {
        GpuCommand::CopyBufferToBuffer {
            source_bytes,
            source_offset,
            destination_index,
            destination_offset,
            copy_size,
        } => {
            assert_eq!(source_bytes, vec![255, 255, 255, 255]);
            assert_eq!(source_offset, 0);
            assert_eq!(destination_index, 1);
            assert_eq!(destination_offset, 0);
            assert_eq!(copy_size, 4);
        }
        other => panic!("expected a buffer copy, got {:?}", other),
    }
}

#[test]
fn update_for_unregistered_type_is_not_present() {
    let group = UniformBindGroup::builder()
        .add_binding::<Data1>(SHADER_STAGE_VERTEX)
        .unwrap()
        .build();
    let result = group.update_buffer_data(&Data2 { dummy: 0 });
    assert!(matches!(result, Err(RenderError::GpuDataTypeNotPresent)));
}

#[test]
fn labels_are_kept() {
    let named = UniformBindGroup::with_name("lights").build();
    assert_eq!(named.label(), "lights");
    let unnamed = UniformBindGroup::builder().build();
    assert_eq!(unnamed.label(), "Unamed UniformBindgroup");
}
