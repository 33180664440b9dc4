//! Uniform bind groups: a builder that registers one buffer-backed binding
//! per data type, and the built group that turns typed updates into copy
//! commands aimed at the right slot.

use vstd::prelude::*;

use crate::descriptors::BindGroup;
use crate::descriptors::BindGroupLayout;
use crate::descriptors::BindGroupLayoutEntry;
use crate::descriptors::Binding;
use crate::descriptors::BindingResource;
use crate::descriptors::BindingType;
use crate::descriptors::BufferDescriptor;
use crate::descriptors::GpuCommand;
use crate::descriptors::BUFFER_USAGE_COPY_DST;
use crate::descriptors::BUFFER_USAGE_UNIFORM;
use crate::GpuData;
use crate::RenderError;

verus! {

/// Size and stage visibility of one registered binding.
#[derive(Clone, Copy, Debug, PartialEq, Eq)]
pub struct BindingInfo {
    pub size: usize,
    pub visibility: u32,
}

/// A built uniform bind group: one uniform buffer per registered data type,
/// the matching layout, and the filled bind group, all in registration
/// order.
#[derive(Clone, Debug)]
pub struct UniformBindGroup {
    buffers: Vec<(u64, BufferDescriptor)>,
    bind_group: BindGroup,
    bind_group_layout: BindGroupLayout,
    label: &'static str,
}

impl UniformBindGroup {
    /// The `(type key, buffer descriptor)` pairs, in slot order.
    pub closed spec fn buffers_spec(&self) -> Seq<(u64, BufferDescriptor)> {
        self.buffers@
    }

    /// The type keys of the buffers, in slot order.
    pub open spec fn buffer_keys(&self) -> Seq<u64> {
        self.buffers_spec().map_values(|p: (u64, BufferDescriptor)| p.0)
    }

    /// The buffer descriptors, in slot order.
    pub open spec fn buffer_descriptors(&self) -> Seq<BufferDescriptor> {
        self.buffers_spec().map_values(|p: (u64, BufferDescriptor)| p.1)
    }

    /// The `(type key, buffer descriptor)` pairs, in slot order.
    pub fn get_buffers(&self) -> (r: &Vec<(u64, BufferDescriptor)>)
        ensures
            r@ == self.buffers_spec(),
    {
        &self.buffers
    }

    /// Whether some slot is registered for the given type key.
    pub open spec fn has_binding(&self, key: u64) -> bool {
        self.buffer_keys().contains(key)
    }

    pub closed spec fn layout_spec(&self) -> BindGroupLayout {
        self.bind_group_layout
    }

    pub closed spec fn bind_group_spec(&self) -> BindGroup {
        self.bind_group
    }

    pub closed spec fn label_spec(&self) -> &'static str {
        self.label
    }

    pub fn builder() -> (r: UniformBindGroupBuilder)
        ensures
            r.entries() =~= Seq::<(u64, BindingInfo)>::empty(),
            r.label_spec()@ == "Unamed UniformBindgroup"@,
    {
        UniformBindGroupBuilder::new()
    }

    pub fn with_name(label: &'static str) -> (r: UniformBindGroupBuilder)
        ensures
            r.entries() =~= Seq::<(u64, BindingInfo)>::empty(),
            r.label_spec() == label,
    {
        UniformBindGroupBuilder::with_name(label)
    }

    /// The label this group was built under.
    pub fn label(&self) -> (r: &'static str)
        ensures
            r == self.label_spec(),
    {
        self.label
    }

    pub fn get_layout(&self) -> (r: &BindGroupLayout)
        ensures
            r == self.layout_spec(),
    {
        &self.bind_group_layout
    }

    pub fn get_bind_group(&self) -> (r: &BindGroup)
        ensures
            r == self.bind_group_spec(),
    {
        &self.bind_group
    }

    /// Turns new contents for the binding registered for `T` into the copy
    /// command the native API needs: stage the value's bytes and copy them
    /// into the slot's buffer. Fails exactly when no binding is registered
    /// for `T`.
    pub fn update_buffer_data<T: GpuData>(&self, data: &T) -> (r: Result<
        GpuCommand,
        RenderError,
    >)
        ensures
            r is Ok <==> self.has_binding(T::key_spec()),
            r matches Ok(cmd) ==> (cmd matches GpuCommand::CopyBufferToBuffer {
                source_bytes,
                source_offset,
                destination_index,
                destination_offset,
                copy_size,
            } && {
                &&& source_bytes@ == data.bytes_spec()
                &&& source_offset == 0
                &&& destination_offset == 0
                &&& copy_size == T::byte_size_spec() as u64
                &&& 0 <= destination_index < self.buffer_keys().len()
                &&& self.buffer_keys()[destination_index as int] == T::key_spec()
                &&& forall|j: int|
                    0 <= j < destination_index ==> self.buffer_keys()[j] != T::key_spec()
            }),
            r matches Err(e) ==> e is GpuDataTypeNotPresent,
    {
        let key = T::type_key();
        let mut i: usize = 0;
        while i < self.buffers.len()
            invariant
                0 <= i <= self.buffers.len(),
                forall|j: int| 0 <= j < i ==> self.buffer_keys()[j] != key,
                key == T::key_spec(),
            decreases self.buffers.len() - i,
        {
            if self.buffers[i].0 == key {
                proof {
                    assert(self.buffer_keys()[i as int] == key);
                }
                let command = GpuCommand::CopyBufferToBuffer {
                    source_bytes: data.as_raw_bytes(),
                    source_offset: 0,
                    destination_index: i,
                    destination_offset: 0,
                    copy_size: T::byte_size() as u64,
                };
                return Ok(command);
            }
            i += 1;
        }
        Err(RenderError::GpuDataTypeNotPresent)
    }
}

/// Collects one `(type key, binding info)` entry per call of `add_binding`,
/// in order, and turns them into a `UniformBindGroup`.
#[derive(Debug)]
pub struct UniformBindGroupBuilder {
    builder_data: Vec<(u64, BindingInfo)>,
    label: &'static str,
}

impl UniformBindGroupBuilder {
    /// The registered entries, in registration order.
    pub closed spec fn entries(&self) -> Seq<(u64, BindingInfo)> {
        self.builder_data@
    }

    pub closed spec fn label_spec(&self) -> &'static str {
        self.label
    }

    /// Whether some entry is registered for the given type key.
    pub open spec fn has_entry(&self, key: u64) -> bool {
        exists|i: int| 0 <= i < self.entries().len() && self.entries()[i].0 == key
    }

    fn new() -> (r: Self)
        ensures
            r.entries() =~= Seq::<(u64, BindingInfo)>::empty(),
            r.label_spec()@ == "Unamed UniformBindgroup"@,
    {
        UniformBindGroupBuilder { builder_data: Vec::new(), label: "Unamed UniformBindgroup" }
    }

    fn with_name(label: &'static str) -> (r: Self)
        ensures
            r.entries() =~= Seq::<(u64, BindingInfo)>::empty(),
            r.label_spec() == label,
    {
        UniformBindGroupBuilder { builder_data: Vec::new(), label }
    }

    /// Registers a binding for `T`, visible to the given shader stages.
    /// Fails with `GpuDataTypeAlreadyPresent` when `T` is already
    /// registered, and with `ZeroSizedGpuData` when `T` has no bytes to back
    /// a buffer with.
    pub fn add_binding<T: GpuData>(self, visibility: u32) -> (r: Result<Self, RenderError>)
        ensures
            r is Ok <==> (!self.has_entry(T::key_spec()) && T::byte_size_spec() != 0),
            r matches Ok(b) ==> {
                &&& b.entries() =~= self.entries().push(
                    (T::key_spec(), BindingInfo { size: T::byte_size_spec(), visibility }),
                )
                &&& b.label_spec() == self.label_spec()
            },
            r matches Err(e) ==> {
                &&& e is GpuDataTypeAlreadyPresent <==> self.has_entry(T::key_spec())
                &&& e is ZeroSizedGpuData <==> (!self.has_entry(T::key_spec())
                    && T::byte_size_spec() == 0)
            },
    {
        let key = T::type_key();
        let mut i: usize = 0;
        while i < self.builder_data.len()
            invariant
                0 <= i <= self.builder_data.len(),
                forall|j: int| 0 <= j < i ==> self.entries()[j].0 != key,
                key == T::key_spec(),
            decreases self.builder_data.len() - i,
        {
            if self.builder_data[i].0 == key {
                proof {
                    assert(self.entries()[i as int].0 == key);
                }
                return Err(RenderError::GpuDataTypeAlreadyPresent);
            }
            i += 1;
        }
        if T::byte_size() == 0 {
            return Err(RenderError::ZeroSizedGpuData);
        }
        let binding_info = BindingInfo { size: T::byte_size(), visibility };
        let mut result = self;
        result.builder_data.push((key, binding_info));
        Ok(result)
    }

    /// Builds the bind group: slot `i` gets the `i`-th registered entry,
    /// backed by a uniform buffer of that entry's size, with a layout entry
    /// carrying the entry's visibility and size, and a bind group binding
    /// slot `i` to buffer `i`.
    pub fn build(self) -> (r: UniformBindGroup)
        requires
            self.entries().len() <= u32::MAX,
        ensures
            r.label_spec() == self.label_spec(),
            r.buffer_keys().len() == self.entries().len(),
            r.layout_spec().entries@.len() == self.entries().len(),
            r.bind_group_spec().bindings@.len() == self.entries().len(),
            forall|i: int|
                0 <= i < self.entries().len() ==> {
                    &&& r.buffer_keys()[i] == self.entries()[i].0
                    &&& r.buffer_descriptors()[i] == (BufferDescriptor {
                        size: self.entries()[i].1.size as u64,
                        usage: BUFFER_USAGE_UNIFORM | BUFFER_USAGE_COPY_DST,
                        mapped_at_creation: false,
                    })
                    &&& r.layout_spec().entries@[i] == (BindGroupLayoutEntry {
                        binding: i as u32,
                        visibility: self.entries()[i].1.visibility,
                        ty: BindingType::UniformBuffer {
                            dynamic: false,
                            min_binding_size: Some(self.entries()[i].1.size as u64),
                        },
                    })
                    &&& r.bind_group_spec().bindings@[i] == (Binding {
                        binding: i as u32,
                        resource: BindingResource::Buffer { buffer_index: i as usize },
                    })
                },
    {
        let mut layout_entries: Vec<BindGroupLayoutEntry> = Vec::new();
        let mut buffers: Vec<(u64, BufferDescriptor)> = Vec::new();
        let mut bindings: Vec<Binding> = Vec::new();
        let mut i: usize = 0;
        while i < self.builder_data.len()
            invariant
                0 <= i <= self.builder_data.len(),
                self.entries().len() <= u32::MAX,
                buffers@.len() == i,
                layout_entries@.len() == i,
                bindings@.len() == i,
                forall|j: int|
                    0 <= j < i ==> {
                        &&& buffers@[j].0 == self.entries()[j].0
                        &&& buffers@[j].1 == (BufferDescriptor {
                            size: self.entries()[j].1.size as u64,
                            usage: BUFFER_USAGE_UNIFORM | BUFFER_USAGE_COPY_DST,
                            mapped_at_creation: false,
                        })
                        &&& layout_entries@[j] == (BindGroupLayoutEntry {
                            binding: j as u32,
                            visibility: self.entries()[j].1.visibility,
                            ty: BindingType::UniformBuffer {
                                dynamic: false,
                                min_binding_size: Some(self.entries()[j].1.size as u64),
                            },
                        })
                        &&& bindings@[j] == (Binding {
                            binding: j as u32,
                            resource: BindingResource::Buffer { buffer_index: j as usize },
                        })
                    },
            decreases self.builder_data.len() - i,
        {
            let (key, info) = self.builder_data[i];
            let buffer = BufferDescriptor {
                size: info.size as u64,
                usage: BUFFER_USAGE_UNIFORM | BUFFER_USAGE_COPY_DST,
                mapped_at_creation: false,
            };
            buffers.push((key, buffer));
            layout_entries.push(
                BindGroupLayoutEntry {
                    binding: i as u32,
                    visibility: info.visibility,
                    ty: BindingType::UniformBuffer {
                        dynamic: false,
                        min_binding_size: Some(info.size as u64),
                    },
                },
            );
            bindings.push(
                Binding { binding: i as u32, resource: BindingResource::Buffer { buffer_index: i } },
            );
            i += 1;
        }
        UniformBindGroup {
            buffers,
            bind_group: BindGroup { bindings },
            bind_group_layout: BindGroupLayout { entries: layout_entries },
            label: self.label,
        }
    }
}

} // verus!

