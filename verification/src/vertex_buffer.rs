//! Vertex buffers: traits that describe one vertex type's layout and turn
//! slices of vertices into filled GPU buffers and update commands.

use vstd::prelude::*;

use core::marker::PhantomData;

use crate::descriptors::GpuCommand;
use crate::descriptors::InitializedBuffer;
use crate::descriptors::InputStepMode;
use crate::descriptors::VertexAttributeDescriptor;
use crate::descriptors::VertexBufferDescriptor;
use crate::descriptors::BUFFER_USAGE_COPY_DST;
use crate::descriptors::BUFFER_USAGE_VERTEX;
use crate::GpuData;

verus! {

/// The bytes of the given items, laid end to end in order.
pub open spec fn raw_bytes_spec<T: GpuData>(s: Seq<T>) -> Seq<u8>
    decreases s.len(),
{
    if s.len() == 0 {
        Seq::empty()
    } else {
        raw_bytes_spec(s.drop_last()) + s.last().bytes_spec()
    }
}

/// Concatenates the byte images of the items, in order.
fn concat_raw_bytes<T: GpuData>(buffer_data: &[T]) -> (r: Vec<u8>)
    ensures
        r@ == raw_bytes_spec(buffer_data@),
{
    let mut raw_bytes: Vec<u8> = Vec::new();
    let mut i: usize = 0;
    while i < buffer_data.len()
        invariant
            0 <= i <= buffer_data@.len(),
            raw_bytes@ == raw_bytes_spec(buffer_data@.take(i as int)),
        decreases buffer_data@.len() - i,
    {
        let mut bytes = buffer_data[i].as_raw_bytes();
        raw_bytes.append(&mut bytes);
        proof {
            assert(buffer_data@.take(i + 1) =~= buffer_data@.take(i as int).push(
                buffer_data@[i as int],
            ));
            assert(buffer_data@.take(i + 1).drop_last() =~= buffer_data@.take(i as int));
        }
        i += 1;
    }
    proof {
        assert(buffer_data@.take(buffer_data@.len() as int) =~= buffer_data@);
    }
    raw_bytes
}

/// Something that owns a filled vertex buffer for the vertex type
/// `DataType`.
pub trait VertexBufferData {
    type DataType: VertexBuffer;

    /// The buffer this value owns; unspecified until an implementation says
    /// which.
    open spec fn gpu_buffer_spec(&self) -> InitializedBuffer {
        arbitrary()
    }

    fn get_gpu_buffer(&self) -> (r: &InitializedBuffer)
        ensures
            *r == self.gpu_buffer_spec(),
    ;
}

/// A vertex buffer filled once, at creation.
#[derive(Debug)]
pub struct ImmutableVertexData<T: GpuData> {
    pub(crate) buffer: InitializedBuffer,
    _marker: PhantomData<T>,
}

/// A vertex buffer that can also be overwritten by copy commands.
#[derive(Debug)]
pub struct MutableVertexData<T: GpuData> {
    pub(crate) buffer: InitializedBuffer,
    _marker: PhantomData<T>,
}

impl<T: GpuData> ImmutableVertexData<T> {
    /// The buffer this value owns.
    pub closed spec fn buffer_spec(&self) -> InitializedBuffer {
        self.buffer
    }
}

impl<T: GpuData> MutableVertexData<T> {
    /// The buffer this value owns.
    pub closed spec fn buffer_spec(&self) -> InitializedBuffer {
        self.buffer
    }
}

impl<T: VertexBuffer> VertexBufferData for ImmutableVertexData<T> {
    type DataType = T;

    open spec fn gpu_buffer_spec(&self) -> InitializedBuffer {
        self.buffer_spec()
    }

    fn get_gpu_buffer(&self) -> (r: &InitializedBuffer) {
        &self.buffer
    }
}

impl<T: VertexBuffer> VertexBufferData for MutableVertexData<T> {
    type DataType = T;

    open spec fn gpu_buffer_spec(&self) -> InitializedBuffer {
        self.buffer_spec()
    }

    fn get_gpu_buffer(&self) -> (r: &InitializedBuffer) {
        &self.buffer
    }
}

impl<T: VertexBuffer> MutableVertexData<T> {
    /// Turns new vertex contents into the copy command the native API
    /// needs: stage the items' bytes, laid end to end, and copy all of them
    /// over this buffer (the command's only destination buffer, index 0).
    pub fn update(&self, buffer_data: &[T]) -> (r: GpuCommand)
        ensures
            r matches GpuCommand::CopyBufferToBuffer {
                source_bytes,
                source_offset,
                destination_index,
                destination_offset,
                copy_size,
            } && {
                &&& source_bytes@ == raw_bytes_spec(buffer_data@)
                &&& source_offset == 0
                &&& destination_index == 0
                &&& destination_offset == 0
                &&& copy_size == raw_bytes_spec(buffer_data@).len() as u64
            },
    {
        let raw_bytes = concat_raw_bytes(buffer_data);
        let copy_size = raw_bytes.len() as u64;
        GpuCommand::CopyBufferToBuffer {
            source_bytes: raw_bytes,
            source_offset: 0,
            destination_index: 0,
            destination_offset: 0,
            copy_size,
        }
    }
}

/// A vertex type: data that can fill a vertex buffer and describe its own
/// attribute layout.
pub trait VertexBuffer: GpuData {
    /// Whether the buffer advances per vertex or per instance; unspecified
    /// until an implementation picks it.
    open spec fn step_mode_spec() -> InputStepMode {
        arbitrary()
    }

    /// The attribute layout of one vertex; unspecified until an
    /// implementation picks it.
    open spec fn attributes_spec() -> Seq<VertexAttributeDescriptor> {
        arbitrary()
    }

    fn step_mode() -> (r: InputStepMode)
        ensures
            r == Self::step_mode_spec(),
    ;

    fn get_attributes() -> (r: Vec<VertexAttributeDescriptor>)
        ensures
            r@ == Self::attributes_spec(),
    ;

    /// Plans a vertex buffer filled with the items' bytes, laid end to end.
    fn allocate_immutable_buffer(buffer_data: &[Self]) -> (r: ImmutableVertexData<Self>)
        ensures
            r.buffer_spec().contents@ == raw_bytes_spec(buffer_data@),
            r.buffer_spec().usage == BUFFER_USAGE_VERTEX,
    {
        let raw_bytes = concat_raw_bytes(buffer_data);
        ImmutableVertexData {
            _marker: PhantomData,
            buffer: InitializedBuffer { contents: raw_bytes, usage: BUFFER_USAGE_VERTEX },
        }
    }

    /// Plans an overwritable vertex buffer filled with the items' bytes,
    /// laid end to end.
    fn allocate_mutable_buffer(buffer_data: &[Self]) -> (r: MutableVertexData<Self>)
        ensures
            r.buffer_spec().contents@ == raw_bytes_spec(buffer_data@),
            r.buffer_spec().usage == BUFFER_USAGE_VERTEX | BUFFER_USAGE_COPY_DST,
    {
        let raw_bytes = concat_raw_bytes(buffer_data);
        MutableVertexData {
            _marker: PhantomData,
            buffer: InitializedBuffer {
                contents: raw_bytes,
                usage: BUFFER_USAGE_VERTEX | BUFFER_USAGE_COPY_DST,
            },
        }
    }

    /// The native layout descriptor of this vertex type: one vertex per
    /// stride of its byte size, with its attributes.
    fn get_descriptor() -> (r: VertexBufferDescriptor)
        ensures
            r.stride == Self::byte_size_spec() as u64,
            r.step_mode == Self::step_mode_spec(),
            r.attributes@ == Self::attributes_spec(),
    {
        VertexBufferDescriptor {
            stride: Self::byte_size() as u64,
            step_mode: Self::step_mode(),
            attributes: Self::get_attributes(),
        }
    }
}

} // verus!
