//! Plain-data model of the native graphics API's descriptor objects.
//!
//! The builders in this crate compute values of these types; a thin
//! realization layer outside the library turns each of them into the
//! corresponding native object with the same shape. Fields that the native
//! API keeps as floating-point numbers (depth-bias scaling, sampler level
//! clamps) are owned by that realization layer and do not appear here.

use vstd::prelude::*;

verus! {

// Shader stage visibility bits, as the native API numbers them.
pub const SHADER_STAGE_NONE: u32 = 0;
pub const SHADER_STAGE_VERTEX: u32 = 1;
pub const SHADER_STAGE_FRAGMENT: u32 = 2;
pub const SHADER_STAGE_COMPUTE: u32 = 4;

// Buffer usage bits, as the native API numbers them.
pub const BUFFER_USAGE_MAP_READ: u32 = 1;
pub const BUFFER_USAGE_MAP_WRITE: u32 = 2;
pub const BUFFER_USAGE_COPY_SRC: u32 = 4;
pub const BUFFER_USAGE_COPY_DST: u32 = 8;
pub const BUFFER_USAGE_INDEX: u32 = 16;
pub const BUFFER_USAGE_VERTEX: u32 = 32;
pub const BUFFER_USAGE_UNIFORM: u32 = 64;
pub const BUFFER_USAGE_STORAGE: u32 = 128;

// Texture usage bits, as the native API numbers them.
pub const TEXTURE_USAGE_COPY_SRC: u32 = 1;
pub const TEXTURE_USAGE_COPY_DST: u32 = 2;
pub const TEXTURE_USAGE_SAMPLED: u32 = 4;
pub const TEXTURE_USAGE_STORAGE: u32 = 8;
pub const TEXTURE_USAGE_OUTPUT_ATTACHMENT: u32 = 16;

// Color write mask bits; all four channels.
pub const COLOR_WRITE_ALL: u32 = 15;

/// How a buffer is to be created: its size in bytes and its usage bits.
#[derive(Clone, Copy, Debug, PartialEq, Eq)]
pub struct BufferDescriptor {
    pub size: u64,
    pub usage: u32,
    pub mapped_at_creation: bool,
}

/// What kind of resource a bind group slot takes.
#[derive(Clone, Copy, Debug, PartialEq, Eq)]
pub enum BindingType {
    UniformBuffer { dynamic: bool, min_binding_size: Option<u64> },
    SampledTexture {
        dimension: TextureViewDimension,
        component_type: TextureComponentType,
        multisampled: bool,
    },
    Sampler { comparison: bool },
}

/// One slot of a bind group layout.
#[derive(Clone, Copy, Debug, PartialEq, Eq)]
pub struct BindGroupLayoutEntry {
    pub binding: u32,
    pub visibility: u32,
    pub ty: BindingType,
}

/// The layout of a bind group: its slots in order.
#[derive(Clone, Debug)]
pub struct BindGroupLayout {
    pub entries: Vec<BindGroupLayoutEntry>,
}

/// The resource bound in one bind group slot. Buffers and texture views are
/// named by their index among the resources owned by the surrounding object.
#[derive(Clone, Copy, Debug, PartialEq, Eq)]
pub enum BindingResource {
    Buffer { buffer_index: usize },
    TextureView { view_index: usize },
    Sampler,
}

/// One filled slot of a bind group.
#[derive(Clone, Copy, Debug, PartialEq, Eq)]
pub struct Binding {
    pub binding: u32,
    pub resource: BindingResource,
}

/// A bind group: its filled slots in order.
#[derive(Clone, Debug)]
pub struct BindGroup {
    pub bindings: Vec<Binding>,
}

/// The extent of a texture.
#[derive(Clone, Copy, Debug, PartialEq, Eq)]
pub struct Extent3d {
    pub width: u32,
    pub height: u32,
    pub depth: u32,
}

/// The texel origin of a texture copy.
#[derive(Clone, Copy, Debug, PartialEq, Eq)]
pub struct Origin3d {
    pub x: u32,
    pub y: u32,
    pub z: u32,
}

/// The texture formats the builders speak of.
#[derive(Clone, Copy, Debug, PartialEq, Eq)]
pub enum TextureFormat {
    Rgba8Unorm,
    Rgba8UnormSrgb,
    Bgra8Unorm,
    Bgra8UnormSrgb,
    Depth32Float,
    Depth24PlusStencil8,
}

#[derive(Clone, Copy, Debug, PartialEq, Eq)]
pub enum TextureDimension {
    D1,
    D2,
    D3,
}

#[derive(Clone, Copy, Debug, PartialEq, Eq)]
pub enum TextureViewDimension {
    D1,
    D2,
    D2Array,
    Cube,
    CubeArray,
    D3,
}

#[derive(Clone, Copy, Debug, PartialEq, Eq)]
pub enum TextureComponentType {
    Float,
    Sint,
    Uint,
}

/// How a texture is to be created.
#[derive(Clone, Copy, Debug, PartialEq, Eq)]
pub struct TextureDescriptor {
    pub size: Extent3d,
    pub array_layer_count: u32,
    pub mip_level_count: u32,
    pub sample_count: u32,
    pub dimension: TextureDimension,
    pub format: TextureFormat,
    pub usage: u32,
}

#[derive(Clone, Copy, Debug, PartialEq, Eq)]
pub enum AddressMode {
    ClampToEdge,
    Repeat,
    MirrorRepeat,
}

#[derive(Clone, Copy, Debug, PartialEq, Eq)]
pub enum FilterMode {
    Nearest,
    Linear,
}

#[derive(Clone, Copy, Debug, PartialEq, Eq)]
pub enum CompareFunction {
    Never,
    Less,
    Equal,
    LessEqual,
    Greater,
    NotEqual,
    GreaterEqual,
    Always,
}

/// How a sampler is to be created. The level-of-detail clamps are
/// floating-point values owned by the realization layer.
#[derive(Clone, Copy, Debug, PartialEq, Eq)]
pub struct SamplerDescriptor {
    pub address_mode_u: AddressMode,
    pub address_mode_v: AddressMode,
    pub address_mode_w: AddressMode,
    pub mag_filter: FilterMode,
    pub min_filter: FilterMode,
    pub mipmap_filter: FilterMode,
    pub compare: CompareFunction,
}

/// Whether a vertex buffer advances per vertex or per instance.
#[derive(Clone, Copy, Debug, PartialEq, Eq)]
pub enum InputStepMode {
    Vertex,
    Instance,
}

/// The data format of one vertex attribute.
#[derive(Clone, Copy, Debug, PartialEq, Eq)]
pub enum VertexFormat {
    Uchar2,
    Uchar4,
    Char2,
    Char4,
    Uchar2Norm,
    Uchar4Norm,
    Char2Norm,
    Char4Norm,
    Ushort2,
    Ushort4,
    Short2,
    Short4,
    Ushort2Norm,
    Ushort4Norm,
    Short2Norm,
    Short4Norm,
    Half2,
    Half4,
    Float,
    Float2,
    Float3,
    Float4,
    Uint,
    Uint2,
    Uint3,
    Uint4,
    Int,
    Int2,
    Int3,
    Int4,
}

/// One attribute of a vertex layout.
#[derive(Clone, Copy, Debug, PartialEq, Eq)]
pub struct VertexAttributeDescriptor {
    pub offset: u64,
    pub format: VertexFormat,
    pub shader_location: u32,
}

/// The layout of one vertex buffer: its stride and its attributes.
#[derive(Clone, Debug)]
pub struct VertexBufferDescriptor {
    pub stride: u64,
    pub step_mode: InputStepMode,
    pub attributes: Vec<VertexAttributeDescriptor>,
}

#[derive(Clone, Copy, Debug, PartialEq, Eq)]
pub enum FrontFace {
    Ccw,
    Cw,
}

#[derive(Clone, Copy, Debug, PartialEq, Eq)]
pub enum Face {
    Front,
    Back,
}

/// Rasterizer settings. The depth-bias scale and clamp are floating-point
/// values owned by the realization layer.
#[derive(Clone, Copy, Debug, PartialEq, Eq)]
pub struct RasterizationStateDescriptor {
    pub front_face: FrontFace,
    pub cull_mode: Option<Face>,
    pub depth_bias: i32,
}

#[derive(Clone, Copy, Debug, PartialEq, Eq)]
pub enum StencilOperation {
    Keep,
    Zero,
    Replace,
    Invert,
    IncrementClamp,
    DecrementClamp,
    IncrementWrap,
    DecrementWrap,
}

/// Stencil settings for one face.
#[derive(Clone, Copy, Debug, PartialEq, Eq)]
pub struct StencilStateFaceDescriptor {
    pub compare: CompareFunction,
    pub fail_op: StencilOperation,
    pub depth_fail_op: StencilOperation,
    pub pass_op: StencilOperation,
}

impl StencilStateFaceDescriptor {
    /// The stencil face settings that leave the stencil alone.
    pub open spec fn ignore_spec() -> StencilStateFaceDescriptor {
        StencilStateFaceDescriptor {
            compare: CompareFunction::Always,
            fail_op: StencilOperation::Keep,
            depth_fail_op: StencilOperation::Keep,
            pass_op: StencilOperation::Keep,
        }
    }

    pub fn ignore() -> (r: StencilStateFaceDescriptor)
        ensures
            r == StencilStateFaceDescriptor::ignore_spec(),
    {
        StencilStateFaceDescriptor {
            compare: CompareFunction::Always,
            fail_op: StencilOperation::Keep,
            depth_fail_op: StencilOperation::Keep,
            pass_op: StencilOperation::Keep,
        }
    }
}

/// Depth and stencil settings of a pipeline.
#[derive(Clone, Copy, Debug, PartialEq, Eq)]
pub struct DepthStencilStateDescriptor {
    pub format: TextureFormat,
    pub depth_write_enabled: bool,
    pub depth_compare: CompareFunction,
    pub stencil_front: StencilStateFaceDescriptor,
    pub stencil_back: StencilStateFaceDescriptor,
    pub stencil_read_mask: u32,
    pub stencil_write_mask: u32,
}

#[derive(Clone, Copy, Debug, PartialEq, Eq)]
pub enum BlendFactor {
    Zero,
    One,
    SrcColor,
    OneMinusSrcColor,
    SrcAlpha,
    OneMinusSrcAlpha,
    DstColor,
    OneMinusDstColor,
    DstAlpha,
    OneMinusDstAlpha,
    SrcAlphaSaturated,
}

#[derive(Clone, Copy, Debug, PartialEq, Eq)]
pub enum BlendOperation {
    Add,
    Subtract,
    ReverseSubtract,
    Min,
    Max,
}

/// How source and destination colors are combined.
#[derive(Clone, Copy, Debug, PartialEq, Eq)]
pub struct BlendDescriptor {
    pub src_factor: BlendFactor,
    pub dst_factor: BlendFactor,
    pub operation: BlendOperation,
}

impl BlendDescriptor {
    /// The blend that replaces the destination with the source.
    pub open spec fn replace_spec() -> BlendDescriptor {
        BlendDescriptor {
            src_factor: BlendFactor::One,
            dst_factor: BlendFactor::Zero,
            operation: BlendOperation::Add,
        }
    }

    pub fn replace() -> (r: BlendDescriptor)
        ensures
            r == BlendDescriptor::replace_spec(),
    {
        BlendDescriptor {
            src_factor: BlendFactor::One,
            dst_factor: BlendFactor::Zero,
            operation: BlendOperation::Add,
        }
    }
}

/// How one color target of a pipeline is written.
#[derive(Clone, Copy, Debug, PartialEq, Eq)]
pub struct ColorStateDescriptor {
    pub format: TextureFormat,
    pub alpha_blend: BlendDescriptor,
    pub color_blend: BlendDescriptor,
    pub write_mask: u32,
}

#[derive(Clone, Copy, Debug, PartialEq, Eq)]
pub enum PrimitiveTopology {
    PointList,
    LineList,
    LineStrip,
    TriangleList,
    TriangleStrip,
}

#[derive(Clone, Copy, Debug, PartialEq, Eq)]
pub enum IndexFormat {
    Uint16,
    Uint32,
}

/// One programmable stage of a pipeline: its compiled module (SPIR-V words)
/// and the entry point to run.
#[derive(Clone, Debug)]
pub struct ProgrammableStageDescriptor {
    pub module: Vec<u32>,
    pub entry_point: &'static str,
}

/// The bind group layouts a pipeline is built over, in slot order.
#[derive(Clone, Debug)]
pub struct PipelineLayoutDescriptor {
    pub bind_group_layouts: Vec<BindGroupLayout>,
}

/// The vertex inputs of a pipeline.
#[derive(Clone, Debug)]
pub struct VertexStateDescriptor {
    pub index_format: IndexFormat,
    pub vertex_buffers: Vec<VertexBufferDescriptor>,
}

/// Everything the native API needs to build a render pipeline.
#[derive(Clone, Debug)]
pub struct RenderPipelineDescriptor {
    pub layout: PipelineLayoutDescriptor,
    pub vertex_stage: ProgrammableStageDescriptor,
    pub fragment_stage: Option<ProgrammableStageDescriptor>,
    pub rasterization_state: Option<RasterizationStateDescriptor>,
    pub primitive_topology: PrimitiveTopology,
    pub color_states: Vec<ColorStateDescriptor>,
    pub depth_stencil_state: Option<DepthStencilStateDescriptor>,
    pub vertex_state: VertexStateDescriptor,
    pub sample_count: u32,
    pub sample_mask: u32,
    pub alpha_to_coverage_enabled: bool,
}

/// A view onto a created texture; the default view covers the whole
/// texture.
#[derive(Clone, Copy, Debug, PartialEq, Eq)]
pub struct TextureView {
    pub texture: TextureDescriptor,
}

/// A buffer created already filled with the given bytes.
#[derive(Clone, Debug)]
pub struct InitializedBuffer {
    pub contents: Vec<u8>,
    pub usage: u32,
}

/// One recorded transfer command, staged bytes included.
#[derive(Clone, Debug)]
pub enum GpuCommand {
    /// Copy from a staging buffer holding `source_bytes` into the
    /// destination buffer named by `destination_index`.
    CopyBufferToBuffer {
        source_bytes: Vec<u8>,
        source_offset: u64,
        destination_index: usize,
        destination_offset: u64,
        copy_size: u64,
    },
    /// Copy from a staging buffer holding `source_bytes`, read with the
    /// given row pitch, into a texture region.
    CopyBufferToTexture {
        source_bytes: Vec<u8>,
        source_offset: u64,
        bytes_per_row: u64,
        rows_per_image: u32,
        mip_level: u32,
        array_layer: u32,
        origin: Origin3d,
        size: Extent3d,
    },
}

/// A finished list of transfer commands, in submission order.
#[derive(Clone, Debug)]
pub struct CommandBuffer {
    pub commands: Vec<GpuCommand>,
}

/// One recorded render-pass command.
#[derive(Clone, Debug)]
pub enum RenderCommand {
    /// Select the pass's pipeline.
    SetPipeline,
    /// Bind the given group at the given bind group slot.
    SetBindGroup { index: u32, bind_group: BindGroup },
    /// Bind the given filled buffer at the given vertex buffer slot.
    SetVertexBuffer { slot: u32, buffer: InitializedBuffer },
}

} // verus!
