//! Render nodes: a builder that gathers everything one draw pass needs —
//! vertex layouts, uniform bind groups, textures, shaders, pipeline state —
//! and the built node, which records the exactly-shaped pipeline descriptor
//! and drives a render pass over typed slots.

use vstd::prelude::*;

use std::sync::Arc;

use crate::descriptors::BindGroup;
use crate::descriptors::Binding;
use crate::descriptors::BindGroupLayout;
use crate::descriptors::BlendDescriptor;
use crate::descriptors::ColorStateDescriptor;
use crate::descriptors::CompareFunction;
use crate::descriptors::DepthStencilStateDescriptor;
use crate::descriptors::Face;
use crate::descriptors::FrontFace;
use crate::descriptors::GpuCommand;
use crate::descriptors::IndexFormat;
use crate::descriptors::PipelineLayoutDescriptor;
use crate::descriptors::PrimitiveTopology;
use crate::descriptors::RasterizationStateDescriptor;
use crate::descriptors::RenderCommand;
use crate::descriptors::RenderPipelineDescriptor;
use crate::descriptors::StencilStateFaceDescriptor;
use crate::descriptors::TextureFormat;
use crate::descriptors::VertexBufferDescriptor;
use crate::descriptors::VertexStateDescriptor;
use crate::descriptors::COLOR_WRITE_ALL;
use crate::shader::FragmentShader;
use crate::shader::VertexShader;
use crate::textures::TextureData;
use crate::textures::TextureShaderLayout;
use crate::uniforms::UniformBindGroup;
use crate::vertex_buffer::VertexBuffer;
use crate::vertex_buffer::VertexBufferData;
use crate::GpuData;
use crate::RenderError;

verus! {

/// A built render node: the uniform groups it binds, its type-to-slot
/// tables, and the pipeline descriptor it was built with.
pub struct RenderNode {
    shared_uniform_bind_groups: Vec<Arc<UniformBindGroup>>,
    local_uniform_bind_groups: Vec<UniformBindGroup>,
    vertex_buffer_types: Vec<u64>,
    texture_types: Vec<u64>,
    pipeline: RenderPipelineDescriptor,
}

/// What a render node holds, for contracts.
pub struct RenderNodeView {
    pub shared_uniform_bind_groups: Seq<UniformBindGroup>,
    pub local_uniform_bind_groups: Seq<UniformBindGroup>,
    pub vertex_buffer_types: Seq<u64>,
    pub texture_types: Seq<u64>,
    pub pipeline: RenderPipelineDescriptor,
}

impl View for RenderNode {
    type V = RenderNodeView;

    closed spec fn view(&self) -> RenderNodeView {
        RenderNodeView {
            shared_uniform_bind_groups: self.shared_uniform_bind_groups@.map_values(
                |a: Arc<UniformBindGroup>| *a,
            ),
            local_uniform_bind_groups: self.local_uniform_bind_groups@,
            vertex_buffer_types: self.vertex_buffer_types@,
            texture_types: self.texture_types@,
            pipeline: self.pipeline,
        }
    }
}

/// What a render node builder has gathered, for contracts.
pub struct RenderNodeBuilderView {
    pub vertex_buffer_types: Seq<u64>,
    pub vertex_buffer_descriptors: Seq<VertexBufferDescriptor>,
    pub local_uniform_bind_groups: Seq<UniformBindGroup>,
    pub shared_uniform_bind_groups: Seq<UniformBindGroup>,
    pub vertex_shader: Option<VertexShader>,
    pub fragment_shader: Option<FragmentShader>,
    pub depth_stencil_desc: Option<DepthStencilStateDescriptor>,
    pub rasterization_state_desc: Option<RasterizationStateDescriptor>,
    pub texture_types: Seq<u64>,
    pub texture_layouts: Seq<BindGroupLayout>,
}

/// Gathers what a render node needs, one declarative call at a time.
pub struct RenderNodeBuilder {
    vertex_buffer_types: Vec<u64>,
    vertex_buffer_descriptors: Vec<VertexBufferDescriptor>,
    local_uniform_bind_groups: Vec<UniformBindGroup>,
    shared_uniform_bind_groups: Vec<Arc<UniformBindGroup>>,
    vertex_shader: Option<VertexShader>,
    fragment_shader: Option<FragmentShader>,
    depth_stencil_desc: Option<DepthStencilStateDescriptor>,
    rasterization_state_desc: Option<RasterizationStateDescriptor>,
    texture_types: Vec<u64>,
    texture_layouts: Vec<BindGroupLayout>,
}

impl View for RenderNodeBuilder {
    type V = RenderNodeBuilderView;

    closed spec fn view(&self) -> RenderNodeBuilderView {
        RenderNodeBuilderView {
            vertex_buffer_types: self.vertex_buffer_types@,
            vertex_buffer_descriptors: self.vertex_buffer_descriptors@,
            local_uniform_bind_groups: self.local_uniform_bind_groups@,
            shared_uniform_bind_groups: self.shared_uniform_bind_groups@.map_values(
                |a: Arc<UniformBindGroup>| *a,
            ),
            vertex_shader: self.vertex_shader,
            fragment_shader: self.fragment_shader,
            depth_stencil_desc: self.depth_stencil_desc,
            rasterization_state_desc: self.rasterization_state_desc,
            texture_types: self.texture_types@,
            texture_layouts: self.texture_layouts@,
        }
    }
}

/// Whether `p` is exactly the pipeline descriptor that a builder in state
/// `b` constructs for the given color target format: the bind group layouts
/// in slot order (shared groups, then local groups, then textures), the two
/// shader stages entered at `main`, the gathered pipeline state, one
/// replace-blended color target, and the gathered vertex layouts behind a
/// 32-bit index format.
pub open spec fn pipeline_matches(
    b: RenderNodeBuilderView,
    color_format: TextureFormat,
    p: RenderPipelineDescriptor,
) -> bool {
    let shared = b.shared_uniform_bind_groups.len() as int;
    let local = b.local_uniform_bind_groups.len() as int;
    &&& p.layout.bind_group_layouts@.len() == shared + local + b.texture_layouts.len()
    &&& forall|i: int|
        0 <= i < shared ==> p.layout.bind_group_layouts@[i].entries@
            == b.shared_uniform_bind_groups[i].layout_spec().entries@
    &&& forall|i: int|
        0 <= i < local ==> p.layout.bind_group_layouts@[shared + i].entries@
            == b.local_uniform_bind_groups[i].layout_spec().entries@
    &&& forall|i: int|
        0 <= i < b.texture_layouts.len() ==> p.layout.bind_group_layouts@[shared + local
            + i].entries@ == b.texture_layouts[i].entries@
    &&& b.vertex_shader matches Some(vs) && p.vertex_stage.module@ == vs.module_spec()
    &&& p.vertex_stage.entry_point@ == "main"@
    &&& match b.fragment_shader {
        Some(fs) => p.fragment_stage matches Some(d) && d.module@ == fs.module_spec()
            && d.entry_point@ == "main"@,
        None => p.fragment_stage is None,
    }
    &&& p.rasterization_state == b.rasterization_state_desc
    &&& p.depth_stencil_state == b.depth_stencil_desc
    &&& p.primitive_topology == PrimitiveTopology::TriangleList
    &&& p.color_states@.len() == 1
    &&& p.color_states@[0] == (ColorStateDescriptor {
        format: color_format,
        alpha_blend: BlendDescriptor::replace_spec(),
        color_blend: BlendDescriptor::replace_spec(),
        write_mask: COLOR_WRITE_ALL,
    })
    &&& p.vertex_state.index_format == IndexFormat::Uint32
    &&& p.vertex_state.vertex_buffers@.len() == b.vertex_buffer_descriptors.len()
    &&& forall|i: int|
        0 <= i < b.vertex_buffer_descriptors.len() ==> {
            &&& p.vertex_state.vertex_buffers@[i].stride == b.vertex_buffer_descriptors[i].stride
            &&& p.vertex_state.vertex_buffers@[i].step_mode
                == b.vertex_buffer_descriptors[i].step_mode
            &&& p.vertex_state.vertex_buffers@[i].attributes@
                == b.vertex_buffer_descriptors[i].attributes@
        }
    &&& p.sample_count == 1
    &&& p.sample_mask == u32::MAX
    &&& !p.alpha_to_coverage_enabled
}

/// Whether `c` is a bind-group command for the given slot index that binds
/// exactly the given filled slots.
pub open spec fn sets_bind_group(c: RenderCommand, slot: int, bindings: Seq<Binding>) -> bool {
    c matches RenderCommand::SetBindGroup { index, bind_group } && index == slot
        && bind_group.bindings@ == bindings
}

impl RenderNodeBuilder {
    /// Registers a vertex buffer slot for `VB`: the next slot gets `VB`'s
    /// key and layout descriptor.
    pub fn add_vertex_buffer<VB: VertexBuffer>(self) -> (r: Self)
        ensures
            r@ == (RenderNodeBuilderView {
                vertex_buffer_types: self@.vertex_buffer_types.push(VB::key_spec()),
                vertex_buffer_descriptors: r@.vertex_buffer_descriptors,
                ..self@
            }),
            r@.vertex_buffer_descriptors.len() == self@.vertex_buffer_descriptors.len() + 1,
            forall|i: int|
                0 <= i < self@.vertex_buffer_descriptors.len()
                    ==> r@.vertex_buffer_descriptors[i] == self@.vertex_buffer_descriptors[i],
            r@.vertex_buffer_descriptors.last().stride == VB::byte_size_spec() as u64,
            r@.vertex_buffer_descriptors.last().step_mode == VB::step_mode_spec(),
            r@.vertex_buffer_descriptors.last().attributes@ == VB::attributes_spec(),
    {
        let mut result = self;
        result.vertex_buffer_types.push(VB::type_key());
        result.vertex_buffer_descriptors.push(VB::get_descriptor());
        result
    }

    /// Appends a uniform bind group owned by this node alone.
    pub fn add_local_uniform_bind_group(self, uniform: UniformBindGroup) -> (r: Self)
        ensures
            r@ == (RenderNodeBuilderView {
                local_uniform_bind_groups: self@.local_uniform_bind_groups.push(uniform),
                ..self@
            }),
    {
        let mut result = self;
        result.local_uniform_bind_groups.push(uniform);
        result
    }

    /// Appends a uniform bind group shared with other nodes.
    pub fn add_shared_uniform_bind_group(self, shared_uniform: Arc<UniformBindGroup>) -> (r: Self)
        ensures
            r@ == (RenderNodeBuilderView {
                shared_uniform_bind_groups: self@.shared_uniform_bind_groups.push(*shared_uniform),
                ..self@
            }),
    {
        let mut result = self;
        result.shared_uniform_bind_groups.push(shared_uniform);
        proof {
            assert(result.shared_uniform_bind_groups@.map_values(|a: Arc<UniformBindGroup>| *a)
                =~= self.shared_uniform_bind_groups@.map_values(|a: Arc<UniformBindGroup>| *a).push(
                *result.shared_uniform_bind_groups@.last(),
            ));
        }
        result
    }

    /// Registers a texture slot for `T`: the next slot gets `T`'s key and
    /// bind group layout.
    pub fn add_texture<T: TextureShaderLayout>(self) -> (r: Self)
        ensures
            r@ == (RenderNodeBuilderView {
                texture_types: self@.texture_types.push(T::key_spec()),
                texture_layouts: r@.texture_layouts,
                ..self@
            }),
            r@.texture_layouts.len() == self@.texture_layouts.len() + 1,
            forall|i: int|
                0 <= i < self@.texture_layouts.len()
                    ==> r@.texture_layouts[i] == self@.texture_layouts[i],
            r@.texture_layouts.last().entries@ == T::layout_entries_spec(),
    {
        let mut result = self;
        result.texture_types.push(T::type_key());
        result.texture_layouts.push(T::get_layout());
        result
    }

    pub fn set_vertex_shader(self, vertex_shader: VertexShader) -> (r: Self)
        ensures
            r@ == (RenderNodeBuilderView { vertex_shader: Some(vertex_shader), ..self@ }),
    {
        let mut result = self;
        result.vertex_shader = Some(vertex_shader);
        result
    }

    pub fn set_fragment_shader(self, fragment_shader: FragmentShader) -> (r: Self)
        ensures
            r@ == (RenderNodeBuilderView { fragment_shader: Some(fragment_shader), ..self@ }),
    {
        let mut result = self;
        result.fragment_shader = Some(fragment_shader);
        result
    }

    /// The default rasterizer state: counter-clockwise front faces, back
    /// faces culled, no depth bias.
    pub open spec fn default_rasterization_state_spec() -> RasterizationStateDescriptor {
        RasterizationStateDescriptor {
            front_face: FrontFace::Ccw,
            cull_mode: Some(Face::Back),
            depth_bias: 0,
        }
    }

    pub fn set_default_rasterization_state(self) -> (r: Self)
        ensures
            r@ == (RenderNodeBuilderView {
                rasterization_state_desc: Some(
                    RenderNodeBuilder::default_rasterization_state_spec(),
                ),
                ..self@
            }),
    {
        let desc = RasterizationStateDescriptor {
            front_face: FrontFace::Ccw,
            cull_mode: Some(Face::Back),
            depth_bias: 0,
        };
        self.set_rasterization_state(desc)
    }

    pub fn set_rasterization_state(self, desc: RasterizationStateDescriptor) -> (r: Self)
        ensures
            r@ == (RenderNodeBuilderView { rasterization_state_desc: Some(desc), ..self@ }),
    {
        let mut result = self;
        result.rasterization_state_desc = Some(desc);
        result
    }

    /// The default depth-stencil state: a 32-bit float depth target written
    /// on nearer-than compares, with the stencil left alone.
    pub open spec fn default_depth_stencil_state_spec() -> DepthStencilStateDescriptor {
        DepthStencilStateDescriptor {
            format: TextureFormat::Depth32Float,
            depth_write_enabled: true,
            depth_compare: CompareFunction::Less,
            stencil_front: StencilStateFaceDescriptor::ignore_spec(),
            stencil_back: StencilStateFaceDescriptor::ignore_spec(),
            stencil_read_mask: 0,
            stencil_write_mask: 0,
        }
    }

    pub fn set_default_depth_stencil_state(self) -> (r: Self)
        ensures
            r@ == (RenderNodeBuilderView {
                depth_stencil_desc: Some(RenderNodeBuilder::default_depth_stencil_state_spec()),
                ..self@
            }),
    {
        let desc = DepthStencilStateDescriptor {
            format: TextureFormat::Depth32Float,
            depth_write_enabled: true,
            depth_compare: CompareFunction::Less,
            stencil_front: StencilStateFaceDescriptor::ignore(),
            stencil_back: StencilStateFaceDescriptor::ignore(),
            stencil_read_mask: 0,
            stencil_write_mask: 0,
        };
        self.set_depth_stencil_state(desc)
    }

    pub fn set_depth_stencil_state(self, desc: DepthStencilStateDescriptor) -> (r: Self)
        ensures
            r@ == (RenderNodeBuilderView { depth_stencil_desc: Some(desc), ..self@ }),
    {
        let mut result = self;
        result.depth_stencil_desc = Some(desc);
        result
    }

    /// Assembles the pipeline descriptor from everything gathered so far.
    fn construct_pipeline(&self, color_format: TextureFormat) -> (r: RenderPipelineDescriptor)
        requires
            self@.vertex_shader is Some,
        ensures
            pipeline_matches(self@, color_format, r),
    {
        let mut bind_group_layouts: Vec<BindGroupLayout> = Vec::new();
        let shared_count = self.shared_uniform_bind_groups.len();
        let local_count = self.local_uniform_bind_groups.len();

        let mut i: usize = 0;
        while i < shared_count
            invariant
                0 <= i <= shared_count,
                shared_count == self@.shared_uniform_bind_groups.len(),
                bind_group_layouts@.len() == i,
                forall|j: int|
                    0 <= j < i ==> bind_group_layouts@[j].entries@
                        == self@.shared_uniform_bind_groups[j].layout_spec().entries@,
            decreases shared_count - i,
        {
            let entries = self.shared_uniform_bind_groups[i].get_layout().entries.clone();
            proof {
                assert(entries@ =~= self@.shared_uniform_bind_groups[i as int].layout_spec().entries@);
            }
            bind_group_layouts.push(BindGroupLayout { entries });
            i += 1;
        }

        let mut i: usize = 0;
        while i < local_count
            invariant
                0 <= i <= local_count,
                shared_count == self@.shared_uniform_bind_groups.len(),
                local_count == self@.local_uniform_bind_groups.len(),
                bind_group_layouts@.len() == shared_count + i,
                forall|j: int|
                    0 <= j < shared_count ==> bind_group_layouts@[j].entries@
                        == self@.shared_uniform_bind_groups[j].layout_spec().entries@,
                forall|j: int|
                    0 <= j < i ==> bind_group_layouts@[shared_count + j].entries@
                        == self@.local_uniform_bind_groups[j].layout_spec().entries@,
            decreases local_count - i,
        {
            let entries = self.local_uniform_bind_groups[i].get_layout().entries.clone();
            proof {
                assert(entries@ =~= self@.local_uniform_bind_groups[i as int].layout_spec().entries@);
            }
            bind_group_layouts.push(BindGroupLayout { entries });
            i += 1;
        }

        let mut i: usize = 0;
        while i < self.texture_layouts.len()
            invariant
                0 <= i <= self@.texture_layouts.len(),
                shared_count == self@.shared_uniform_bind_groups.len(),
                local_count == self@.local_uniform_bind_groups.len(),
                bind_group_layouts@.len() == shared_count + local_count + i,
                forall|j: int|
                    0 <= j < shared_count ==> bind_group_layouts@[j].entries@
                        == self@.shared_uniform_bind_groups[j].layout_spec().entries@,
                forall|j: int|
                    0 <= j < local_count ==> bind_group_layouts@[shared_count + j].entries@
                        == self@.local_uniform_bind_groups[j].layout_spec().entries@,
                forall|j: int|
                    0 <= j < i ==> bind_group_layouts@[shared_count + local_count + j].entries@
                        == self@.texture_layouts[j].entries@,
            decreases self@.texture_layouts.len() - i,
        {
            let entries = self.texture_layouts[i].entries.clone();
            proof {
                assert(entries@ =~= self@.texture_layouts[i as int].entries@);
            }
            bind_group_layouts.push(BindGroupLayout { entries });
            i += 1;
        }

        let vertex_stage = match &self.vertex_shader {
            Some(vs) => vs.get_descriptor(),
            None => unreached(),
        };
        let fragment_stage = match &self.fragment_shader {
            Some(fs) => Some(fs.get_descriptor()),
            None => None,
        };

        let mut vertex_buffers: Vec<VertexBufferDescriptor> = Vec::new();
        let mut i: usize = 0;
        while i < self.vertex_buffer_descriptors.len()
            invariant
                0 <= i <= self@.vertex_buffer_descriptors.len(),
                vertex_buffers@.len() == i,
                forall|j: int|
                    0 <= j < i ==> {
                        &&& vertex_buffers@[j].stride == self@.vertex_buffer_descriptors[j].stride
                        &&& vertex_buffers@[j].step_mode
                            == self@.vertex_buffer_descriptors[j].step_mode
                        &&& vertex_buffers@[j].attributes@
                            == self@.vertex_buffer_descriptors[j].attributes@
                    },
            decreases self@.vertex_buffer_descriptors.len() - i,
        {
            let source = &self.vertex_buffer_descriptors[i];
            let attributes = source.attributes.clone();
            proof {
                assert(attributes@ =~= self@.vertex_buffer_descriptors[i as int].attributes@);
            }
            vertex_buffers.push(
                VertexBufferDescriptor {
                    stride: source.stride,
                    step_mode: source.step_mode,
                    attributes,
                },
            );
            i += 1;
        }

        RenderPipelineDescriptor {
            layout: PipelineLayoutDescriptor { bind_group_layouts },
            vertex_stage,
            fragment_stage,
            rasterization_state: self.rasterization_state_desc,
            primitive_topology: PrimitiveTopology::TriangleList,
            color_states: vec![
                ColorStateDescriptor {
                    format: color_format,
                    alpha_blend: BlendDescriptor::replace(),
                    color_blend: BlendDescriptor::replace(),
                    write_mask: COLOR_WRITE_ALL,
                },
            ],
            depth_stencil_state: self.depth_stencil_desc,
            vertex_state: VertexStateDescriptor { index_format: IndexFormat::Uint32, vertex_buffers },
            sample_count: 1,
            sample_mask: u32::MAX,
            alpha_to_coverage_enabled: false,
        }
    }

    /// Builds the render node. Fails exactly when no vertex shader was set;
    /// otherwise the node keeps the gathered groups and slot tables and the
    /// pipeline descriptor assembled from them.
    pub fn build(self, color_format: TextureFormat) -> (r: Result<RenderNode, RenderError>)
        ensures
            r is Err <==> self@.vertex_shader is None,
            r matches Err(e) ==> e is MissingVertexShader,
            r matches Ok(node) ==> {
                &&& node@.shared_uniform_bind_groups == self@.shared_uniform_bind_groups
                &&& node@.local_uniform_bind_groups == self@.local_uniform_bind_groups
                &&& node@.vertex_buffer_types == self@.vertex_buffer_types
                &&& node@.texture_types == self@.texture_types
                &&& pipeline_matches(self@, color_format, node@.pipeline)
            },
    {
        if self.vertex_shader.is_none() {
            Err(RenderError::MissingVertexShader)
        } else {
            let pipeline = self.construct_pipeline(color_format);
            Ok(
                RenderNode {
                    shared_uniform_bind_groups: self.shared_uniform_bind_groups,
                    local_uniform_bind_groups: self.local_uniform_bind_groups,
                    pipeline,
                    texture_types: self.texture_types,
                    vertex_buffer_types: self.vertex_buffer_types,
                },
            )
        }
    }
}

impl RenderNode {
    /// A builder with nothing gathered yet.
    pub fn builder() -> (r: RenderNodeBuilder)
        ensures
            r@ == (RenderNodeBuilderView {
                vertex_buffer_types: Seq::<u64>::empty(),
                vertex_buffer_descriptors: Seq::<VertexBufferDescriptor>::empty(),
                local_uniform_bind_groups: Seq::<UniformBindGroup>::empty(),
                shared_uniform_bind_groups: Seq::<UniformBindGroup>::empty(),
                vertex_shader: None,
                fragment_shader: None,
                depth_stencil_desc: None,
                rasterization_state_desc: None,
                texture_types: Seq::<u64>::empty(),
                texture_layouts: Seq::<BindGroupLayout>::empty(),
            }),
    {
        let r = RenderNodeBuilder {
            vertex_buffer_types: Vec::new(),
            vertex_buffer_descriptors: Vec::new(),
            vertex_shader: None,
            fragment_shader: None,
            shared_uniform_bind_groups: Vec::new(),
            local_uniform_bind_groups: Vec::new(),
            rasterization_state_desc: None,
            depth_stencil_desc: None,
            texture_layouts: Vec::new(),
            texture_types: Vec::new(),
        };
        proof {
            assert(r.shared_uniform_bind_groups@.map_values(|a: Arc<UniformBindGroup>| *a)
                =~= Seq::<UniformBindGroup>::empty());
        }
        r
    }

    /// The pipeline descriptor this node was built with.
    pub fn get_pipeline(&self) -> (r: &RenderPipelineDescriptor)
        ensures
            *r == self@.pipeline,
    {
        &self.pipeline
    }

    /// Turns new contents for the `T` binding of the local uniform group at
    /// the given index into the copy command that updates it. Fails exactly
    /// when that group holds no binding for `T`.
    pub fn update<T: GpuData>(&self, bind_group_index: usize, data: &T) -> (r: Result<
        GpuCommand,
        RenderError,
    >)
        requires
            bind_group_index < self@.local_uniform_bind_groups.len(),
        ensures
            r is Ok <==> self@.local_uniform_bind_groups[bind_group_index as int].has_binding(
                T::key_spec(),
            ),
            r matches Ok(cmd) ==> (cmd matches GpuCommand::CopyBufferToBuffer {
                source_bytes,
                source_offset,
                destination_index,
                destination_offset,
                copy_size,
            } && {
                let group = self@.local_uniform_bind_groups[bind_group_index as int];
                &&& source_bytes@ == data.bytes_spec()
                &&& source_offset == 0
                &&& destination_offset == 0
                &&& copy_size == T::byte_size_spec() as u64
                &&& 0 <= destination_index < group.buffer_keys().len()
                &&& group.buffer_keys()[destination_index as int] == T::key_spec()
            }),
            r matches Err(e) ==> e is GpuDataTypeNotPresent,
    {
        self.local_uniform_bind_groups[bind_group_index].update_buffer_data(data)
    }

    /// Begins a render pass: selects the pipeline, then binds the shared
    /// groups and the local groups, in that order, at slots numbered from
    /// zero.
    pub fn runner(&self) -> (r: RenderNodeRunner<'_>)
        requires
            self@.shared_uniform_bind_groups.len() + self@.local_uniform_bind_groups.len()
                <= u32::MAX,
        ensures
            r.texture_types_spec() == self@.texture_types,
            r.vertex_buffer_types_spec() == self@.vertex_buffer_types,
            r.uniform_group_count_spec() == self@.local_uniform_bind_groups.len(),
            r.commands_spec().len() == 1 + self@.shared_uniform_bind_groups.len()
                + self@.local_uniform_bind_groups.len(),
            r.commands_spec()[0] is SetPipeline,
            forall|i: int|
                0 <= i < self@.shared_uniform_bind_groups.len() ==> sets_bind_group(
                    r.commands_spec()[1 + i],
                    i,
                    (#[trigger] self@.shared_uniform_bind_groups[i]).bind_group_spec().bindings@,
                ),
            forall|i: int|
                0 <= i < self@.local_uniform_bind_groups.len() ==> sets_bind_group(
                    r.commands_spec()[1 + self@.shared_uniform_bind_groups.len() + i],
                    self@.shared_uniform_bind_groups.len() + i,
                    (#[trigger] self@.local_uniform_bind_groups[i]).bind_group_spec().bindings@,
                ),
    {
        let mut render_pass: Vec<RenderCommand> = Vec::new();
        render_pass.push(RenderCommand::SetPipeline);
        let shared_count = self.shared_uniform_bind_groups.len();
        let local_count = self.local_uniform_bind_groups.len();

        let mut i: usize = 0;
        while i < shared_count
            invariant
                0 <= i <= shared_count,
                shared_count == self@.shared_uniform_bind_groups.len(),
                local_count == self@.local_uniform_bind_groups.len(),
                shared_count + local_count <= u32::MAX,
                render_pass@.len() == 1 + i,
                render_pass@[0] is SetPipeline,
                forall|j: int|
                    0 <= j < i ==> sets_bind_group(
                        render_pass@[1 + j],
                        j,
                        (#[trigger] self@.shared_uniform_bind_groups[j]).bind_group_spec().bindings@,
                    ),
            decreases shared_count - i,
        {
            let bindings = self.shared_uniform_bind_groups[i].get_bind_group().bindings.clone();
            proof {
                assert(bindings@
                    =~= self@.shared_uniform_bind_groups[i as int].bind_group_spec().bindings@);
            }
            let cmd = RenderCommand::SetBindGroup {
                index: i as u32,
                bind_group: BindGroup { bindings },
            };
            proof {
                assert(sets_bind_group(
                    cmd,
                    i as int,
                    self@.shared_uniform_bind_groups[i as int].bind_group_spec().bindings@,
                ));
            }
            render_pass.push(cmd);
            i += 1;
        }

        let mut i: usize = 0;
        while i < local_count
            invariant
                0 <= i <= local_count,
                shared_count == self@.shared_uniform_bind_groups.len(),
                local_count == self@.local_uniform_bind_groups.len(),
                shared_count + local_count <= u32::MAX,
                render_pass@.len() == 1 + shared_count + i,
                render_pass@[0] is SetPipeline,
                forall|j: int|
                    0 <= j < shared_count ==> sets_bind_group(
                        render_pass@[1 + j],
                        j,
                        (#[trigger] self@.shared_uniform_bind_groups[j]).bind_group_spec().bindings@,
                    ),
                forall|j: int|
                    0 <= j < i ==> sets_bind_group(
                        render_pass@[1 + shared_count + j],
                        shared_count + j,
                        (#[trigger] self@.local_uniform_bind_groups[j]).bind_group_spec().bindings@,
                    ),
            decreases local_count - i,
        {
            let bindings = self.local_uniform_bind_groups[i].get_bind_group().bindings.clone();
            proof {
                assert(bindings@
                    =~= self@.local_uniform_bind_groups[i as int].bind_group_spec().bindings@);
            }
            let cmd = RenderCommand::SetBindGroup {
                index: (shared_count + i) as u32,
                bind_group: BindGroup { bindings },
            };
            proof {
                assert(sets_bind_group(
                    cmd,
                    shared_count + i,
                    self@.local_uniform_bind_groups[i as int].bind_group_spec().bindings@,
                ));
            }
            render_pass.push(cmd);
            i += 1;
        }

        RenderNodeRunner {
            render_pass,
            texture_types: &self.texture_types,
            vertex_buffer_types: &self.vertex_buffer_types,
            uniform_group_count: local_count as u32,
        }
    }
}

/// A render pass in progress: the commands recorded so far and the node's
/// type-to-slot tables, against which every bound resource is checked.
pub struct RenderNodeRunner<'a> {
    render_pass: Vec<RenderCommand>,
    texture_types: &'a Vec<u64>,
    vertex_buffer_types: &'a Vec<u64>,
    uniform_group_count: u32,
}

impl<'a> RenderNodeRunner<'a> {
    /// The commands recorded so far, in order.
    pub closed spec fn commands_spec(&self) -> Seq<RenderCommand> {
        self.render_pass@
    }

    pub closed spec fn texture_types_spec(&self) -> Seq<u64> {
        self.texture_types@
    }

    pub closed spec fn vertex_buffer_types_spec(&self) -> Seq<u64> {
        self.vertex_buffer_types@
    }

    /// How many bind group slots the node's own uniform groups take; texture
    /// slots start above them.
    pub closed spec fn uniform_group_count_spec(&self) -> u32 {
        self.uniform_group_count
    }

    /// The commands recorded so far, in order.
    pub fn commands(&self) -> (r: &Vec<RenderCommand>)
        ensures
            r@ == self.commands_spec(),
    {
        &self.render_pass
    }

    /// Binds a loaded texture at the given bind group slot. The slot, less
    /// the slots the uniform groups take, must be registered for `T` in the
    /// node's texture table.
    pub fn set_texture_data<T: TextureShaderLayout>(
        &mut self,
        index: u32,
        data: &TextureData<T>,
    )
        requires
            index >= old(self).uniform_group_count_spec(),
            index - old(self).uniform_group_count_spec() < old(self).texture_types_spec().len(),
            old(self).texture_types_spec()[index - old(self).uniform_group_count_spec()]
                == T::key_spec(),
        ensures
            final(self).texture_types_spec() == old(self).texture_types_spec(),
            final(self).vertex_buffer_types_spec() == old(self).vertex_buffer_types_spec(),
            final(self).uniform_group_count_spec() == old(self).uniform_group_count_spec(),
            final(self).commands_spec().len() == old(self).commands_spec().len() + 1,
            forall|i: int|
                0 <= i < old(self).commands_spec().len() ==> final(self).commands_spec()[i] == old(
                    self,
                ).commands_spec()[i],
            final(self).commands_spec().last() matches RenderCommand::SetBindGroup {
                index: slot,
                bind_group,
            } && slot == index && bind_group.bindings@ == data.bind_group_spec().bindings@,
    {
        let bindings = data.get_bind_group().bindings.clone();
        proof {
            assert(bindings@ =~= data.bind_group_spec().bindings@);
        }
        self.render_pass.push(
            RenderCommand::SetBindGroup { index, bind_group: BindGroup { bindings } },
        );
    }

    /// Binds a filled vertex buffer at the given vertex buffer slot. The
    /// slot must be registered for the buffer's vertex type in the node's
    /// vertex buffer table.
    pub fn set_vertex_buffer_data<D: VertexBuffer, V: VertexBufferData<DataType = D>>(
        &mut self,
        index: u32,
        data: &V,
    )
        requires
            index < old(self).vertex_buffer_types_spec().len(),
            old(self).vertex_buffer_types_spec()[index as int] == D::key_spec(),
        ensures
            final(self).texture_types_spec() == old(self).texture_types_spec(),
            final(self).vertex_buffer_types_spec() == old(self).vertex_buffer_types_spec(),
            final(self).uniform_group_count_spec() == old(self).uniform_group_count_spec(),
            final(self).commands_spec().len() == old(self).commands_spec().len() + 1,
            forall|i: int|
                0 <= i < old(self).commands_spec().len() ==> final(self).commands_spec()[i] == old(
                    self,
                ).commands_spec()[i],
            final(self).commands_spec().last() matches RenderCommand::SetVertexBuffer {
                slot,
                buffer,
            } && slot == index && buffer.contents@ == data.gpu_buffer_spec().contents@
                && buffer.usage == data.gpu_buffer_spec().usage,
    {
        let gpu_buffer = data.get_gpu_buffer();
        let contents = gpu_buffer.contents.clone();
        proof {
            assert(contents@ =~= data.gpu_buffer_spec().contents@);
        }
        self.render_pass.push(
            RenderCommand::SetVertexBuffer {
                slot: index,
                buffer: crate::descriptors::InitializedBuffer { contents, usage: gpu_buffer.usage },
            },
        );
    }
}

} // verus!
