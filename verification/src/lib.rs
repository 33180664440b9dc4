//! Typed builders for render pipelines, uniform bind groups, vertex buffers,
//! shaders and textures.
//!
//! Each builder turns a declarative description of what a draw call needs
//! into the exactly-shaped descriptor objects that a native graphics API
//! expects (buffer descriptors, bind group layouts, pipeline layouts), and
//! keeps type-keyed slot tables so that the right data is bound to the right
//! slot. The contracts state the shape of every descriptor produced and
//! exactly when each builder reports an error.

use vstd::prelude::*;

pub mod descriptors;
pub mod frame_buffer;
pub mod render_node;
pub mod shader;
pub mod texture;
pub mod textures;
pub mod uniforms;
pub mod vertex_buffer;

pub use render_node::RenderNode;
pub use render_node::RenderNodeBuilder;
pub use render_node::RenderNodeRunner;
pub use shader::FragmentShader;
pub use shader::VertexShader;
pub use texture::SimpleTexture;
pub use texture::Texture;
pub use uniforms::UniformBindGroup;
pub use uniforms::UniformBindGroupBuilder;
pub use vertex_buffer::VertexBuffer;
pub use vertex_buffer::VertexBufferData;

verus! {

/// Plain data that can be sent to the GPU as raw bytes.
///
/// Each implementing type names itself with a key (standing in for the
/// type's runtime identity) and states its byte size and the byte image of
/// each of its values; the builders use the key for their type-to-slot
/// tables and the bytes for buffer contents.
pub trait GpuData: Sized {
    /// The key that identifies this type in slot tables; unspecified until
    /// an implementation picks it.
    open spec fn key_spec() -> u64 {
        arbitrary()
    }

    /// The byte size of a value of this type; unspecified until an
    /// implementation picks it.
    open spec fn byte_size_spec() -> usize {
        arbitrary()
    }

    /// The byte image of this value; unspecified until an implementation
    /// picks it.
    open spec fn bytes_spec(&self) -> Seq<u8> {
        arbitrary()
    }

    fn type_key() -> (r: u64)
        ensures
            r == Self::key_spec(),
    ;

    fn byte_size() -> (r: usize)
        ensures
            r == Self::byte_size_spec(),
    ;

    fn as_raw_bytes(&self) -> (r: Vec<u8>)
        ensures
            r@ == self.bytes_spec(),
            r@.len() == Self::byte_size_spec(),
    ;
}

/// Everything that can go wrong while building or driving a render node.
#[derive(Debug)]
pub enum RenderError {
    /// The shader source did not compile; carries the compiler's message and
    /// the path of the offending file.
    ShaderCompileError { message: String, path: String },
    /// A render node was built without a vertex shader.
    MissingVertexShader,
    /// An image could not be opened or decoded.
    TextureLoadError(String),
    /// A shader file could not be read.
    ShaderFileError(String),
    /// Zero-sized data cannot back a uniform binding.
    ZeroSizedGpuData,
    /// The bind group already holds a binding for this data type.
    GpuDataTypeAlreadyPresent,
    /// The bind group holds no binding for this data type.
    GpuDataTypeNotPresent,
}

} // verus!
