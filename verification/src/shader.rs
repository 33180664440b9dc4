//! Vertex and fragment shaders: each wraps a compiled SPIR-V module and
//! knows the stage descriptor the native API wants for it.
//!
//! Compiling shader source into SPIR-V, like reading it from disk, happens
//! outside the library; the builders here take the compiled words.

use vstd::prelude::*;

use crate::descriptors::ProgrammableStageDescriptor;

verus! {

fn get_descriptor(module: &Vec<u32>) -> (r: ProgrammableStageDescriptor)
    ensures
        r.module@ == module@,
        r.entry_point@ == "main"@,
{
    let words = module.clone();
    proof {
        assert(words@ =~= module@);
    }
    ProgrammableStageDescriptor { module: words, entry_point: "main" }
}

/// A compiled vertex shader module.
#[derive(Clone, Debug)]
pub struct VertexShader {
    module: Vec<u32>,
}

impl VertexShader {
    /// The SPIR-V words of the module.
    pub closed spec fn module_spec(&self) -> Seq<u32> {
        self.module@
    }

    /// Wraps a compiled SPIR-V module as a vertex shader.
    pub fn new(spirv: Vec<u32>) -> (r: VertexShader)
        ensures
            r.module_spec() == spirv@,
    {
        VertexShader { module: spirv }
    }

    /// The pipeline stage descriptor for this shader: its module, entered
    /// at `main`.
    pub(crate) fn get_descriptor(&self) -> (r: ProgrammableStageDescriptor)
        ensures
            r.module@ == self.module_spec(),
            r.entry_point@ == "main"@,
    {
        get_descriptor(&self.module)
    }
}

/// A compiled fragment shader module.
#[derive(Clone, Debug)]
pub struct FragmentShader {
    module: Vec<u32>,
}

impl FragmentShader {
    /// The SPIR-V words of the module.
    pub closed spec fn module_spec(&self) -> Seq<u32> {
        self.module@
    }

    /// Wraps a compiled SPIR-V module as a fragment shader.
    pub fn new(spirv: Vec<u32>) -> (r: FragmentShader)
        ensures
            r.module_spec() == spirv@,
    {
        FragmentShader { module: spirv }
    }

    /// The pipeline stage descriptor for this shader: its module, entered
    /// at `main`.
    pub(crate) fn get_descriptor(&self) -> (r: ProgrammableStageDescriptor)
        ensures
            r.module@ == self.module_spec(),
            r.entry_point@ == "main"@,
    {
        get_descriptor(&self.module)
    }
}

} // verus!
