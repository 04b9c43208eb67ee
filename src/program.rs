//! Handles to backend objects and the inputs a compiled program declares.

use vstd::prelude::*;

verus! {

/// Handle to a buffer object, used as a uniform block.
#[derive(Clone, Copy, Debug, PartialEq, Eq, Structural)]
pub struct BufferHandle {
    pub id: u32,
}

/// Handle to a texture object.
#[derive(Clone, Copy, Debug, PartialEq, Eq, Structural)]
pub struct TextureHandle {
    pub id: u32,
}

/// Handle to a sampler object.
#[derive(Clone, Copy, Debug, PartialEq, Eq, Structural)]
pub struct SamplerHandle {
    pub id: u32,
}

/// A declared uniform variable of a program.
#[derive(Clone, Debug, PartialEq, Eq)]
pub struct UniformVar {
    pub name: String,
}

/// A declared uniform block of a program.
#[derive(Clone, Debug, PartialEq, Eq)]
pub struct BlockVar {
    pub name: String,
}

/// A declared sampler (texture input) of a program.
#[derive(Clone, Debug, PartialEq, Eq)]
pub struct SamplerVar {
    pub name: String,
}

/// A declared input of a program, identified by its name.
pub trait ShaderVar {
    spec fn var_name(&self) -> Seq<char>;

    fn name(&self) -> (r: &String)
        ensures
            r@ == self.var_name(),
    ;
}

impl ShaderVar for UniformVar {
    open spec fn var_name(&self) -> Seq<char> {
        self.name@
    }

    fn name(&self) -> (r: &String) {
        &self.name
    }
}

impl ShaderVar for BlockVar {
    open spec fn var_name(&self) -> Seq<char> {
        self.name@
    }

    fn name(&self) -> (r: &String) {
        &self.name
    }
}

impl ShaderVar for SamplerVar {
    open spec fn var_name(&self) -> Seq<char> {
        self.name@
    }

    fn name(&self) -> (r: &String) {
        &self.name
    }
}

/// The names of a sequence of declared inputs, in declared order.
pub open spec fn var_names<V: ShaderVar>(vars: Seq<V>) -> Seq<Seq<char>> {
    vars.map_values(|v: V| v.var_name())
}

/// The names of the inputs a program declares, by kind, in declared order.
pub struct Signature {
    pub uniforms: Seq<Seq<char>>,
    pub blocks: Seq<Seq<char>>,
    pub textures: Seq<Seq<char>>,
}

/// Borrowed declared inputs of a program, used for link construction.
pub type ParamLinkInput<'a> = (&'a [UniformVar], &'a [BlockVar], &'a [SamplerVar]);

/// The names that a link input declares.
pub open spec fn signature_of(input: ParamLinkInput) -> Signature {
    Signature {
        uniforms: var_names(input.0@),
        blocks: var_names(input.1@),
        textures: var_names(input.2@),
    }
}

/// A compiled program: its backend name and the inputs it declares.
#[derive(Clone, Debug, PartialEq, Eq)]
pub struct ProgramHandle {
    pub name: u32,
    pub uniforms: Vec<UniformVar>,
    pub blocks: Vec<BlockVar>,
    pub textures: Vec<SamplerVar>,
}

impl ProgramHandle {
    /// The names of the inputs this program declares.
    pub open spec fn signature(&self) -> Signature {
        Signature {
            uniforms: var_names(self.uniforms@),
            blocks: var_names(self.blocks@),
            textures: var_names(self.textures@),
        }
    }

    /// The declared inputs, borrowed for link creation.
    pub fn link_input(&self) -> (r: ParamLinkInput)
        ensures
            signature_of(r) == self.signature(),
    {
        (self.uniforms.as_slice(), self.blocks.as_slice(), self.textures.as_slice())
    }
}

} // verus!
