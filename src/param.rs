//! The shader parameter link protocol: parameter sources, the buffers they
//! fill, and the shells that pair a program with its parameters.

use vstd::prelude::*;
use crate::program::{
    BufferHandle, ParamLinkInput, ProgramHandle, SamplerHandle, Signature, TextureHandle,
    signature_of,
};
use crate::uniform::UniformValue;

verus! {

/// Variable index of a uniform.
pub type VarUniform = u16;

/// Variable index of a uniform block.
pub type VarBlock = u8;

/// Variable index of a texture.
pub type VarTexture = u8;

/// A texture parameter: a texture handle with an optional sampler.
pub type TextureParam = (TextureHandle, Option<SamplerHandle>);

/// Storage for the parameter values to be sent to a program, one slot per
/// declared input, addressed by position.
#[derive(Clone, Debug, PartialEq)]
pub struct ParamValues {
    /// uniform values to be provided
    pub uniforms: Vec<Option<UniformValue>>,
    /// uniform buffers to be provided
    pub blocks: Vec<Option<BufferHandle>>,
    /// textures to be provided
    pub textures: Vec<Option<TextureParam>>,
}

/// The contents of a `ParamValues`.
pub struct ParamValuesView {
    pub uniforms: Seq<Option<UniformValue>>,
    pub blocks: Seq<Option<BufferHandle>>,
    pub textures: Seq<Option<TextureParam>>,
}

impl ParamValuesView {
    /// One slot for each input of `sig`.
    pub open spec fn shaped(self, sig: Signature) -> bool {
        &&& self.uniforms.len() == sig.uniforms.len()
        &&& self.blocks.len() == sig.blocks.len()
        &&& self.textures.len() == sig.textures.len()
    }

    /// No slot at all.
    pub open spec fn is_empty(self) -> bool {
        &&& self.uniforms.len() == 0
        &&& self.blocks.len() == 0
        &&& self.textures.len() == 0
    }

    /// A buffer for `sig` with every slot unset.
    pub open spec fn cleared(sig: Signature) -> ParamValuesView {
        ParamValuesView {
            uniforms: Seq::new(sig.uniforms.len(), |i: int| None),
            blocks: Seq::new(sig.blocks.len(), |i: int| None),
            textures: Seq::new(sig.textures.len(), |i: int| None),
        }
    }
}

impl View for ParamValues {
    type V = ParamValuesView;

    open spec fn view(&self) -> ParamValuesView {
        ParamValuesView {
            uniforms: self.uniforms@,
            blocks: self.blocks@,
            textures: self.textures@,
        }
    }
}

fn unset_slots<T>(n: usize) -> (r: Vec<Option<T>>)
    ensures
        r@ == Seq::new(n as nat, |i: int| None::<T>),
{
    let mut r: Vec<Option<T>> = Vec::new();
    let mut i: usize = 0;
    while i < n
        invariant
            i <= n,
            r@ == Seq::new(i as nat, |k: int| None::<T>),
        decreases n - i,
    {
        r.push(None);
        i += 1;
        assert(r@ =~= Seq::new(i as nat, |k: int| None::<T>));
    }
    r
}

impl ParamValues {
    /// A buffer with one unset slot for each input that `program` declares.
    pub fn new(program: &ProgramHandle) -> (r: ParamValues)
        ensures
            r@ == ParamValuesView::cleared(program.signature()),
    {
        ParamValues {
            uniforms: unset_slots(program.uniforms.len()),
            blocks: unset_slots(program.blocks.len()),
            textures: unset_slots(program.textures.len()),
        }
    }
}

/// An error type on either the parameter storage or the program side
#[derive(Clone, Debug, PartialEq, Eq)]
pub enum ParameterError {
    /// Internal error
    ErrorInternal,
    /// Error with the named uniform
    ErrorUniform(String),
    /// Error with the named uniform block
    ErrorBlock(String),
    /// Error with the named texture.
    ErrorTexture(String),
}

/// What a `ParameterError` says: the kind of input and its name.
pub enum ParamErrorView {
    Internal,
    Uniform(Seq<char>),
    Block(Seq<char>),
    Texture(Seq<char>),
}

impl View for ParameterError {
    type V = ParamErrorView;

    open spec fn view(&self) -> ParamErrorView {
        match self {
            ParameterError::ErrorInternal => ParamErrorView::Internal,
            ParameterError::ErrorUniform(n) => ParamErrorView::Uniform(n@),
            ParameterError::ErrorBlock(n) => ParamErrorView::Block(n@),
            ParameterError::ErrorTexture(n) => ParamErrorView::Texture(n@),
        }
    }
}

/// An error type for the link creation
#[derive(Clone, Debug, PartialEq, Eq)]
pub enum ParameterLinkError {
    /// A given parameter is not used by the program
    ErrorUnusedParameter(ParameterError),
    /// A program parameter that is not provided
    ErrorMissingParameter(ParameterError),
}

/// What a `ParameterLinkError` says.
pub enum LinkErrorView {
    Unused(ParamErrorView),
    Missing(ParamErrorView),
}

impl View for ParameterLinkError {
    type V = LinkErrorView;

    open spec fn view(&self) -> LinkErrorView {
        match self {
            ParameterLinkError::ErrorUnusedParameter(e) => LinkErrorView::Unused(e@),
            ParameterLinkError::ErrorMissingParameter(e) => LinkErrorView::Missing(e@),
        }
    }
}

/// A source of shader parameters that binds to a program through a link of
/// type `L`: the link is made once from the program's declared inputs, then
/// used at every fill without looking names up again.
pub trait ShaderParam<L>: Sized {
    /// Whether this source can supply every input that `sig` declares.
    spec fn supplies(&self, sig: Signature) -> bool;

    /// The error that link creation reports for `sig` when it fails.
    spec fn link_error(&self, sig: Signature) -> LinkErrorView;

    /// Whether `link` binds this source to a program declaring `sig`.
    spec fn binds(&self, link: L, sig: Signature) -> bool;

    /// Whether `fill_params` can fill `out` through `link`.
    spec fn fills(&self, link: L, out: ParamValuesView) -> bool;

    /// The contents of `out` after `fill_params` through `link`.
    spec fn filled(&self, link: L, out: ParamValuesView) -> ParamValuesView;

    /// A link made for `sig` can fill every buffer shaped for `sig`.
    proof fn lemma_binds_fills(&self, link: L, sig: Signature, out: ParamValuesView)
        requires
            self.binds(link, sig),
            out.shaped(sig),
        ensures
            self.fills(link, out),
    ;

    /// Creates a new link for the given declared inputs.
    fn create_link(&self, input: ParamLinkInput) -> (r: Result<L, ParameterLinkError>)
        ensures
            r is Ok <==> self.supplies(signature_of(input)),
            r matches Ok(link) ==> self.binds(link, signature_of(input)),
            r matches Err(e) ==> e@ == self.link_error(signature_of(input)),
    ;

    /// Writes all the contained parameter values into `out`, using `link`.
    fn fill_params(&self, link: &L, out: &mut ParamValues)
        requires
            self.fills(*link, old(out)@),
        ensures
            final(out)@ == self.filled(*link, old(out)@),
    ;
}

/// The placeholder name reported by a source that has no parameters.
pub open spec fn placeholder_name() -> Seq<char> {
    seq!['_']
}

fn placeholder() -> (r: String)
    ensures
        r@ == placeholder_name(),
{
    proof {
        reveal_strlit("_");
    }
    "_".to_owned()
}

/// The source with no parameters: it binds only to programs that declare
/// no input.
impl ShaderParam<()> for () {
    open spec fn supplies(&self, sig: Signature) -> bool {
        &&& sig.uniforms.len() == 0
        &&& sig.blocks.len() == 0
        &&& sig.textures.len() == 0
    }

    open spec fn link_error(&self, sig: Signature) -> LinkErrorView {
        if sig.uniforms.len() > 0 {
            LinkErrorView::Missing(ParamErrorView::Uniform(placeholder_name()))
        } else if sig.blocks.len() > 0 {
            LinkErrorView::Missing(ParamErrorView::Block(placeholder_name()))
        } else {
            LinkErrorView::Missing(ParamErrorView::Texture(placeholder_name()))
        }
    }

    open spec fn binds(&self, link: (), sig: Signature) -> bool {
        self.supplies(sig)
    }

    open spec fn fills(&self, link: (), out: ParamValuesView) -> bool {
        true
    }

    open spec fn filled(&self, link: (), out: ParamValuesView) -> ParamValuesView {
        out
    }

    proof fn lemma_binds_fills(&self, link: (), sig: Signature, out: ParamValuesView) {
    }

    fn create_link(&self, input: ParamLinkInput) -> (r: Result<(), ParameterLinkError>) {
        if input.0.len() > 0 {
            return Err(ParameterLinkError::ErrorMissingParameter(ParameterError::ErrorUniform(placeholder())));
        }
        if input.1.len() > 0 {
            return Err(ParameterLinkError::ErrorMissingParameter(ParameterError::ErrorBlock(placeholder())));
        }
        if input.2.len() > 0 {
            return Err(ParameterLinkError::ErrorMissingParameter(ParameterError::ErrorTexture(placeholder())));
        }
        Ok(())
    }

    fn fill_params(&self, link: &(), out: &mut ParamValues) {
    }
}


/// A program that declares no input links to the source without
/// parameters, and filling through that link leaves the buffer as it was.
pub proof fn lemma_unit_links_empty(sig: Signature, out: ParamValuesView)
    requires
        sig.uniforms.len() == 0,
        sig.blocks.len() == 0,
        sig.textures.len() == 0,
    ensures
        ().supplies(sig),
        ().binds((), sig),
        ().fills((), out),
        ().filled((), out) == out,
{
}

/// A program that declares a uniform is refused by the source without
/// parameters, with an error on a uniform.
pub proof fn lemma_unit_refuses_uniforms(sig: Signature)
    requires
        sig.uniforms.len() > 0,
    ensures
        !().supplies(sig),
        ().link_error(sig) matches LinkErrorView::Missing(ParamErrorView::Uniform(_)),
{
}

} // verus!
