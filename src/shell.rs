//! Shells: a program paired with the source of its parameters, the unit
//! that draw submission binds.

use vstd::prelude::*;
use crate::param::{ParamValues, ParamValuesView, ParameterLinkError, ShaderParam};
use crate::program::ProgramHandle;

verus! {

/// Encloses a shader program with its parameter
pub trait ProgramShell {
    /// The program this shell binds.
    spec fn bound_program(&self) -> ProgramHandle;

    /// Whether `fill_params` can fill a buffer with contents `out`.
    spec fn ready(&self, out: ParamValuesView) -> bool;

    /// The contents of a buffer after `fill_params`.
    spec fn filled(&self, out: ParamValuesView) -> ParamValuesView;

    /// Get the contained program
    fn get_program(&self) -> (r: &ProgramHandle)
        ensures
            *r == self.bound_program(),
    ;

    /// Get all the contained parameter values
    fn fill_params(&self, out: &mut ParamValues)
        requires
            self.ready(old(out)@),
        ensures
            final(out)@ == self.filled(old(out)@),
    ;
}

/// A program on its own has no parameters: it can only be bound with an
/// empty buffer, which it leaves as it is.
impl ProgramShell for ProgramHandle {
    open spec fn bound_program(&self) -> ProgramHandle {
        *self
    }

    open spec fn ready(&self, out: ParamValuesView) -> bool {
        out.is_empty()
    }

    open spec fn filled(&self, out: ParamValuesView) -> ParamValuesView {
        out
    }

    fn get_program(&self) -> (r: &ProgramHandle) {
        self
    }

    fn fill_params(&self, out: &mut ParamValues) {
    }
}

/// A bundle that encapsulates a program and a custom user-provided
/// structure containing the program parameters, with the link between them.
#[derive(Clone)]
pub struct CustomShell<L, T> {
    /// Shader program handle
    program: ProgramHandle,
    /// Hidden link that provides parameter indices for user data
    link: L,
    /// Global data in a user-provided struct
    pub data: T,
}

impl<L, T: ShaderParam<L>> CustomShell<L, T> {
    /// The program this shell holds.
    pub closed spec fn program_spec(&self) -> ProgramHandle {
        self.program
    }

    /// The link this shell fills through.
    pub closed spec fn link_spec(&self) -> L {
        self.link
    }

    /// The parameter data this shell holds.
    pub closed spec fn data_spec(&self) -> T {
        self.data
    }

    /// Create a new custom shell
    pub fn new(program: ProgramHandle, link: L, data: T) -> (r: CustomShell<L, T>)
        ensures
            r.program_spec() == program,
            r.link_spec() == link,
            r.data_spec() == data,
    {
        CustomShell { program, link, data }
    }

    /// Creates a shell whose link is made for `program`'s own declared
    /// inputs, or the error of link creation.
    pub fn connect(program: ProgramHandle, data: T) -> (r: Result<CustomShell<L, T>, ParameterLinkError>)
        ensures
            r is Ok <==> data.supplies(program.signature()),
            r matches Ok(shell) ==> {
                &&& shell.program_spec() == program
                &&& shell.data_spec() == data
                &&& data.binds(shell.link_spec(), program.signature())
            },
            r matches Err(e) ==> e@ == data.link_error(program.signature()),
    {
        let made = data.create_link(program.link_input());
        match made {
            Ok(link) => Ok(CustomShell { program, link, data }),
            Err(e) => Err(e),
        }
    }
}

impl<L, T: ShaderParam<L>> ProgramShell for CustomShell<L, T> {
    open spec fn bound_program(&self) -> ProgramHandle {
        self.program_spec()
    }

    open spec fn ready(&self, out: ParamValuesView) -> bool {
        self.data_spec().fills(self.link_spec(), out)
    }

    open spec fn filled(&self, out: ParamValuesView) -> ParamValuesView {
        self.data_spec().filled(self.link_spec(), out)
    }

    fn get_program(&self) -> (r: &ProgramHandle) {
        &self.program
    }

    fn fill_params(&self, out: &mut ParamValues) {
        self.data.fill_params(&self.link, out);
    }
}


/// A shell whose link was made for its own program's declared inputs can
/// fill every buffer shaped for that program.
pub proof fn lemma_shell_ready<L, T: ShaderParam<L>>(shell: CustomShell<L, T>, out: ParamValuesView)
    requires
        shell.data_spec().binds(shell.link_spec(), shell.program_spec().signature()),
        out.shaped(shell.program_spec().signature()),
    ensures
        shell.ready(out),
{
    shell.data_spec().lemma_binds_fills(shell.link_spec(), shell.program_spec().signature(), out);
}

} // verus!
