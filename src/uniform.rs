//! Uniform values and the conversion of native values into them.

use vstd::prelude::*;

verus! {

/// A 32-bit float held as its IEEE-754 bit pattern, so that values are
/// compared and copied bit for bit.
#[derive(Clone, Copy, Debug, PartialEq, Eq, Structural)]
pub struct Float32 {
    pub bits: u32,
}

/// A value that can be sent to a program's uniform variable.
#[derive(Clone, Copy, Debug, PartialEq, Eq)]
pub enum UniformValue {
    ValueI32(i32),
    ValueF32(Float32),
    ValueI32Vec([i32; 4]),
    ValueF32Vec([Float32; 4]),
    /// A 4x4 matrix, row by row.
    ValueF32Matrix([[Float32; 4]; 4]),
}

/// Native values that have a uniform representation.
pub trait ToUniform {
    /// The uniform value that stands for `self`.
    spec fn uniform_of(&self) -> UniformValue;

    /// Create a `UniformValue` representing this value.
    fn to_uniform(&self) -> (r: UniformValue)
        ensures
            r == self.uniform_of(),
    ;
}

impl ToUniform for i32 {
    open spec fn uniform_of(&self) -> UniformValue {
        UniformValue::ValueI32(*self)
    }

    fn to_uniform(&self) -> (r: UniformValue) {
        UniformValue::ValueI32(*self)
    }
}

impl ToUniform for Float32 {
    open spec fn uniform_of(&self) -> UniformValue {
        UniformValue::ValueF32(*self)
    }

    fn to_uniform(&self) -> (r: UniformValue) {
        UniformValue::ValueF32(*self)
    }
}

impl ToUniform for [i32; 4] {
    open spec fn uniform_of(&self) -> UniformValue {
        UniformValue::ValueI32Vec(*self)
    }

    fn to_uniform(&self) -> (r: UniformValue) {
        UniformValue::ValueI32Vec(*self)
    }
}

impl ToUniform for [Float32; 4] {
    open spec fn uniform_of(&self) -> UniformValue {
        UniformValue::ValueF32Vec(*self)
    }

    fn to_uniform(&self) -> (r: UniformValue) {
        UniformValue::ValueF32Vec(*self)
    }
}

impl ToUniform for [[Float32; 4]; 4] {
    open spec fn uniform_of(&self) -> UniformValue {
        UniformValue::ValueF32Matrix(*self)
    }

    fn to_uniform(&self) -> (r: UniformValue) {
        UniformValue::ValueF32Matrix(*self)
    }
}

} // verus!
