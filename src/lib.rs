//! Shader parameter binding: matching a compiled program's declared inputs
//! against parameter sources, and replaying the resulting links every frame.

pub mod uniform;
pub mod program;
pub mod param;
pub mod dictionary;
pub mod shell;
