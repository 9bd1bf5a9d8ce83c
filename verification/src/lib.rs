//! Marshals call arguments for a Cairo program, loads a compiled executable,
//! concludes what a run of it on the virtual machine gave and renders what
//! the run produced. The run itself is the caller's to make.

pub mod arguments;
pub mod call;
pub mod config;
pub mod decimal;
pub mod execution;
pub mod field;
pub mod output;
pub mod program;
