//! Export values of a WebAssembly instance.
//!
//! An instance publishes its functions, tables, linear memories and globals
//! as [`Export`] values. Each value is a non-owning view into the storage of
//! the [`VMContext`](vmcontext::VMContext) that owns the exported entity.

pub mod environ;
pub mod export;
pub mod reference;
pub mod vmcontext;

pub use crate::export::{
    Export, ExportFunction, ExportGlobal, ExportKind, ExportMemory, ExportTable, WrongKind,
};
