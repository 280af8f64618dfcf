//! What this crate takes from the module environment: the type plans that an
//! export carries for the linker, and the index of a defined memory.
//!
//! The plans are carried through untouched. Nothing here looks inside one:
//! comparing two plans is the linker's business.

use vstd::prelude::*;
use wasmtime_environ::{DefinedMemoryIndex, MemoryPlan, TablePlan};

verus! {

/// `wasmtime_environ::TablePlan`: a table's element type and limits, with the
/// chosen implementation style.
#[verifier::external_type_specification]
#[verifier::external_body]
pub struct ExTablePlan(wasmtime_environ::TablePlan);

/// `wasmtime_environ::MemoryPlan`: a memory's limits and shared flag, with the
/// chosen implementation style and guard sizes.
#[verifier::external_type_specification]
#[verifier::external_body]
pub struct ExMemoryPlan(wasmtime_environ::MemoryPlan);

/// `wasmtime_environ::Global`: a global's value type, mutability and
/// initializer.
#[verifier::external_type_specification]
#[verifier::external_body]
pub struct ExGlobal(wasmtime_environ::Global);

/// `wasmtime_environ::DefinedMemoryIndex`: the position of a memory among the
/// memories that a module defines itself.
#[verifier::external_type_specification]
#[verifier::external_body]
pub struct ExDefinedMemoryIndex(wasmtime_environ::DefinedMemoryIndex);

/// The number that a `DefinedMemoryIndex` wraps.
pub uninterp spec fn defined_memory_index_value(index: DefinedMemoryIndex) -> u32;

/// `DefinedMemoryIndex::as_u32` hands out the wrapped number.
pub assume_specification[ wasmtime_environ::DefinedMemoryIndex::as_u32 ](
    index: DefinedMemoryIndex,
) -> (r: u32)
    ensures
        r == defined_memory_index_value(index),
;

/// The derived `Clone` of `TablePlan` copies every field: the clone is the
/// same plan.
pub assume_specification[ <wasmtime_environ::TablePlan as Clone>::clone ](
    plan: &TablePlan,
) -> (r: TablePlan)
    ensures
        r == *plan,
;

/// The derived `Clone` of `MemoryPlan` copies every field: the clone is the
/// same plan.
pub assume_specification[ <wasmtime_environ::MemoryPlan as Clone>::clone ](
    plan: &MemoryPlan,
) -> (r: MemoryPlan)
    ensures
        r == *plan,
;

} // verus!
