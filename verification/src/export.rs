//! The value of an export passed from one instance to another, and the four
//! kinds of descriptor that it can hold.
//!
//! A descriptor is a view: it names storage that the exporting instance's
//! context owns, and copying or dropping it does nothing to that storage.
//! Every descriptor may be sent to and read from other threads. What that
//! takes is said on each type; it is the owner's duty, and nothing here
//! enforces it.

use crate::environ::defined_memory_index_value;
use crate::reference::{ContextId, NonNullSlotRef, SlotRef};
use crate::vmcontext::{
    VMCallerCheckedFuncRef, VMContext, VMContextView, VMGlobalDefinition, VMMemoryDefinition,
    VMTableDefinition,
};
use vstd::prelude::*;
use vstd::std_specs::convert::{FromSpec, FromSpecImpl};
use wasmtime_environ::{DefinedMemoryIndex, Global, MemoryPlan, TablePlan};

verus! {

/// The four kinds of entity that an instance can export.
#[derive(Debug, Clone, Copy, PartialEq, Eq, Hash, Structural)]
pub enum ExportKind {
    Function,
    Table,
    Memory,
    Global,
}

/// The answer to asking an export for a descriptor of a kind that it does not
/// hold.
#[derive(Debug, Clone, Copy, PartialEq, Eq, Hash, Structural)]
pub struct WrongKind {
    /// The kind that was asked for.
    pub expected: ExportKind,
    /// The kind that the export holds.
    pub found: ExportKind,
}

/// The value of an export passed from one instance to another.
pub enum Export {
    /// A function export value.
    Function(ExportFunction),
    /// A table export value.
    Table(ExportTable),
    /// A memory export value.
    Memory(ExportMemory),
    /// A global export value.
    Global(ExportGlobal),
}

/// A function export value.
///
/// Sharing between threads is always safe: a call descriptor does not change
/// once it is installed.
#[derive(Debug, Clone, Copy)]
pub struct ExportFunction {
    /// The call descriptor of this exported function.
    ///
    /// An exported function is never a null function reference. Where there
    /// is no function there is no export.
    pub anyfunc: NonNullSlotRef<VMCallerCheckedFuncRef>,
}

/// A table export value.
///
/// Sharing between threads is safe where the owner keeps a growth of the
/// table from running beside a reader, or grows it on the owning thread only.
#[derive(Debug)]
pub struct ExportTable {
    /// The table's live descriptor.
    pub definition: SlotRef<VMTableDefinition>,
    /// The context that owns the table.
    pub vmctx: ContextId,
    /// The table declaration, used for compatibility checking.
    pub table: TablePlan,
}

/// A memory export value.
///
/// Sharing between threads is safe under the rule for tables; a shared
/// memory asks in addition that accesses within bounds are atomic where the
/// owner says so.
#[derive(Debug)]
pub struct ExportMemory {
    /// The memory's live descriptor.
    pub definition: SlotRef<VMMemoryDefinition>,
    /// The context that owns the memory.
    pub vmctx: ContextId,
    /// The memory declaration, used for compatibility checking.
    pub memory: MemoryPlan,
    /// The index at which the memory is defined within the context.
    pub index: DefinedMemoryIndex,
}

/// A global export value.
///
/// Sharing between threads is safe where the owner lets one writer at a time
/// store to a mutable global, or keeps concurrent stores to value types that
/// the machine writes in one piece.
#[derive(Debug)]
pub struct ExportGlobal {
    /// The global's storage.
    pub definition: SlotRef<VMGlobalDefinition>,
    /// The global declaration, used for compatibility checking.
    pub global: Global,
}

impl Clone for ExportTable {
    /// A second view of the same table.
    fn clone(&self) -> (r: Self)
        ensures
            r == *self,
    {
        ExportTable { definition: self.definition, vmctx: self.vmctx, table: self.table.clone() }
    }
}

impl Clone for ExportMemory {
    /// A second view of the same memory.
    fn clone(&self) -> (r: Self)
        ensures
            r == *self,
    {
        ExportMemory {
            definition: self.definition,
            vmctx: self.vmctx,
            memory: self.memory.clone(),
            index: self.index,
        }
    }
}

impl Clone for ExportGlobal {
    /// A second view of the same global.
    fn clone(&self) -> (r: Self)
        ensures
            r == *self,
    {
        ExportGlobal { definition: self.definition, global: self.global }
    }
}

impl From<ExportFunction> for Export {
    fn from(func: ExportFunction) -> (r: Export)
        ensures
            r == Export::Function(func),
    {
        Export::Function(func)
    }
}

impl FromSpecImpl<ExportFunction> for Export {
    open spec fn obeys_from_spec() -> bool {
        true
    }

    open spec fn from_spec(func: ExportFunction) -> Export {
        Export::Function(func)
    }
}

impl From<ExportTable> for Export {
    fn from(table: ExportTable) -> (r: Export)
        ensures
            r == Export::Table(table),
    {
        Export::Table(table)
    }
}

impl FromSpecImpl<ExportTable> for Export {
    open spec fn obeys_from_spec() -> bool {
        true
    }

    open spec fn from_spec(table: ExportTable) -> Export {
        Export::Table(table)
    }
}

impl From<ExportMemory> for Export {
    fn from(memory: ExportMemory) -> (r: Export)
        ensures
            r == Export::Memory(memory),
    {
        Export::Memory(memory)
    }
}

impl FromSpecImpl<ExportMemory> for Export {
    open spec fn obeys_from_spec() -> bool {
        true
    }

    open spec fn from_spec(memory: ExportMemory) -> Export {
        Export::Memory(memory)
    }
}

impl From<ExportGlobal> for Export {
    fn from(global: ExportGlobal) -> (r: Export)
        ensures
            r == Export::Global(global),
    {
        Export::Global(global)
    }
}

impl FromSpecImpl<ExportGlobal> for Export {
    open spec fn obeys_from_spec() -> bool {
        true
    }

    open spec fn from_spec(global: ExportGlobal) -> Export {
        Export::Global(global)
    }
}

impl Export {
    /// The kind of entity that this export holds.
    pub open spec fn kind_spec(&self) -> ExportKind {
        match self {
            Export::Function(_) => ExportKind::Function,
            Export::Table(_) => ExportKind::Table,
            Export::Memory(_) => ExportKind::Memory,
            Export::Global(_) => ExportKind::Global,
        }
    }

    /// What asking for a descriptor of kind `expected` gives when the export
    /// holds another kind.
    pub open spec fn wrong_kind(&self, expected: ExportKind) -> WrongKind {
        WrongKind { expected, found: self.kind_spec() }
    }

    /// The function descriptor that this export holds, or why there is none.
    pub open spec fn function_spec(&self) -> Result<ExportFunction, WrongKind> {
        match self {
            Export::Function(func) => Ok(*func),
            _ => Err(self.wrong_kind(ExportKind::Function)),
        }
    }

    /// The table descriptor that this export holds, or why there is none.
    pub open spec fn table_spec(&self) -> Result<ExportTable, WrongKind> {
        match self {
            Export::Table(table) => Ok(*table),
            _ => Err(self.wrong_kind(ExportKind::Table)),
        }
    }

    /// The memory descriptor that this export holds, or why there is none.
    pub open spec fn memory_spec(&self) -> Result<ExportMemory, WrongKind> {
        match self {
            Export::Memory(memory) => Ok(*memory),
            _ => Err(self.wrong_kind(ExportKind::Memory)),
        }
    }

    /// The global descriptor that this export holds, or why there is none.
    pub open spec fn global_spec(&self) -> Result<ExportGlobal, WrongKind> {
        match self {
            Export::Global(global) => Ok(*global),
            _ => Err(self.wrong_kind(ExportKind::Global)),
        }
    }

    /// Tells which kind of entity this export holds.
    #[verifier::when_used_as_spec(kind_spec)]
    pub fn kind(&self) -> (r: ExportKind)
        ensures
            r == self.kind_spec(),
    {
        match self {
            Export::Function(_) => ExportKind::Function,
            Export::Table(_) => ExportKind::Table,
            Export::Memory(_) => ExportKind::Memory,
            Export::Global(_) => ExportKind::Global,
        }
    }

    /// The function descriptor, if this is a function export; the kinds
    /// asked for and found, if it is not.
    pub fn function(&self) -> (r: Result<&ExportFunction, WrongKind>)
        ensures
            match r {
                Ok(func) => self.function_spec() == Ok::<ExportFunction, WrongKind>(*func),
                Err(e) => self.function_spec() == Err::<ExportFunction, WrongKind>(e),
            },
    {
        match self {
            Export::Function(func) => Ok(func),
            _ => Err(WrongKind { expected: ExportKind::Function, found: self.kind() }),
        }
    }

    /// The table descriptor, if this is a table export; the kinds asked for
    /// and found, if it is not.
    pub fn table(&self) -> (r: Result<&ExportTable, WrongKind>)
        ensures
            match r {
                Ok(table) => self.table_spec() == Ok::<ExportTable, WrongKind>(*table),
                Err(e) => self.table_spec() == Err::<ExportTable, WrongKind>(e),
            },
    {
        match self {
            Export::Table(table) => Ok(table),
            _ => Err(WrongKind { expected: ExportKind::Table, found: self.kind() }),
        }
    }

    /// The memory descriptor, if this is a memory export; the kinds asked for
    /// and found, if it is not.
    pub fn memory(&self) -> (r: Result<&ExportMemory, WrongKind>)
        ensures
            match r {
                Ok(memory) => self.memory_spec() == Ok::<ExportMemory, WrongKind>(*memory),
                Err(e) => self.memory_spec() == Err::<ExportMemory, WrongKind>(e),
            },
    {
        match self {
            Export::Memory(memory) => Ok(memory),
            _ => Err(WrongKind { expected: ExportKind::Memory, found: self.kind() }),
        }
    }

    /// The global descriptor, if this is a global export; the kinds asked for
    /// and found, if it is not.
    pub fn global(&self) -> (r: Result<&ExportGlobal, WrongKind>)
        ensures
            match r {
                Ok(global) => self.global_spec() == Ok::<ExportGlobal, WrongKind>(*global),
                Err(e) => self.global_spec() == Err::<ExportGlobal, WrongKind>(e),
            },
    {
        match self {
            Export::Global(global) => Ok(global),
            _ => Err(WrongKind { expected: ExportKind::Global, found: self.kind() }),
        }
    }
}

impl ExportFunction {
    /// A function export over the call descriptor that `anyfunc` refers to.
    pub fn new(anyfunc: NonNullSlotRef<VMCallerCheckedFuncRef>) -> (r: Self)
        ensures
            r == (ExportFunction { anyfunc }),
    {
        ExportFunction { anyfunc }
    }

    /// A function export over the call descriptor that `raw` refers to. There
    /// is none over the null reference.
    pub fn from_raw(raw: SlotRef<VMCallerCheckedFuncRef>) -> (r: Option<Self>)
        ensures
            raw.is_null() <==> r is None,
            r matches Some(func) ==> func.anyfunc@ == raw,
    {
        match NonNullSlotRef::new(raw) {
            Some(anyfunc) => Some(ExportFunction { anyfunc }),
            None => None,
        }
    }

    /// The call descriptor that this export refers to, as `ctx` holds it.
    pub open spec fn live_in(&self, ctx: VMContextView) -> Option<VMCallerCheckedFuncRef> {
        ctx.function(self.anyfunc@)
    }

    /// Reads the call descriptor from the context that owns it. Another
    /// context holds nothing for this export.
    pub fn read(&self, ctx: &VMContext) -> (r: Option<VMCallerCheckedFuncRef>)
        ensures
            r == self.live_in(ctx@),
    {
        ctx.function(self.anyfunc.as_raw())
    }
}

impl ExportTable {
    /// A table export over the live descriptor that `definition` refers to,
    /// owned by the context `vmctx` and declared as `table`.
    pub fn new(definition: SlotRef<VMTableDefinition>, vmctx: ContextId, table: TablePlan) -> (r:
        Self)
        ensures
            r == (ExportTable { definition, vmctx, table }),
    {
        ExportTable { definition, vmctx, table }
    }

    /// The state of the table that this export refers to, as `ctx` holds it.
    pub open spec fn live_in(&self, ctx: VMContextView) -> Option<VMTableDefinition> {
        if self.vmctx == ctx.id {
            ctx.table(self.definition)
        } else {
            None
        }
    }

    /// Reads the table's state from the context that owns it, as it is at the
    /// time of the call. Another context holds nothing for this export.
    pub fn read(&self, ctx: &VMContext) -> (r: Option<VMTableDefinition>)
        ensures
            r == self.live_in(ctx@),
    {
        if self.vmctx == ctx.id() {
            ctx.table(self.definition)
        } else {
            None
        }
    }
}

impl ExportMemory {
    /// A memory export over the live descriptor that `definition` refers to,
    /// owned by the context `vmctx`, declared as `memory` and defined at
    /// `index`.
    ///
    /// Nothing is checked here. Whether `index` is one of the owner's
    /// memories, and the one that `definition` refers to, is what
    /// [`ExportMemory::valid_in`] tells.
    pub fn new(
        definition: SlotRef<VMMemoryDefinition>,
        vmctx: ContextId,
        memory: MemoryPlan,
        index: DefinedMemoryIndex,
    ) -> (r: Self)
        ensures
            r == (ExportMemory { definition, vmctx, memory, index }),
    {
        ExportMemory { definition, vmctx, memory, index }
    }

    /// The slot of the owning context that `index` names.
    pub open spec fn slot(&self) -> u32 {
        defined_memory_index_value(self.index)
    }

    /// Whether this export is one of `ctx`: `ctx` is its owner, its index is
    /// below the number of memories of `ctx`, and its live descriptor is the
    /// one at that index.
    pub open spec fn valid_in_spec(&self, ctx: VMContextView) -> bool {
        &&& self.vmctx == ctx.id
        &&& self.definition.context == ctx.id
        &&& self.definition.slot == self.slot()
        &&& self.slot() < ctx.memories.len()
    }

    /// The state of the memory that this export refers to, as `ctx` holds it.
    pub open spec fn live_in(&self, ctx: VMContextView) -> Option<VMMemoryDefinition> {
        if self.vmctx == ctx.id {
            ctx.memory(self.definition)
        } else {
            None
        }
    }

    /// Tells whether this export is one of `ctx`, with its index in bounds.
    pub fn valid_in(&self, ctx: &VMContext) -> (r: bool)
        ensures
            r == self.valid_in_spec(ctx@),
    {
        let slot: u32 = self.index.as_u32();
        self.vmctx == ctx.id() && self.definition.context == ctx.id() && self.definition.slot
            == slot && ctx.memory(self.definition).is_some()
    }

    /// Reads the memory's state from the context that owns it, as it is at
    /// the time of the call. Another context holds nothing for this export.
    pub fn read(&self, ctx: &VMContext) -> (r: Option<VMMemoryDefinition>)
        ensures
            r == self.live_in(ctx@),
    {
        if self.vmctx == ctx.id() {
            ctx.memory(self.definition)
        } else {
            None
        }
    }
}

impl ExportGlobal {
    /// A global export over the storage that `definition` refers to, declared
    /// as `global`.
    pub fn new(definition: SlotRef<VMGlobalDefinition>, global: Global) -> (r: Self)
        ensures
            r == (ExportGlobal { definition, global }),
    {
        ExportGlobal { definition, global }
    }

    /// The storage of the global that this export refers to, as `ctx` holds
    /// it.
    pub open spec fn live_in(&self, ctx: VMContextView) -> Option<VMGlobalDefinition> {
        ctx.global(self.definition)
    }

    /// Reads the global's storage from the context that owns it, as it is at
    /// the time of the call. Another context holds nothing for this export.
    pub fn read(&self, ctx: &VMContext) -> (r: Option<VMGlobalDefinition>)
        ensures
            r == self.live_in(ctx@),
    {
        ctx.global(self.definition)
    }
}

/// Wrapping a descriptor into an export and taking it out again gives the
/// descriptor back, with the references it had to the storage it had them
/// to. This holds of each of the four kinds.
pub proof fn wrapped_descriptor_comes_back(
    function: ExportFunction,
    table: ExportTable,
    memory: ExportMemory,
    global: ExportGlobal,
)
    ensures
        <Export as FromSpec<ExportFunction>>::from_spec(function).function_spec() == Ok::<
            ExportFunction,
            WrongKind,
        >(function),
        <Export as FromSpec<ExportTable>>::from_spec(table).table_spec() == Ok::<
            ExportTable,
            WrongKind,
        >(table),
        <Export as FromSpec<ExportMemory>>::from_spec(memory).memory_spec() == Ok::<
            ExportMemory,
            WrongKind,
        >(memory),
        <Export as FromSpec<ExportGlobal>>::from_spec(global).global_spec() == Ok::<
            ExportGlobal,
            WrongKind,
        >(global),
{
}

/// The kind of an export and what it holds never disagree. Asking an export
/// for the descriptor of its own kind gives the descriptor, from which
/// wrapping makes the same export again. Asking for any other kind gives no
/// descriptor but the kind asked for and the kind found, which differ.
pub proof fn kind_tells_the_payload(export: Export)
    ensures
        export.kind() == ExportKind::Function <==> export.function_spec() is Ok,
        export.kind() == ExportKind::Table <==> export.table_spec() is Ok,
        export.kind() == ExportKind::Memory <==> export.memory_spec() is Ok,
        export.kind() == ExportKind::Global <==> export.global_spec() is Ok,
        export.function_spec() matches Ok(function) ==> <Export as FromSpec<
            ExportFunction,
        >>::from_spec(function) == export,
        export.table_spec() matches Ok(table) ==> <Export as FromSpec<ExportTable>>::from_spec(
            table,
        ) == export,
        export.memory_spec() matches Ok(memory) ==> <Export as FromSpec<ExportMemory>>::from_spec(
            memory,
        ) == export,
        export.global_spec() matches Ok(global) ==> <Export as FromSpec<ExportGlobal>>::from_spec(
            global,
        ) == export,
        export.function_spec() matches Err(e) ==> e.expected == ExportKind::Function && e.found
            == export.kind() && e.found != e.expected,
        export.table_spec() matches Err(e) ==> e.expected == ExportKind::Table && e.found
            == export.kind() && e.found != e.expected,
        export.memory_spec() matches Err(e) ==> e.expected == ExportKind::Memory && e.found
            == export.kind() && e.found != e.expected,
        export.global_spec() matches Err(e) ==> e.expected == ExportKind::Global && e.found
            == export.kind() && e.found != e.expected,
{
}

/// A table export is a view, not a snapshot. When the owner installs a new
/// state for table `index`, the exports of that table read the new state and
/// the exports of every other table read what they read before, none of them
/// made anew; and whether an export reads anything at all does not change.
/// What happens to memories and globals does not reach it.
pub proof fn table_export_follows_its_table(
    ctx: VMContextView,
    export: ExportTable,
    index: u32,
    definition: VMTableDefinition,
    memory: VMMemoryDefinition,
    global: VMGlobalDefinition,
)
    ensures
        export.live_in(ctx.with_table(index, definition)) is Some <==> export.live_in(ctx) is Some,
        export.live_in(ctx) is Some && export.definition.slot == index ==> export.live_in(
            ctx.with_table(index, definition),
        ) == Some(definition),
        export.definition.slot != index ==> export.live_in(ctx.with_table(index, definition))
            == export.live_in(ctx),
        export.live_in(ctx.with_memory(index, memory)) == export.live_in(ctx),
        export.live_in(ctx.with_global(index, global)) == export.live_in(ctx),
{
}

/// A memory export is a view, not a snapshot. When the owner installs a new
/// state for memory `index`, the exports of that memory read the new state
/// and the exports of every other memory read what they read before, none of
/// them made anew; and whether an export reads anything at all, and whether
/// it is valid, does not change. What happens to tables and globals does not
/// reach it.
pub proof fn memory_export_follows_its_memory(
    ctx: VMContextView,
    export: ExportMemory,
    index: u32,
    definition: VMMemoryDefinition,
    table: VMTableDefinition,
    global: VMGlobalDefinition,
)
    ensures
        export.live_in(ctx.with_memory(index, definition)) is Some <==> export.live_in(ctx)
            is Some,
        export.valid_in_spec(ctx.with_memory(index, definition)) <==> export.valid_in_spec(ctx),
        export.live_in(ctx) is Some && export.definition.slot == index ==> export.live_in(
            ctx.with_memory(index, definition),
        ) == Some(definition),
        export.definition.slot != index ==> export.live_in(ctx.with_memory(index, definition))
            == export.live_in(ctx),
        export.live_in(ctx.with_table(index, table)) == export.live_in(ctx),
        export.live_in(ctx.with_global(index, global)) == export.live_in(ctx),
{
}

/// A global export is a view, not a snapshot. When the owner stores a new
/// value in global `index`, the exports of that global read the new value
/// and the exports of every other global read what they read before, none of
/// them made anew; and whether an export reads anything at all does not
/// change. What happens to tables and memories does not reach it.
pub proof fn global_export_follows_its_global(
    ctx: VMContextView,
    export: ExportGlobal,
    index: u32,
    definition: VMGlobalDefinition,
    table: VMTableDefinition,
    memory: VMMemoryDefinition,
)
    ensures
        export.live_in(ctx.with_global(index, definition)) is Some <==> export.live_in(ctx)
            is Some,
        export.live_in(ctx) is Some && export.definition.slot == index ==> export.live_in(
            ctx.with_global(index, definition),
        ) == Some(definition),
        export.definition.slot != index ==> export.live_in(ctx.with_global(index, definition))
            == export.live_in(ctx),
        export.live_in(ctx.with_table(index, table)) == export.live_in(ctx),
        export.live_in(ctx.with_memory(index, memory)) == export.live_in(ctx),
{
}

/// What a function export reads never changes: nothing that the owner does
/// to its tables, memories and globals reaches a call descriptor.
pub proof fn function_export_never_changes(
    ctx: VMContextView,
    export: ExportFunction,
    index: u32,
    table: VMTableDefinition,
    memory: VMMemoryDefinition,
    global: VMGlobalDefinition,
)
    ensures
        export.live_in(ctx.with_table(index, table)) == export.live_in(ctx),
        export.live_in(ctx.with_memory(index, memory)) == export.live_in(ctx),
        export.live_in(ctx.with_global(index, global)) == export.live_in(ctx),
{
}

/// The index of a valid memory export is below the number of memories of its
/// context, and resolving the index anew gives what the export reads. Two
/// valid exports of one context refer to the same memory exactly when their
/// indices name the same slot.
pub proof fn valid_memory_export_is_in_bounds(
    ctx: VMContextView,
    export: ExportMemory,
    other: ExportMemory,
)
    requires
        export.valid_in_spec(ctx),
        other.valid_in_spec(ctx),
    ensures
        0 <= export.slot() < ctx.memories.len(),
        export.live_in(ctx) == Some(ctx.memories[export.slot() as int]),
        export.definition == other.definition <==> export.slot() == other.slot(),
{
}

} // verus!
