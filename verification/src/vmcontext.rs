//! The context of an instance: the sole owner of the storage that the
//! instance's exports refer to.
//!
//! A context keeps each definition in a numbered slot. A slot, once it
//! exists, stays where it is for the life of the context; what it holds may
//! be replaced, as when a table or a memory grows and moves. An export holds a
//! slot's number, never a copy of what the slot holds, and so reads whatever
//! the context holds at the time of the reading.

use crate::environ::defined_memory_index_value;
use crate::export::{ExportFunction, ExportGlobal, ExportMemory, ExportTable};
use crate::reference::{ContextId, SlotRef, NULL_SLOT};
use vstd::prelude::*;
use wasmtime_environ::{DefinedMemoryIndex, Global, MemoryPlan, TablePlan};

verus! {

/// What a trampoline needs to call a function: the address of its code, the
/// index of its signature for the caller's check, and the context it runs in.
#[derive(Debug, Clone, Copy, PartialEq, Eq, Structural)]
pub struct VMCallerCheckedFuncRef {
    pub func_ptr: usize,
    pub type_index: u32,
    pub vmctx: ContextId,
}

/// The live state of a table: where its elements are now and how many.
#[derive(Debug, Clone, Copy, PartialEq, Eq, Structural)]
pub struct VMTableDefinition {
    pub base: usize,
    pub current_elements: u32,
}

/// The live state of a linear memory: where its bytes are now and how many.
#[derive(Debug, Clone, Copy, PartialEq, Eq, Structural)]
pub struct VMMemoryDefinition {
    pub base: usize,
    pub current_length: usize,
}

/// The storage of a global: one slot wide enough for any value type.
#[derive(Debug, Clone, Copy, PartialEq, Eq, Structural)]
pub struct VMGlobalDefinition {
    pub storage: u128,
}

/// The state of a context as contracts see it.
pub struct VMContextView {
    pub id: ContextId,
    pub functions: Seq<VMCallerCheckedFuncRef>,
    pub tables: Seq<VMTableDefinition>,
    pub memories: Seq<VMMemoryDefinition>,
    pub globals: Seq<VMGlobalDefinition>,
}

impl VMContextView {
    /// Whether `reference` names a slot of this context among `len` slots.
    pub open spec fn holds<T>(self, reference: SlotRef<T>, len: nat) -> bool {
        reference.context == self.id && reference.slot < len
    }

    /// The call descriptor that `reference` refers to, if it is one of this
    /// context's.
    pub open spec fn function(self, reference: SlotRef<VMCallerCheckedFuncRef>) -> Option<
        VMCallerCheckedFuncRef,
    > {
        if self.holds(reference, self.functions.len()) {
            Some(self.functions[reference.slot as int])
        } else {
            None
        }
    }

    /// The table state that `reference` refers to, if it is one of this
    /// context's.
    pub open spec fn table(self, reference: SlotRef<VMTableDefinition>) -> Option<
        VMTableDefinition,
    > {
        if self.holds(reference, self.tables.len()) {
            Some(self.tables[reference.slot as int])
        } else {
            None
        }
    }

    /// The memory state that `reference` refers to, if it is one of this
    /// context's.
    pub open spec fn memory(self, reference: SlotRef<VMMemoryDefinition>) -> Option<
        VMMemoryDefinition,
    > {
        if self.holds(reference, self.memories.len()) {
            Some(self.memories[reference.slot as int])
        } else {
            None
        }
    }

    /// The global storage that `reference` refers to, if it is one of this
    /// context's.
    pub open spec fn global(self, reference: SlotRef<VMGlobalDefinition>) -> Option<
        VMGlobalDefinition,
    > {
        if self.holds(reference, self.globals.len()) {
            Some(self.globals[reference.slot as int])
        } else {
            None
        }
    }

    /// This context after table `index` took the state `definition`; the same
    /// context if it has no such table.
    pub open spec fn with_table(self, index: u32, definition: VMTableDefinition) -> Self {
        if index < self.tables.len() {
            VMContextView { tables: self.tables.update(index as int, definition), ..self }
        } else {
            self
        }
    }

    /// This context after memory `index` took the state `definition`; the same
    /// context if it has no such memory.
    pub open spec fn with_memory(self, index: u32, definition: VMMemoryDefinition) -> Self {
        if index < self.memories.len() {
            VMContextView { memories: self.memories.update(index as int, definition), ..self }
        } else {
            self
        }
    }

    /// This context after global `index` took the value `definition`; the
    /// same context if it has no such global.
    pub open spec fn with_global(self, index: u32, definition: VMGlobalDefinition) -> Self {
        if index < self.globals.len() {
            VMContextView { globals: self.globals.update(index as int, definition), ..self }
        } else {
            self
        }
    }
}

/// The context of one instance.
///
/// No kind has more than `NULL_SLOT` slots, so the number of a slot is never
/// `NULL_SLOT` and a reference to a slot is never null.
pub struct VMContext {
    id: ContextId,
    functions: Vec<VMCallerCheckedFuncRef>,
    tables: Vec<VMTableDefinition>,
    memories: Vec<VMMemoryDefinition>,
    globals: Vec<VMGlobalDefinition>,
}

impl View for VMContext {
    type V = VMContextView;

    closed spec fn view(&self) -> VMContextView {
        VMContextView {
            id: self.id,
            functions: self.functions@,
            tables: self.tables@,
            memories: self.memories@,
            globals: self.globals@,
        }
    }
}

impl VMContext {
    #[verifier::type_invariant]
    spec fn slots_are_numbered(&self) -> bool {
        &&& self.functions.len() <= NULL_SLOT
        &&& self.tables.len() <= NULL_SLOT
        &&& self.memories.len() <= NULL_SLOT
        &&& self.globals.len() <= NULL_SLOT
    }

    /// A context named `id` that owns the given definitions, each in the slot
    /// of its position. Refused when a kind has more definitions than there
    /// are slot numbers.
    pub fn new(
        id: ContextId,
        functions: Vec<VMCallerCheckedFuncRef>,
        tables: Vec<VMTableDefinition>,
        memories: Vec<VMMemoryDefinition>,
        globals: Vec<VMGlobalDefinition>,
    ) -> (r: Option<Self>)
        ensures
            r is Some <==> functions.len() <= NULL_SLOT && tables.len() <= NULL_SLOT
                && memories.len() <= NULL_SLOT && globals.len() <= NULL_SLOT,
            r matches Some(ctx) ==> ctx@ == (VMContextView {
                id,
                functions: functions@,
                tables: tables@,
                memories: memories@,
                globals: globals@,
            }),
    {
        let limit: usize = NULL_SLOT as usize;
        if functions.len() <= limit && tables.len() <= limit && memories.len() <= limit
            && globals.len() <= limit {
            Some(VMContext { id, functions, tables, memories, globals })
        } else {
            None
        }
    }

    /// The identity of this context.
    pub fn id(&self) -> (r: ContextId)
        ensures
            r == self@.id,
    {
        self.id
    }

    /// Reads the call descriptor that `reference` refers to.
    pub fn function(&self, reference: SlotRef<VMCallerCheckedFuncRef>) -> (r: Option<
        VMCallerCheckedFuncRef,
    >)
        ensures
            r == self@.function(reference),
    {
        if reference.context.raw == self.id.raw && (reference.slot as usize)
            < self.functions.len() {
            Some(self.functions[reference.slot as usize])
        } else {
            None
        }
    }

    /// Reads the state of the table that `reference` refers to, as it is now.
    pub fn table(&self, reference: SlotRef<VMTableDefinition>) -> (r: Option<VMTableDefinition>)
        ensures
            r == self@.table(reference),
    {
        if reference.context.raw == self.id.raw && (reference.slot as usize) < self.tables.len() {
            Some(self.tables[reference.slot as usize])
        } else {
            None
        }
    }

    /// Reads the state of the memory that `reference` refers to, as it is
    /// now.
    pub fn memory(&self, reference: SlotRef<VMMemoryDefinition>) -> (r: Option<VMMemoryDefinition>)
        ensures
            r == self@.memory(reference),
    {
        if reference.context.raw == self.id.raw && (reference.slot as usize)
            < self.memories.len() {
            Some(self.memories[reference.slot as usize])
        } else {
            None
        }
    }

    /// Reads the storage of the global that `reference` refers to, as it is
    /// now.
    pub fn global(&self, reference: SlotRef<VMGlobalDefinition>) -> (r: Option<VMGlobalDefinition>)
        ensures
            r == self@.global(reference),
    {
        if reference.context.raw == self.id.raw && (reference.slot as usize)
            < self.globals.len() {
            Some(self.globals[reference.slot as usize])
        } else {
            None
        }
    }

    /// Installs `definition` as the state of table `index`, as the owner does
    /// when the table has grown, and hands back the state it replaces. A
    /// context without such a table is left as it was.
    pub fn update_table(&mut self, index: u32, definition: VMTableDefinition) -> (previous: Option<
        VMTableDefinition,
    >)
        ensures
            previous == old(self)@.table(SlotRef::at(old(self)@.id, index)),
            final(self)@ == old(self)@.with_table(index, definition),
    {
        proof {
            use_type_invariant(&*self);
        }
        let slot: usize = index as usize;
        if slot < self.tables.len() {
            let previous = self.tables[slot];
            self.tables[slot] = definition;
            Some(previous)
        } else {
            None
        }
    }

    /// Installs `definition` as the state of memory `index`, as the owner
    /// does when the memory has grown, and hands back the state it replaces.
    /// A context without such a memory is left as it was.
    pub fn update_memory(&mut self, index: u32, definition: VMMemoryDefinition) -> (previous:
        Option<VMMemoryDefinition>)
        ensures
            previous == old(self)@.memory(SlotRef::at(old(self)@.id, index)),
            final(self)@ == old(self)@.with_memory(index, definition),
    {
        proof {
            use_type_invariant(&*self);
        }
        let slot: usize = index as usize;
        if slot < self.memories.len() {
            let previous = self.memories[slot];
            self.memories[slot] = definition;
            Some(previous)
        } else {
            None
        }
    }

    /// Stores `definition` in global `index` and hands back the value it
    /// replaces. A context without such a global is left as it was.
    pub fn update_global(&mut self, index: u32, definition: VMGlobalDefinition) -> (previous:
        Option<VMGlobalDefinition>)
        ensures
            previous == old(self)@.global(SlotRef::at(old(self)@.id, index)),
            final(self)@ == old(self)@.with_global(index, definition),
    {
        proof {
            use_type_invariant(&*self);
        }
        let slot: usize = index as usize;
        if slot < self.globals.len() {
            let previous = self.globals[slot];
            self.globals[slot] = definition;
            Some(previous)
        } else {
            None
        }
    }

    /// The export of function `index`, if the context has that many
    /// functions.
    pub fn export_function(&self, index: u32) -> (r: Option<ExportFunction>)
        ensures
            r is Some <==> index < self@.functions.len(),
            r matches Some(func) ==> func.anyfunc@ == SlotRef::<VMCallerCheckedFuncRef>::at(
                self@.id,
                index,
            ) && func.live_in(self@) == Some(self@.functions[index as int]),
    {
        proof {
            use_type_invariant(self);
        }
        if (index as usize) < self.functions.len() {
            ExportFunction::from_raw(SlotRef::new(self.id, index))
        } else {
            None
        }
    }

    /// The export of table `index`, declared as `table`, if the context has
    /// that many tables.
    pub fn export_table(&self, index: u32, table: TablePlan) -> (r: Option<ExportTable>)
        ensures
            r is Some <==> index < self@.tables.len(),
            r matches Some(export) ==> export == (ExportTable {
                definition: SlotRef::at(self@.id, index),
                vmctx: self@.id,
                table,
            }) && export.live_in(self@) == Some(self@.tables[index as int]),
    {
        if (index as usize) < self.tables.len() {
            Some(ExportTable::new(SlotRef::new(self.id, index), self.id, table))
        } else {
            None
        }
    }

    /// The export of the memory defined at `index`, declared as `memory`.
    /// There is none where `index` is not below the number of memories.
    pub fn export_memory(&self, index: DefinedMemoryIndex, memory: MemoryPlan) -> (r: Option<
        ExportMemory,
    >)
        ensures
            r is Some <==> defined_memory_index_value(index) < self@.memories.len(),
            r matches Some(export) ==> export == (ExportMemory {
                definition: SlotRef::at(self@.id, defined_memory_index_value(index)),
                vmctx: self@.id,
                memory,
                index,
            }) && export.valid_in_spec(self@) && export.live_in(self@) == Some(
                self@.memories[defined_memory_index_value(index) as int],
            ),
    {
        let slot: u32 = index.as_u32();
        if (slot as usize) < self.memories.len() {
            Some(ExportMemory::new(SlotRef::new(self.id, slot), self.id, memory, index))
        } else {
            None
        }
    }

    /// The export of global `index`, declared as `global`, if the context has
    /// that many globals.
    pub fn export_global(&self, index: u32, global: Global) -> (r: Option<ExportGlobal>)
        ensures
            r is Some <==> index < self@.globals.len(),
            r matches Some(export) ==> export == (ExportGlobal {
                definition: SlotRef::at(self@.id, index),
                global,
            }) && export.live_in(self@) == Some(self@.globals[index as int]),
    {
        if (index as usize) < self.globals.len() {
            Some(ExportGlobal::new(SlotRef::new(self.id, index), global))
        } else {
            None
        }
    }
}

} // verus!
