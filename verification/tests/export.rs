use wasmtime_environ::{
    DefinedMemoryIndex, Global, GlobalInit, Memory, MemoryPlan, Table, TablePlan, Tunables,
    WasmType,
};
use wasmtime_runtime::reference::{ContextId, NonNullSlotRef, SlotRef, NULL_SLOT};
use wasmtime_runtime::vmcontext::{
    VMCallerCheckedFuncRef, VMContext, VMGlobalDefinition, VMMemoryDefinition, VMTableDefinition,
};
use wasmtime_runtime::{
    Export, ExportFunction, ExportGlobal, ExportKind, ExportMemory, ExportTable, WrongKind,
};

fn table_plan(minimum: u32, maximum: Option<u32>) -> TablePlan {
    let table = Table { wasm_ty: WasmType::FuncRef, minimum, maximum };
    TablePlan::for_table(table, &Tunables::default())
}

fn memory_plan(minimum: u64, maximum: Option<u64>) -> MemoryPlan {
    let memory = Memory { minimum, maximum, shared: false, memory64: false };
    MemoryPlan::for_memory(memory, &Tunables::default())
}

fn global_i32(mutability: bool) -> Global {
    Global { wasm_ty: WasmType::I32, mutability, initializer: GlobalInit::I32Const(7) }
}

/// Two memories, one table, one global, one function.
fn small_context(id: u64) -> VMContext {
    let id = ContextId { raw: id };
    VMContext::new(
        id,
        vec![VMCallerCheckedFuncRef { func_ptr: 0x4000, type_index: 3, vmctx: id }],
        vec![VMTableDefinition { base: 0x1000, current_elements: 4 }],
        vec![
            VMMemoryDefinition { base: 0x10000, current_length: 65536 },
            VMMemoryDefinition { base: 0x90000, current_length: 131072 },
        ],
        vec![VMGlobalDefinition { storage: 42 }],
    )
    .unwrap()
}

fn a_function(id: u64, slot: u32) -> ExportFunction {
    ExportFunction::from_raw(SlotRef::new(ContextId { raw: id }, slot)).unwrap()
}

fn a_table(id: u64, slot: u32) -> ExportTable {
    let id = ContextId { raw: id };
    ExportTable::new(SlotRef::new(id, slot), id, table_plan(1, Some(10)))
}

fn a_memory(id: u64, slot: u32) -> ExportMemory {
    let id = ContextId { raw: id };
    ExportMemory::new(
        SlotRef::new(id, slot),
        id,
        memory_plan(1, None),
        DefinedMemoryIndex::from_u32(slot),
    )
}

fn a_global(id: u64, slot: u32) -> ExportGlobal {
    ExportGlobal::new(SlotRef::new(ContextId { raw: id }, slot), global_i32(true))
}

#[test]
fn one_export_of_each_kind_round_trips() {
    let id = ContextId { raw: 1 };
    let ctx = small_context(1);

    let function = ctx.export_function(0).unwrap();
    let table = ctx.export_table(0, table_plan(4, Some(16))).unwrap();
    let memory0 =
        ctx.export_memory(DefinedMemoryIndex::from_u32(0), memory_plan(1, Some(2))).unwrap();
    let memory1 =
        ctx.export_memory(DefinedMemoryIndex::from_u32(1), memory_plan(2, Some(4))).unwrap();
    let global = ctx.export_global(0, global_i32(false)).unwrap();

    let exports: Vec<Export> = vec![
        Export::from(function),
        Export::from(table.clone()),
        Export::from(memory0.clone()),
        Export::from(memory1.clone()),
        Export::from(global.clone()),
    ];
    let kinds: Vec<ExportKind> = exports.iter().map(|e| e.kind()).collect();
    assert_eq!(
        kinds,
        vec![
            ExportKind::Function,
            ExportKind::Table,
            ExportKind::Memory,
            ExportKind::Memory,
            ExportKind::Global,
        ]
    );

    let back = exports[0].function().unwrap();
    assert_eq!(back.anyfunc, function.anyfunc);
    assert_eq!(back.anyfunc.as_raw(), SlotRef::new(id, 0));
    assert_eq!(
        back.read(&ctx),
        Some(VMCallerCheckedFuncRef { func_ptr: 0x4000, type_index: 3, vmctx: id })
    );

    let back = exports[1].table().unwrap();
    assert_eq!(back.definition, table.definition);
    assert_eq!(back.definition, SlotRef::new(id, 0));
    assert_eq!(back.vmctx, id);
    assert_eq!(back.table.table, table.table.table);
    assert_eq!(back.table.table.minimum, 4);
    assert_eq!(back.table.table.maximum, Some(16));
    assert_eq!(back.read(&ctx), Some(VMTableDefinition { base: 0x1000, current_elements: 4 }));

    let back0 = exports[2].memory().unwrap();
    assert_eq!(back0.definition, memory0.definition);
    assert_eq!(back0.vmctx, id);
    assert_eq!(back0.index, DefinedMemoryIndex::from_u32(0));
    assert_eq!(back0.memory.memory, memory0.memory.memory);
    assert_eq!(back0.memory.memory.maximum, Some(2));

    let back1 = exports[3].memory().unwrap();
    assert_eq!(back1.definition, memory1.definition);
    assert_eq!(back1.vmctx, id);
    assert_eq!(back1.index, DefinedMemoryIndex::from_u32(1));
    assert_eq!(back1.memory.memory.maximum, Some(4));

    // The index tells memory 0 from memory 1.
    assert_ne!(back0.index, back1.index);
    assert_ne!(back0.definition, back1.definition);
    assert_eq!(back0.definition.slot, 0);
    assert_eq!(back1.definition.slot, 1);
    assert_eq!(
        back0.read(&ctx),
        Some(VMMemoryDefinition { base: 0x10000, current_length: 65536 })
    );
    assert_eq!(
        back1.read(&ctx),
        Some(VMMemoryDefinition { base: 0x90000, current_length: 131072 })
    );

    let back = exports[4].global().unwrap();
    assert_eq!(back.definition, global.definition);
    assert_eq!(back.definition, SlotRef::new(id, 0));
    assert_eq!(back.global, global_i32(false));
    assert_eq!(back.read(&ctx), Some(VMGlobalDefinition { storage: 42 }));
}

#[test]
fn function_export_round_trips() {
    let function = a_function(5, 9);
    let export: Export = function.into();
    assert_eq!(export.kind(), ExportKind::Function);
    let back = export.function().unwrap();
    assert_eq!(back.anyfunc, function.anyfunc);
    assert_eq!(back.anyfunc.as_raw().context, ContextId { raw: 5 });
    assert_eq!(back.anyfunc.as_raw().slot, 9);
    assert!(matches!(export, Export::Function(f) if f.anyfunc == function.anyfunc));
}

#[test]
fn table_export_round_trips() {
    let export: Export = a_table(5, 2).into();
    assert_eq!(export.kind(), ExportKind::Table);
    let back = export.table().unwrap();
    assert_eq!(back.definition, SlotRef::new(ContextId { raw: 5 }, 2));
    assert_eq!(back.vmctx, ContextId { raw: 5 });
    assert_eq!(back.table.table, Table { wasm_ty: WasmType::FuncRef, minimum: 1, maximum: Some(10) });
}

#[test]
fn memory_export_round_trips() {
    let export: Export = a_memory(5, 3).into();
    assert_eq!(export.kind(), ExportKind::Memory);
    let back = export.memory().unwrap();
    assert_eq!(back.definition, SlotRef::new(ContextId { raw: 5 }, 3));
    assert_eq!(back.vmctx, ContextId { raw: 5 });
    assert_eq!(back.index.as_u32(), 3);
    assert_eq!(
        back.memory.memory,
        Memory { minimum: 1, maximum: None, shared: false, memory64: false }
    );
}

#[test]
fn global_export_round_trips() {
    let export: Export = a_global(5, 1).into();
    assert_eq!(export.kind(), ExportKind::Global);
    let back = export.global().unwrap();
    assert_eq!(back.definition, SlotRef::new(ContextId { raw: 5 }, 1));
    assert_eq!(back.global, global_i32(true));
}

#[test]
fn asking_for_another_kind_reports_both_kinds() {
    let wrong = |expected, found| WrongKind { expected, found };

    let export = Export::from(a_function(1, 0));
    assert!(export.function().is_ok());
    assert_eq!(export.table().unwrap_err(), wrong(ExportKind::Table, ExportKind::Function));
    assert_eq!(export.memory().unwrap_err(), wrong(ExportKind::Memory, ExportKind::Function));
    assert_eq!(export.global().unwrap_err(), wrong(ExportKind::Global, ExportKind::Function));

    let export = Export::from(a_table(1, 0));
    assert!(export.table().is_ok());
    assert_eq!(export.function().unwrap_err(), wrong(ExportKind::Function, ExportKind::Table));
    assert_eq!(export.memory().unwrap_err(), wrong(ExportKind::Memory, ExportKind::Table));
    assert_eq!(export.global().unwrap_err(), wrong(ExportKind::Global, ExportKind::Table));

    let export = Export::from(a_memory(1, 0));
    assert!(export.memory().is_ok());
    assert_eq!(export.function().unwrap_err(), wrong(ExportKind::Function, ExportKind::Memory));
    assert_eq!(export.table().unwrap_err(), wrong(ExportKind::Table, ExportKind::Memory));
    assert_eq!(export.global().unwrap_err(), wrong(ExportKind::Global, ExportKind::Memory));

    let export = Export::from(a_global(1, 0));
    assert!(export.global().is_ok());
    assert_eq!(export.function().unwrap_err(), wrong(ExportKind::Function, ExportKind::Global));
    assert_eq!(export.table().unwrap_err(), wrong(ExportKind::Table, ExportKind::Global));
    assert_eq!(export.memory().unwrap_err(), wrong(ExportKind::Memory, ExportKind::Global));
}

#[test]
fn null_function_reference_is_rejected() {
    let id = ContextId { raw: 3 };
    assert!(ExportFunction::from_raw(SlotRef::null()).is_none());
    assert!(ExportFunction::from_raw(SlotRef::new(id, NULL_SLOT)).is_none());
    assert!(NonNullSlotRef::<VMCallerCheckedFuncRef>::new(SlotRef::null()).is_none());
    assert!(NonNullSlotRef::<VMCallerCheckedFuncRef>::new(SlotRef::new(id, NULL_SLOT)).is_none());
}

#[test]
fn function_reference_that_is_not_null_is_accepted() {
    let id = ContextId { raw: 3 };
    for slot in [0, 1, 77, NULL_SLOT - 1] {
        let raw = SlotRef::new(id, slot);
        assert!(!raw.is_null());
        let anyfunc = NonNullSlotRef::new(raw).unwrap();
        assert_eq!(anyfunc.as_raw(), raw);
        let function = ExportFunction::new(anyfunc);
        assert_eq!(function.anyfunc, anyfunc);
        assert!(!function.anyfunc.as_raw().is_null());
        assert_eq!(ExportFunction::from_raw(raw).unwrap().anyfunc, anyfunc);
    }
}

#[test]
fn null_reference_is_null() {
    let null = SlotRef::<VMTableDefinition>::null();
    assert!(null.is_null());
    assert_eq!(null.slot, NULL_SLOT);
    assert_eq!(null.context, ContextId { raw: 0 });
    assert_eq!(NULL_SLOT, u32::MAX);
}

#[test]
fn constructors_keep_what_they_are_given() {
    let id = ContextId { raw: 8 };
    let other = ContextId { raw: 9 };

    let table = ExportTable::new(SlotRef::new(id, 4), other, table_plan(2, None));
    assert_eq!(table.definition, SlotRef::new(id, 4));
    assert_eq!(table.vmctx, other);
    assert_eq!(table.table.table.minimum, 2);
    assert_eq!(table.table.table.maximum, None);

    let memory = ExportMemory::new(
        SlotRef::new(id, 6),
        other,
        memory_plan(3, Some(5)),
        DefinedMemoryIndex::from_u32(2),
    );
    assert_eq!(memory.definition, SlotRef::new(id, 6));
    assert_eq!(memory.vmctx, other);
    assert_eq!(memory.memory.memory.minimum, 3);
    assert_eq!(memory.memory.memory.maximum, Some(5));
    assert_eq!(memory.index.as_u32(), 2);

    let global = ExportGlobal::new(SlotRef::new(id, 1), global_i32(true));
    assert_eq!(global.definition, SlotRef::new(id, 1));
    assert_eq!(global.global, global_i32(true));
}

#[test]
fn a_clone_is_a_second_view_of_the_same_storage() {
    let mut ctx = small_context(1);
    let table = ctx.export_table(0, table_plan(4, None)).unwrap();
    let memory = ctx.export_memory(DefinedMemoryIndex::from_u32(1), memory_plan(2, None)).unwrap();
    let global = ctx.export_global(0, global_i32(true)).unwrap();
    let function = ctx.export_function(0).unwrap();

    let table2 = table.clone();
    let memory2 = memory.clone();
    let global2 = global.clone();
    let function2 = function;

    assert_eq!(table2.definition, table.definition);
    assert_eq!(table2.vmctx, table.vmctx);
    assert_eq!(table2.table.table, table.table.table);
    assert_eq!(memory2.definition, memory.definition);
    assert_eq!(memory2.vmctx, memory.vmctx);
    assert_eq!(memory2.index, memory.index);
    assert_eq!(memory2.memory.memory, memory.memory.memory);
    assert_eq!(memory2.memory.pre_guard_size, memory.memory.pre_guard_size);
    assert_eq!(memory2.memory.offset_guard_size, memory.memory.offset_guard_size);
    assert_eq!(global2.definition, global.definition);
    assert_eq!(global2.global, global.global);
    assert_eq!(function2.anyfunc, function.anyfunc);

    // Both views follow the one table.
    let grown = VMTableDefinition { base: 0x2000, current_elements: 8 };
    ctx.update_table(0, grown);
    assert_eq!(table.read(&ctx), Some(grown));
    assert_eq!(table2.read(&ctx), Some(grown));

    // Dropping a view leaves the storage alone.
    drop(table2);
    drop(memory2);
    assert_eq!(table.read(&ctx), Some(grown));
    assert_eq!(
        memory.read(&ctx),
        Some(VMMemoryDefinition { base: 0x90000, current_length: 131072 })
    );
}

fn sendable_and_shareable<T: Send + Sync>() {}

#[test]
fn exports_cross_threads() {
    sendable_and_shareable::<Export>();
    sendable_and_shareable::<ExportFunction>();
    sendable_and_shareable::<ExportTable>();
    sendable_and_shareable::<ExportMemory>();
    sendable_and_shareable::<ExportGlobal>();
}
