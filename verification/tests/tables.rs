use wasm_tracer::imtable::{InitMemoryTable, InitMemoryTableEntry, LocationType};
use wasm_tracer::isa::Opcode;
use wasm_tracer::itable::{InstructionTable, InstructionTableEntry};
use wasm_tracer::registry::find;
use wasm_tracer::types::ValueType;

#[test]
fn find_returns_what_a_reference_was_first_registered_under() {
    let table: Vec<(u64, u16)> = vec![(7, 1), (9, 2), (7, 3), (4, 4)];
    assert_eq!(find(&table, 7), Some(1));
    assert_eq!(find(&table, 9), Some(2));
    assert_eq!(find(&table, 4), Some(4));
    assert_eq!(find(&table, 5), None);
    let empty: Vec<(u64, (u16, u16))> = vec![];
    assert_eq!(find(&empty, 7), None);
}

#[test]
fn registering_more_never_changes_an_earlier_answer() {
    let mut table: Vec<(u64, u16)> = vec![];
    let mut answers: Vec<Option<u16>> = vec![];
    for (place, reference) in [3u64, 8, 3, 5, 8, 1].iter().enumerate() {
        table.push((*reference, place as u16 + 1));
        answers.push(find(&table, *reference));
    }
    assert_eq!(answers, vec![Some(1), Some(2), Some(1), Some(4), Some(2), Some(6)]);
    assert_eq!(find(&table, 3), Some(1));
    assert_eq!(find(&table, 8), Some(2));
}

#[test]
fn instruction_table_keeps_insertion_order() {
    let mut table = InstructionTable::new();
    assert!(table.entries().is_empty());
    let first = InstructionTableEntry {
        moid: 1,
        mmid: 1,
        fid: 2,
        iid: 0,
        opcode: Opcode::I32Const { value: 5 },
    };
    let second = InstructionTableEntry { iid: 1, opcode: Opcode::I32WrapI64, ..first };
    table.push(&first);
    table.push(&second);
    table.push(&first);
    assert_eq!(table.entries(), &vec![first, second, first]);
    assert_eq!(table.0.len(), 3);
}

#[test]
fn init_memory_table_keeps_insertion_order() {
    let mut table = InitMemoryTable::new();
    assert!(table.entries().is_empty());
    let global = InitMemoryTableEntry {
        ltype: LocationType::Global,
        is_mutable: false,
        mmid: 1,
        offset: 2,
        vtype: ValueType::I32,
        value: 3,
    };
    let cell = InitMemoryTableEntry { ltype: LocationType::Heap, vtype: ValueType::I64, ..global };
    table.push(&global);
    table.push(&cell);
    assert_eq!(table.entries(), &vec![global, cell]);
}
