use std::collections::HashMap;
use wasm_tracer::imtable::{InitMemoryTableEntry, LocationType};
use wasm_tracer::instance::{GlobalInstance, GlobalRef, MemoryRef};
use wasm_tracer::memory::{MemoryInstance, BYTES_PER_PAGE, CELLS_PER_PAGE};
use wasm_tracer::tracer::Tracer;
use wasm_tracer::types::{reinterpret_i64, wrap_i32, Value, ValueType};

fn memory(reference: u64, pages: u32, fill: impl Fn(usize) -> u8) -> MemoryInstance {
    let bytes: Vec<u8> = (0..pages as usize * BYTES_PER_PAGE).map(fill).collect();
    MemoryInstance { reference: MemoryRef(reference), initial_pages: pages, bytes }
}

fn heap(mmid: u64, offset: u64, value: u64) -> InitMemoryTableEntry {
    InitMemoryTableEntry {
        ltype: LocationType::Heap,
        is_mutable: true,
        mmid,
        offset,
        vtype: ValueType::I64,
        value,
    }
}

#[test]
fn cells_are_read_least_byte_first() {
    let mem = MemoryInstance {
        reference: MemoryRef(1),
        initial_pages: 0,
        bytes: vec![
            0x01, 0x02, 0x03, 0x04, 0x05, 0x06, 0x07, 0x08, 0xff, 0, 0, 0, 0, 0, 0, 0x80, 0xaa,
        ],
    };
    assert_eq!(mem.read_cell(0), 0x0807_0605_0403_0201);
    assert_eq!(mem.read_cell(1), 0x8000_0000_0000_00ff);
    assert_eq!(mem.read_cell(0), u64::from_le_bytes([1, 2, 3, 4, 5, 6, 7, 8]));
    assert_eq!(mem.initial_pages(), 0);
    let ones = MemoryInstance { reference: MemoryRef(1), initial_pages: 0, bytes: vec![0xff; 8] };
    assert_eq!(ones.read_cell(0), u64::MAX);
}

#[test]
fn one_page_gives_8192_heap_entries() {
    let mem = memory(9, 1, |k| (k % 251) as u8);
    let mut tracer = Tracer::new(HashMap::new());
    tracer.push_init_memory(&mem);
    let entries = tracer.imtable.entries();
    assert_eq!(CELLS_PER_PAGE, 8192);
    assert_eq!(entries.len(), 8192);
    for (i, entry) in entries.iter().enumerate() {
        let mut cell = [0u8; 8];
        cell.copy_from_slice(&mem.bytes[8 * i..8 * i + 8]);
        assert_eq!(*entry, heap(1, i as u64, u64::from_le_bytes(cell)));
    }
    assert_eq!(entries[0].value, 0x0706_0504_0302_0100);
}

#[test]
fn snapshot_writes_back_to_the_same_memory() {
    let mem = memory(9, 2, |k| (k.wrapping_mul(2654435761) >> 7) as u8);
    let mut tracer = Tracer::new(HashMap::new());
    tracer.push_init_memory(&mem);
    let entries = tracer.imtable.entries();
    assert_eq!(entries.len(), 2 * 8192);
    let mut fresh = vec![0u8; 2 * BYTES_PER_PAGE];
    for entry in entries.iter() {
        let at = entry.offset as usize * 8;
        fresh[at..at + 8].copy_from_slice(&entry.value.to_le_bytes());
    }
    assert_eq!(fresh, mem.bytes);
    let offsets: Vec<u64> = entries.iter().map(|e| e.offset).collect();
    assert_eq!(offsets, (0..2 * 8192u64).collect::<Vec<u64>>());
}

#[test]
fn a_memory_without_pages_gives_no_entries_but_is_registered() {
    let mem = memory(4, 0, |_| 0);
    let mut tracer = Tracer::new(HashMap::new());
    assert_eq!(tracer.find_memory_instance(&MemoryRef(4)), None);
    tracer.push_init_memory(&mem);
    assert!(tracer.imtable.entries().is_empty());
    assert_eq!(tracer.lookup_memory_instance(&MemoryRef(4)), 1);
    assert_eq!(tracer.next_memory_id(), 2);
}

#[test]
fn bytes_beyond_the_initial_pages_are_left_out() {
    let mut mem = memory(4, 1, |_| 1);
    mem.bytes.extend_from_slice(&[9u8; 64]);
    let mut tracer = Tracer::new(HashMap::new());
    tracer.push_init_memory(&mem);
    assert_eq!(tracer.imtable.entries().len(), 8192);
    assert_eq!(tracer.imtable.entries()[8191], heap(1, 8191, 0x0101_0101_0101_0101));
}

#[test]
fn every_entry_carries_the_id_that_its_memory_gets() {
    let mut tracer = Tracer::new(HashMap::new());
    tracer.push_init_memory(&memory(30, 1, |_| 0));
    tracer.push_init_memory(&memory(31, 1, |_| 0xff));
    let entries = tracer.imtable.entries();
    assert_eq!(entries.len(), 2 * 8192);
    assert!(entries[..8192].iter().all(|e| e.mmid == 1));
    assert!(entries[8192..].iter().all(|e| e.mmid == 2));
    assert_eq!(entries[8192], heap(2, 0, u64::MAX));
    assert_eq!(tracer.lookup_memory_instance(&MemoryRef(30)), 1);
    assert_eq!(tracer.lookup_memory_instance(&MemoryRef(31)), 2);
    assert_eq!(tracer.find_memory_instance(&MemoryRef(32)), None);
    assert_eq!(tracer.memory_instance_lookup, vec![(30, 1), (31, 2)]);
    assert_eq!(tracer.next_module_id(), 1);
}

#[test]
fn a_memory_registered_twice_keeps_its_first_id() {
    let mut tracer = Tracer::new(HashMap::new());
    tracer.push_init_memory(&memory(30, 0, |_| 0));
    tracer.push_init_memory(&memory(30, 0, |_| 0));
    assert_eq!(tracer.memory_instance_lookup, vec![(30, 1), (30, 2)]);
    assert_eq!(tracer.lookup_memory_instance(&MemoryRef(30)), 1);
}

#[test]
fn globals_are_recorded_with_their_encoding() {
    let mut tracer = Tracer::new(HashMap::new());
    let globals = [
        (GlobalInstance { reference: GlobalRef(1), is_mutable: true, value: Value::I32(-1) }, 0xffff_ffffu64),
        (GlobalInstance { reference: GlobalRef(2), is_mutable: false, value: Value::I64(-2) }, u64::MAX - 1),
        (GlobalInstance { reference: GlobalRef(3), is_mutable: false, value: Value::I32(7) }, 7),
        (
            GlobalInstance {
                reference: GlobalRef(4),
                is_mutable: true,
                value: Value::F32(0x3f80_0000),
            },
            0x3f80_0000,
        ),
        (
            GlobalInstance {
                reference: GlobalRef(5),
                is_mutable: true,
                value: Value::F64(0xbff0_0000_0000_0000),
            },
            0xbff0_0000_0000_0000,
        ),
    ];
    for (index, (global, _)) in globals.iter().enumerate() {
        assert_eq!(tracer.lookup_global_instance(&global.reference), None);
        tracer.push_global(3, index as u32, global);
        assert_eq!(tracer.lookup_global_instance(&global.reference), Some((3, index as u16)));
    }
    let entries = tracer.imtable.entries();
    assert_eq!(entries.len(), 5);
    for (index, (global, bits)) in globals.iter().enumerate() {
        assert_eq!(
            entries[index],
            InitMemoryTableEntry {
                ltype: LocationType::Global,
                is_mutable: global.is_mutable,
                mmid: 3,
                offset: index as u64,
                vtype: global.value.value_type(),
                value: *bits,
            }
        );
    }
    assert_eq!(entries[0].vtype, ValueType::I32);
    assert_eq!(entries[1].vtype, ValueType::I64);
    assert_eq!(entries[3].vtype, ValueType::F32);
    assert_eq!(entries[4].vtype, ValueType::F64);
    assert_eq!(tracer.lookup_global_instance(&GlobalRef(6)), None);
}

#[test]
fn heap_cells_come_before_globals_in_registration_order() {
    let mut tracer = Tracer::new(HashMap::new());
    tracer.push_init_memory(&memory(30, 1, |_| 0));
    tracer.push_global(
        1,
        65535,
        &GlobalInstance { reference: GlobalRef(1), is_mutable: true, value: Value::I64(i64::MIN) },
    );
    let entries = tracer.imtable.entries();
    assert_eq!(entries.len(), 8193);
    assert_eq!(entries[8191].ltype, LocationType::Heap);
    assert_eq!(
        entries[8192],
        InitMemoryTableEntry {
            ltype: LocationType::Global,
            is_mutable: true,
            mmid: 1,
            offset: 65535,
            vtype: ValueType::I64,
            value: 0x8000_0000_0000_0000,
        }
    );
    assert_eq!(tracer.lookup_global_instance(&GlobalRef(1)), Some((1, 65535)));
}

#[test]
fn values_encode_as_their_bits() {
    assert_eq!(Value::I32(0).to_bits(), 0);
    assert_eq!(Value::I32(i32::MIN).to_bits(), 0x8000_0000);
    assert_eq!(Value::I32(i32::MAX).to_bits(), 0x7fff_ffff);
    assert_eq!(Value::I64(-1).to_bits(), u64::MAX);
    assert_eq!(Value::I64(i64::MIN).to_bits(), 1 << 63);
    assert_eq!(Value::I64(i64::MAX).to_bits(), u64::MAX >> 1);
    assert_eq!(Value::F32(u32::MAX).to_bits(), 0xffff_ffff);
    assert_eq!(Value::F64(u64::MAX).to_bits(), u64::MAX);
    assert_eq!(Value::F64(1).value_type(), ValueType::F64);
}

#[test]
fn bits_read_back_as_signed_integers() {
    assert_eq!(reinterpret_i64(0), 0);
    assert_eq!(reinterpret_i64(u64::MAX), -1);
    assert_eq!(reinterpret_i64(1 << 63), i64::MIN);
    assert_eq!(reinterpret_i64((1 << 63) - 1), i64::MAX);
    assert_eq!(wrap_i32(42), 42);
    assert_eq!(wrap_i32(0x1_0000_0005), 5);
    assert_eq!(wrap_i32(0xffff_ffff), -1);
    assert_eq!(wrap_i32(0x8000_0000), i32::MIN);
    assert_eq!(wrap_i32(0x7fff_ffff), i32::MAX);
    assert_eq!(wrap_i32(u64::MAX), -1);
    for bits in [0u64, 1, 41, 0xdead_beef_0bad_f00d, u64::MAX, 1 << 31, 1 << 63] {
        assert_eq!(reinterpret_i64(bits), bits as i64);
        assert_eq!(wrap_i32(bits), bits as i32);
    }
}
