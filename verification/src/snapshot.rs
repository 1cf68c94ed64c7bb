//! Snapshots of initial state: every cell of a memory's initial pages, and
//! the value of every global.

use crate::imtable::{InitMemoryTableEntry, LocationType};
use crate::instance::GlobalInstance;
use crate::memory::{le_bytes, le_bytes_of_le_u64, le_u64, MemoryInstance, MemoryInstanceView};
use crate::registry::registered;
use crate::tracer::{Tracer, TracerView};
use crate::types::ValueType;
use vstd::prelude::*;

verus! {

/// The entry for cell `index` of `memory`, registered under the id `mmid`.
pub open spec fn heap_entry(memory: MemoryInstanceView, mmid: u16, index: int) -> InitMemoryTableEntry {
    InitMemoryTableEntry {
        ltype: LocationType::Heap,
        is_mutable: true,
        mmid: mmid as u64,
        offset: index as u64,
        vtype: ValueType::I64,
        value: le_u64(memory.cell(index)) as u64,
    }
}

/// The snapshot of `memory`: one entry for every cell of its initial pages,
/// in the order of the cells.
pub open spec fn heap_entries(memory: MemoryInstanceView, mmid: u16) -> Seq<InitMemoryTableEntry> {
    Seq::new(memory.initial_cells() as nat, |index: int| heap_entry(memory, mmid, index))
}

/// The entry for `global`, declared at `index` in the module with id `moid`.
pub open spec fn global_entry(moid: u16, index: u32, global: GlobalInstance) -> InitMemoryTableEntry {
    InitMemoryTableEntry {
        ltype: LocationType::Global,
        is_mutable: global.is_mutable,
        mmid: moid as u64,
        offset: index as u64,
        vtype: global.value.spec_value_type(),
        value: global.value.spec_to_bits() as u64,
    }
}

/// The bytes that a run of heap entries stands for: the eight bytes of each
/// entry's value, least byte first, one entry after the other.
pub open spec fn bytes_of_cells(entries: Seq<InitMemoryTableEntry>) -> Seq<u8> {
    Seq::new(8 * entries.len(), |k: int| le_bytes(entries[k / 8].value as int)[k % 8])
}

/// A memory's snapshot has one heap entry for each cell of its initial
/// pages, the cell's number as its offset; and writing the entries' values
/// back, byte for byte, gives the bytes of the initial pages again.
pub proof fn heap_snapshot_restores_memory(memory: MemoryInstanceView, mmid: u16)
    requires
        memory.covers_initial_pages(),
    ensures
        heap_entries(memory, mmid).len() == memory.initial_pages * 8192,
        forall|i: int|
            0 <= i < memory.initial_pages * 8192 ==> {
                let entry = #[trigger] heap_entries(memory, mmid)[i];
                &&& entry.ltype == LocationType::Heap
                &&& entry.is_mutable
                &&& entry.mmid == mmid
                &&& entry.offset == i
                &&& entry.value == le_u64(memory.cell(i))
            },
        bytes_of_cells(heap_entries(memory, mmid)) == memory.bytes.subrange(
            0,
            memory.initial_pages * 65536,
        ),
{
    let entries = heap_entries(memory, mmid);
    let restored = bytes_of_cells(entries);
    let initial = memory.bytes.subrange(0, memory.initial_pages * 65536);
    assert forall|i: int| 0 <= i < memory.initial_pages * 8192 implies {
        let entry = #[trigger] heap_entries(memory, mmid)[i];
        &&& entry.offset == i
        &&& entry.value == le_u64(memory.cell(i))
    } by {
        le_bytes_of_le_u64(memory.cell(i));
    }
    assert forall|k: int| 0 <= k < restored.len() implies restored[k] == initial[k] by {
        let i = k / 8;
        le_bytes_of_le_u64(memory.cell(i));
    }
}

impl Tracer {
    /// Takes the snapshot of a memory instance and registers the instance
    /// under the next memory id. Every entry of the snapshot carries that id.
    pub fn push_init_memory(&mut self, memory: &MemoryInstance)
        requires
            old(self)@.memories.len() < u16::MAX,
            memory@.covers_initial_pages(),
        ensures
            final(self)@ == (TracerView {
                imtable: old(self)@.imtable + heap_entries(
                    memory@,
                    (old(self)@.memories.len() + 1) as u16,
                ),
                memories: old(self)@.memories.push(
                    (memory@.reference.0, (old(self)@.memories.len() + 1) as u16),
                ),
                ..old(self)@
            }),
            old(self)@.wf() ==> final(self)@.wf(),
    {
        let ghost before = self@;
        let mmid: u16 = self.next_memory_id();
        let ghost snapshot = heap_entries(memory@, mmid);
        let len: usize = memory.bytes.len();
        let cells: usize = memory.initial_pages() as usize * 8192;
        let mut i: usize = 0;
        while i < cells
            invariant
                i <= cells,
                cells == memory@.initial_cells(),
                memory@.covers_initial_pages(),
                memory@.bytes.len() <= usize::MAX,
                snapshot == heap_entries(memory@, mmid),
                self@ == (TracerView {
                    imtable: before.imtable + snapshot.subrange(0, i as int),
                    ..before
                }),
            decreases cells - i,
        {
            let value: u64 = memory.read_cell(i);
            proof {
                le_bytes_of_le_u64(memory@.cell(i as int));
            }
            let entry = InitMemoryTableEntry {
                ltype: LocationType::Heap,
                is_mutable: true,
                mmid: mmid as u64,
                offset: i as u64,
                vtype: ValueType::I64,
                value,
            };
            self.imtable.push(&entry);
            assert(self@.imtable == before.imtable + snapshot.subrange(0, i + 1));
            i = i + 1;
        }
        assert(snapshot.subrange(0, cells as int) == snapshot);
        self.memory_instance_lookup.push((memory.reference.0, mmid));
    }

    /// Registers a global instance under the id of its module and its
    /// declared index, and records its initial value. A global instance is
    /// registered once: one that is shared between modules is not supported.
    pub fn push_global(&mut self, moid: u16, globalidx: u32, global: &GlobalInstance)
        requires
            !registered(old(self)@.globals, global.reference.0),
            globalidx <= u16::MAX,
        ensures
            final(self)@ == (TracerView {
                imtable: old(self)@.imtable.push(global_entry(moid, globalidx, *global)),
                globals: old(self)@.globals.push((global.reference.0, (moid, globalidx as u16))),
                ..old(self)@
            }),
            old(self)@.wf() ==> final(self)@.wf(),
    {
        let vtype = global.value.value_type();
        self.global_instance_lookup.push((global.reference.0, (moid, globalidx as u16)));
        self.imtable.push(
            &InitMemoryTableEntry {
                ltype: LocationType::Global,
                is_mutable: global.is_mutable,
                mmid: moid as u64,
                offset: globalidx as u64,
                vtype,
                value: global.value.to_bits(),
            },
        );
    }
}

} // verus!
