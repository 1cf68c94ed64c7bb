//! The tracer: the tables that it fills, the registries of the instances
//! that it has met, and the stack of open call frames.

use crate::etable::{ETable, EventTableEntryView};
use crate::frames::{frame_step, FrameEvent};
use crate::imtable::{InitMemoryTable, InitMemoryTableEntry};
use crate::instance::{FuncRef, GlobalRef, MemoryRef, ModuleRef};
use crate::isa::translation_view;
use crate::itable::{
    first_at, first_at_is_the_unique_match, first_at_matches_key, first_at_of_match, first_of,
    first_of_has_smallest_pc, first_of_of_match, has_entry_at, has_entry_of, pc_ordered,
    pc_ordered_keys_unique, within_modules, InstructionTable, InstructionTableEntry,
};
use crate::registry::{find, ids_dense, lookup, registered};
use crate::types::{FuncDesc, FuncDescView, HostFunctionDesc, HostFunctionDescView};
use std::collections::HashMap;
use vstd::pervasive::unreached;
use vstd::prelude::*;

verus! {

/// The views of the descriptors in a registry of host functions.
pub open spec fn host_plugins_view(table: Map<usize, HostFunctionDesc>) -> Map<
    usize,
    HostFunctionDescView,
> {
    table.map_values(|desc: HostFunctionDesc| desc@)
}

/// The mathematical content of a [`Tracer`].
pub struct TracerView {
    pub itable: Seq<InstructionTableEntry>,
    pub imtable: Seq<InitMemoryTableEntry>,
    pub etable: Seq<EventTableEntryView>,
    /// Module instances with their ids, in the order of registration.
    pub modules: Seq<(u64, u16)>,
    /// Memory instances with their ids, in the order of registration.
    pub memories: Seq<(u64, u16)>,
    /// Global instances, each with the id of its module and its declared
    /// index, in the order of registration.
    pub globals: Seq<(u64, (u16, u16))>,
    /// Function instances, each with the id of its module and its stable
    /// id, in the order of registration.
    pub functions: Seq<(u64, (u16, u16))>,
    /// The open call frames, outermost first: for each, the execution id of
    /// the step before the call that opened it. The first is the base
    /// marker 0.
    pub frames: Seq<u64>,
    /// The stable id that the next function gets, unless it is the start
    /// function.
    pub next_function_index: u32,
    /// The descriptor of each function, by the interpreter's raw index.
    pub translation: Map<u32, FuncDescView>,
    /// The host's registry of host functions, by raw host index.
    pub host_plugins: Map<usize, HostFunctionDescView>,
    /// The raw host index of the function that fetches external input.
    pub wasm_input_host_func_index: Option<usize>,
}

impl TracerView {
    /// The frame stack holds the base marker, module and memory ids are
    /// dense, and the instruction table holds entries of registered modules
    /// only, those of one function in the order of their positions.
    pub open spec fn wf(self) -> bool {
        &&& self.frames.len() >= 1
        &&& self.frames[0] == 0
        &&& ids_dense(self.modules)
        &&& ids_dense(self.memories)
        &&& within_modules(self.itable, self.modules.len())
        &&& pc_ordered(self.itable)
    }

    /// The module id and the stable id that the function instance `function`
    /// was registered under.
    pub open spec fn function_place(self, function: FuncRef) -> Option<(u16, u16)> {
        lookup(self.functions, function.0)
    }

    /// The id of the module that the registered function instance `function`
    /// belongs to.
    pub open spec fn function_module(self, function: FuncRef) -> u16 {
        let place = self.function_place(function)->0;
        place.0
    }

    /// The stable id of the registered function instance `function`.
    pub open spec fn function_id(self, function: FuncRef) -> u16 {
        let place = self.function_place(function)->0;
        place.1
    }
}

/// The tracer. Its fields are open to the interpreter that drives it; the
/// operations below keep them in step with one another.
#[derive(Debug)]
pub struct Tracer {
    pub itable: InstructionTable,
    pub imtable: InitMemoryTable,
    pub etable: ETable,
    pub module_instance_lookup: Vec<(u64, u16)>,
    pub memory_instance_lookup: Vec<(u64, u16)>,
    pub global_instance_lookup: Vec<(u64, (u16, u16))>,
    pub function_lookup: Vec<(u64, (u16, u16))>,
    pub last_jump_eid: Vec<u64>,
    pub function_index_allocator: u32,
    pub function_index_translation: HashMap<u32, FuncDesc>,
    pub host_function_index_lookup: HashMap<usize, HostFunctionDesc>,
    /// The raw host index of the function that fetches external input, once
    /// the interpreter has found it.
    pub wasm_input_host_func_index: Option<usize>,
}

impl View for Tracer {
    type V = TracerView;

    open spec fn view(&self) -> TracerView {
        TracerView {
            itable: self.itable@,
            imtable: self.imtable@,
            etable: self.etable@,
            modules: self.module_instance_lookup@,
            memories: self.memory_instance_lookup@,
            globals: self.global_instance_lookup@,
            functions: self.function_lookup@,
            frames: self.last_jump_eid@,
            next_function_index: self.function_index_allocator,
            translation: translation_view(self.function_index_translation@),
            host_plugins: host_plugins_view(self.host_function_index_lookup@),
            wasm_input_host_func_index: self.wasm_input_host_func_index,
        }
    }
}

impl Tracer {
    /// A tracer that has met nothing yet: empty tables, empty registries, and
    /// the base marker alone on the frame stack.
    pub fn new(host_plugin_lookup: HashMap<usize, HostFunctionDesc>) -> (tracer: Self)
        ensures
            tracer@.wf(),
            tracer@ == (TracerView {
                itable: Seq::empty(),
                imtable: Seq::empty(),
                etable: Seq::empty(),
                modules: Seq::empty(),
                memories: Seq::empty(),
                globals: Seq::empty(),
                functions: Seq::empty(),
                frames: seq![0u64],
                next_function_index: 1,
                translation: Map::empty(),
                host_plugins: host_plugins_view(host_plugin_lookup@),
                wasm_input_host_func_index: None,
            }),
    {
        let mut last_jump_eid: Vec<u64> = Vec::new();
        last_jump_eid.push(0);
        let tracer = Tracer {
            itable: InstructionTable::new(),
            imtable: InitMemoryTable::new(),
            etable: ETable::default(),
            last_jump_eid,
            module_instance_lookup: Vec::new(),
            memory_instance_lookup: Vec::new(),
            global_instance_lookup: Vec::new(),
            function_lookup: Vec::new(),
            function_index_allocator: 1,
            function_index_translation: HashMap::new(),
            host_function_index_lookup: host_plugin_lookup,
            wasm_input_host_func_index: None,
        };
        assert(tracer@.translation =~= Map::empty());
        tracer
    }

    /// Opens a call frame: the steps that follow are tagged with the
    /// execution id of the step recorded last.
    pub fn push_frame(&mut self)
        ensures
            final(self)@ == (TracerView {
                frames: frame_step(
                    old(self)@.frames,
                    FrameEvent::Call { eid: old(self)@.etable.len() as u64 },
                ),
                ..old(self)@
            }),
            old(self)@.wf() ==> final(self)@.wf(),
    {
        self.last_jump_eid.push(self.etable.get_latest_eid());
    }

    /// Closes the innermost call frame. The base marker is never popped.
    pub fn pop_frame(&mut self)
        requires
            old(self)@.frames.len() >= 2,
        ensures
            final(self)@ == (TracerView {
                frames: frame_step(old(self)@.frames, FrameEvent::Return),
                ..old(self)@
            }),
            old(self)@.wf() ==> final(self)@.wf(),
    {
        self.last_jump_eid.pop();
    }

    /// The id that the next module instance will be registered under.
    pub fn next_module_id(&self) -> (id: u16)
        requires
            self@.modules.len() < u16::MAX,
        ensures
            id == self@.modules.len() + 1,
    {
        (self.module_instance_lookup.len() as u16) + 1
    }

    /// The id that the next memory instance will be registered under.
    pub fn next_memory_id(&self) -> (id: u16)
        requires
            self@.memories.len() < u16::MAX,
        ensures
            id == self@.memories.len() + 1,
    {
        (self.memory_instance_lookup.len() as u16) + 1
    }

    /// The tag of the innermost open frame.
    pub fn last_jump_eid(&self) -> (eid: u64)
        requires
            self@.frames.len() >= 1,
        ensures
            eid == self@.frames.last(),
    {
        self.last_jump_eid[self.last_jump_eid.len() - 1]
    }

    /// The execution id of the step recorded last, or 0 if there is none.
    pub fn eid(&self) -> (eid: u64)
        ensures
            eid == self@.etable.len(),
    {
        self.etable.get_latest_eid()
    }

    pub(crate) fn allocate_func_index(&mut self) -> (index: u32)
        requires
            old(self)@.next_function_index < u32::MAX,
        ensures
            index == old(self)@.next_function_index,
            final(self)@ == (TracerView { next_function_index: (index + 1) as u32, ..old(self)@ }),
    {
        let r = self.function_index_allocator;
        self.function_index_allocator = r + 1;
        r
    }

    pub(crate) fn lookup_host_plugin(&self, function_index: usize) -> (desc: HostFunctionDesc)
        requires
            self@.host_plugins.contains_key(function_index),
        ensures
            desc@ == self@.host_plugins[function_index],
    {
        broadcast use vstd::std_specs::hash::group_hash_axioms;

        let found = self.host_function_index_lookup.get(&function_index);
        match found {
            Some(desc) => desc.clone(),
            None => unreached(),
        }
    }

    /// Whether the host's registry knows the raw host index `function_index`.
    pub fn knows_host_function(&self, function_index: usize) -> (known: bool)
        ensures
            known == self@.host_plugins.contains_key(function_index),
    {
        broadcast use vstd::std_specs::hash::group_hash_axioms;

        let known = self.host_function_index_lookup.contains_key(&function_index);
        known
    }

    /// Whether a function was registered under the raw index `raw_index`.
    pub fn knows_function_index(&self, raw_index: u32) -> (known: bool)
        ensures
            known == self@.translation.contains_key(raw_index),
    {
        broadcast use vstd::std_specs::hash::group_hash_axioms;

        let known = self.function_index_translation.contains_key(&raw_index);
        known
    }

    /// The id of a module instance, if it was registered.
    pub fn find_module_instance(&self, module_instance: &ModuleRef) -> (id: Option<u16>)
        ensures
            id == lookup(self@.modules, module_instance.0),
    {
        find(&self.module_instance_lookup, module_instance.0)
    }

    /// The id of a registered module instance.
    pub fn lookup_module_instance(&self, module_instance: &ModuleRef) -> (id: u16)
        requires
            registered(self@.modules, module_instance.0),
        ensures
            lookup(self@.modules, module_instance.0) == Some(id),
    {
        match find(&self.module_instance_lookup, module_instance.0) {
            Some(id) => id,
            None => unreached(),
        }
    }

    /// The id of a memory instance, if it was registered.
    pub fn find_memory_instance(&self, memory_instance: &MemoryRef) -> (id: Option<u16>)
        ensures
            id == lookup(self@.memories, memory_instance.0),
    {
        find(&self.memory_instance_lookup, memory_instance.0)
    }

    /// The id of a registered memory instance.
    pub fn lookup_memory_instance(&self, memory_instance: &MemoryRef) -> (id: u16)
        requires
            registered(self@.memories, memory_instance.0),
        ensures
            lookup(self@.memories, memory_instance.0) == Some(id),
    {
        match find(&self.memory_instance_lookup, memory_instance.0) {
            Some(id) => id,
            None => unreached(),
        }
    }

    /// The module id and declared index of a global instance, if it was
    /// registered.
    pub fn lookup_global_instance(&self, global_instance: &GlobalRef) -> (place: Option<(u16, u16)>)
        ensures
            place == lookup(self@.globals, global_instance.0),
    {
        find(&self.global_instance_lookup, global_instance.0)
    }

    /// The module id and the stable id of a function instance, if it was
    /// registered.
    pub fn find_function(&self, function: &FuncRef) -> (place: Option<(u16, u16)>)
        ensures
            place == self@.function_place(*function),
    {
        find(&self.function_lookup, function.0)
    }

    /// The stable id of a registered function instance.
    pub fn lookup_function(&self, function: &FuncRef) -> (id: u16)
        requires
            self@.function_place(*function) is Some,
        ensures
            id == self@.function_id(*function),
    {
        match find(&self.function_lookup, function.0) {
            Some(place) => place.1,
            None => unreached(),
        }
    }

    /// The first entry of the instruction table for position `pos` of a
    /// function, if the function was registered and the table has such an
    /// entry of the function's module.
    pub fn find_ientry(&self, function: &FuncRef, pos: u32) -> (found: Option<InstructionTableEntry>)
        ensures
            found == match self@.function_place(*function) {
                Some((moid, fid)) => if pos <= u16::MAX {
                    first_at(self@.itable, moid, fid, pos as u16)
                } else {
                    None
                },
                None => None,
            },
    {
        let (moid, function_idx) = match find(&self.function_lookup, function.0) {
            Some(place) => place,
            None => {
                return None;
            },
        };
        let mut i: usize = 0;
        while i < self.itable.0.len()
            invariant
                i <= self.itable.0.len(),
                self@.function_place(*function) == Some((moid, function_idx)),
                forall|j: int|
                    0 <= j < i ==> !((#[trigger] self.itable@[j]).of(moid, function_idx)
                        && self.itable@[j].iid == pos),
            decreases self.itable.0.len() - i,
        {
            let ientry = self.itable.0[i];
            if ientry.moid == moid && ientry.fid == function_idx && ientry.iid as u32 == pos {
                proof {
                    first_at_of_match(self@.itable, moid, function_idx, pos as u16, i as int);
                }
                return Some(ientry);
            }
            i = i + 1;
        }
        None
    }

    /// The entry of the instruction table for position `pos` of a registered
    /// function: the first entry of the function's module that carries the
    /// function's stable id and that position. In a well-formed tracer it is
    /// the only one.
    pub fn lookup_ientry(&self, function: &FuncRef, pos: u32) -> (entry: InstructionTableEntry)
        requires
            self@.function_place(*function) is Some,
            pos <= u16::MAX,
            has_entry_at(
                self@.itable,
                self@.function_module(*function),
                self@.function_id(*function),
                pos as u16,
            ),
        ensures
            Some(entry) == first_at(
                self@.itable,
                self@.function_module(*function),
                self@.function_id(*function),
                pos as u16,
            ),
            entry.moid == self@.function_module(*function),
            entry.fid == self@.function_id(*function),
            entry.iid == pos,
            self@.wf() ==> forall|k: int|
                0 <= k < self@.itable.len() && (#[trigger] self@.itable[k]).at(
                    entry.moid,
                    entry.fid,
                    entry.iid,
                ) ==> self@.itable[k] == entry,
    {
        proof {
            let place = self@.function_place(*function)->0;
            first_at_matches_key(self@.itable, place.0, place.1, pos as u16);
            if self@.wf() {
                pc_ordered_keys_unique(self@.itable);
                assert forall|k: int|
                    0 <= k < self@.itable.len() && (#[trigger] self@.itable[k]).at(
                        place.0,
                        place.1,
                        pos as u16,
                    ) implies Some(self@.itable[k]) == first_at(
                    self@.itable,
                    place.0,
                    place.1,
                    pos as u16,
                ) by {
                    first_at_is_the_unique_match(self@.itable, place.0, place.1, pos as u16, k);
                }
            }
        }
        match self.find_ientry(function, pos) {
            Some(entry) => entry,
            None => unreached(),
        }
    }

    /// The first entry of the instruction table that belongs to a function,
    /// if the function was registered and the table has an entry of it.
    pub fn find_first_inst(&self, function: &FuncRef) -> (found: Option<InstructionTableEntry>)
        ensures
            found == match self@.function_place(*function) {
                Some((moid, fid)) => first_of(self@.itable, moid, fid),
                None => None,
            },
    {
        let (moid, function_idx) = match find(&self.function_lookup, function.0) {
            Some(place) => place,
            None => {
                return None;
            },
        };
        let mut i: usize = 0;
        while i < self.itable.0.len()
            invariant
                i <= self.itable.0.len(),
                self@.function_place(*function) == Some((moid, function_idx)),
                forall|j: int| 0 <= j < i ==> !(#[trigger] self.itable@[j]).of(moid, function_idx),
            decreases self.itable.0.len() - i,
        {
            let ientry = self.itable.0[i];
            if ientry.moid == moid && ientry.fid == function_idx {
                proof {
                    first_of_of_match(self@.itable, moid, function_idx, i as int);
                }
                return Some(ientry);
            }
            i = i + 1;
        }
        None
    }

    /// The first entry of the instruction table that belongs to a registered
    /// function: an entry of the function's module that carries the
    /// function's stable id. In a well-formed tracer no entry of the function
    /// has a smaller position.
    pub fn lookup_first_inst(&self, function: &FuncRef) -> (entry: InstructionTableEntry)
        requires
            self@.function_place(*function) is Some,
            has_entry_of(
                self@.itable,
                self@.function_module(*function),
                self@.function_id(*function),
            ),
        ensures
            Some(entry) == first_of(
                self@.itable,
                self@.function_module(*function),
                self@.function_id(*function),
            ),
            entry.moid == self@.function_module(*function),
            entry.fid == self@.function_id(*function),
            self@.wf() ==> forall|k: int|
                0 <= k < self@.itable.len() && (#[trigger] self@.itable[k]).of(entry.moid, entry.fid)
                    ==> entry.iid <= self@.itable[k].iid,
    {
        proof {
            let place = self@.function_place(*function)->0;
            let k = choose|k: int|
                0 <= k < self@.itable.len() && (#[trigger] self@.itable[k]).of(place.0, place.1);
            first_of_has_smallest_pc(self@.itable, place.0, place.1, k);
            assert forall|k: int|
                self@.wf() && 0 <= k < self@.itable.len() && (#[trigger] self@.itable[k]).of(
                    place.0,
                    place.1,
                ) implies first_of(self@.itable, place.0, place.1)->0.iid <= self@.itable[k].iid by {
                first_of_has_smallest_pc(self@.itable, place.0, place.1, k);
            }
        }
        match self.find_first_inst(function) {
            Some(entry) => entry,
            None => unreached(),
        }
    }
}

} // verus!
