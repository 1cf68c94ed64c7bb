//! Registration of a module instance: every function gets a stable id and
//! a descriptor, and every instruction of every body gets an entry in the
//! instruction table.

use crate::instance::{
    FuncInstance, FuncInstanceInternal, FuncInstanceInternalView, FuncInstanceView, ModuleInstance,
    ModuleInstanceView,
};
use crate::isa::{translation_view, Instruction};
use crate::itable::{keys_unique, pc_ordered, pc_ordered_keys_unique, InstructionTableEntry};
use crate::registry::{lookup_of_first_match, registered};
use crate::tracer::{Tracer, TracerView};
use crate::types::{
    FuncDesc, FuncDescView, FunctionType, FunctionTypeView, HostFunctionDescView,
};
use vstd::pervasive::unreached;
use vstd::prelude::*;

verus! {

/// The stable id of the function with the raw index `index` in a module
/// whose declared start function is `start`: 0 for the start function, and
/// for the others 1, 2, 3 and so on in the order of their raw indices.
pub open spec fn stable_id(start: Option<u32>, index: int) -> int {
    match start {
        Some(s) => if index == s {
            0
        } else if index < s {
            index + 1
        } else {
            index
        },
        None => index + 1,
    }
}

/// The next unused stable id once the functions with raw indices below
/// `count` have theirs.
pub open spec fn next_stable_id(start: Option<u32>, count: int) -> int {
    match start {
        Some(s) => if s < count {
            count
        } else {
            count + 1
        },
        None => count + 1,
    }
}

/// Whether one of the functions with raw indices below `count` has the
/// stable id `id`.
pub open spec fn id_in_use(start: Option<u32>, count: int, id: int) -> bool {
    exists|i: int| 0 <= i < count && #[trigger] stable_id(start, i) == id
}

/// The start function, and no other, has the stable id 0. The others have
/// the ids from 1 up to the number of them, each id once, and a function
/// that comes later has the greater id.
pub proof fn stable_ids_are_dense_and_monotonic(start: Option<u32>, count: int)
    requires
        0 <= count,
    ensures
        forall|i: int|
            0 <= i ==> (#[trigger] stable_id(start, i) == 0 <==> start == Some(i as u32) && i
                <= u32::MAX),
        forall|i: int| 0 <= i < count ==> 0 <= #[trigger] stable_id(start, i) < next_stable_id(
            start,
            count,
        ),
        forall|i: int, j: int|
            0 <= i < j ==> #[trigger] stable_id(start, i) != #[trigger] stable_id(start, j),
        forall|i: int, j: int|
            0 <= i < j && stable_id(start, i) != 0 && stable_id(start, j) != 0 ==> #[trigger] stable_id(
                start,
                i,
            ) < #[trigger] stable_id(start, j),
        forall|id: int|
            1 <= id < next_stable_id(start, count) ==> #[trigger] id_in_use(start, count, id),
{
    assert forall|id: int| 1 <= id < next_stable_id(start, count) implies #[trigger] id_in_use(
        start,
        count,
        id,
    ) by {
        let i = match start {
            Some(s) => if id <= s {
                id - 1
            } else {
                id
            },
            None => id - 1,
        };
        assert(0 <= i < count && stable_id(start, i) == id);
    }
}

/// The descriptor that the function with the raw index `index` of `module`
/// is registered under, given the host's registry `plugins`.
pub open spec fn func_desc(
    module: ModuleInstanceView,
    plugins: Map<usize, HostFunctionDescView>,
    index: int,
) -> FuncDescView {
    let func = module.funcs[index];
    FuncDescView {
        index_within_jtable: stable_id(module.start_function, index) as u16,
        ftype: match func.internal {
            FuncInstanceInternalView::Internal { .. } => FunctionTypeView::WasmFunction,
            FuncInstanceInternalView::Host { host_func_index } => FunctionTypeView::HostFunction {
                plugin: plugins[host_func_index].plugin,
                function_index: host_func_index,
                function_name: plugins[host_func_index].name,
                op_index_in_plugin: plugins[host_func_index].op_index_in_plugin,
            },
        },
        signature: func.signature,
    }
}

/// The translation table once the functions of `module` with raw indices
/// below `count` are registered: they have their new descriptors, and every
/// other raw index keeps what it had in `before`.
pub open spec fn translation_after(
    before: Map<u32, FuncDescView>,
    module: ModuleInstanceView,
    plugins: Map<usize, HostFunctionDescView>,
    count: int,
) -> Map<u32, FuncDescView> {
    Map::new(
        |raw: u32| raw < count || before.contains_key(raw),
        |raw: u32|
            if raw < count {
                func_desc(module, plugins, raw as int)
            } else {
                before[raw]
            },
    )
}

/// The functions of `module`, registered under the module id `moid`: each
/// reference with the module id and the function's stable id, in the order
/// of the raw indices.
pub open spec fn function_ids(module: ModuleInstanceView, moid: u16) -> Seq<(u64, (u16, u16))> {
    Seq::new(
        module.funcs.len(),
        |i: int|
            (module.funcs[i].reference.0, (moid, stable_id(module.start_function, i) as u16)),
    )
}

/// The entries of one function: one for each instruction of its body, in
/// the order of the body; none for a host function.
pub open spec fn function_entries(
    func: FuncInstanceView,
    moid: u16,
    fid: u16,
    translation: Map<u32, FuncDescView>,
) -> Seq<InstructionTableEntry> {
    match func.internal {
        FuncInstanceInternalView::Internal { body } => Seq::new(
            body.len(),
            |pc: int|
                InstructionTableEntry {
                    moid,
                    mmid: moid,
                    fid,
                    iid: pc as u16,
                    opcode: body[pc].spec_opcode(translation),
                },
        ),
        FuncInstanceInternalView::Host { .. } => Seq::empty(),
    }
}

/// The entries of the functions of `module` with raw indices below `count`:
/// function after function, and within a function instruction after
/// instruction.
pub open spec fn module_entries(
    module: ModuleInstanceView,
    moid: u16,
    translation: Map<u32, FuncDescView>,
    count: int,
) -> Seq<InstructionTableEntry>
    decreases count,
{
    if count <= 0 {
        Seq::empty()
    } else {
        module_entries(module, moid, translation, count - 1) + function_entries(
            module.funcs[count - 1],
            moid,
            stable_id(module.start_function, count - 1) as u16,
            translation,
        )
    }
}

/// The number of instructions in the bodies of the first `count` functions
/// of `funcs`.
pub open spec fn total_instructions(funcs: Seq<FuncInstanceView>, count: int) -> nat
    decreases count,
{
    if count <= 0 {
        0
    } else {
        total_instructions(funcs, count - 1) + funcs[count - 1].body_len()
    }
}

/// Whether `instruction`, if it is a call, names a function of `module` or
/// one that `tracer` has a descriptor for.
pub open spec fn call_acceptable(
    tracer: TracerView,
    module: ModuleInstanceView,
    instruction: Instruction,
) -> bool {
    instruction matches Instruction::Call(raw) ==> raw < module.funcs.len()
        || tracer.translation.contains_key(raw)
}

/// Whether `tracer` can register the function with the raw index `index` of
/// `module`: every position in its body fits in 16 bits and every call in it
/// can be resolved; or the host's registry knows it.
pub open spec fn function_acceptable(tracer: TracerView, module: ModuleInstanceView, index: int) -> bool {
    match module.funcs[index].internal {
        FuncInstanceInternalView::Internal { body } => {
            &&& body.len() <= u16::MAX + 1
            &&& forall|pc: int|
                0 <= pc < body.len() ==> call_acceptable(tracer, module, #[trigger] body[pc])
        },
        FuncInstanceInternalView::Host { host_func_index } => tracer.host_plugins.contains_key(
            host_func_index,
        ),
    }
}

/// Whether the tracer `tracer` can register `module`: the next module id
/// and every stable id fit in 16 bits, and every function is acceptable.
pub open spec fn can_register(tracer: TracerView, module: ModuleInstanceView) -> bool {
    &&& tracer.modules.len() < u16::MAX
    &&& module.funcs.len() <= u16::MAX
    &&& forall|i: int|
        0 <= i < module.funcs.len() ==> #[trigger] function_acceptable(tracer, module, i)
}

/// What registering `module` makes of the tracer `before`.
pub open spec fn registered_module(before: TracerView, module: ModuleInstanceView) -> TracerView {
    let moid = (before.modules.len() + 1) as u16;
    let translation = translation_after(
        before.translation,
        module,
        before.host_plugins,
        module.funcs.len() as int,
    );
    TracerView {
        itable: before.itable + module_entries(
            module,
            moid,
            translation,
            module.funcs.len() as int,
        ),
        modules: before.modules.push((module.reference.0, moid)),
        functions: before.functions + function_ids(module, moid),
        next_function_index: next_stable_id(module.start_function, module.funcs.len() as int) as u32,
        translation,
        ..before
    }
}

/// A module whose bodies hold B1, B2, ... instructions gets B1 + B2 + ...
/// entries.
pub proof fn module_entries_len(
    module: ModuleInstanceView,
    moid: u16,
    translation: Map<u32, FuncDescView>,
    count: int,
)
    ensures
        module_entries(module, moid, translation, count).len() == total_instructions(
            module.funcs,
            count,
        ),
    decreases count,
{
    if count > 0 {
        module_entries_len(module, moid, translation, count - 1);
    }
}

/// The entries of a module stand function after function, and within a
/// function position after position: the entry for position `pc` of the
/// function with the raw index `index` comes after all the entries of the
/// functions before it and after `pc` entries of its own.
pub proof fn module_entries_place(
    module: ModuleInstanceView,
    moid: u16,
    translation: Map<u32, FuncDescView>,
    count: int,
    index: int,
    pc: int,
)
    requires
        0 <= index < count,
        0 <= pc < module.funcs[index].body_len(),
    ensures
        total_instructions(module.funcs, index) + pc < module_entries(
            module,
            moid,
            translation,
            count,
        ).len(),
        module_entries(module, moid, translation, count)[total_instructions(module.funcs, index)
            + pc] == function_entries(
            module.funcs[index],
            moid,
            stable_id(module.start_function, index) as u16,
            translation,
        )[pc],
    decreases count,
{
    module_entries_len(module, moid, translation, count - 1);
    module_entries_len(module, moid, translation, count);
    if index < count - 1 {
        module_entries_place(module, moid, translation, count - 1, index, pc);
    }
}

/// Every entry of a module belongs to one of its functions: it carries the
/// function's stable id, and its position is one of the function's body.
pub open spec fn entry_of_function(
    module: ModuleInstanceView,
    entry: InstructionTableEntry,
    index: int,
) -> bool {
    &&& 0 <= index < module.funcs.len()
    &&& entry.fid == stable_id(module.start_function, index)
    &&& entry.iid < module.funcs[index].body_len()
}

/// Whether `entry` belongs to one of the functions of `module` with raw
/// indices below `count`.
pub open spec fn has_owner(module: ModuleInstanceView, entry: InstructionTableEntry, count: int) -> bool {
    exists|index: int| index < count && #[trigger] entry_of_function(module, entry, index)
}

proof fn module_entries_owners(
    module: ModuleInstanceView,
    moid: u16,
    translation: Map<u32, FuncDescView>,
    count: int,
)
    requires
        0 <= count <= module.funcs.len() <= u16::MAX,
        forall|i: int| 0 <= i < module.funcs.len() ==> (#[trigger] module.funcs[i]).body_len()
            <= u16::MAX + 1,
    ensures
        forall|a: int|
            0 <= a < module_entries(module, moid, translation, count).len() ==> has_owner(
                module,
                #[trigger] module_entries(module, moid, translation, count)[a],
                count,
            ),
        forall|a: int|
            0 <= a < module_entries(module, moid, translation, count).len() ==> (
            #[trigger] module_entries(module, moid, translation, count)[a]).moid == moid,
        pc_ordered(module_entries(module, moid, translation, count)),
    decreases count,
{
    let entries = module_entries(module, moid, translation, count);
    if count > 0 {
        let earlier = module_entries(module, moid, translation, count - 1);
        let fid = stable_id(module.start_function, count - 1) as u16;
        let block = function_entries(module.funcs[count - 1], moid, fid, translation);
        module_entries_owners(module, moid, translation, count - 1);
        assert(entries == earlier + block);
        assert(module.funcs[count - 1].body_len() <= u16::MAX + 1);
        assert forall|a: int| 0 <= a < entries.len() implies has_owner(
            module,
            #[trigger] entries[a],
            count,
        ) by {
            if a < earlier.len() {
                assert(entries[a] == earlier[a]);
                assert(has_owner(module, earlier[a], count - 1));
                let index = choose|index: int|
                    index < count - 1 && #[trigger] entry_of_function(module, earlier[a], index);
                assert(entry_of_function(module, entries[a], index));
            } else {
                assert(entries[a] == block[a - earlier.len()]);
                assert(entry_of_function(module, entries[a], count - 1));
            }
        }
        assert forall|a: int| 0 <= a < entries.len() implies (#[trigger] entries[a]).moid
            == moid by {
            if a < earlier.len() {
                assert(entries[a] == earlier[a]);
            } else {
                assert(entries[a] == block[a - earlier.len()]);
            }
        }
        assert forall|a: int, b: int|
            0 <= a < b < entries.len() && (#[trigger] entries[a]).of(
                (#[trigger] entries[b]).moid,
                entries[b].fid,
            ) implies entries[a].iid < entries[b].iid by {
            if b < earlier.len() {
                assert(entries[a] == earlier[a]);
                assert(entries[b] == earlier[b]);
            } else if a < earlier.len() {
                assert(entries[a] == earlier[a]);
                assert(entries[b] == block[b - earlier.len()]);
                assert(has_owner(module, earlier[a], count - 1));
                let index = choose|index: int|
                    index < count - 1 && #[trigger] entry_of_function(module, earlier[a], index);
                assert(stable_id(module.start_function, index) != stable_id(
                    module.start_function,
                    count - 1,
                ));
            } else {
                assert(entries[a] == block[a - earlier.len()]);
                assert(entries[b] == block[b - earlier.len()]);
            }
        }
    }
}

/// The entries of a module all carry the module's id and are in position
/// order, so no two of them stand for the same position of the same
/// function.
pub proof fn module_entries_pc_ordered(
    module: ModuleInstanceView,
    moid: u16,
    translation: Map<u32, FuncDescView>,
)
    requires
        module.funcs.len() <= u16::MAX,
        forall|i: int| 0 <= i < module.funcs.len() ==> (#[trigger] module.funcs[i]).body_len()
            <= u16::MAX + 1,
    ensures
        pc_ordered(module_entries(module, moid, translation, module.funcs.len() as int)),
        keys_unique(module_entries(module, moid, translation, module.funcs.len() as int)),
        forall|a: int|
            0 <= a < module_entries(module, moid, translation, module.funcs.len() as int).len()
                ==> (#[trigger] module_entries(
                module,
                moid,
                translation,
                module.funcs.len() as int,
            )[a]).moid == moid,
{
    module_entries_owners(module, moid, translation, module.funcs.len() as int);
    pc_ordered_keys_unique(module_entries(module, moid, translation, module.funcs.len() as int));
}

/// Every registration keeps the tracer well formed: the new entries carry
/// the new module's id, which no earlier entry has, so the table stays in
/// position order for every function of every module, and no two entries
/// stand for the same position of the same function of the same module.
/// The table grows by the number of instructions in the module's bodies.
pub proof fn registration_keeps_wf(before: TracerView, module: ModuleInstanceView)
    requires
        before.wf(),
        can_register(before, module),
    ensures
        registered_module(before, module).wf(),
        keys_unique(registered_module(before, module).itable),
        registered_module(before, module).itable.len() == before.itable.len() + total_instructions(
            module.funcs,
            module.funcs.len() as int,
        ),
{
    let moid = (before.modules.len() + 1) as u16;
    let after = registered_module(before, module);
    let entries = module_entries(module, moid, after.translation, module.funcs.len() as int);
    let table = after.itable;
    assert forall|i: int| 0 <= i < module.funcs.len() implies (#[trigger] module.funcs[i]).body_len()
        <= u16::MAX + 1 by {
        assert(function_acceptable(before, module, i));
    }
    module_entries_pc_ordered(module, moid, after.translation);
    module_entries_len(module, moid, after.translation, module.funcs.len() as int);
    assert(table == before.itable + entries);
    assert forall|i: int| 0 <= i < table.len() implies 1 <= (#[trigger] table[i]).moid
        <= after.modules.len() by {
        if i < before.itable.len() {
            assert(table[i] == before.itable[i]);
        } else {
            assert(table[i] == entries[i - before.itable.len()]);
        }
    }
    assert forall|a: int, b: int|
        0 <= a < b < table.len() && (#[trigger] table[a]).of(
            (#[trigger] table[b]).moid,
            table[b].fid,
        ) implies table[a].iid < table[b].iid by {
        if b < before.itable.len() {
            assert(table[a] == before.itable[a]);
            assert(table[b] == before.itable[b]);
        } else if a < before.itable.len() {
            assert(table[a] == before.itable[a]);
            assert(table[b] == entries[b - before.itable.len()]);
        } else {
            assert(table[a] == entries[a - before.itable.len()]);
            assert(table[b] == entries[b - before.itable.len()]);
        }
    }
    pc_ordered_keys_unique(table);
}

/// A function whose reference is new, in the tracer and among the functions
/// before it in its module, is found after the registration under the new
/// module's id and its own stable id.
pub proof fn registered_function_place(before: TracerView, module: ModuleInstanceView, index: int)
    requires
        can_register(before, module),
        0 <= index < module.funcs.len(),
        !registered(before.functions, module.funcs[index].reference.0),
        forall|j: int|
            0 <= j < index ==> (#[trigger] module.funcs[j]).reference
                != module.funcs[index].reference,
    ensures
        registered_module(before, module).function_place(module.funcs[index].reference) == Some(
            (
                (before.modules.len() + 1) as u16,
                stable_id(module.start_function, index) as u16,
            ),
        ),
{
    let moid = (before.modules.len() + 1) as u16;
    let handle = module.funcs[index].reference.0;
    let table = before.functions + function_ids(module, moid);
    let place = before.functions.len() + index;
    assert(table[place] == function_ids(module, moid)[index]);
    assert forall|j: int| 0 <= j < place implies (#[trigger] table[j]).0 != handle by {
        if j < before.functions.len() {
            assert(table[j] == before.functions[j]);
        } else {
            let k = j - before.functions.len();
            assert(table[j] == function_ids(module, moid)[k]);
            assert(module.funcs[k].reference != module.funcs[index].reference);
        }
    }
    lookup_of_first_match(table, handle, place);
}

/// Where a module declares one of its functions as its start function,
/// that function and no other gets the stable id 0: in its descriptor, in
/// the function registry and on every one of its entries. It takes no id
/// from the counter: the other functions get 1, 2, ... and the counter ends
/// at the number of functions.
pub proof fn start_function_has_id_zero(before: TracerView, module: ModuleInstanceView, start: u32)
    requires
        can_register(before, module),
        module.start_function == Some(start),
        start < module.funcs.len(),
    ensures
        ({
            let after = registered_module(before, module);
            let moid = (before.modules.len() + 1) as u16;
            let ids = function_ids(module, moid);
            let entries = module_entries(
                module,
                moid,
                after.translation,
                module.funcs.len() as int,
            );
            &&& after.translation.contains_key(start)
            &&& after.translation[start].index_within_jtable == 0
            &&& ids[start as int].1 == (moid, 0u16)
            &&& after.next_function_index == module.funcs.len()
            &&& forall|raw: u32|
                raw < module.funcs.len() && raw != start ==> (#[trigger] after.translation[raw]).index_within_jtable
                    != 0
            &&& forall|i: int|
                0 <= i < module.funcs.len() && i != start ==> (#[trigger] ids[i]).1 != (moid, 0u16)
            &&& forall|pc: int|
                0 <= pc < module.funcs[start as int].body_len() ==> (#[trigger] entries[total_instructions(
                    module.funcs,
                    start as int,
                ) + pc]).fid == 0
            &&& forall|a: int|
                0 <= a < entries.len() && (#[trigger] entries[a]).fid == 0 ==> entry_of_function(
                    module,
                    entries[a],
                    start as int,
                )
        }),
{
    let after = registered_module(before, module);
    let moid = (before.modules.len() + 1) as u16;
    let count = module.funcs.len() as int;
    let entries = module_entries(module, moid, after.translation, count);
    assert forall|i: int| 0 <= i < module.funcs.len() implies (#[trigger] module.funcs[i]).body_len()
        <= u16::MAX + 1 by {
        assert(function_acceptable(before, module, i));
    }
    assert forall|pc: int| 0 <= pc < module.funcs[start as int].body_len() implies (
    #[trigger] entries[total_instructions(module.funcs, start as int) + pc]).fid == 0 by {
        module_entries_place(module, moid, after.translation, count, start as int, pc);
    }
    module_entries_owners(module, moid, after.translation, count);
    assert forall|a: int| 0 <= a < entries.len() && (#[trigger] entries[a]).fid == 0 implies entry_of_function(
        module,
        entries[a],
        start as int,
    ) by {
        assert(has_owner(module, entries[a], count));
        let index = choose|index: int|
            index < count && #[trigger] entry_of_function(module, entries[a], index);
        assert(index == start);
    }
}

impl Tracer {
    /// Whether this tracer can register `module_instance`.
    pub fn accepts_module(&self, module_instance: &ModuleInstance) -> (ok: bool)
        ensures
            ok == can_register(self@, module_instance@),
    {
        let ghost module = module_instance@;
        let count: usize = module_instance.funcs.len();
        if self.module_instance_lookup.len() >= 0xffff || count > 0xffff {
            return false;
        }
        let mut i: usize = 0;
        while i < count
            invariant
                i <= count == module.funcs.len() <= u16::MAX,
                module == module_instance@,
                self@.modules.len() < u16::MAX,
                forall|f: int| 0 <= f < i ==> function_acceptable(self@, module, f),
            decreases count - i,
        {
            let func = &module_instance.funcs[i];
            match func.as_internal() {
                FuncInstanceInternal::Internal { body } => {
                    if body.len() > 0x1_0000 {
                        assert(!function_acceptable(self@, module, i as int));
                        return false;
                    }
                    let mut pc: usize = 0;
                    while pc < body.len()
                        invariant
                            pc <= body.len(),
                            i < count == module.funcs.len() <= u16::MAX,
                            module == module_instance@,
                            func@ == module.funcs[i as int],
                            func@.internal == (FuncInstanceInternalView::Internal { body: body@ }),
                            forall|k: int|
                                0 <= k < pc ==> call_acceptable(self@, module, #[trigger] body@[k]),
                        decreases body.len() - pc,
                    {
                        if let Instruction::Call(raw) = body[pc] {
                            if raw as usize >= count && !self.knows_function_index(raw) {
                                assert(!function_acceptable(self@, module, i as int));
                                return false;
                            }
                        }
                        pc = pc + 1;
                    }
                },
                FuncInstanceInternal::Host { host_func_index } => {
                    if !self.knows_host_function(*host_func_index) {
                        assert(!function_acceptable(self@, module, i as int));
                        return false;
                    }
                },
            }
            i = i + 1;
        }
        true
    }

    /// The descriptor for the function `func`, which gets the stable id
    /// `index_within_jtable`.
    fn describe_function(&self, func: &FuncInstance, index_within_jtable: u16) -> (desc: FuncDesc)
        requires
            func@.internal matches FuncInstanceInternalView::Host { host_func_index }
                ==> self@.host_plugins.contains_key(host_func_index),
        ensures
            desc@.index_within_jtable == index_within_jtable,
            desc@.signature == func@.signature,
            desc@.ftype == match func@.internal {
                FuncInstanceInternalView::Internal { .. } => FunctionTypeView::WasmFunction,
                FuncInstanceInternalView::Host { host_func_index } => FunctionTypeView::HostFunction {
                    plugin: self@.host_plugins[host_func_index].plugin,
                    function_index: host_func_index,
                    function_name: self@.host_plugins[host_func_index].name,
                    op_index_in_plugin: self@.host_plugins[host_func_index].op_index_in_plugin,
                },
            },
    {
        let ftype = match func.as_internal() {
            FuncInstanceInternal::Internal { .. } => FunctionType::WasmFunction,
            FuncInstanceInternal::Host { host_func_index } => {
                let plugin_desc = self.lookup_host_plugin(*host_func_index);
                FunctionType::HostFunction {
                    plugin: plugin_desc.plugin,
                    function_index: *host_func_index,
                    function_name: plugin_desc.name,
                    op_index_in_plugin: plugin_desc.op_index_in_plugin,
                }
            },
        };
        FuncDesc { index_within_jtable, ftype, signature: func.signature().clone() }
    }

    /// Registers a module instance under the next module id. Its functions
    /// get their stable ids and descriptors first; then every instruction of
    /// every body gets its entry, with each call naming its callee by stable
    /// id. Stable ids start again with every module, so an entry is known by
    /// module id, stable id and position together: no two entries of a
    /// well-formed tracer share all three, before or after.
    pub fn register_module_instance(&mut self, module_instance: &ModuleInstance)
        requires
            can_register(old(self)@, module_instance@),
        ensures
            final(self)@ == registered_module(old(self)@, module_instance@),
            old(self)@.wf() ==> final(self)@.wf(),
            old(self)@.wf() ==> keys_unique(final(self)@.itable),
    {
        broadcast use vstd::std_specs::hash::group_hash_axioms;

        let ghost before = self@;
        let ghost module = module_instance@;
        let ghost count = module.funcs.len() as int;
        let start_fn_idx = module_instance.start_function;
        let moid: u16 = self.next_module_id();

        self.function_index_allocator = 1;
        let mut func_index: u32 = 0;
        assert(before.functions + function_ids(module, moid).subrange(0, 0) == before.functions);
        assert(translation_after(before.translation, module, before.host_plugins, 0)
            == before.translation);
        loop
            invariant
                module == module_instance@,
                count == module.funcs.len(),
                start_fn_idx == module.start_function,
                can_register(before, module),
                moid == before.modules.len() + 1,
                0 <= func_index <= count,
                self@ == (TracerView {
                    functions: before.functions + function_ids(module, moid).subrange(
                        0,
                        func_index as int,
                    ),
                    next_function_index: next_stable_id(start_fn_idx, func_index as int) as u32,
                    translation: translation_after(
                        before.translation,
                        module,
                        before.host_plugins,
                        func_index as int,
                    ),
                    ..before
                }),
            ensures
                func_index == count,
            decreases count - func_index,
        {
            let func = match module_instance.func_by_index(func_index) {
                Some(func) => func,
                None => {
                    break ;
                },
            };
            assert(function_acceptable(before, module, func_index as int));
            let is_start = match start_fn_idx {
                Some(start) => start == func_index,
                None => false,
            };
            let func_index_in_itable: u32 = if is_start {
                0
            } else {
                self.allocate_func_index()
            };
            let desc = self.describe_function(func, func_index_in_itable as u16);
            let ghost table = self.function_index_translation@;
            self.function_lookup.push((func.reference.0, (moid, func_index_in_itable as u16)));
            self.function_index_translation.insert(func_index, desc);
            assert(translation_view(table.insert(func_index, desc)) == translation_view(
                table,
            ).insert(func_index, desc@));
            assert(translation_after(
                before.translation,
                module,
                before.host_plugins,
                func_index as int,
            ).insert(func_index, desc@) == translation_after(
                before.translation,
                module,
                before.host_plugins,
                func_index + 1,
            ));
            assert(self@.functions == before.functions + function_ids(module, moid).subrange(
                0,
                func_index + 1,
            ));
            func_index = func_index + 1;
        }
        assert(function_ids(module, moid).subrange(0, count) == function_ids(module, moid));

        let ghost listed = self@;
        let ghost translation = listed.translation;
        let mut func_index: u32 = 0;
        loop
            invariant
                module == module_instance@,
                count == module.funcs.len(),
                can_register(before, module),
                moid == before.modules.len() + 1,
                0 <= func_index <= count,
                translation == translation_after(
                    before.translation,
                    module,
                    before.host_plugins,
                    count,
                ),
                listed.translation == translation,
                listed.itable == before.itable,
                self@ == (TracerView {
                    itable: before.itable + module_entries(
                        module,
                        moid,
                        translation,
                        func_index as int,
                    ),
                    ..listed
                }),
            ensures
                func_index == count,
            decreases count - func_index,
        {
            let func = match module_instance.func_by_index(func_index) {
                Some(func) => func,
                None => {
                    break ;
                },
            };
            assert(function_acceptable(before, module, func_index as int));
            let fid: u16 = match self.function_index_translation.get(&func_index) {
                Some(funcdesc) => funcdesc.index_within_jtable,
                None => {
                    assert(translation.contains_key(func_index));
                    unreached()
                },
            };
            assert(fid == translation[func_index].index_within_jtable);
            let ghost earlier = module_entries(module, moid, translation, func_index as int);
            let ghost block = function_entries(func@, moid, fid, translation);
            if let Some(code) = func.body() {
                let mut pc: usize = 0;
                while pc < code.len()
                    invariant
                        pc <= code.len(),
                        code@.len() <= u16::MAX + 1,
                        func@.internal == (FuncInstanceInternalView::Internal { body: code@ }),
                        block == function_entries(func@, moid, fid, translation),
                        translation == translation_view(self.function_index_translation@),
                        forall|k: int|
                            0 <= k < code@.len() ==> (#[trigger] code@[k]).resolved_by(translation),
                        self@ == (TracerView {
                            itable: before.itable + earlier + block.subrange(0, pc as int),
                            ..listed
                        }),
                    decreases code.len() - pc,
                {
                    let instruction = code[pc];
                    let ientry = InstructionTableEntry {
                        moid,
                        mmid: moid,
                        fid,
                        iid: pc as u16,
                        opcode: instruction.into_opcode(&self.function_index_translation),
                    };
                    self.itable.push(&ientry);
                    assert(self@.itable == before.itable + earlier + block.subrange(0, pc + 1));
                    pc = pc + 1;
                }
            }
            assert(self@.itable == before.itable + (earlier + block));
            func_index = func_index + 1;
        }

        self.module_instance_lookup.push((module_instance.reference.0, moid));
        proof {
            if before.wf() {
                registration_keeps_wf(before, module);
            }
        }
    }
}

} // verus!
