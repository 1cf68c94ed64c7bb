//! The execution table: one entry for every step that was recorded, in the
//! order of execution.

use crate::isa::Opcode;
use crate::types::{HostPlugin, Signature, SignatureView, ValueType};
use vstd::prelude::*;

verus! {

/// The instruction that a step executed.
#[derive(Clone, Copy, Debug, PartialEq, Eq, Structural, Hash)]
pub struct StepInstruction {
    /// The stable id of the function.
    pub fid: u32,
    /// The position of the instruction in the function's body.
    pub iid: u32,
    pub opcode: Opcode,
}

/// The mathematical content of a [`StepInfo`].
#[allow(inconsistent_fields)]
pub enum StepInfoView {
    I32Const { value: i32 },
    CallHost {
        plugin: HostPlugin,
        host_function_idx: usize,
        function_name: Seq<char>,
        signature: SignatureView,
        args: Seq<u64>,
        ret_val: Option<u64>,
        op_index_in_plugin: usize,
    },
    I32WrapI64 { value: i64, result: i32 },
    Return { drop: u32, keep: Seq<ValueType>, keep_values: Seq<u64> },
}

/// What one step did at run time.
#[derive(Debug, PartialEq, Eq)]
#[allow(inconsistent_fields)]
pub enum StepInfo {
    /// A constant was pushed.
    I32Const { value: i32 },
    /// A host function was called with `args` and returned `ret_val`.
    CallHost {
        plugin: HostPlugin,
        host_function_idx: usize,
        function_name: String,
        signature: Signature,
        args: Vec<u64>,
        ret_val: Option<u64>,
        op_index_in_plugin: usize,
    },
    /// The 64-bit `value` was narrowed to the 32-bit `result`.
    I32WrapI64 { value: i64, result: i32 },
    /// The function returned: `drop` values were discarded, and the values
    /// `keep_values`, of the types `keep`, were kept.
    Return { drop: u32, keep: Vec<ValueType>, keep_values: Vec<u64> },
}

impl View for StepInfo {
    type V = StepInfoView;

    open spec fn view(&self) -> StepInfoView {
        match *self {
            StepInfo::I32Const { value } => StepInfoView::I32Const { value },
            StepInfo::CallHost {
                plugin,
                host_function_idx,
                function_name,
                signature,
                args,
                ret_val,
                op_index_in_plugin,
            } => StepInfoView::CallHost {
                plugin,
                host_function_idx,
                function_name: function_name@,
                signature: signature@,
                args: args@,
                ret_val,
                op_index_in_plugin,
            },
            StepInfo::I32WrapI64 { value, result } => StepInfoView::I32WrapI64 { value, result },
            StepInfo::Return { drop, keep, keep_values } => StepInfoView::Return {
                drop,
                keep: keep@,
                keep_values: keep_values@,
            },
        }
    }
}

/// The mathematical content of an [`EventTableEntry`].
pub struct EventTableEntryView {
    pub eid: u64,
    pub sp: u32,
    pub allocated_memory_pages: u32,
    pub last_jump_eid: u64,
    pub inst: StepInstruction,
    pub step_info: StepInfoView,
}

/// One recorded step.
#[derive(Debug, PartialEq, Eq)]
pub struct EventTableEntry {
    /// The execution id of the step: its place in the table, counted from 1.
    pub eid: u64,
    /// The stack pointer when the step began.
    pub sp: u32,
    /// The number of memory pages allocated when the step began.
    pub allocated_memory_pages: u32,
    /// The execution id of the step before the call that opened the frame in
    /// which this step ran, or 0 in the outermost frame.
    pub last_jump_eid: u64,
    pub inst: StepInstruction,
    pub step_info: StepInfo,
}

impl View for EventTableEntry {
    type V = EventTableEntryView;

    open spec fn view(&self) -> EventTableEntryView {
        EventTableEntryView {
            eid: self.eid,
            sp: self.sp,
            allocated_memory_pages: self.allocated_memory_pages,
            last_jump_eid: self.last_jump_eid,
            inst: self.inst,
            step_info: self.step_info@,
        }
    }
}

/// Every entry's execution id is its place in `entries`, counted from 1.
pub open spec fn eids_sequential(entries: Seq<EventTableEntryView>) -> bool {
    forall|i: int| 0 <= i < entries.len() ==> (#[trigger] entries[i]).eid == i + 1
}

/// The recorded steps. A step's execution id is the length of the table
/// once the step is in it.
#[derive(Debug, PartialEq, Eq)]
pub struct ETable {
    entries: Vec<EventTableEntry>,
}

impl View for ETable {
    type V = Seq<EventTableEntryView>;

    closed spec fn view(&self) -> Seq<EventTableEntryView> {
        self.entries@.map_values(|entry: EventTableEntry| entry@)
    }
}

impl Default for ETable {
    fn default() -> (table: Self)
        ensures
            table@ == Seq::<EventTableEntryView>::empty(),
    {
        ETable::new()
    }
}

impl ETable {
    #[verifier::type_invariant]
    spec fn sequential(&self) -> bool {
        eids_sequential(self@)
    }

    pub fn new() -> (table: Self)
        ensures
            table@ == Seq::<EventTableEntryView>::empty(),
    {
        let entries: Vec<EventTableEntry> = Vec::new();
        ETable { entries }
    }

    /// The recorded steps, oldest first.
    pub fn entries(&self) -> (entries: &Vec<EventTableEntry>)
        ensures
            entries@.map_values(|entry: EventTableEntry| entry@) == self@,
            eids_sequential(self@),
    {
        proof {
            use_type_invariant(self);
        }
        &self.entries
    }

    /// The execution id of the step recorded last, or 0 if there is none.
    pub fn get_latest_eid(&self) -> (eid: u64)
        ensures
            eid == self@.len(),
    {
        self.entries.len() as u64
    }

    /// Records a step and gives it the next execution id.
    pub fn push(
        &mut self,
        inst: StepInstruction,
        sp: u32,
        allocated_memory_pages: u32,
        last_jump_eid: u64,
        step_info: StepInfo,
    )
        requires
            old(self)@.len() < u64::MAX,
        ensures
            final(self)@ == old(self)@.push(
                EventTableEntryView {
                    eid: (old(self)@.len() + 1) as u64,
                    sp,
                    allocated_memory_pages,
                    last_jump_eid,
                    inst,
                    step_info: step_info@,
                },
            ),
            eids_sequential(final(self)@),
    {
        proof {
            use_type_invariant(&*self);
        }
        let mut taken = ETable::new();
        core::mem::swap(self, &mut taken);
        let mut entries = taken.entries;
        let eid: u64 = entries.len() as u64 + 1;
        let entry = EventTableEntry {
            eid,
            sp,
            allocated_memory_pages,
            last_jump_eid,
            inst,
            step_info,
        };
        let ghost before = entries@;
        entries.push(entry);
        assert(entries@.map_values(|entry: EventTableEntry| entry@) == before.map_values(
            |entry: EventTableEntry| entry@,
        ).push(entry@));
        *self = ETable { entries };
    }
}

} // verus!
