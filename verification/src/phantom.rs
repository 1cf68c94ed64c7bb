//! Phantom steps: the host fetches external input for the guest by calling
//! a host function directly, and the trace shows that call as if a small
//! bytecode function had made it. The function is synthesized here, one
//! instruction and one recorded step at a time, and every synthesized step
//! is counted, whether or not a tracer records it.

use crate::etable::{EventTableEntryView, StepInfo, StepInfoView, StepInstruction};
use crate::isa::{DropKeep, Instruction};
use crate::tracer::{Tracer, TracerView};
use crate::types::{
    reinterpret_i64, spec_reinterpret_i64, spec_wrap_i32, wrap_i32, FuncDescView, HostPlugin,
    Signature, SignatureView, ValueType,
};
use vstd::pervasive::unreached;
use vstd::prelude::*;

verus! {

/// The count of synthesized steps since it was last read.
#[derive(Debug, PartialEq, Eq)]
pub struct TraceCount {
    count: usize,
}

impl View for TraceCount {
    type V = nat;

    closed spec fn view(&self) -> nat {
        self.count as nat
    }
}

impl Default for TraceCount {
    fn default() -> (counter: Self)
        ensures
            counter@ == 0,
    {
        TraceCount::new()
    }
}

impl TraceCount {
    /// A counter that has counted nothing.
    pub fn new() -> (counter: Self)
        ensures
            counter@ == 0,
    {
        TraceCount { count: 0 }
    }

    /// How many more steps the counter can count.
    pub fn headroom(&self) -> (room: usize)
        ensures
            room == usize::MAX - self@,
    {
        usize::MAX - self.count
    }
}

/// Adds nothing to the count and leaves it as it is: only a read takes the
/// count back to zero.
pub fn reset_trace_count(counter: &mut TraceCount)
    ensures
        final(counter)@ == old(counter)@,
{
    counter.count += 0;
}

/// Counts one synthesized step.
pub fn add_trace_count(counter: &mut TraceCount)
    requires
        old(counter)@ < usize::MAX,
    ensures
        final(counter)@ == old(counter)@ + 1,
{
    counter.count += 1;
}

/// Reads the count and takes it back to zero.
pub fn get_trace_count(counter: &mut TraceCount) -> (count: usize)
    ensures
        count == old(counter)@,
        final(counter)@ == 0,
{
    let count = counter.count;
    counter.count = 0;
    return count;
}

/// The number of steps of the phantom function for a callee with the
/// signature `sig`: the return alone where the callee returns nothing; the
/// constant, the host call and the return where it returns a 64-bit
/// integer; and the narrowing besides where it returns anything else.
pub open spec fn phantom_step_count(sig: SignatureView) -> nat {
    match sig.return_type {
        None => 1,
        Some(ValueType::I64) => 3,
        Some(_) => 4,
    }
}

/// The return that ends the phantom function: it drops the callee's
/// parameters and keeps the callee's return value, if there is one.
pub open spec fn phantom_return(sig: SignatureView) -> Instruction {
    Instruction::Return(DropKeep { drop: sig.params.len() as u32, keep: sig.return_type })
}

/// The instructions of the phantom function for a callee with the signature
/// `sig`, where `wasm_input_function_idx` is the raw index of the host
/// function that fetches input.
pub open spec fn phantom_instructions(sig: SignatureView, wasm_input_function_idx: u32) -> Seq<
    Instruction,
> {
    match sig.return_type {
        None => seq![phantom_return(sig)],
        Some(ValueType::I64) => seq![
            Instruction::I32Const(0),
            Instruction::Call(wasm_input_function_idx),
            phantom_return(sig),
        ],
        Some(_) => seq![
            Instruction::I32Const(0),
            Instruction::Call(wasm_input_function_idx),
            Instruction::I32WrapI64,
            phantom_return(sig),
        ],
    }
}

/// What the host call of the phantom function did: the input function, of
/// type (32-bit integer) to 64-bit integer, was called with the argument 0
/// and returned `keep_value`.
pub open spec fn phantom_call_info(host_function_idx: usize, keep_value: Option<u64>) -> StepInfoView {
    StepInfoView::CallHost {
        plugin: HostPlugin::HostInput,
        host_function_idx,
        function_name: "wasm_input"@,
        signature: SignatureView { params: seq![ValueType::I32], return_type: Some(ValueType::I64) },
        args: seq![0u64],
        ret_val: keep_value,
        op_index_in_plugin: 0,
    }
}

/// What the narrowing of the phantom function did to the value `kept`.
pub open spec fn phantom_wrap_info(kept: u64) -> StepInfoView {
    StepInfoView::I32WrapI64 {
        value: spec_reinterpret_i64(kept) as i64,
        result: spec_wrap_i32(kept) as i32,
    }
}

/// What the return of the phantom function did.
pub open spec fn phantom_return_info(sig: SignatureView, keep_value: Option<u64>) -> StepInfoView {
    StepInfoView::Return {
        drop: sig.params.len() as u32,
        keep: match sig.return_type {
            Some(t) => seq![t],
            None => seq![],
        },
        keep_values: match keep_value {
            Some(v) => seq![v],
            None => seq![],
        },
    }
}

/// What the steps of the phantom function did, step by step.
pub open spec fn phantom_step_infos(
    sig: SignatureView,
    host_function_idx: usize,
    keep_value: Option<u64>,
) -> Seq<StepInfoView> {
    match sig.return_type {
        None => seq![phantom_return_info(sig, keep_value)],
        Some(ValueType::I64) => seq![
            StepInfoView::I32Const { value: 0 },
            phantom_call_info(host_function_idx, keep_value),
            phantom_return_info(sig, keep_value),
        ],
        Some(_) => seq![
            StepInfoView::I32Const { value: 0 },
            phantom_call_info(host_function_idx, keep_value),
            phantom_wrap_info(keep_value->0),
            phantom_return_info(sig, keep_value),
        ],
    }
}

/// What a call of `fill_trace` is given, besides the tracer and the counter.
pub struct PhantomCall {
    pub current_sp: u32,
    pub allocated_memory_pages: u32,
    pub last_jump_eid: u32,
    pub fid: u32,
    pub callee_sig: SignatureView,
    pub wasm_input_function_idx: u32,
    pub keep_value: Option<u64>,
}

/// The step at `position` of the phantom function, recorded by a tracer
/// whose execution table held `recorded` steps before the first phantom
/// step. The first step finds the stack as the caller left it; it pushes
/// the constant, so every later step finds one value more.
pub open spec fn phantom_step(
    call: PhantomCall,
    host_function_idx: usize,
    translation: Map<u32, FuncDescView>,
    recorded: nat,
    position: int,
) -> EventTableEntryView {
    EventTableEntryView {
        eid: (recorded + position + 1) as u64,
        sp: if position == 0 {
            call.current_sp
        } else {
            (call.current_sp + 1) as u32
        },
        allocated_memory_pages: call.allocated_memory_pages,
        last_jump_eid: call.last_jump_eid as u64,
        inst: StepInstruction {
            fid: call.fid,
            iid: position as u32,
            opcode: phantom_instructions(
                call.callee_sig,
                call.wasm_input_function_idx,
            )[position].spec_opcode(translation),
        },
        step_info: phantom_step_infos(call.callee_sig, host_function_idx, call.keep_value)[position],
    }
}

/// The steps of the phantom function, in order.
pub open spec fn phantom_steps(
    call: PhantomCall,
    host_function_idx: usize,
    translation: Map<u32, FuncDescView>,
    recorded: nat,
) -> Seq<EventTableEntryView> {
    Seq::new(
        phantom_step_count(call.callee_sig),
        |position: int| phantom_step(call, host_function_idx, translation, recorded, position),
    )
}

/// Whether a tracer in the state `tracer` can record the phantom function of
/// `call`: it knows the host index of the input function and has room for
/// the steps; and where the callee returns a value, the value was observed,
/// the input function's raw index was registered, and the stack pointer can
/// go up by one.
pub open spec fn can_record(tracer: TracerView, call: PhantomCall) -> bool {
    &&& tracer.wasm_input_host_func_index is Some
    &&& tracer.etable.len() + phantom_step_count(call.callee_sig) <= u64::MAX
    &&& call.callee_sig.return_type is Some ==> {
        &&& call.keep_value is Some
        &&& call.current_sp < u32::MAX
        &&& tracer.translation.contains_key(call.wasm_input_function_idx)
    }
}

/// The phantom function has as many instructions as steps, and as many
/// records of what the steps did: one, three or four.
pub proof fn phantom_lists_agree(
    sig: SignatureView,
    wasm_input_function_idx: u32,
    host_function_idx: usize,
    keep_value: Option<u64>,
)
    ensures
        phantom_instructions(sig, wasm_input_function_idx).len() == phantom_step_count(sig),
        phantom_step_infos(sig, host_function_idx, keep_value).len() == phantom_step_count(sig),
        sig.return_type is None ==> phantom_step_count(sig) == 1,
        sig.return_type == Some(ValueType::I64) ==> phantom_step_count(sig) == 3,
        sig.return_type is Some && sig.return_type != Some(ValueType::I64) ==> phantom_step_count(
            sig,
        ) == 4,
{
}

/// The function that the trace shows in place of the host's own fetching
/// of input.
pub struct PhantomFunction;

impl PhantomFunction {
    /// The instructions of the phantom function for a callee with the
    /// signature `sig`.
    pub fn build_phantom_function_instructions(
        sig: &Signature,
        // the raw index of the input function in the guest module
        wasm_input_function_idx: u32,
    ) -> (instructions: Vec<Instruction>)
        requires
            sig@.params.len() <= u32::MAX,
        ensures
            instructions@ == phantom_instructions(sig@, wasm_input_function_idx),
    {
        let mut instructions: Vec<Instruction> = Vec::new();

        if let Some(return_type) = sig.return_type() {
            instructions.push(Instruction::I32Const(0));

            instructions.push(Instruction::Call(wasm_input_function_idx));

            if return_type != ValueType::I64 {
                instructions.push(Instruction::I32WrapI64);
            }
        }

        instructions.push(
            Instruction::Return(
                DropKeep { drop: sig.params().len() as u32, keep: sig.return_type() },
            ),
        );

        instructions
    }

    /// What the step that executes `instruction` of the phantom function
    /// did.
    fn step_info(
        instruction: Instruction,
        sig: &Signature,
        host_function_idx: usize,
        keep_value: Option<u64>,
    ) -> (info: StepInfo)
        requires
            sig@.params.len() <= u32::MAX,
            !(instruction is Plain),
            instruction is I32WrapI64 ==> keep_value is Some,
        ensures
            info@ == match instruction {
                Instruction::I32Const(value) => StepInfoView::I32Const { value },
                Instruction::Call(_) => phantom_call_info(host_function_idx, keep_value),
                Instruction::I32WrapI64 => phantom_wrap_info(keep_value->0),
                _ => phantom_return_info(sig@, keep_value),
            },
    {
        match instruction {
            Instruction::I32Const(value) => StepInfo::I32Const { value },
            Instruction::Call(_) => {
                let mut params: Vec<ValueType> = Vec::new();
                params.push(ValueType::I32);
                let mut args: Vec<u64> = Vec::new();
                args.push(0);
                StepInfo::CallHost {
                    plugin: HostPlugin::HostInput,
                    host_function_idx,
                    function_name: "wasm_input".to_owned(),
                    signature: Signature::new(params, Some(ValueType::I64)),
                    args,
                    ret_val: keep_value,
                    op_index_in_plugin: 0,
                }
            },
            Instruction::I32WrapI64 => {
                let kept: u64 = match keep_value {
                    Some(kept) => kept,
                    None => unreached(),
                };
                StepInfo::I32WrapI64 { value: reinterpret_i64(kept), result: wrap_i32(kept) }
            },
            _ => {
                let mut keep: Vec<ValueType> = Vec::new();
                if let Some(t) = sig.return_type() {
                    keep.push(t);
                }
                let mut keep_values: Vec<u64> = Vec::new();
                if let Some(v) = keep_value {
                    keep_values.push(v);
                }
                StepInfo::Return { drop: sig.params().len() as u32, keep, keep_values }
            },
        }
    }
}

impl Tracer {
    /// Synthesizes the phantom function for a callee with the signature
    /// `callee_sig` and counts each of its steps. Where a tracer is given, it
    /// records the steps too: the instructions at the positions 0, 1, 2 and
    /// so on of the function `fid`, each with what it did.
    pub fn fill_trace(
        tracer: Option<&mut Tracer>,
        counter: &mut TraceCount,
        current_sp: u32,
        allocated_memory_pages: u32,
        last_jump_eid: u32,
        fid: u32,
        callee_sig: &Signature,
        // the raw index of the input function in the guest module
        wasm_input_function_idx: u32,
        keep_value: Option<u64>,
    )
        requires
            callee_sig@.params.len() <= u32::MAX,
            old(counter)@ + phantom_step_count(callee_sig@) <= usize::MAX,
            tracer matches Some(t) ==> can_record(
                t@,
                PhantomCall {
                    current_sp,
                    allocated_memory_pages,
                    last_jump_eid,
                    fid,
                    callee_sig: callee_sig@,
                    wasm_input_function_idx,
                    keep_value,
                },
            ),
        ensures
            final(counter)@ == old(counter)@ + phantom_step_count(callee_sig@),
            tracer matches Some(t) ==> final(t)@ == (TracerView {
                etable: t@.etable + phantom_steps(
                    PhantomCall {
                        current_sp,
                        allocated_memory_pages,
                        last_jump_eid,
                        fid,
                        callee_sig: callee_sig@,
                        wasm_input_function_idx,
                        keep_value,
                    },
                    t@.wasm_input_host_func_index->0,
                    t@.translation,
                    t@.etable.len(),
                ),
                ..t@
            }),
    {
        let t = match tracer {
            Some(t) => t,
            None => {
                Tracer::fill_trace_count(counter, callee_sig);
                return ;
            },
        };
        let ghost call = PhantomCall {
            current_sp,
            allocated_memory_pages,
            last_jump_eid,
            fid,
            callee_sig: callee_sig@,
            wasm_input_function_idx,
            keep_value,
        };
        let ghost before = t@;
        let ghost counted = counter@;
        let wasm_input_host_func_index: usize = match t.wasm_input_host_func_index {
            Some(index) => index,
            None => unreached(),
        };
        let ghost steps = phantom_steps(
            call,
            wasm_input_host_func_index,
            before.translation,
            before.etable.len(),
        );
        let inst = PhantomFunction::build_phantom_function_instructions(
            callee_sig,
            wasm_input_function_idx,
        );
        let mut iid: u32 = 0;
        while (iid as usize) < inst.len()
            invariant
                iid <= inst@.len() == phantom_step_count(callee_sig@),
                inst@ == phantom_instructions(callee_sig@, wasm_input_function_idx),
                callee_sig@.params.len() <= u32::MAX,
                can_record(before, call),
                call == (PhantomCall {
                    current_sp,
                    allocated_memory_pages,
                    last_jump_eid,
                    fid,
                    callee_sig: callee_sig@,
                    wasm_input_function_idx,
                    keep_value,
                }),
                before.wasm_input_host_func_index == Some(wasm_input_host_func_index),
                steps == phantom_steps(
                    call,
                    wasm_input_host_func_index,
                    before.translation,
                    before.etable.len(),
                ),
                counted + phantom_step_count(callee_sig@) <= usize::MAX,
                counter@ == counted + iid,
                t@ == (TracerView { etable: before.etable + steps.subrange(0, iid as int), ..before }),
            decreases inst@.len() - iid,
        {
            let instruction = inst[iid as usize];
            let step_info = PhantomFunction::step_info(
                instruction,
                callee_sig,
                wasm_input_host_func_index,
                keep_value,
            );
            let sp: u32 = if iid == 0 {
                current_sp
            } else {
                current_sp + 1
            };
            let step = StepInstruction {
                fid,
                iid,
                opcode: instruction.into_opcode(&t.function_index_translation),
            };
            t.etable.push(step, sp, allocated_memory_pages, last_jump_eid as u64, step_info);
            assert(t@.etable == before.etable + steps.subrange(0, iid + 1));
            add_trace_count(counter);

            iid += 1;
        }
        assert(steps.subrange(0, inst@.len() as int) == steps);
    }

    /// Counts the steps of the phantom function for a callee with the
    /// signature `callee_sig`, as `fill_trace` does, and records nothing.
    pub fn fill_trace_count(counter: &mut TraceCount, callee_sig: &Signature)
        requires
            old(counter)@ + phantom_step_count(callee_sig@) <= usize::MAX,
        ensures
            final(counter)@ == old(counter)@ + phantom_step_count(callee_sig@),
    {
        if let Some(return_type) = callee_sig.return_type() {
            add_trace_count(counter);
            add_trace_count(counter);
            if return_type != ValueType::I64 {
                add_trace_count(counter);
            }
        }
        add_trace_count(counter);
    }
}

} // verus!
