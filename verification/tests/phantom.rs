use std::collections::HashMap;
use wasm_tracer::etable::{EventTableEntry, StepInfo, StepInstruction};
use wasm_tracer::instance::{FuncInstance, FuncInstanceInternal, FuncRef, ModuleInstance, ModuleRef};
use wasm_tracer::isa::{DropKeep, Instruction, Opcode};
use wasm_tracer::phantom::{
    add_trace_count, get_trace_count, reset_trace_count, PhantomFunction, TraceCount,
};
use wasm_tracer::tracer::Tracer;
use wasm_tracer::types::{HostFunctionDesc, HostPlugin, Signature, ValueType};

fn sig(params: Vec<ValueType>, return_type: Option<ValueType>) -> Signature {
    Signature::new(params, return_type)
}

fn host_function(raw: u64, host_func_index: usize) -> FuncInstance {
    FuncInstance {
        reference: FuncRef(raw),
        signature: sig(vec![ValueType::I32], Some(ValueType::I64)),
        internal: FuncInstanceInternal::Host { host_func_index },
    }
}

fn bytecode_function(raw: u64, body: Vec<Instruction>) -> FuncInstance {
    FuncInstance {
        reference: FuncRef(raw),
        signature: sig(vec![], None),
        internal: FuncInstanceInternal::Internal { body },
    }
}

/// A tracer that knows a module of eight functions, the last of which, at
/// the raw index 7, is the host's input function with the host index 7.
fn tracer_with_input_function() -> Tracer {
    let mut plugins = HashMap::new();
    plugins.insert(
        7usize,
        HostFunctionDesc {
            name: "wasm_input".to_owned(),
            op_index_in_plugin: 0,
            plugin: HostPlugin::HostInput,
        },
    );
    let mut tracer = Tracer::new(plugins);
    let mut funcs = Vec::new();
    for raw in 0..7u64 {
        funcs.push(bytecode_function(100 + raw, vec![Instruction::Plain { code: 1, immediate: 0 }]));
    }
    funcs.push(host_function(107, 7));
    let module = ModuleInstance { reference: ModuleRef(1), start_function: None, funcs };
    assert!(tracer.accepts_module(&module));
    tracer.register_module_instance(&module);
    tracer.wasm_input_host_func_index = Some(7);
    tracer
}

fn input_call_info(ret_val: u64) -> StepInfo {
    StepInfo::CallHost {
        plugin: HostPlugin::HostInput,
        host_function_idx: 7,
        function_name: "wasm_input".to_owned(),
        signature: sig(vec![ValueType::I32], Some(ValueType::I64)),
        args: vec![0],
        ret_val: Some(ret_val),
        op_index_in_plugin: 0,
    }
}

fn input_call_opcode() -> Opcode {
    Opcode::InternalHostCall {
        index: 8,
        plugin: HostPlugin::HostInput,
        function_index: 7,
        op_index_in_plugin: 0,
    }
}

#[test]
fn counter_starts_at_zero_and_read_drains_it() {
    let mut counter = TraceCount::new();
    assert_eq!(get_trace_count(&mut counter), 0);
    add_trace_count(&mut counter);
    add_trace_count(&mut counter);
    add_trace_count(&mut counter);
    assert_eq!(get_trace_count(&mut counter), 3);
    assert_eq!(get_trace_count(&mut counter), 0);
    assert_eq!(TraceCount::default(), TraceCount::new());
}

#[test]
fn reset_leaves_the_count_as_it_is() {
    let mut counter = TraceCount::new();
    add_trace_count(&mut counter);
    add_trace_count(&mut counter);
    reset_trace_count(&mut counter);
    assert_eq!(counter.headroom(), usize::MAX - 2);
    assert_eq!(get_trace_count(&mut counter), 2);
}

#[test]
fn phantom_function_without_return_value_is_a_single_return() {
    let callee = sig(vec![ValueType::I32, ValueType::I64], None);
    let instructions = PhantomFunction::build_phantom_function_instructions(&callee, 7);
    assert_eq!(instructions, vec![Instruction::Return(DropKeep { drop: 2, keep: None })]);
}

#[test]
fn phantom_function_returning_i64_has_no_narrowing() {
    let callee = sig(vec![], Some(ValueType::I64));
    let instructions = PhantomFunction::build_phantom_function_instructions(&callee, 7);
    assert_eq!(
        instructions,
        vec![
            Instruction::I32Const(0),
            Instruction::Call(7),
            Instruction::Return(DropKeep { drop: 0, keep: Some(ValueType::I64) }),
        ]
    );
}

#[test]
fn phantom_function_returning_i32_narrows() {
    let callee = sig(vec![ValueType::I32], Some(ValueType::I32));
    let instructions = PhantomFunction::build_phantom_function_instructions(&callee, 3);
    assert_eq!(
        instructions,
        vec![
            Instruction::I32Const(0),
            Instruction::Call(3),
            Instruction::I32WrapI64,
            Instruction::Return(DropKeep { drop: 1, keep: Some(ValueType::I32) }),
        ]
    );
}

#[test]
fn phantom_function_returning_a_float_narrows_too() {
    let callee = sig(vec![], Some(ValueType::F64));
    let instructions = PhantomFunction::build_phantom_function_instructions(&callee, 3);
    assert_eq!(instructions.len(), 4);
    assert_eq!(instructions[2], Instruction::I32WrapI64);
    assert_eq!(
        instructions[3],
        Instruction::Return(DropKeep { drop: 0, keep: Some(ValueType::F64) })
    );
}

#[test]
fn counts_agree_with_and_without_tracing() {
    let signatures = vec![
        (sig(vec![ValueType::I32], None), 1usize),
        (sig(vec![], Some(ValueType::I64)), 3),
        (sig(vec![ValueType::I64], Some(ValueType::I32)), 4),
        (sig(vec![], Some(ValueType::F32)), 4),
    ];
    for (callee, expected) in signatures.iter() {
        let mut counter = TraceCount::new();
        Tracer::fill_trace(None, &mut counter, 5, 1, 0, 9, callee, 7, Some(42));
        assert_eq!(get_trace_count(&mut counter), *expected);

        Tracer::fill_trace_count(&mut counter, callee);
        assert_eq!(get_trace_count(&mut counter), *expected);

        let mut tracer = tracer_with_input_function();
        Tracer::fill_trace(Some(&mut tracer), &mut counter, 5, 1, 0, 9, callee, 7, Some(42));
        assert_eq!(get_trace_count(&mut counter), *expected);
        assert_eq!(tracer.etable.entries().len(), *expected);
    }
}

#[test]
fn counts_add_up_over_several_calls() {
    let mut counter = TraceCount::new();
    Tracer::fill_trace_count(&mut counter, &sig(vec![], None));
    Tracer::fill_trace_count(&mut counter, &sig(vec![], Some(ValueType::I64)));
    Tracer::fill_trace(None, &mut counter, 0, 0, 0, 0, &sig(vec![], Some(ValueType::I32)), 0, None);
    assert_eq!(get_trace_count(&mut counter), 8);
}

#[test]
fn tracing_disabled_records_nothing_and_needs_no_value() {
    let mut counter = TraceCount::new();
    let callee = sig(vec![], Some(ValueType::I64));
    Tracer::fill_trace(None, &mut counter, u32::MAX, 1, 0, 9, &callee, 7, None);
    assert_eq!(get_trace_count(&mut counter), 3);
}

#[test]
fn fill_trace_i64_scenario() {
    let mut tracer = tracer_with_input_function();
    let mut counter = TraceCount::new();
    let callee = sig(vec![], Some(ValueType::I64));
    Tracer::fill_trace(Some(&mut tracer), &mut counter, 10, 2, 0, 20, &callee, 7, Some(42));

    let expected = vec![
        EventTableEntry {
            eid: 1,
            sp: 10,
            allocated_memory_pages: 2,
            last_jump_eid: 0,
            inst: StepInstruction { fid: 20, iid: 0, opcode: Opcode::I32Const { value: 0 } },
            step_info: StepInfo::I32Const { value: 0 },
        },
        EventTableEntry {
            eid: 2,
            sp: 11,
            allocated_memory_pages: 2,
            last_jump_eid: 0,
            inst: StepInstruction { fid: 20, iid: 1, opcode: input_call_opcode() },
            step_info: input_call_info(42),
        },
        EventTableEntry {
            eid: 3,
            sp: 11,
            allocated_memory_pages: 2,
            last_jump_eid: 0,
            inst: StepInstruction {
                fid: 20,
                iid: 2,
                opcode: Opcode::Return { drop: 0, keep: Some(ValueType::I64) },
            },
            step_info: StepInfo::Return {
                drop: 0,
                keep: vec![ValueType::I64],
                keep_values: vec![42],
            },
        },
    ];
    assert_eq!(tracer.etable.entries(), &expected);
    assert_eq!(get_trace_count(&mut counter), 3);
}

#[test]
fn fill_trace_i32_scenario() {
    let mut tracer = tracer_with_input_function();
    let mut counter = TraceCount::new();
    let callee = sig(vec![], Some(ValueType::I32));
    Tracer::fill_trace(Some(&mut tracer), &mut counter, 10, 2, 0, 20, &callee, 7, Some(42));

    let entries = tracer.etable.entries();
    assert_eq!(entries.len(), 4);
    assert_eq!(entries[0].step_info, StepInfo::I32Const { value: 0 });
    assert_eq!(entries[1].step_info, input_call_info(42));
    assert_eq!(entries[2].inst, StepInstruction { fid: 20, iid: 2, opcode: Opcode::I32WrapI64 });
    assert_eq!(entries[2].step_info, StepInfo::I32WrapI64 { value: 42, result: 42 });
    assert_eq!(entries[2].sp, 11);
    assert_eq!(
        entries[3].inst,
        StepInstruction {
            fid: 20,
            iid: 3,
            opcode: Opcode::Return { drop: 0, keep: Some(ValueType::I32) },
        }
    );
    assert_eq!(
        entries[3].step_info,
        StepInfo::Return { drop: 0, keep: vec![ValueType::I32], keep_values: vec![42] }
    );
    assert_eq!(entries[3].sp, 11);
    assert_eq!(entries[3].eid, 4);
    assert_eq!(get_trace_count(&mut counter), 4);
}

#[test]
fn narrowing_keeps_the_low_bits_and_their_sign() {
    let mut tracer = tracer_with_input_function();
    let mut counter = TraceCount::new();
    let callee = sig(vec![], Some(ValueType::I32));
    let kept = 0xffff_ffff_8000_0001u64;
    Tracer::fill_trace(Some(&mut tracer), &mut counter, 0, 1, 0, 20, &callee, 7, Some(kept));
    assert_eq!(
        tracer.etable.entries()[2].step_info,
        StepInfo::I32WrapI64 { value: -0x7fff_ffff, result: -0x7fff_ffff }
    );
    assert_eq!(tracer.etable.entries()[1].step_info, input_call_info(kept));
}

#[test]
fn fill_trace_without_return_value_records_the_return_alone() {
    let mut tracer = tracer_with_input_function();
    let mut counter = TraceCount::new();
    let callee = sig(vec![ValueType::I32, ValueType::I32], None);
    Tracer::fill_trace(Some(&mut tracer), &mut counter, u32::MAX, 3, 0, 20, &callee, 7, None);
    let expected = vec![EventTableEntry {
        eid: 1,
        sp: u32::MAX,
        allocated_memory_pages: 3,
        last_jump_eid: 0,
        inst: StepInstruction {
            fid: 20,
            iid: 0,
            opcode: Opcode::Return { drop: 2, keep: None },
        },
        step_info: StepInfo::Return { drop: 2, keep: vec![], keep_values: vec![] },
    }];
    assert_eq!(tracer.etable.entries(), &expected);
    assert_eq!(get_trace_count(&mut counter), 1);
}

#[test]
fn phantom_steps_follow_the_steps_already_recorded() {
    let mut tracer = tracer_with_input_function();
    let mut counter = TraceCount::new();
    let callee = sig(vec![], Some(ValueType::I64));
    Tracer::fill_trace(Some(&mut tracer), &mut counter, 10, 2, 0, 20, &callee, 7, Some(1));
    tracer.push_frame();
    let tag = tracer.last_jump_eid();
    assert_eq!(tag, 3);
    Tracer::fill_trace(Some(&mut tracer), &mut counter, 4, 2, tag as u32, 21, &callee, 7, Some(2));
    let entries = tracer.etable.entries();
    assert_eq!(entries.len(), 6);
    for (place, entry) in entries.iter().enumerate() {
        assert_eq!(entry.eid, place as u64 + 1);
    }
    assert_eq!(entries[3].last_jump_eid, 3);
    assert_eq!(entries[5].last_jump_eid, 3);
    assert_eq!(entries[4].step_info, input_call_info(2));
    assert_eq!(tracer.eid(), 6);
    assert_eq!(get_trace_count(&mut counter), 6);
}

#[test]
fn fill_trace_leaves_the_other_tables_alone() {
    let mut tracer = tracer_with_input_function();
    let itable = tracer.itable.entries().clone();
    let mut counter = TraceCount::new();
    let callee = sig(vec![], Some(ValueType::I64));
    Tracer::fill_trace(Some(&mut tracer), &mut counter, 10, 2, 0, 20, &callee, 7, Some(42));
    assert_eq!(tracer.itable.entries(), &itable);
    assert!(tracer.imtable.entries().is_empty());
    assert_eq!(tracer.last_jump_eid(), 0);
    assert_eq!(tracer.next_module_id(), 2);
}
