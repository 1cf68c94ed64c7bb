//! The instructions that the tracer reads from a function body, and the
//! opcodes that it writes into its tables.

use crate::types::{FuncDesc, FuncDescView, FunctionType, FunctionTypeView, HostPlugin, ValueType};
use std::collections::HashMap;
use vstd::pervasive::unreached;
use vstd::prelude::*;

verus! {

/// What a `return` does to the value stack: how many values it discards and
/// which single value, if any, it keeps on top.
#[derive(Clone, Copy, Debug, PartialEq, Eq, Structural, Hash)]
pub struct DropKeep {
    pub drop: u32,
    pub keep: Option<ValueType>,
}

/// One decoded instruction of a function body. A call names its callee by
/// the index that the interpreter uses inside the module.
#[derive(Clone, Copy, Debug, PartialEq, Eq, Structural, Hash)]
pub enum Instruction {
    /// Push a 32-bit constant.
    I32Const(i32),
    /// Call the function with this raw index.
    Call(u32),
    /// Narrow the 64-bit integer on top of the stack to 32 bits.
    I32WrapI64,
    /// Return to the caller.
    Return(DropKeep),
    /// Any instruction that names no function: its numeric code and its
    /// immediate operand pass through the tracer untouched.
    Plain { code: u16, immediate: u64 },
}

/// An instruction as the tables hold it: a call names its callee by stable id.
#[derive(Clone, Copy, Debug, PartialEq, Eq, Structural, Hash)]
pub enum Opcode {
    I32Const { value: i32 },
    /// A call of a bytecode function.
    Call { index: u16 },
    /// A call of a function that the host provides.
    InternalHostCall {
        index: u16,
        plugin: HostPlugin,
        function_index: usize,
        op_index_in_plugin: usize,
    },
    I32WrapI64,
    Return { drop: u32, keep: Option<ValueType> },
    Plain { code: u16, immediate: u64 },
}

/// The views of the descriptors in a translation table.
pub open spec fn translation_view(table: Map<u32, FuncDesc>) -> Map<u32, FuncDescView> {
    table.map_values(|desc: FuncDesc| desc@)
}

/// The opcode of a call whose callee has the descriptor `callee`.
pub open spec fn call_opcode(callee: FuncDescView) -> Opcode {
    match callee.ftype {
        FunctionTypeView::WasmFunction => Opcode::Call { index: callee.index_within_jtable },
        FunctionTypeView::HostFunction { plugin, function_index, function_name, op_index_in_plugin } =>
            Opcode::InternalHostCall {
                index: callee.index_within_jtable,
                plugin,
                function_index,
                op_index_in_plugin,
            },
    }
}

impl Instruction {
    /// Whether every function that this instruction names has a descriptor
    /// in `translation`.
    pub open spec fn resolved_by(self, translation: Map<u32, FuncDescView>) -> bool {
        self matches Instruction::Call(raw_index) ==> translation.contains_key(raw_index)
    }

    /// This instruction as the tables hold it: the same instruction, but a
    /// call names its callee by the stable id that `translation` gives it.
    pub open spec fn spec_opcode(self, translation: Map<u32, FuncDescView>) -> Opcode {
        match self {
            Instruction::I32Const(value) => Opcode::I32Const { value },
            Instruction::Call(raw_index) => call_opcode(translation[raw_index]),
            Instruction::I32WrapI64 => Opcode::I32WrapI64,
            Instruction::Return(drop_keep) => Opcode::Return {
                drop: drop_keep.drop,
                keep: drop_keep.keep,
            },
            Instruction::Plain { code, immediate } => Opcode::Plain { code, immediate },
        }
    }

    /// Rewrites this instruction for the tables.
    pub fn into_opcode(self, translation: &HashMap<u32, FuncDesc>) -> (opcode: Opcode)
        requires
            self.resolved_by(translation_view(translation@)),
        ensures
            opcode == self.spec_opcode(translation_view(translation@)),
    {
        broadcast use vstd::std_specs::hash::group_hash_axioms;

        match self {
            Instruction::I32Const(value) => Opcode::I32Const { value },
            Instruction::Call(raw_index) => {
                let found = translation.get(&raw_index);
                match found {
                    Some(callee) => {
                        match &callee.ftype {
                            FunctionType::WasmFunction => Opcode::Call {
                                index: callee.index_within_jtable,
                            },
                            FunctionType::HostFunction {
                                plugin,
                                function_index,
                                function_name,
                                op_index_in_plugin,
                            } => Opcode::InternalHostCall {
                                index: callee.index_within_jtable,
                                plugin: *plugin,
                                function_index: *function_index,
                                op_index_in_plugin: *op_index_in_plugin,
                            },
                        }
                    },
                    None => unreached(),
                }
            },
            Instruction::I32WrapI64 => Opcode::I32WrapI64,
            Instruction::Return(drop_keep) => Opcode::Return {
                drop: drop_keep.drop,
                keep: drop_keep.keep,
            },
            Instruction::Plain { code, immediate } => Opcode::Plain { code, immediate },
        }
    }
}

} // verus!
