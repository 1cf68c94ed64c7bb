//! Which instructions a module uses.

use crate::instance::{FuncInstanceInternalView, ModuleInstance, ModuleInstanceView};
use crate::isa::Instruction;
use crate::tracer::Tracer;
use vstd::pervasive::unreached;
use vstd::prelude::*;

verus! {

/// The elements of `list`, each once, in the order in which they first
/// occur.
pub open spec fn distinct(list: Seq<Instruction>) -> Seq<Instruction>
    decreases list.len(),
{
    if list.len() == 0 {
        Seq::empty()
    } else {
        let earlier = distinct(list.drop_last());
        if earlier.contains(list.last()) {
            earlier
        } else {
            earlier.push(list.last())
        }
    }
}

/// The bodies of the first `count` functions of `module`, one after the
/// other.
pub open spec fn all_instructions(module: ModuleInstanceView, count: int) -> Seq<Instruction>
    decreases count,
{
    if count <= 0 {
        Seq::empty()
    } else {
        all_instructions(module, count - 1) + match module.funcs[count - 1].internal {
            FuncInstanceInternalView::Internal { body } => body,
            FuncInstanceInternalView::Host { .. } => Seq::empty(),
        }
    }
}

/// Every function of `module` is bytecode.
pub open spec fn all_bytecode(module: ModuleInstanceView) -> bool {
    forall|i: int| 0 <= i < module.funcs.len() ==> (#[trigger] module.funcs[i]).internal is Internal
}

impl Tracer {
    /// The instructions that the bodies of a module use, each once, in the
    /// order in which they first occur.
    pub fn statistics_instructions(&mut self, module_instance: &ModuleInstance) -> (insts: Vec<
        Instruction,
    >)
        requires
            all_bytecode(module_instance@),
            module_instance@.funcs.len() <= u32::MAX,
        ensures
            insts@ == distinct(
                all_instructions(module_instance@, module_instance@.funcs.len() as int),
            ),
            *final(self) == *old(self),
    {
        let ghost module = module_instance@;
        let mut func_index: u32 = 0;
        let mut insts: Vec<Instruction> = Vec::new();

        loop
            invariant
                module == module_instance@,
                all_bytecode(module),
                module.funcs.len() <= u32::MAX,
                func_index <= module.funcs.len(),
                insts@ == distinct(all_instructions(module, func_index as int)),
            ensures
                func_index == module.funcs.len(),
            decreases module.funcs.len() - func_index,
        {
            let func = match module_instance.func_by_index(func_index) {
                Some(func) => func,
                None => {
                    break ;
                },
            };
            let code = match func.body() {
                Some(code) => code,
                None => unreached(),
            };
            let ghost earlier = all_instructions(module, func_index as int);
            let mut pc: usize = 0;
            while pc < code.len()
                invariant
                    pc <= code.len(),
                    insts@ == distinct(earlier + code@.subrange(0, pc as int)),
                decreases code.len() - pc,
            {
                let inst = code[pc];
                let ghost seen = earlier + code@.subrange(0, pc as int);
                let ghost grown = earlier + code@.subrange(0, pc + 1);
                assert(grown.drop_last() == seen);
                let mut found = false;
                let mut k: usize = 0;
                while k < insts.len()
                    invariant
                        k <= insts.len(),
                        found == exists|j: int| 0 <= j < k && insts@[j] == inst,
                    decreases insts.len() - k,
                {
                    if insts[k] == inst {
                        found = true;
                    }
                    k = k + 1;
                }
                if !found {
                    insts.push(inst);
                }
                pc = pc + 1;
            }
            assert(code@.subrange(0, code@.len() as int) == code@);

            func_index = func_index + 1;
        }

        insts
    }
}

} // verus!
