//! What the interpreter hands to the tracer: the instances of a running
//! program, as plain data. An instance is known by its reference; two
//! references are the same instance exactly when they are equal.

use crate::isa::Instruction;
use crate::types::{Signature, SignatureView, Value};
use vstd::prelude::*;

verus! {

/// The identity of a module instance.
#[derive(Clone, Copy, Debug, PartialEq, Eq, Structural, Hash)]
pub struct ModuleRef(pub u64);

/// The identity of a memory instance.
#[derive(Clone, Copy, Debug, PartialEq, Eq, Structural, Hash)]
pub struct MemoryRef(pub u64);

/// The identity of a global instance.
#[derive(Clone, Copy, Debug, PartialEq, Eq, Structural, Hash)]
pub struct GlobalRef(pub u64);

/// The identity of a function instance.
#[derive(Clone, Copy, Debug, PartialEq, Eq, Structural, Hash)]
pub struct FuncRef(pub u64);

/// The mathematical content of a [`FuncInstanceInternal`].
pub enum FuncInstanceInternalView {
    Internal { body: Seq<Instruction> },
    Host { host_func_index: usize },
}

/// What stands behind a function: its decoded body, or the raw index under
/// which the host knows it.
#[derive(Debug, PartialEq, Eq)]
pub enum FuncInstanceInternal {
    Internal { body: Vec<Instruction> },
    Host { host_func_index: usize },
}

impl View for FuncInstanceInternal {
    type V = FuncInstanceInternalView;

    open spec fn view(&self) -> FuncInstanceInternalView {
        match *self {
            FuncInstanceInternal::Internal { body } => FuncInstanceInternalView::Internal {
                body: body@,
            },
            FuncInstanceInternal::Host { host_func_index } => FuncInstanceInternalView::Host {
                host_func_index,
            },
        }
    }
}

/// The mathematical content of a [`FuncInstance`].
pub struct FuncInstanceView {
    pub reference: FuncRef,
    pub signature: SignatureView,
    pub internal: FuncInstanceInternalView,
}

impl FuncInstanceView {
    /// The number of instructions in the function's body; 0 for a host
    /// function.
    pub open spec fn body_len(self) -> nat {
        match self.internal {
            FuncInstanceInternalView::Internal { body } => body.len(),
            FuncInstanceInternalView::Host { .. } => 0,
        }
    }
}

/// One function of a module instance.
#[derive(Debug, PartialEq, Eq)]
pub struct FuncInstance {
    pub reference: FuncRef,
    pub signature: Signature,
    pub internal: FuncInstanceInternal,
}

impl View for FuncInstance {
    type V = FuncInstanceView;

    open spec fn view(&self) -> FuncInstanceView {
        FuncInstanceView {
            reference: self.reference,
            signature: self.signature@,
            internal: self.internal@,
        }
    }
}

impl FuncInstance {
    pub fn signature(&self) -> (signature: &Signature)
        ensures
            signature@ == self@.signature,
    {
        &self.signature
    }

    pub fn as_internal(&self) -> (internal: &FuncInstanceInternal)
        ensures
            internal@ == self@.internal,
    {
        &self.internal
    }

    /// The decoded body, if the function is bytecode.
    pub fn body(&self) -> (body: Option<&Vec<Instruction>>)
        ensures
            match body {
                Some(code) => self@.internal == (FuncInstanceInternalView::Internal {
                    body: code@,
                }),
                None => self@.internal is Host,
            },
    {
        match &self.internal {
            FuncInstanceInternal::Internal { body } => Some(body),
            FuncInstanceInternal::Host { .. } => None,
        }
    }
}

/// The mathematical content of a [`ModuleInstance`].
pub struct ModuleInstanceView {
    pub reference: ModuleRef,
    pub start_function: Option<u32>,
    pub funcs: Seq<FuncInstanceView>,
}

/// A module instance: its functions in the interpreter's order, and the raw
/// index of the function that the module declares as its start function.
#[derive(Debug, PartialEq, Eq)]
pub struct ModuleInstance {
    pub reference: ModuleRef,
    pub start_function: Option<u32>,
    pub funcs: Vec<FuncInstance>,
}

impl View for ModuleInstance {
    type V = ModuleInstanceView;

    open spec fn view(&self) -> ModuleInstanceView {
        ModuleInstanceView {
            reference: self.reference,
            start_function: self.start_function,
            funcs: self.funcs@.map_values(|func: FuncInstance| func@),
        }
    }
}

impl ModuleInstance {
    /// The function with the raw index `index`, if the module has one.
    pub fn func_by_index(&self, index: u32) -> (func: Option<&FuncInstance>)
        ensures
            match func {
                Some(found) => index < self@.funcs.len() && found@ == self@.funcs[index as int],
                None => index >= self@.funcs.len(),
            },
    {
        if (index as usize) < self.funcs.len() {
            Some(&self.funcs[index as usize])
        } else {
            None
        }
    }
}

/// A global instance: its declared mutability and its current value, whose
/// type is the global's declared type.
#[derive(Clone, Copy, Debug, PartialEq, Eq, Structural, Hash)]
pub struct GlobalInstance {
    pub reference: GlobalRef,
    pub is_mutable: bool,
    pub value: Value,
}

} // verus!
