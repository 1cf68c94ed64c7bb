//! Value types, function signatures and the descriptors under which the
//! tracer files every function of a module.

use vstd::prelude::*;

verus! {

/// The type of a WebAssembly value.
#[derive(Clone, Copy, Debug, PartialEq, Eq, Structural, Hash)]
pub enum ValueType {
    /// 32-bit integer.
    I32,
    /// 64-bit integer.
    I64,
    /// 32-bit floating point number.
    F32,
    /// 64-bit floating point number.
    F64,
}

/// A runtime value. Floating point values are carried as their bit pattern.
#[derive(Clone, Copy, Debug, PartialEq, Eq, Structural, Hash)]
pub enum Value {
    I32(i32),
    I64(i64),
    F32(u32),
    F64(u64),
}

impl Value {
    /// The type of this value.
    pub open spec fn spec_value_type(self) -> ValueType {
        match self {
            Value::I32(_) => ValueType::I32,
            Value::I64(_) => ValueType::I64,
            Value::F32(_) => ValueType::F32,
            Value::F64(_) => ValueType::F64,
        }
    }

    /// The canonical 64-bit encoding of this value: the two's complement
    /// bits of an integer, or the bit pattern of a float, in the low bits of
    /// the result, with zeroes above them.
    pub open spec fn spec_to_bits(self) -> int {
        match self {
            Value::I32(v) => if v >= 0 { v as int } else { v + 0x1_0000_0000 },
            Value::I64(v) => if v >= 0 { v as int } else { v + 0x1_0000_0000_0000_0000 },
            Value::F32(bits) => bits as int,
            Value::F64(bits) => bits as int,
        }
    }

    /// The type of this value.
    #[verifier::when_used_as_spec(spec_value_type)]
    pub fn value_type(self) -> (t: ValueType)
        ensures
            t == self.spec_value_type(),
    {
        match self {
            Value::I32(_) => ValueType::I32,
            Value::I64(_) => ValueType::I64,
            Value::F32(_) => ValueType::F32,
            Value::F64(_) => ValueType::F64,
        }
    }

    /// The canonical 64-bit encoding of this value.
    pub fn to_bits(self) -> (bits: u64)
        ensures
            bits == self.spec_to_bits(),
    {
        match self {
            Value::I32(v) => {
                if v >= 0 {
                    v as u64
                } else {
                    let lifted: i64 = v as i64 + 0x1_0000_0000;
                    lifted as u64
                }
            },
            Value::I64(v) => {
                if v >= 0 {
                    v as u64
                } else {
                    let above_min: u64 = (v - i64::MIN) as u64;
                    above_min + 0x8000_0000_0000_0000
                }
            },
            Value::F32(bits) => bits as u64,
            Value::F64(bits) => bits,
        }
    }
}

/// The value of `bits` read as a signed 64-bit integer.
pub open spec fn spec_reinterpret_i64(bits: u64) -> int {
    if bits < 0x8000_0000_0000_0000 {
        bits as int
    } else {
        bits - 0x1_0000_0000_0000_0000
    }
}

/// The low 32 bits of `bits` read as a signed 32-bit integer.
pub open spec fn spec_wrap_i32(bits: u64) -> int {
    let low = bits as int % 0x1_0000_0000;
    if low < 0x8000_0000 {
        low
    } else {
        low - 0x1_0000_0000
    }
}

/// Reads `bits` as a signed 64-bit integer.
pub fn reinterpret_i64(bits: u64) -> (v: i64)
    ensures
        v == spec_reinterpret_i64(bits),
{
    if bits < 0x8000_0000_0000_0000 {
        bits as i64
    } else {
        let above: i64 = (bits - 0x8000_0000_0000_0000) as i64;
        above + i64::MIN
    }
}

/// Narrows `bits` to 32 bits and reads them as a signed integer.
pub fn wrap_i32(bits: u64) -> (v: i32)
    ensures
        v == spec_wrap_i32(bits),
{
    let low: u64 = bits % 0x1_0000_0000;
    if low < 0x8000_0000 {
        low as i32
    } else {
        let above: i32 = (low - 0x8000_0000) as i32;
        above + i32::MIN
    }
}

/// The mathematical content of a [`Signature`].
pub struct SignatureView {
    pub params: Seq<ValueType>,
    pub return_type: Option<ValueType>,
}

/// The declared parameter types and return type of a function.
#[derive(Debug, PartialEq, Eq)]
pub struct Signature {
    pub params: Vec<ValueType>,
    pub return_type: Option<ValueType>,
}

impl View for Signature {
    type V = SignatureView;

    open spec fn view(&self) -> SignatureView {
        SignatureView { params: self.params@, return_type: self.return_type }
    }
}

impl Clone for Signature {
    fn clone(&self) -> (copy: Self)
        ensures
            copy@ == self@,
    {
        let mut params: Vec<ValueType> = Vec::new();
        let mut i: usize = 0;
        while i < self.params.len()
            invariant
                i <= self.params.len(),
                params@ == self.params@.subrange(0, i as int),
            decreases self.params.len() - i,
        {
            params.push(self.params[i]);
            i = i + 1;
        }
        assert(params@ == self.params@);
        Signature { params, return_type: self.return_type }
    }
}

impl Signature {
    pub fn new(params: Vec<ValueType>, return_type: Option<ValueType>) -> (sig: Self)
        ensures
            sig@ == (SignatureView { params: params@, return_type }),
    {
        Signature { params, return_type }
    }

    pub fn params(&self) -> (params: &[ValueType])
        ensures
            params@ == self@.params,
    {
        self.params.as_slice()
    }

    pub fn return_type(&self) -> (return_type: Option<ValueType>)
        ensures
            return_type == self@.return_type,
    {
        self.return_type
    }
}

/// The plugin that provides a host function.
#[derive(Clone, Copy, Debug, PartialEq, Eq, Structural, Hash)]
pub enum HostPlugin {
    /// The plugin that hands external input to the guest.
    HostInput,
    /// Any other plugin, by its number in the host's registry.
    Extension(u32),
}

/// The mathematical content of a [`HostFunctionDesc`].
pub struct HostFunctionDescView {
    pub name: Seq<char>,
    pub op_index_in_plugin: usize,
    pub plugin: HostPlugin,
}

/// What the host's registry knows of one host function.
#[derive(Debug, PartialEq, Eq)]
pub struct HostFunctionDesc {
    pub name: String,
    pub op_index_in_plugin: usize,
    pub plugin: HostPlugin,
}

impl View for HostFunctionDesc {
    type V = HostFunctionDescView;

    open spec fn view(&self) -> HostFunctionDescView {
        HostFunctionDescView {
            name: self.name@,
            op_index_in_plugin: self.op_index_in_plugin,
            plugin: self.plugin,
        }
    }
}

impl Clone for HostFunctionDesc {
    fn clone(&self) -> (copy: Self)
        ensures
            copy@ == self@,
    {
        HostFunctionDesc {
            name: self.name.clone(),
            op_index_in_plugin: self.op_index_in_plugin,
            plugin: self.plugin,
        }
    }
}

/// The mathematical content of a [`FunctionType`].
pub enum FunctionTypeView {
    WasmFunction,
    HostFunction {
        plugin: HostPlugin,
        function_index: usize,
        function_name: Seq<char>,
        op_index_in_plugin: usize,
    },
}

/// Whether a function is bytecode of the module or provided by the host.
#[derive(Debug, PartialEq, Eq)]
pub enum FunctionType {
    WasmFunction,
    HostFunction {
        plugin: HostPlugin,
        function_index: usize,
        function_name: String,
        op_index_in_plugin: usize,
    },
}

impl View for FunctionType {
    type V = FunctionTypeView;

    open spec fn view(&self) -> FunctionTypeView {
        match *self {
            FunctionType::WasmFunction => FunctionTypeView::WasmFunction,
            FunctionType::HostFunction {
                plugin,
                function_index,
                function_name,
                op_index_in_plugin,
            } => FunctionTypeView::HostFunction {
                plugin,
                function_index,
                function_name: function_name@,
                op_index_in_plugin,
            },
        }
    }
}

impl Clone for FunctionType {
    fn clone(&self) -> (copy: Self)
        ensures
            copy@ == self@,
    {
        match self {
            FunctionType::WasmFunction => FunctionType::WasmFunction,
            FunctionType::HostFunction {
                plugin,
                function_index,
                function_name,
                op_index_in_plugin,
            } => FunctionType::HostFunction {
                plugin: *plugin,
                function_index: *function_index,
                function_name: function_name.clone(),
                op_index_in_plugin: *op_index_in_plugin,
            },
        }
    }
}

/// The mathematical content of a [`FuncDesc`].
pub struct FuncDescView {
    pub index_within_jtable: u16,
    pub ftype: FunctionTypeView,
    pub signature: SignatureView,
}

/// The tracer's record of one function: its stable id, its kind and its
/// signature. It is made when the function's module is registered and never
/// changed afterwards.
#[derive(Debug, PartialEq, Eq)]
pub struct FuncDesc {
    pub index_within_jtable: u16,
    pub ftype: FunctionType,
    pub signature: Signature,
}

impl View for FuncDesc {
    type V = FuncDescView;

    open spec fn view(&self) -> FuncDescView {
        FuncDescView {
            index_within_jtable: self.index_within_jtable,
            ftype: self.ftype@,
            signature: self.signature@,
        }
    }
}

impl Clone for FuncDesc {
    fn clone(&self) -> (copy: Self)
        ensures
            copy@ == self@,
    {
        FuncDesc {
            index_within_jtable: self.index_within_jtable,
            ftype: self.ftype.clone(),
            signature: self.signature.clone(),
        }
    }
}

} // verus!
