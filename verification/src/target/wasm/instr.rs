//! The instructions of WebAssembly as the lowering emits them: a stack
//! machine whose values live in numbered locals.
use vstd::prelude::*;
use vstd::std_specs::cmp::PartialEqSpecImpl;
use crate::ir::types::TypeMetadata;

verus! {

/// What an instruction works on: one of the four value types, or the
/// locals.
#[derive(Debug, Clone, Copy, PartialEq, Eq, Hash, Structural)]
pub enum WasmPrefix {
    i32,
    i64,
    fp32,
    fp64,
    Local,
}

/// The operation of an instruction.
#[derive(Debug, Clone, Copy, PartialEq, Eq, Hash, Structural)]
pub enum WasmMnemonic {
    /// Pushes a local.
    Get,
    /// Pops into a local: `local.set`.
    Put,
    /// Copies the top of the stack into a local.
    Tee,
    /// Pushes a constant.
    Const,
    Add,
    Sub,
    Mul,
    Div,
    Rem,
    And,
    Or,
    Xor,
    Shl,
    Shr,
    Neg,
    Eq,
    Ne,
    Gt,
    Lt,
    Ge,
    Le,
    /// Pops a condition and two values and pushes the first value if the
    /// condition is not zero, else the second.
    Select,
    /// Converts the value on the stack from the given type to the type of
    /// the prefix.
    Convert(WasmPrefix),
    Load,
    Store,
    Br,
    BrIf,
    Call,
    Return,
}

/// The operand of an instruction.
#[derive(Debug, Eq, Hash)]
pub enum WasmOperand {
    /// The number of a local.
    Var(i64),
    /// A constant.
    Const(i64),
    /// The name of a function, block or symbol.
    Label(String),
}

/// What an operand denotes.
pub enum WasmOperandView {
    Var(i64),
    Const(i64),
    Label(Seq<char>),
}

impl View for WasmOperand {
    type V = WasmOperandView;

    open spec fn view(&self) -> WasmOperandView {
        match self {
            WasmOperand::Var(n) => WasmOperandView::Var(*n),
            WasmOperand::Const(v) => WasmOperandView::Const(*v),
            WasmOperand::Label(name) => WasmOperandView::Label(name@),
        }
    }
}

impl Clone for WasmOperand {
    fn clone(&self) -> (r: Self)
        ensures
            r == *self,
    {
        match self {
            WasmOperand::Var(n) => WasmOperand::Var(*n),
            WasmOperand::Const(v) => WasmOperand::Const(*v),
            WasmOperand::Label(name) => WasmOperand::Label(name.clone()),
        }
    }
}

impl PartialEq for WasmOperand {
    fn eq(&self, other: &Self) -> (r: bool) {
        match (self, other) {
            (WasmOperand::Var(a), WasmOperand::Var(b)) => *a == *b,
            (WasmOperand::Const(a), WasmOperand::Const(b)) => *a == *b,
            (WasmOperand::Label(a), WasmOperand::Label(b)) => *a == *b,
            _ => false,
        }
    }
}

impl PartialEqSpecImpl for WasmOperand {
    open spec fn obeys_eq_spec() -> bool {
        true
    }

    open spec fn eq_spec(&self, other: &Self) -> bool {
        self@ == other@
    }
}

/// An instruction of WebAssembly.
#[derive(Debug, PartialEq, Eq, Hash)]
pub struct WasmMCInstr {
    /// What the instruction works on.
    pub prefix: Option<WasmPrefix>,
    /// The operation.
    pub mnemonic: WasmMnemonic,
    /// The operand.
    pub op1: Option<WasmOperand>,
    /// Whether the operation reads its operands as signed numbers, where
    /// that makes a difference.
    pub signed: bool,
}

/// What an instruction denotes.
pub struct WasmInstrView {
    pub prefix: Option<WasmPrefix>,
    pub mnemonic: WasmMnemonic,
    pub op1: Option<WasmOperandView>,
    pub signed: bool,
}

/// What an operand that may be absent denotes.
pub open spec fn wasm_opt_view(op: Option<WasmOperand>) -> Option<WasmOperandView> {
    match op {
        Some(o) => Some(o@),
        None => None,
    }
}

impl View for WasmMCInstr {
    type V = WasmInstrView;

    open spec fn view(&self) -> WasmInstrView {
        WasmInstrView {
            prefix: self.prefix,
            mnemonic: self.mnemonic,
            op1: wasm_opt_view(self.op1),
            signed: self.signed,
        }
    }
}

impl Clone for WasmMCInstr {
    fn clone(&self) -> (r: Self)
        ensures
            r == *self,
    {
        WasmMCInstr {
            prefix: self.prefix,
            mnemonic: self.mnemonic,
            op1: match &self.op1 {
                Some(op) => Some(op.clone()),
                None => None,
            },
            signed: self.signed,
        }
    }
}

impl WasmInstrView {
    /// An instruction on values of a type, without operand.
    pub open spec fn typed(
        prefix: WasmPrefix,
        mnemonic: WasmMnemonic,
        signed: bool,
    ) -> WasmInstrView {
        WasmInstrView { prefix: Some(prefix), mnemonic, op1: None, signed }
    }

    /// An instruction on a local.
    pub open spec fn local(mnemonic: WasmMnemonic, index: i64) -> WasmInstrView {
        WasmInstrView {
            prefix: Some(WasmPrefix::Local),
            mnemonic,
            op1: Some(WasmOperandView::Var(index)),
            signed: false,
        }
    }

    /// The instruction that pushes a constant of a type.
    pub open spec fn constant(prefix: WasmPrefix, value: i64) -> WasmInstrView {
        WasmInstrView {
            prefix: Some(prefix),
            mnemonic: WasmMnemonic::Const,
            op1: Some(WasmOperandView::Const(value)),
            signed: false,
        }
    }

    /// An instruction that names a function, block or symbol.
    pub open spec fn labelled(
        prefix: Option<WasmPrefix>,
        mnemonic: WasmMnemonic,
        name: Seq<char>,
    ) -> WasmInstrView {
        WasmInstrView { prefix, mnemonic, op1: Some(WasmOperandView::Label(name)), signed: false }
    }

    /// An instruction without prefix and operand.
    pub open spec fn bare(mnemonic: WasmMnemonic) -> WasmInstrView {
        WasmInstrView { prefix: None, mnemonic, op1: None, signed: false }
    }
}

impl WasmMCInstr {
    /// An instruction on values of a type, without operand.
    pub fn typed(prefix: WasmPrefix, mnemonic: WasmMnemonic, signed: bool) -> (r: Self)
        ensures
            r@ == WasmInstrView::typed(prefix, mnemonic, signed),
    {
        WasmMCInstr { prefix: Some(prefix), mnemonic, op1: None, signed }
    }

    /// An instruction on a local.
    pub fn local(mnemonic: WasmMnemonic, index: i64) -> (r: Self)
        ensures
            r@ == WasmInstrView::local(mnemonic, index),
    {
        WasmMCInstr {
            prefix: Some(WasmPrefix::Local),
            mnemonic,
            op1: Some(WasmOperand::Var(index)),
            signed: false,
        }
    }

    /// The instruction that pushes a constant of a type.
    pub fn constant(prefix: WasmPrefix, value: i64) -> (r: Self)
        ensures
            r@ == WasmInstrView::constant(prefix, value),
    {
        WasmMCInstr {
            prefix: Some(prefix),
            mnemonic: WasmMnemonic::Const,
            op1: Some(WasmOperand::Const(value)),
            signed: false,
        }
    }

    /// An instruction that names a function, block or symbol.
    pub fn labelled(prefix: Option<WasmPrefix>, mnemonic: WasmMnemonic, name: String) -> (r: Self)
        ensures
            r@ == WasmInstrView::labelled(prefix, mnemonic, name@),
    {
        WasmMCInstr { prefix, mnemonic, op1: Some(WasmOperand::Label(name)), signed: false }
    }

    /// An instruction without prefix and operand.
    pub fn bare(mnemonic: WasmMnemonic) -> (r: Self)
        ensures
            r@ == WasmInstrView::bare(mnemonic),
    {
        WasmMCInstr { prefix: None, mnemonic, op1: None, signed: false }
    }
}

/// The value type that holds a value of a type of the intermediate
/// representation: `i32` for integers up to 32 bits, `i64` for wider
/// integers and pointers, and the two floating point types.
pub open spec fn prefix_of(ty: TypeMetadata) -> WasmPrefix {
    match ty {
        TypeMetadata::fp32 => WasmPrefix::fp32,
        TypeMetadata::fp64 => WasmPrefix::fp64,
        _ => if ty.bits() <= 32 {
            WasmPrefix::i32
        } else {
            WasmPrefix::i64
        },
    }
}

/// Returns the value type that holds a value of a type
pub fn prefix_for(ty: TypeMetadata) -> (r: WasmPrefix)
    ensures
        r == prefix_of(ty),
{
    match ty {
        TypeMetadata::fp32 => WasmPrefix::fp32,
        TypeMetadata::fp64 => WasmPrefix::fp64,
        _ => if ty.bitSize() <= 32 {
            WasmPrefix::i32
        } else {
            WasmPrefix::i64
        },
    }
}

/// What a stream of instructions denotes.
pub open spec fn wasm_stream_view(s: Seq<WasmMCInstr>) -> Seq<WasmInstrView> {
    s.map_values(|i: WasmMCInstr| i@)
}

} // verus!
