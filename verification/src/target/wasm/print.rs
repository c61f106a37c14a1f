//! The text of the instructions of WebAssembly: `i32.add`,
//! `local.get 3`, `br_if done`.
use vstd::prelude::*;
use crate::target::wasm::instr::{
    WasmInstrView, WasmMCInstr, WasmMnemonic, WasmOperand, WasmOperandView, WasmPrefix,
};
use crate::text::{push_signed_decimal, signed_decimal};

verus! {

/// The name of a value type, or `local`.
pub open spec fn prefix_text(t: WasmPrefix) -> Seq<char> {
    match t {
        WasmPrefix::i32 => "i32"@,
        WasmPrefix::i64 => "i64"@,
        WasmPrefix::fp32 => "fp32"@,
        WasmPrefix::fp64 => "fp64"@,
        WasmPrefix::Local => "local"@,
    }
}

/// The name of an operation.
pub open spec fn wasm_mnemonic_text(m: WasmMnemonic) -> Seq<char> {
    match m {
        WasmMnemonic::Get => "get"@,
        WasmMnemonic::Put => "set"@,
        WasmMnemonic::Tee => "tee"@,
        WasmMnemonic::Const => "const"@,
        WasmMnemonic::Add => "add"@,
        WasmMnemonic::Sub => "sub"@,
        WasmMnemonic::Mul => "mul"@,
        WasmMnemonic::Div => "div"@,
        WasmMnemonic::Rem => "rem"@,
        WasmMnemonic::And => "and"@,
        WasmMnemonic::Or => "or"@,
        WasmMnemonic::Xor => "xor"@,
        WasmMnemonic::Shl => "shl"@,
        WasmMnemonic::Shr => "shr"@,
        WasmMnemonic::Neg => "neg"@,
        WasmMnemonic::Eq => "eq"@,
        WasmMnemonic::Ne => "ne"@,
        WasmMnemonic::Gt => "gt"@,
        WasmMnemonic::Lt => "lt"@,
        WasmMnemonic::Ge => "ge"@,
        WasmMnemonic::Le => "le"@,
        WasmMnemonic::Select => "select"@,
        WasmMnemonic::Convert(from) => "convert_"@ + prefix_text(from),
        WasmMnemonic::Load => "load"@,
        WasmMnemonic::Store => "store"@,
        WasmMnemonic::Br => "br"@,
        WasmMnemonic::BrIf => "br_if"@,
        WasmMnemonic::Call => "call"@,
        WasmMnemonic::Return => "return"@,
    }
}

/// Whether the name of an operation on integers says how the operands
/// are read.
pub open spec fn names_sign(t: Option<WasmPrefix>, m: WasmMnemonic) -> bool {
    &&& (t == Some(WasmPrefix::i32) || t == Some(WasmPrefix::i64))
    &&& (m == WasmMnemonic::Div || m == WasmMnemonic::Rem || m == WasmMnemonic::Shr || m
        == WasmMnemonic::Gt || m == WasmMnemonic::Lt || m == WasmMnemonic::Ge || m
        == WasmMnemonic::Le)
}

/// The text of an operand.
pub open spec fn wasm_operand_text(op: WasmOperandView) -> Seq<char> {
    match op {
        WasmOperandView::Var(n) => signed_decimal(n as int),
        WasmOperandView::Const(v) => signed_decimal(v as int),
        WasmOperandView::Label(name) => name,
    }
}

/// The text of an instruction: the prefix and a dot if there is a prefix,
/// the name of the operation, `_s` or `_u` where the name says how the
/// operands are read, and a blank and the operand if there is one.
pub open spec fn wasm_instr_text(instr: WasmInstrView) -> Seq<char> {
    (match instr.prefix {
        Some(t) => prefix_text(t) + "."@,
        None => ""@,
    }) + wasm_mnemonic_text(instr.mnemonic) + (if names_sign(instr.prefix, instr.mnemonic) {
        if instr.signed {
            "_s"@
        } else {
            "_u"@
        }
    } else {
        ""@
    }) + (match instr.op1 {
        Some(op) => " "@ + wasm_operand_text(op),
        None => ""@,
    })
}

fn prefix_name(t: WasmPrefix) -> (r: &'static str)
    ensures
        r@ == prefix_text(t),
{
    match t {
        WasmPrefix::i32 => "i32",
        WasmPrefix::i64 => "i64",
        WasmPrefix::fp32 => "fp32",
        WasmPrefix::fp64 => "fp64",
        WasmPrefix::Local => "local",
    }
}

fn push_mnemonic(s: &mut String, m: WasmMnemonic)
    ensures
        final(s)@ == old(s)@ + wasm_mnemonic_text(m),
{
    let name = match m {
        WasmMnemonic::Get => "get",
        WasmMnemonic::Put => "set",
        WasmMnemonic::Tee => "tee",
        WasmMnemonic::Const => "const",
        WasmMnemonic::Add => "add",
        WasmMnemonic::Sub => "sub",
        WasmMnemonic::Mul => "mul",
        WasmMnemonic::Div => "div",
        WasmMnemonic::Rem => "rem",
        WasmMnemonic::And => "and",
        WasmMnemonic::Or => "or",
        WasmMnemonic::Xor => "xor",
        WasmMnemonic::Shl => "shl",
        WasmMnemonic::Shr => "shr",
        WasmMnemonic::Neg => "neg",
        WasmMnemonic::Eq => "eq",
        WasmMnemonic::Ne => "ne",
        WasmMnemonic::Gt => "gt",
        WasmMnemonic::Lt => "lt",
        WasmMnemonic::Ge => "ge",
        WasmMnemonic::Le => "le",
        WasmMnemonic::Select => "select",
        WasmMnemonic::Convert(from) => {
            s.append("convert_");
            s.append(prefix_name(from));
            assert(s@ =~= old(s)@ + wasm_mnemonic_text(m));
            return ;
        },
        WasmMnemonic::Load => "load",
        WasmMnemonic::Store => "store",
        WasmMnemonic::Br => "br",
        WasmMnemonic::BrIf => "br_if",
        WasmMnemonic::Call => "call",
        WasmMnemonic::Return => "return",
    };
    s.append(name);
}

fn sign_named(t: &Option<WasmPrefix>, m: WasmMnemonic) -> (r: bool)
    ensures
        r == names_sign(*t, m),
{
    let whole = match t {
        Some(WasmPrefix::i32) => true,
        Some(WasmPrefix::i64) => true,
        _ => false,
    };
    let varies = match m {
        WasmMnemonic::Div
        | WasmMnemonic::Rem
        | WasmMnemonic::Shr
        | WasmMnemonic::Gt
        | WasmMnemonic::Lt
        | WasmMnemonic::Ge
        | WasmMnemonic::Le => true,
        _ => false,
    };
    whole && varies
}

impl WasmMCInstr {
    /// The text of the instruction.
    pub fn to_string(&self) -> (r: String)
        ensures
            r@ == wasm_instr_text(self@),
    {
        proof {
            reveal_strlit("");
        }
        let mut s = String::new();
        if let Some(t) = self.prefix {
            s.append(prefix_name(t));
            s.append(".");
        }
        push_mnemonic(&mut s, self.mnemonic);
        if sign_named(&self.prefix, self.mnemonic) {
            if self.signed {
                s.append("_s");
            } else {
                s.append("_u");
            }
        }
        if let Some(op) = &self.op1 {
            s.append(" ");
            match op {
                WasmOperand::Var(n) => push_signed_decimal(&mut s, *n),
                WasmOperand::Const(v) => push_signed_decimal(&mut s, *v),
                WasmOperand::Label(name) => s.append(name.as_str()),
            }
        }
        assert(s@ =~= wasm_instr_text(self@));
        s
    }
}

} // verus!
