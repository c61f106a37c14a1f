//! The text of the instructions of x86-64, in the order of the
//! destination first: `mov rax, 42`, `lea ecx, [eax+ebx]`.
use vstd::prelude::*;
use crate::target::x64::instr::{InstrView, MemOp, Mnemonic, Operand, OperandView, X64MCInstr};
use crate::text::{decimal, push_decimal, push_signed_decimal, signed_decimal};

verus! {

/// The name of a mnemonic as it is printed. The start marker has none.
pub open spec fn mnemonic_text(m: Mnemonic) -> Seq<char> {
    match m {
        Mnemonic::Add => "add"@,
        Mnemonic::Sub => "sub"@,
        Mnemonic::And => "and"@,
        Mnemonic::Or => "or"@,
        Mnemonic::Xor => "xor"@,
        Mnemonic::Neg => "neg"@,
        Mnemonic::Cmp => "cmp"@,
        Mnemonic::Lea => "lea"@,
        Mnemonic::Mov => "mov"@,
        Mnemonic::Movzx => "movzx"@,
        Mnemonic::Push => "push"@,
        Mnemonic::Pop => "pop"@,
        Mnemonic::Ret => "ret"@,
        Mnemonic::Imul => "imul"@,
        Mnemonic::Mul => "mul"@,
        Mnemonic::Idiv => "idiv"@,
        Mnemonic::Div => "div"@,
        Mnemonic::Cqo => "cqo"@,
        Mnemonic::Call => "call"@,
        Mnemonic::Jmp => "jmp"@,
        Mnemonic::Jne => "jne"@,
        Mnemonic::Je => "je"@,
        Mnemonic::Sete => "sete"@,
        Mnemonic::Setne => "setne"@,
        Mnemonic::Setg => "setg"@,
        Mnemonic::Setl => "setl"@,
        Mnemonic::Setge => "setge"@,
        Mnemonic::Setle => "setle"@,
        Mnemonic::Link => "link"@,
        Mnemonic::StartOptimization => ""@,
    }
}

/// A number that continues a sum: with its sign in front.
pub open spec fn signed_term(v: int) -> Seq<char> {
    if v < 0 {
        signed_decimal(v)
    } else {
        "+"@ + decimal(v as nat)
    }
}

/// The registers of a memory operand as they are printed: the base, then
/// the index with a plus sign if a base stands in front of it, and the
/// scale behind a star unless it is 1. An operand relative to the
/// instruction pointer prints `rip`.
pub open spec fn mem_regs_text(m: MemOp) -> Seq<char> {
    let base = if m.rip {
        "rip"@
    } else {
        match m.base {
            Some(b) => b.name_spec(),
            None => ""@,
        }
    };
    let index = match m.index {
        Some(i) => (if m.rip || m.base is Some {
            "+"@
        } else {
            ""@
        }) + i.name_spec() + (if m.scale != 1 {
            "*"@ + decimal(m.scale as nat)
        } else {
            ""@
        }),
        None => ""@,
    };
    base + index
}

/// Whether a memory operand names a register or the instruction pointer.
pub open spec fn mem_has_regs(m: MemOp) -> bool {
    m.rip || m.base is Some || m.index is Some
}

/// The text of a memory operand: registers and displacement in
/// brackets. A displacement of zero is left out behind registers.
pub open spec fn mem_text(m: MemOp) -> Seq<char> {
    "["@ + mem_regs_text(m) + (if !mem_has_regs(m) {
        signed_decimal(m.displ as int)
    } else if m.displ != 0 {
        signed_term(m.displ as int)
    } else {
        ""@
    }) + "]"@
}

/// The text of an operand.
pub open spec fn operand_text(op: OperandView) -> Seq<char> {
    match op {
        OperandView::Imm(v) => signed_decimal(v as int),
        OperandView::Reg(r) => r.name_spec(),
        OperandView::Mem(m) => mem_text(m),
        OperandView::LinkDestination(name, addend) => name + ","@ + signed_decimal(addend as int),
        OperandView::BlockLinkDestination(name, addend) => name + ","@ + signed_decimal(
            addend as int,
        ),
    }
}

/// The text of an instruction: the mnemonic, a blank and the first operand
/// if there is one, a comma, a blank and the second operand if there is
/// one.
pub open spec fn instr_text(instr: InstrView) -> Seq<char> {
    mnemonic_text(instr.mnemonic) + (match instr.op1 {
        Some(op) => " "@ + operand_text(op),
        None => ""@,
    }) + (match instr.op2 {
        Some(op) => ", "@ + operand_text(op),
        None => ""@,
    })
}

fn mnemonic_name(m: Mnemonic) -> (r: &'static str)
    ensures
        r@ == mnemonic_text(m),
{
    match m {
        Mnemonic::Add => "add",
        Mnemonic::Sub => "sub",
        Mnemonic::And => "and",
        Mnemonic::Or => "or",
        Mnemonic::Xor => "xor",
        Mnemonic::Neg => "neg",
        Mnemonic::Cmp => "cmp",
        Mnemonic::Lea => "lea",
        Mnemonic::Mov => "mov",
        Mnemonic::Movzx => "movzx",
        Mnemonic::Push => "push",
        Mnemonic::Pop => "pop",
        Mnemonic::Ret => "ret",
        Mnemonic::Imul => "imul",
        Mnemonic::Mul => "mul",
        Mnemonic::Idiv => "idiv",
        Mnemonic::Div => "div",
        Mnemonic::Cqo => "cqo",
        Mnemonic::Call => "call",
        Mnemonic::Jmp => "jmp",
        Mnemonic::Jne => "jne",
        Mnemonic::Je => "je",
        Mnemonic::Sete => "sete",
        Mnemonic::Setne => "setne",
        Mnemonic::Setg => "setg",
        Mnemonic::Setl => "setl",
        Mnemonic::Setge => "setge",
        Mnemonic::Setle => "setle",
        Mnemonic::Link => "link",
        Mnemonic::StartOptimization => "",
    }
}

fn push_signed_term(s: &mut String, v: i64)
    ensures
        final(s)@ == old(s)@ + signed_term(v as int),
{
    if v < 0 {
        push_signed_decimal(s, v);
    } else {
        s.append("+");
        push_decimal(s, v as u64);
        assert(s@ =~= old(s)@ + signed_term(v as int));
    }
}

fn push_mem_regs(s: &mut String, m: &MemOp)
    ensures
        final(s)@ == old(s)@ + mem_regs_text(*m),
{
    proof {
        reveal_strlit("");
    }
    let mut any = false;
    if m.rip {
        s.append("rip");
        any = true;
    } else if let Some(b) = &m.base {
        let name = b.name();
        s.append(name.as_str());
        any = true;
    }
    if let Some(i) = &m.index {
        if any {
            s.append("+");
        }
        let name = i.name();
        s.append(name.as_str());
        if m.scale != 1 {
            s.append("*");
            push_decimal(s, m.scale as u64);
        }
    }
    assert(s@ =~= old(s)@ + mem_regs_text(*m));
}

fn push_mem(s: &mut String, m: &MemOp)
    ensures
        final(s)@ == old(s)@ + mem_text(*m),
{
    proof {
        reveal_strlit("");
    }
    s.append("[");
    push_mem_regs(s, m);
    if !(m.rip || m.base.is_some() || m.index.is_some()) {
        push_signed_decimal(s, m.displ);
    } else if m.displ != 0 {
        push_signed_term(s, m.displ);
    }
    s.append("]");
    assert(s@ =~= old(s)@ + mem_text(*m));
}

fn push_operand(s: &mut String, op: &Operand)
    ensures
        final(s)@ == old(s)@ + operand_text(op@),
{
    match op {
        Operand::Imm(v) => {
            push_signed_decimal(s, *v);
        },
        Operand::Reg(r) => {
            let name = r.name();
            s.append(name.as_str());
        },
        Operand::Mem(m) => {
            push_mem(s, m);
        },
        Operand::LinkDestination(name, addend) => {
            s.append(name.as_str());
            s.append(",");
            push_signed_decimal(s, *addend);
            assert(s@ =~= old(s)@ + operand_text(op@));
        },
        Operand::BlockLinkDestination(name, addend) => {
            s.append(name.as_str());
            s.append(",");
            push_signed_decimal(s, *addend);
            assert(s@ =~= old(s)@ + operand_text(op@));
        },
    }
}

impl X64MCInstr {
    /// The text of the instruction.
    pub fn to_string(&self) -> (r: String)
        ensures
            r@ == instr_text(self@),
    {
        proof {
            reveal_strlit("");
        }
        let mut s = String::new();
        s.append(mnemonic_name(self.mnemonic));
        if let Some(op) = &self.op1 {
            s.append(" ");
            push_operand(&mut s, op);
        }
        if let Some(op) = &self.op2 {
            s.append(", ");
            push_operand(&mut s, op);
        }
        assert(s@ =~= instr_text(self@));
        s
    }
}

} // verus!
