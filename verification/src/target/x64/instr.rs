//! The machine instructions of x86-64 as the lowering emits them: a
//! mnemonic and up to two operands.
use vstd::prelude::*;
use vstd::std_specs::cmp::PartialEqSpecImpl;
use crate::target::x64::reg::x64Reg;

verus! {

/// The operation of a machine instruction, or one of the two pseudo
/// instructions `Link` and `StartOptimization` that produce no bytes.
#[derive(Debug, Clone, Copy, PartialEq, Eq, Hash, Structural)]
pub enum Mnemonic {
    Add,
    Sub,
    And,
    Or,
    Xor,
    Neg,
    Cmp,
    Lea,
    Mov,
    Movzx,
    Push,
    Pop,
    Ret,
    Imul,
    Mul,
    Idiv,
    Div,
    Cqo,
    Call,
    Jmp,
    Jne,
    Je,
    Sete,
    Setne,
    Setg,
    Setl,
    Setge,
    Setle,
    /// Carries the relocation of the instruction in front of it.
    Link,
    /// Marks the start of a stream; the optimizer rewrites nothing across it.
    StartOptimization,
}

/// A memory operand: `[base + index * scale + displ]`, or `[rip + displ]`
/// when `rip` is set.
#[derive(Debug, Clone, Copy, PartialEq, Eq, Hash, Structural)]
pub struct MemOp {
    /// The base register.
    pub base: Option<x64Reg>,
    /// The index register.
    pub index: Option<x64Reg>,
    /// The factor of the index register: 1, 2, 4 or 8.
    pub scale: u8,
    /// The displacement.
    pub displ: i64,
    /// Whether the operand is relative to the instruction pointer.
    pub rip: bool,
}

impl MemOp {
    /// The stack slot `[base - off]`.
    pub open spec fn below(base: x64Reg, off: u32) -> MemOp {
        MemOp { base: Some(base), index: None, scale: 1, displ: -(off as int) as i64, rip: false }
    }

    /// The sum of two registers, `[base + index]`.
    pub open spec fn sum(base: x64Reg, index: x64Reg) -> MemOp {
        MemOp { base: Some(base), index: Some(index), scale: 1, displ: 0, rip: false }
    }

    /// The operand `[rip + displ]`.
    pub open spec fn rip_relative(displ: i64) -> MemOp {
        MemOp { base: None, index: None, scale: 1, displ, rip: true }
    }

    /// Whether the operand reads a register of the family of `reg`.
    pub open spec fn reads(self, reg: x64Reg) -> bool {
        ||| (self.base matches Some(b) && b.family() == reg.family())
        ||| (self.index matches Some(i) && i.family() == reg.family())
    }

    /// The stack slot `[base - off]`.
    pub fn base_minus(base: x64Reg, off: u32) -> (r: MemOp)
        ensures
            r == Self::below(base, off),
    {
        MemOp { base: Some(base), index: None, scale: 1, displ: -(off as i64), rip: false }
    }

    /// The sum of two registers, `[base + index]`.
    pub fn base_plus(base: x64Reg, index: x64Reg) -> (r: MemOp)
        ensures
            r == Self::sum(base, index),
    {
        MemOp { base: Some(base), index: Some(index), scale: 1, displ: 0, rip: false }
    }

    /// The operand `[rip + displ]`.
    pub fn rip_plus(displ: i64) -> (r: MemOp)
        ensures
            r == Self::rip_relative(displ),
    {
        MemOp { base: None, index: None, scale: 1, displ, rip: true }
    }

    /// Whether the operand reads a register of the family of `reg`.
    pub fn uses_reg(&self, reg: &x64Reg) -> (r: bool)
        ensures
            r == self.reads(*reg),
    {
        let in_base = match &self.base {
            Some(b) => b.same_family(reg),
            None => false,
        };
        let in_index = match &self.index {
            Some(i) => i.same_family(reg),
            None => false,
        };
        in_base || in_index
    }
}

/// An operand of a machine instruction.
#[derive(Debug, Eq, Hash)]
pub enum Operand {
    /// An immediate value.
    Imm(i64),
    /// A register.
    Reg(x64Reg),
    /// A place in memory.
    Mem(MemOp),
    /// A symbol that a relocation refers to, and the addend of the relocation.
    LinkDestination(String, i64),
    /// A block that a relocation refers to, and the addend of the relocation.
    BlockLinkDestination(String, i64),
}

/// What an operand denotes: names are the texts they hold.
pub enum OperandView {
    Imm(i64),
    Reg(x64Reg),
    Mem(MemOp),
    LinkDestination(Seq<char>, i64),
    BlockLinkDestination(Seq<char>, i64),
}

impl View for Operand {
    type V = OperandView;

    open spec fn view(&self) -> OperandView {
        match self {
            Operand::Imm(v) => OperandView::Imm(*v),
            Operand::Reg(r) => OperandView::Reg(*r),
            Operand::Mem(m) => OperandView::Mem(*m),
            Operand::LinkDestination(name, addend) => OperandView::LinkDestination(name@, *addend),
            Operand::BlockLinkDestination(name, addend) => OperandView::BlockLinkDestination(
                name@,
                *addend,
            ),
        }
    }
}

impl OperandView {
    /// Whether the operand reads a register of the family of `reg`.
    pub open spec fn reads(self, reg: x64Reg) -> bool {
        match self {
            OperandView::Reg(r) => r.family() == reg.family(),
            OperandView::Mem(m) => m.reads(reg),
            _ => false,
        }
    }
}

/// What an optional operand denotes.
pub open spec fn opt_view(op: Option<Operand>) -> Option<OperandView> {
    match op {
        Some(o) => Some(o@),
        None => None,
    }
}

impl Operand {
    /// Whether the operand reads a register of the family of `reg`.
    pub fn uses_reg(&self, reg: &x64Reg) -> (r: bool)
        ensures
            r == self@.reads(*reg),
    {
        match self {
            Operand::Reg(r) => r.same_family(reg),
            Operand::Mem(m) => m.uses_reg(reg),
            _ => false,
        }
    }

    /// Whether the operand is a place in memory.
    pub fn is_mem(&self) -> (r: bool)
        ensures
            r == (self@ is Mem),
    {
        match self {
            Operand::Mem(_) => true,
            _ => false,
        }
    }

    /// Compares two optional operands.
    pub fn opt_eq(a: &Option<Operand>, b: &Option<Operand>) -> (r: bool)
        ensures
            r == (opt_view(*a) == opt_view(*b)),
    {
        match (a, b) {
            (Some(x), Some(y)) => x == y,
            (None, None) => true,
            _ => false,
        }
    }

    /// Copies an optional operand.
    pub fn opt_clone(a: &Option<Operand>) -> (r: Option<Operand>)
        ensures
            r == *a,
    {
        match a {
            Some(x) => Some(x.clone()),
            None => None,
        }
    }
}

impl Clone for Operand {
    fn clone(&self) -> (r: Self)
        ensures
            r == *self,
    {
        match self {
            Operand::Imm(v) => Operand::Imm(*v),
            Operand::Reg(reg) => Operand::Reg(*reg),
            Operand::Mem(mem) => Operand::Mem(*mem),
            Operand::LinkDestination(name, addend) => Operand::LinkDestination(
                name.clone(),
                *addend,
            ),
            Operand::BlockLinkDestination(name, addend) => Operand::BlockLinkDestination(
                name.clone(),
                *addend,
            ),
        }
    }
}

impl PartialEq for Operand {
    fn eq(&self, other: &Self) -> (r: bool) {
        match (self, other) {
            (Operand::Imm(a), Operand::Imm(b)) => *a == *b,
            (Operand::Reg(a), Operand::Reg(b)) => *a == *b,
            (Operand::Mem(a), Operand::Mem(b)) => *a == *b,
            (Operand::LinkDestination(a, x), Operand::LinkDestination(b, y)) => *a == *b && *x
                == *y,
            (Operand::BlockLinkDestination(a, x), Operand::BlockLinkDestination(b, y)) => *a == *b
                && *x == *y,
            _ => false,
        }
    }
}

impl PartialEqSpecImpl for Operand {
    open spec fn obeys_eq_spec() -> bool {
        true
    }

    open spec fn eq_spec(&self, other: &Self) -> bool {
        self@ == other@
    }
}

/// A machine instruction of x86-64.
#[derive(Debug, Eq, Hash)]
pub struct X64MCInstr {
    /// The operation.
    pub mnemonic: Mnemonic,
    /// The first operand: the destination where there is one.
    pub op1: Option<Operand>,
    /// The second operand: the source.
    pub op2: Option<Operand>,
}

/// The instruction type that the optimizer works on.
pub type Instr = X64MCInstr;

/// What a machine instruction denotes.
pub struct InstrView {
    pub mnemonic: Mnemonic,
    pub op1: Option<OperandView>,
    pub op2: Option<OperandView>,
}

impl View for X64MCInstr {
    type V = InstrView;

    open spec fn view(&self) -> InstrView {
        InstrView { mnemonic: self.mnemonic, op1: opt_view(self.op1), op2: opt_view(self.op2) }
    }
}

impl InstrView {
    /// The instruction without operands.
    pub open spec fn with0(mnemonic: Mnemonic) -> InstrView {
        InstrView { mnemonic, op1: None, op2: None }
    }

    /// The instruction with one operand.
    pub open spec fn with1(mnemonic: Mnemonic, op: OperandView) -> InstrView {
        InstrView { mnemonic, op1: Some(op), op2: None }
    }

    /// The instruction with two operands.
    pub open spec fn with2(mnemonic: Mnemonic, op1: OperandView, op2: OperandView) -> InstrView {
        InstrView { mnemonic, op1: Some(op1), op2: Some(op2) }
    }

    /// Whether the instruction undoes what `prev`, the instruction in front
    /// of it, did: a `pop` after a `push`, a `sub` after an `add` or an `add`
    /// after a `sub`, each with the same operands.
    pub open spec fn inverts(self, prev: InstrView) -> bool {
        &&& self.op1 == prev.op1
        &&& self.op2 == prev.op2
        &&& ((prev.mnemonic == Mnemonic::Push && self.mnemonic == Mnemonic::Pop)
            || (prev.mnemonic == Mnemonic::Add && self.mnemonic == Mnemonic::Sub)
            || (prev.mnemonic == Mnemonic::Sub && self.mnemonic == Mnemonic::Add))
    }
}

impl X64MCInstr {
    /// Creates the instruction without operands
    pub fn with0(mnemonic: Mnemonic) -> (r: Self)
        ensures
            r@ == InstrView::with0(mnemonic),
    {
        X64MCInstr { mnemonic, op1: None, op2: None }
    }

    /// Creates the instruction with one operand
    pub fn with1(mnemonic: Mnemonic, op: Operand) -> (r: Self)
        ensures
            r@ == InstrView::with1(mnemonic, op@),
    {
        X64MCInstr { mnemonic, op1: Some(op), op2: None }
    }

    /// Creates the instruction with two operands
    pub fn with2(mnemonic: Mnemonic, op1: Operand, op2: Operand) -> (r: Self)
        ensures
            r@ == InstrView::with2(mnemonic, op1@, op2@),
    {
        X64MCInstr { mnemonic, op1: Some(op1), op2: Some(op2) }
    }

    /// Returns if the instruction undoes the instruction in front of it
    pub fn invert_of(&self, prev: &X64MCInstr) -> (r: bool)
        ensures
            r == self@.inverts(prev@),
    {
        let paired = match (prev.mnemonic, self.mnemonic) {
            (Mnemonic::Push, Mnemonic::Pop) => true,
            (Mnemonic::Add, Mnemonic::Sub) => true,
            (Mnemonic::Sub, Mnemonic::Add) => true,
            _ => false,
        };
        paired && Operand::opt_eq(&self.op1, &prev.op1) && Operand::opt_eq(&self.op2, &prev.op2)
    }
}

impl Clone for X64MCInstr {
    fn clone(&self) -> (r: Self)
        ensures
            r == *self,
    {
        X64MCInstr {
            mnemonic: self.mnemonic,
            op1: Operand::opt_clone(&self.op1),
            op2: Operand::opt_clone(&self.op2),
        }
    }
}

impl PartialEq for X64MCInstr {
    fn eq(&self, other: &Self) -> (r: bool) {
        self.mnemonic == other.mnemonic && Operand::opt_eq(&self.op1, &other.op1)
            && Operand::opt_eq(&self.op2, &other.op2)
    }
}

impl PartialEqSpecImpl for X64MCInstr {
    open spec fn obeys_eq_spec() -> bool {
        true
    }

    open spec fn eq_spec(&self, other: &Self) -> bool {
        self@ == other@
    }
}

/// What a stream of instructions denotes: the instructions one by one.
pub open spec fn stream_view(s: Seq<X64MCInstr>) -> Seq<InstrView> {
    s.map_values(|i: X64MCInstr| i@)
}

} // verus!
