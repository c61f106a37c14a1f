//! Lowering of portable machine instructions to x86-64: one rule per
//! mnemonic, each a fixed pattern of instructions over the operands.
use vstd::prelude::*;
use vstd::std_specs::convert::FromSpecImpl;
use crate::codegen::calling::MachineCallingConvention;
use crate::codegen::error::{LowerError, LowerErrorView};
use crate::codegen::mc::{MCInstr, from_x64, mc_view, wrap_x64};
use crate::codegen::machine::{
    CmpMode, MachineInstr, MachineInstrView, MachineMnemonic, MachineMnemonicView, MachineOperand,
    Reg, SwitchCase, cases_view, machine_view,
};
use crate::ir::types::TypeMetadata;
use crate::target::triple::{Arch, CallConv};
use crate::target::x64::instr::{
    InstrView, MemOp, Mnemonic, Operand, OperandView, X64MCInstr, opt_view, stream_view,
};
use crate::target::x64::optimizer::{
    Optimize, is_linkable, lemma_peephole_keeps_links, peephole, well_linked,
};
use crate::target::x64::reg::x64Reg;

verus! {

/// The addend of a relocation relative to the instruction pointer: the four
/// bytes of the field itself, which the processor has read by the time it
/// adds the field to the address of the next instruction.
pub const PC_REL_ADDEND: i64 = -4;

impl From<MachineOperand> for Operand {
    fn from(value: MachineOperand) -> (r: Self) {
        match value {
            MachineOperand::Stack(stack) => Operand::Mem(
                MemOp::base_minus(x64Reg::Rbp, #[verifier::truncate] (stack as u32)),
            ),
            MachineOperand::Imm(imm) => Operand::Imm(imm),
            MachineOperand::Reg(reg) => match reg {
                Reg::x64(x64_reg) => Operand::Reg(x64_reg),
            },
        }
    }
}

impl FromSpecImpl<MachineOperand> for Operand {
    open spec fn obeys_from_spec() -> bool {
        true
    }

    /// A stack slot becomes the memory below the frame pointer at the low
    /// 32 bits of its offset; constants and registers stay what they are.
    open spec fn from_spec(value: MachineOperand) -> Operand {
        match value {
            MachineOperand::Stack(stack) => Operand::Mem(MemOp::below(x64Reg::Rbp, stack as u32)),
            MachineOperand::Imm(imm) => Operand::Imm(imm),
            MachineOperand::Reg(Reg::x64(reg)) => Operand::Reg(reg),
        }
    }
}

/// The operand of x86-64 that stands for a portable operand.
pub open spec fn x64_operand(op: MachineOperand) -> OperandView {
    match op {
        MachineOperand::Stack(stack) => OperandView::Mem(MemOp::below(x64Reg::Rbp, stack as u32)),
        MachineOperand::Imm(imm) => OperandView::Imm(imm),
        MachineOperand::Reg(Reg::x64(reg)) => OperandView::Reg(reg),
    }
}

/// The input operand at a position, if the instruction has that many.
pub open spec fn arg(instr: MachineInstrView, i: int) -> Option<OperandView> {
    if 0 <= i < instr.operands.len() {
        Some(x64_operand(instr.operands[i]))
    } else {
        None
    }
}

/// The output operand, if the instruction has one.
pub open spec fn dst(instr: MachineInstrView) -> Option<OperandView> {
    match instr.out {
        Some(o) => Some(x64_operand(o)),
        None => None,
    }
}

/// The alias of `rax` that holds a value of the type: the scratch register
/// of the lowering.
pub open spec fn scratch(ty: TypeMetadata) -> OperandView {
    OperandView::Reg(x64Reg::Rax.alias_for(ty))
}

/// `mov dst, src`.
pub open spec fn mov(dst: OperandView, src: OperandView) -> InstrView {
    InstrView::with2(Mnemonic::Mov, dst, src)
}

/// The relocation record for a symbol.
pub open spec fn link_symbol(name: Seq<char>) -> InstrView {
    InstrView::with1(Mnemonic::Link, OperandView::LinkDestination(name, PC_REL_ADDEND))
}

/// The relocation record for a block.
pub open spec fn link_block(name: Seq<char>) -> InstrView {
    InstrView::with1(Mnemonic::Link, OperandView::BlockLinkDestination(name, PC_REL_ADDEND))
}

/// A move: `mov out, src`, through the scratch register where both are in
/// memory.
pub open spec fn lowered_move(src: OperandView, out: OperandView, ty: TypeMetadata) -> Seq<
    InstrView,
> {
    if src is Mem && out is Mem {
        seq![mov(scratch(ty), src), mov(out, scratch(ty))]
    } else {
        seq![mov(out, src)]
    }
}

/// Addition, subtraction and the bitwise operations: the first operand goes
/// to the scratch register, the operation works on it, the result goes to
/// the output.
pub open spec fn lowered_binary(
    op: Mnemonic,
    lhs: OperandView,
    rhs: OperandView,
    out: OperandView,
    ty: TypeMetadata,
) -> Seq<InstrView> {
    seq![mov(scratch(ty), lhs), InstrView::with2(op, scratch(ty), rhs), mov(out, scratch(ty))]
}

/// Whether `rdx` is saved around a multiplication or division: always,
/// unless the result goes to an alias of `rdx`.
pub open spec fn saves_rdx(out: OperandView) -> bool {
    !(out matches OperandView::Reg(r) && r.family() == x64Reg::Rdx.family())
}

/// Whether the second operand of a multiplication or division is first
/// brought into an alias of `rbx`: constants and memory are.
pub open spec fn needs_factor_reg(rhs: OperandView) -> bool {
    rhs is Imm || rhs is Mem
}

/// The operand that the multiplication or division instruction names.
pub open spec fn factor(rhs: OperandView, ty: TypeMetadata) -> OperandView {
    if needs_factor_reg(rhs) {
        OperandView::Reg(x64Reg::Rbx.alias_for(ty))
    } else {
        rhs
    }
}

/// What stands in front of the multiplication or division instruction.
pub open spec fn wide_op_entry(
    lhs: OperandView,
    rhs: OperandView,
    out: OperandView,
    ty: TypeMetadata,
) -> Seq<InstrView> {
    let save = if saves_rdx(out) {
        seq![InstrView::with1(Mnemonic::Push, OperandView::Reg(x64Reg::Rdx))]
    } else {
        seq![]
    };
    let load = if needs_factor_reg(rhs) {
        seq![mov(OperandView::Reg(x64Reg::Rbx.alias_for(ty)), rhs)]
    } else {
        seq![]
    };
    save + seq![mov(scratch(ty), lhs)] + load
}

/// What stands behind the multiplication or division instruction.
pub open spec fn wide_op_exit(out: OperandView, ty: TypeMetadata) -> Seq<InstrView> {
    let restore = if saves_rdx(out) {
        seq![InstrView::with1(Mnemonic::Pop, OperandView::Reg(x64Reg::Rdx))]
    } else {
        seq![]
    };
    seq![mov(out, scratch(ty))] + restore
}

/// A multiplication: `imul` for signed types and `mul` for unsigned ones,
/// on the scratch register, with `rdx` saved around it.
pub open spec fn lowered_mul(
    lhs: OperandView,
    rhs: OperandView,
    out: OperandView,
    ty: TypeMetadata,
) -> Seq<InstrView> {
    let op = if ty.is_signed() {
        Mnemonic::Imul
    } else {
        Mnemonic::Mul
    };
    wide_op_entry(lhs, rhs, out, ty) + seq![InstrView::with1(op, factor(rhs, ty))] + wide_op_exit(
        out,
        ty,
    )
}

/// A division: the high half of the dividend is the sign of the low half
/// (`cqo`) for signed types and zero for unsigned ones, then `idiv` or `div`.
pub open spec fn lowered_div(
    lhs: OperandView,
    rhs: OperandView,
    out: OperandView,
    ty: TypeMetadata,
) -> Seq<InstrView> {
    let widen = if ty.is_signed() {
        InstrView::with0(Mnemonic::Cqo)
    } else {
        InstrView::with2(
            Mnemonic::Xor,
            OperandView::Reg(x64Reg::Rdx),
            OperandView::Reg(x64Reg::Rdx),
        )
    };
    let op = if ty.is_signed() {
        Mnemonic::Idiv
    } else {
        Mnemonic::Div
    };
    wide_op_entry(lhs, rhs, out, ty) + seq![widen, InstrView::with1(op, factor(rhs, ty))]
        + wide_op_exit(out, ty)
}

/// A negation: in place where the operand is the output, else on a copy.
pub open spec fn lowered_neg(src: OperandView, out: OperandView) -> Seq<InstrView> {
    if src == out {
        seq![InstrView::with1(Mnemonic::Neg, out)]
    } else {
        seq![mov(out, src), InstrView::with1(Mnemonic::Neg, out)]
    }
}

/// Whether `movzx` can widen from `src` to `out`: from a register of 8 or
/// 16 bits to a register of 32 or 64 bits.
pub open spec fn fits_movzx(src: OperandView, out: OperandView) -> bool {
    &&& src matches OperandView::Reg(s)
    &&& out matches OperandView::Reg(d)
    &&& (s.bits() == 8 || s.bits() == 16)
    &&& (d.bits() == 32 || d.bits() == 64)
}

/// A widening with zeros: `movzx` into the scratch register where it fits,
/// an ordinary move where it does not.
pub open spec fn lowered_zext(src: OperandView, out: OperandView, ty: TypeMetadata) -> Seq<
    InstrView,
> {
    if fits_movzx(src, out) {
        seq![InstrView::with2(Mnemonic::Movzx, scratch(ty), src), mov(out, scratch(ty))]
    } else {
        lowered_move(src, out, ty)
    }
}

/// The source of a narrowing: a register gives its alias of the narrow
/// type, anything else is read as it is.
pub open spec fn narrowed(src: OperandView, ty: TypeMetadata) -> OperandView {
    match src {
        OperandView::Reg(r) => OperandView::Reg(r.alias_for(ty)),
        _ => src,
    }
}

/// The instruction that sets a byte to the outcome of a comparison.
pub open spec fn set_mnemonic(mode: CmpMode) -> Mnemonic {
    match mode {
        CmpMode::Eq => Mnemonic::Sete,
        CmpMode::NotEq => Mnemonic::Setne,
        CmpMode::GT => Mnemonic::Setg,
        CmpMode::LT => Mnemonic::Setl,
        CmpMode::GE => Mnemonic::Setge,
        CmpMode::LE => Mnemonic::Setle,
    }
}

/// The byte of an operand: the alias of 8 bits of a register, the operand
/// itself otherwise.
pub open spec fn low_byte(op: OperandView) -> OperandView {
    match op {
        OperandView::Reg(r) => OperandView::Reg(r.alias8()),
        _ => op,
    }
}

/// A comparison: `cmp`, with the left operand in the scratch register
/// unless it is a register already; then the output is cleared by a move,
/// which leaves the flags alone, and its low byte is set from the flags.
pub open spec fn lowered_compare(
    mode: CmpMode,
    lhs: OperandView,
    rhs: OperandView,
    out: OperandView,
    ty: TypeMetadata,
) -> Seq<InstrView> {
    let compare = if lhs is Reg {
        seq![InstrView::with2(Mnemonic::Cmp, lhs, rhs)]
    } else {
        seq![mov(scratch(ty), lhs), InstrView::with2(Mnemonic::Cmp, scratch(ty), rhs)]
    };
    compare + seq![
        mov(out, OperandView::Imm(0)),
        InstrView::with1(set_mnemonic(mode), low_byte(out)),
    ]
}

/// A jump to a block.
pub open spec fn lowered_br(block: Seq<char>) -> Seq<InstrView> {
    seq![InstrView::with1(Mnemonic::Jmp, OperandView::Imm(0)), link_block(block)]
}

/// A conditional jump: to `if_true` where the condition is not zero, to
/// `if_false` where it is.
pub open spec fn lowered_br_cond(cond: OperandView, if_true: Seq<char>, if_false: Seq<char>) -> Seq<
    InstrView,
> {
    seq![
        InstrView::with2(Mnemonic::Cmp, cond, OperandView::Imm(0)),
        InstrView::with1(Mnemonic::Jne, OperandView::Imm(0)),
        link_block(if_true),
        InstrView::with1(Mnemonic::Jmp, OperandView::Imm(0)),
        link_block(if_false),
    ]
}

/// A call: `eax` is cleared first where the convention asks for it.
pub open spec fn lowered_call(conv: CallConv, name: Seq<char>) -> Seq<InstrView> {
    let clear = if conv.resets_eax() {
        seq![
            InstrView::with2(
                Mnemonic::Xor,
                OperandView::Reg(x64Reg::Eax),
                OperandView::Reg(x64Reg::Eax),
            ),
        ]
    } else {
        seq![]
    };
    clear + seq![InstrView::with1(Mnemonic::Call, OperandView::Imm(0)), link_symbol(name)]
}

/// The bytes by which the stack pointer moves around a call: the shadow
/// space less the eight bytes of the return address.
pub open spec fn call_stack_bytes(conv: CallConv) -> i64 {
    ((MachineCallingConvention { call_conv: conv }).shadow_bytes(Arch::X86_64) - 8) as i64
}

/// The adjustment of the stack pointer in front of a call (`sub`) or
/// behind it (`add`).
pub open spec fn lowered_call_stack(op: Mnemonic, conv: CallConv) -> Seq<InstrView> {
    seq![
        InstrView::with2(op, OperandView::Reg(x64Reg::Rsp),
            OperandView::Imm(call_stack_bytes(conv))),
    ]
}

/// The memory that a stack allocation hands out: `[rbp - off]` for the
/// operand `off`, given as a constant or as a stack slot.
pub open spec fn alloc_slot(op: MachineOperand) -> Option<MemOp> {
    match op {
        MachineOperand::Imm(off) => Some(MemOp::below(x64Reg::Rbp, off as u32)),
        MachineOperand::Stack(off) => Some(MemOp::below(x64Reg::Rbp, off as u32)),
        MachineOperand::Reg(_) => None,
    }
}

/// The address of a place in memory, brought into `out`: by `lea` into a
/// register, through `rax` otherwise.
pub open spec fn lowered_address(slot: MemOp, out: OperandView) -> Seq<InstrView> {
    if out is Reg {
        seq![InstrView::with2(Mnemonic::Lea, out, OperandView::Mem(slot))]
    } else {
        seq![
            InstrView::with2(Mnemonic::Lea, OperandView::Reg(x64Reg::Rax), OperandView::Mem(slot)),
            mov(out, OperandView::Reg(x64Reg::Rax)),
        ]
    }
}

/// The memory that a pointer operand names: what a register points to, or
/// the stack slot itself.
pub open spec fn pointee(ptr: OperandView) -> Option<MemOp> {
    match ptr {
        OperandView::Reg(r) => Some(
            MemOp { base: Some(r), index: None, scale: 1, displ: 0, rip: false },
        ),
        OperandView::Mem(m) => Some(m),
        _ => None,
    }
}

/// The register through which a value is staged on its way to memory: all
/// of `rax` for a constant, the alias of the value's type otherwise.
pub open spec fn stage(value: OperandView, ty: TypeMetadata) -> OperandView {
    if value is Imm {
        OperandView::Reg(x64Reg::Rax)
    } else {
        scratch(ty)
    }
}

/// A store to `target`: directly from a register through a pointer in a
/// register, and through `rax` in every other case.
pub open spec fn lowered_store(
    ptr: OperandView,
    target: MemOp,
    value: OperandView,
    ty: TypeMetadata,
) -> Seq<InstrView> {
    if ptr is Reg && value is Reg {
        seq![mov(OperandView::Mem(target), value)]
    } else {
        seq![mov(stage(value, ty), value), mov(OperandView::Mem(target), scratch(ty))]
    }
}

/// A load from `source`: directly into a register through a pointer in a
/// register, and through the scratch register in every other case.
pub open spec fn lowered_load(
    ptr: OperandView,
    source: MemOp,
    out: OperandView,
    ty: TypeMetadata,
) -> Seq<InstrView> {
    if ptr is Reg && out is Reg {
        seq![mov(out, OperandView::Mem(source))]
    } else {
        seq![mov(scratch(ty), OperandView::Mem(source)), mov(out, scratch(ty))]
    }
}

/// The address of a symbol: `lea` relative to the instruction pointer with
/// a placeholder that the relocation replaces.
pub open spec fn lowered_address_load(name: Seq<char>, out: OperandView) -> Seq<InstrView> {
    seq![
        InstrView::with2(
            Mnemonic::Lea,
            OperandView::Reg(x64Reg::Rax),
            OperandView::Mem(MemOp::rip_relative(1)),
        ),
        link_symbol(name),
        mov(out, OperandView::Reg(x64Reg::Rax)),
    ]
}

/// Saving a value on the stack in front of a call: `push`, then eight more
/// bytes to keep the stack aligned to 16.
pub open spec fn lowered_push(op: OperandView) -> Seq<InstrView> {
    seq![
        InstrView::with1(Mnemonic::Push, op),
        InstrView::with2(Mnemonic::Sub, OperandView::Reg(x64Reg::Rsp), OperandView::Imm(8)),
    ]
}

/// Restoring what was saved: `pop`, then the eight bytes of alignment.
pub open spec fn lowered_push_cleanup(op: OperandView) -> Seq<InstrView> {
    seq![
        InstrView::with1(Mnemonic::Pop, op),
        InstrView::with2(Mnemonic::Add, OperandView::Reg(x64Reg::Rsp), OperandView::Imm(8)),
    ]
}

/// The value that a switch compares: in the scratch register if it comes
/// from memory.
pub open spec fn switch_value(value: OperandView, ty: TypeMetadata) -> OperandView {
    if value is Mem {
        scratch(ty)
    } else {
        value
    }
}

/// The tests of a switch table: for each entry a comparison with its value
/// and a jump to its block.
pub open spec fn lowered_cases(value: OperandView, cases: Seq<(i64, Seq<char>)>) -> Seq<InstrView>
    decreases cases.len(),
{
    if cases.len() == 0 {
        seq![]
    } else {
        lowered_cases(value, cases.drop_last()) + seq![
            InstrView::with2(Mnemonic::Cmp, value, OperandView::Imm(cases.last().0)),
            InstrView::with1(Mnemonic::Je, OperandView::Imm(0)),
            link_block(cases.last().1),
        ]
    }
}

/// A switch: the value is brought into the scratch register once if it
/// comes from memory, then the entries are tested in order.
pub open spec fn lowered_switch(
    value: OperandView,
    cases: Seq<(i64, Seq<char>)>,
    ty: TypeMetadata,
) -> Seq<InstrView> {
    let load = if value is Mem {
        seq![mov(scratch(ty), value)]
    } else {
        seq![]
    };
    load + lowered_cases(switch_value(value, ty), cases)
}

/// The entry of a function: the frame pointer is saved and set, and moved
/// down by the size of the frame if the instruction gives one as a constant.
pub open spec fn lowered_prolog(instr: MachineInstrView) -> Seq<InstrView> {
    let frame = seq![
        InstrView::with1(Mnemonic::Push, OperandView::Reg(x64Reg::Rbp)),
        mov(OperandView::Reg(x64Reg::Rbp), OperandView::Reg(x64Reg::Rsp)),
    ];
    if instr.operands.len() > 0 && instr.operands[0] is Imm {
        frame + seq![
            InstrView::with2(
                Mnemonic::Sub,
                OperandView::Reg(x64Reg::Rbp),
                OperandView::Imm(instr.operands[0]->Imm_0),
            ),
        ]
    } else {
        frame
    }
}

/// A return: the value, if there is one, goes to the scratch register.
pub open spec fn lowered_return(instr: MachineInstrView) -> Seq<InstrView> {
    match arg(instr, 0) {
        Some(value) => seq![mov(scratch(instr.meta), value), InstrView::with0(Mnemonic::Ret)],
        None => seq![InstrView::with0(Mnemonic::Ret)],
    }
}

/// What the lowering of one instruction comes to.
pub enum Lowered {
    /// The instructions that stand for it.
    Code(Seq<InstrView>),
    /// An operand is missing or of the wrong kind.
    BadOperands,
    /// The target has no form of the mnemonic.
    Illegal,
}

/// The two inputs and the output of an instruction, if it has them all.
pub open spec fn operands3(instr: MachineInstrView) -> Option<
    (OperandView, OperandView, OperandView),
> {
    match (arg(instr, 0), arg(instr, 1), dst(instr)) {
        (Some(lhs), Some(rhs), Some(out)) => Some((lhs, rhs, out)),
        _ => None,
    }
}

/// The first input and the output of an instruction, if it has both.
pub open spec fn operands2(instr: MachineInstrView) -> Option<(OperandView, OperandView)> {
    match (arg(instr, 0), dst(instr)) {
        (Some(src), Some(out)) => Some((src, out)),
        _ => None,
    }
}

/// The rule of x86-64 for addition, subtraction, multiplication, division,
/// the bitwise operations and comparisons: two inputs and an output.
pub open spec fn x64_rule_arith(instr: MachineInstrView) -> Lowered {
    let ty = instr.meta;
    match operands3(instr) {
        None => Lowered::BadOperands,
        Some((l, r, o)) => match instr.mnemonic {
            MachineMnemonicView::Add => Lowered::Code(lowered_binary(Mnemonic::Add, l, r, o, ty)),
            MachineMnemonicView::Sub => Lowered::Code(lowered_binary(Mnemonic::Sub, l, r, o, ty)),
            MachineMnemonicView::And => Lowered::Code(lowered_binary(Mnemonic::And, l, r, o, ty)),
            MachineMnemonicView::Or => Lowered::Code(lowered_binary(Mnemonic::Or, l, r, o, ty)),
            MachineMnemonicView::Xor => Lowered::Code(lowered_binary(Mnemonic::Xor, l, r, o, ty)),
            MachineMnemonicView::Mul => Lowered::Code(lowered_mul(l, r, o, ty)),
            MachineMnemonicView::Div => Lowered::Code(lowered_div(l, r, o, ty)),
            MachineMnemonicView::Compare(mode) => Lowered::Code(
                lowered_compare(mode, l, r, o, ty),
            ),
            _ => Lowered::Illegal,
        },
    }
}

/// The rule of x86-64 for moves, negation and conversions: one input and
/// an output.
pub open spec fn x64_rule_unary(instr: MachineInstrView) -> Lowered {
    let ty = instr.meta;
    match operands2(instr) {
        None => Lowered::BadOperands,
        Some((s, o)) => match instr.mnemonic {
            MachineMnemonicView::Move => Lowered::Code(lowered_move(s, o, ty)),
            MachineMnemonicView::AdrMove => Lowered::Code(lowered_move(s, o, TypeMetadata::ptr)),
            MachineMnemonicView::Neg => Lowered::Code(lowered_neg(s, o)),
            MachineMnemonicView::Zext(_) => Lowered::Code(lowered_zext(s, o, ty)),
            MachineMnemonicView::Downcast(_) => Lowered::Code(
                lowered_move(narrowed(s, ty), o, ty),
            ),
            _ => Lowered::Illegal,
        },
    }
}

/// The rule of x86-64 for the instructions that touch memory and the stack.
pub open spec fn x64_rule_memory(instr: MachineInstrView) -> Lowered {
    let ty = instr.meta;
    match instr.mnemonic {
        MachineMnemonicView::StackAlloc => if instr.operands.len() > 0 && dst(instr) is Some
            && alloc_slot(instr.operands[0]) is Some {
            Lowered::Code(lowered_address(alloc_slot(instr.operands[0])->0, dst(instr)->0))
        } else {
            Lowered::BadOperands
        },
        MachineMnemonicView::Store => match (arg(instr, 0), arg(instr, 1)) {
            (Some(ptr), Some(value)) => match pointee(ptr) {
                Some(target) => Lowered::Code(lowered_store(ptr, target, value, ty)),
                None => Lowered::BadOperands,
            },
            _ => Lowered::BadOperands,
        },
        MachineMnemonicView::Load => match (arg(instr, 0), dst(instr)) {
            (Some(ptr), Some(out)) => match pointee(ptr) {
                Some(source) => Lowered::Code(lowered_load(ptr, source, out, ty)),
                None => Lowered::BadOperands,
            },
            _ => Lowered::BadOperands,
        },
        MachineMnemonicView::AdressLoad(name) => match dst(instr) {
            Some(out) => Lowered::Code(lowered_address_load(name, out)),
            None => Lowered::BadOperands,
        },
        MachineMnemonicView::Push => match arg(instr, 0) {
            Some(op) => Lowered::Code(lowered_push(op)),
            None => Lowered::BadOperands,
        },
        MachineMnemonicView::PushCleanup => match arg(instr, 0) {
            Some(op) => Lowered::Code(lowered_push_cleanup(op)),
            None => Lowered::BadOperands,
        },
        _ => Lowered::Illegal,
    }
}

/// The rule of x86-64 for jumps, calls and the frame.
pub open spec fn x64_rule_control(conv: CallConv, instr: MachineInstrView) -> Lowered {
    let ty = instr.meta;
    match instr.mnemonic {
        MachineMnemonicView::Br(block) => Lowered::Code(lowered_br(block)),
        MachineMnemonicView::BrCond(if_true, if_false) => match arg(instr, 0) {
            Some(c) => Lowered::Code(lowered_br_cond(c, if_true, if_false)),
            None => Lowered::BadOperands,
        },
        MachineMnemonicView::Switch(cases) => match arg(instr, 0) {
            Some(v) => Lowered::Code(lowered_switch(v, cases, ty)),
            None => Lowered::BadOperands,
        },
        MachineMnemonicView::Call(name) => Lowered::Code(lowered_call(conv, name)),
        MachineMnemonicView::CallStackPrepare => Lowered::Code(
            lowered_call_stack(Mnemonic::Sub, conv),
        ),
        MachineMnemonicView::CallStackRedo => Lowered::Code(lowered_call_stack(Mnemonic::Add,
            conv)),
        MachineMnemonicView::Prolog => Lowered::Code(lowered_prolog(instr)),
        MachineMnemonicView::Epilog => Lowered::Code(
            seq![InstrView::with1(Mnemonic::Pop, OperandView::Reg(x64Reg::Rbp))],
        ),
        MachineMnemonicView::Return => Lowered::Code(lowered_return(instr)),
        _ => Lowered::Illegal,
    }
}

/// The rule of x86-64 for each mnemonic. Floating point operations,
/// remainders, shifts and conditional moves have none.
pub open spec fn x64_rule(conv: CallConv, instr: MachineInstrView) -> Lowered {
    match instr.mnemonic {
        MachineMnemonicView::Add
        | MachineMnemonicView::Sub
        | MachineMnemonicView::And
        | MachineMnemonicView::Or
        | MachineMnemonicView::Xor
        | MachineMnemonicView::Mul
        | MachineMnemonicView::Div
        | MachineMnemonicView::Compare(_) => x64_rule_arith(instr),
        MachineMnemonicView::Move
        | MachineMnemonicView::AdrMove
        | MachineMnemonicView::Neg
        | MachineMnemonicView::Zext(_)
        | MachineMnemonicView::Downcast(_) => x64_rule_unary(instr),
        MachineMnemonicView::StackAlloc
        | MachineMnemonicView::Store
        | MachineMnemonicView::Load
        | MachineMnemonicView::AdressLoad(_)
        | MachineMnemonicView::Push
        | MachineMnemonicView::PushCleanup => x64_rule_memory(instr),
        MachineMnemonicView::Br(_)
        | MachineMnemonicView::BrCond(_, _)
        | MachineMnemonicView::Switch(_)
        | MachineMnemonicView::Call(_)
        | MachineMnemonicView::CallStackPrepare
        | MachineMnemonicView::CallStackRedo
        | MachineMnemonicView::Prolog
        | MachineMnemonicView::Epilog
        | MachineMnemonicView::Return => x64_rule_control(conv, instr),
        _ => Lowered::Illegal,
    }
}

/// The instructions of x86-64 that stand for one portable instruction, or
/// the reason why there are none.
pub open spec fn x64_lowered(conv: CallConv, instr: MachineInstrView) -> Result<
    Seq<InstrView>,
    LowerErrorView,
> {
    match x64_rule(conv, instr) {
        Lowered::Code(code) => Ok(code),
        Lowered::BadOperands => Err(LowerErrorView::BadOperands(instr.mnemonic)),
        Lowered::Illegal => Err(LowerErrorView::IllegalOnTarget(instr.mnemonic, Arch::X86_64)),
    }
}

/// The instructions that stand for a list of portable instructions, one
/// after the other, or the error of the first that cannot be lowered.
pub open spec fn x64_lowered_all(conv: CallConv, instrs: Seq<MachineInstrView>) -> Result<
    Seq<InstrView>,
    LowerErrorView,
>
    decreases instrs.len(),
{
    if instrs.len() == 0 {
        Ok(seq![])
    } else {
        match x64_lowered_all(conv, instrs.drop_last()) {
            Err(e) => Err(e),
            Ok(front) => match x64_lowered(conv, instrs.last()) {
                Err(e) => Err(e),
                Ok(code) => Ok(front + code),
            },
        }
    }
}

/// The optimized stream for a list of portable instructions: the start
/// marker, then the instructions of each in order, rewritten by the
/// peephole optimizer.
pub open spec fn x64_lower_spec(conv: CallConv, instrs: Seq<MachineInstrView>) -> Result<
    Seq<InstrView>,
    LowerErrorView,
> {
    match x64_lowered_all(conv, instrs) {
        Ok(code) => Ok(peephole(seq![InstrView::with0(Mnemonic::StartOptimization)] + code)),
        Err(e) => Err(e),
    }
}


fn emit(sink: &mut Vec<X64MCInstr>, instr: X64MCInstr)
    ensures
        stream_view(final(sink)@) == stream_view(old(sink)@).push(instr@),
{
    sink.push(instr);
    assert(stream_view(sink@) =~= stream_view(old(sink)@).push(instr@));
}

fn emit0(sink: &mut Vec<X64MCInstr>, mnemonic: Mnemonic)
    ensures
        stream_view(final(sink)@) == stream_view(old(sink)@).push(InstrView::with0(mnemonic)),
{
    emit(sink, X64MCInstr::with0(mnemonic));
}

fn emit1(sink: &mut Vec<X64MCInstr>, mnemonic: Mnemonic, op: Operand)
    ensures
        stream_view(final(sink)@) == stream_view(old(sink)@).push(InstrView::with1(mnemonic, op@)),
{
    emit(sink, X64MCInstr::with1(mnemonic, op));
}

fn emit2(sink: &mut Vec<X64MCInstr>, mnemonic: Mnemonic, op1: Operand, op2: Operand)
    ensures
        stream_view(final(sink)@) == stream_view(old(sink)@).push(
            InstrView::with2(mnemonic, op1@, op2@),
        ),
{
    emit(sink, X64MCInstr::with2(mnemonic, op1, op2));
}

fn emit_block_link(sink: &mut Vec<X64MCInstr>, block: &String)
    ensures
        stream_view(final(sink)@) == stream_view(old(sink)@).push(link_block(block@)),
{
    emit1(sink, Mnemonic::Link, Operand::BlockLinkDestination(block.clone(), PC_REL_ADDEND));
}

fn emit_symbol_link(sink: &mut Vec<X64MCInstr>, name: &String)
    ensures
        stream_view(final(sink)@) == stream_view(old(sink)@).push(link_symbol(name@)),
{
    emit1(sink, Mnemonic::Link, Operand::LinkDestination(name.clone(), PC_REL_ADDEND));
}

fn to_operand(op: MachineOperand) -> (r: Operand)
    ensures
        r@ == x64_operand(op),
{
    Operand::from(op)
}

fn scratch_reg(ty: TypeMetadata) -> (r: Operand)
    ensures
        r@ == scratch(ty),
{
    Operand::Reg(x64Reg::Rax.sub_ty(ty))
}

fn lower_move(sink: &mut Vec<X64MCInstr>, src: &Operand, out: &Operand, ty: TypeMetadata)
    ensures
        stream_view(final(sink)@) == stream_view(old(sink)@) + lowered_move(src@, out@, ty),
{
    if src.is_mem() && out.is_mem() {
        emit2(sink, Mnemonic::Mov, scratch_reg(ty), src.clone());
        emit2(sink, Mnemonic::Mov, out.clone(), scratch_reg(ty));
    } else {
        emit2(sink, Mnemonic::Mov, out.clone(), src.clone());
    }
    assert(stream_view(sink@) =~= stream_view(old(sink)@) + lowered_move(src@, out@, ty));
}

fn lower_binary(
    sink: &mut Vec<X64MCInstr>,
    op: Mnemonic,
    lhs: &Operand,
    rhs: &Operand,
    out: &Operand,
    ty: TypeMetadata,
)
    ensures
        stream_view(final(sink)@) == stream_view(old(sink)@) + lowered_binary(
            op,
            lhs@,
            rhs@,
            out@,
            ty,
        ),
{
    emit2(sink, Mnemonic::Mov, scratch_reg(ty), lhs.clone());
    emit2(sink, op, scratch_reg(ty), rhs.clone());
    emit2(sink, Mnemonic::Mov, out.clone(), scratch_reg(ty));
    assert(stream_view(sink@) =~= stream_view(old(sink)@) + lowered_binary(
        op,
        lhs@,
        rhs@,
        out@,
        ty,
    ));
}

fn keeps_rdx(out: &Operand) -> (r: bool)
    ensures
        r == saves_rdx(out@),
{
    match out {
        Operand::Reg(reg) => !reg.same_family(&x64Reg::Rdx),
        _ => true,
    }
}

fn wants_factor_reg(rhs: &Operand) -> (r: bool)
    ensures
        r == needs_factor_reg(rhs@),
{
    match rhs {
        Operand::Imm(_) => true,
        Operand::Mem(_) => true,
        _ => false,
    }
}

fn factor_of(rhs: &Operand, ty: TypeMetadata) -> (r: Operand)
    ensures
        r@ == factor(rhs@, ty),
{
    if wants_factor_reg(rhs) {
        Operand::Reg(x64Reg::Rbx.sub_ty(ty))
    } else {
        rhs.clone()
    }
}

fn enter_wide_op(
    sink: &mut Vec<X64MCInstr>,
    lhs: &Operand,
    rhs: &Operand,
    out: &Operand,
    ty: TypeMetadata,
)
    ensures
        stream_view(final(sink)@) == stream_view(old(sink)@) + wide_op_entry(lhs@, rhs@, out@, ty),
{
    if keeps_rdx(out) {
        emit1(sink, Mnemonic::Push, Operand::Reg(x64Reg::Rdx));
    }
    emit2(sink, Mnemonic::Mov, scratch_reg(ty), lhs.clone());
    if wants_factor_reg(rhs) {
        emit2(sink, Mnemonic::Mov, Operand::Reg(x64Reg::Rbx.sub_ty(ty)), rhs.clone());
    }
    assert(stream_view(sink@) =~= stream_view(old(sink)@) + wide_op_entry(lhs@, rhs@, out@, ty));
}

fn leave_wide_op(sink: &mut Vec<X64MCInstr>, out: &Operand, ty: TypeMetadata)
    ensures
        stream_view(final(sink)@) == stream_view(old(sink)@) + wide_op_exit(out@, ty),
{
    emit2(sink, Mnemonic::Mov, out.clone(), scratch_reg(ty));
    if keeps_rdx(out) {
        emit1(sink, Mnemonic::Pop, Operand::Reg(x64Reg::Rdx));
    }
    assert(stream_view(sink@) =~= stream_view(old(sink)@) + wide_op_exit(out@, ty));
}

fn lower_mul(
    sink: &mut Vec<X64MCInstr>,
    lhs: &Operand,
    rhs: &Operand,
    out: &Operand,
    ty: TypeMetadata,
)
    ensures
        stream_view(final(sink)@) == stream_view(old(sink)@) + lowered_mul(lhs@, rhs@, out@, ty),
{
    enter_wide_op(sink, lhs, rhs, out, ty);
    let op = if ty.signed() {
        Mnemonic::Imul
    } else {
        Mnemonic::Mul
    };
    emit1(sink, op, factor_of(rhs, ty));
    leave_wide_op(sink, out, ty);
    assert(stream_view(sink@) =~= stream_view(old(sink)@) + lowered_mul(lhs@, rhs@, out@, ty));
}

fn lower_div(
    sink: &mut Vec<X64MCInstr>,
    lhs: &Operand,
    rhs: &Operand,
    out: &Operand,
    ty: TypeMetadata,
)
    ensures
        stream_view(final(sink)@) == stream_view(old(sink)@) + lowered_div(lhs@, rhs@, out@, ty),
{
    enter_wide_op(sink, lhs, rhs, out, ty);
    if ty.signed() {
        emit0(sink, Mnemonic::Cqo);
        emit1(sink, Mnemonic::Idiv, factor_of(rhs, ty));
    } else {
        emit2(sink, Mnemonic::Xor, Operand::Reg(x64Reg::Rdx), Operand::Reg(x64Reg::Rdx));
        emit1(sink, Mnemonic::Div, factor_of(rhs, ty));
    }
    leave_wide_op(sink, out, ty);
    assert(stream_view(sink@) =~= stream_view(old(sink)@) + lowered_div(lhs@, rhs@, out@, ty));
}

fn lower_neg(sink: &mut Vec<X64MCInstr>, src: &Operand, out: &Operand)
    ensures
        stream_view(final(sink)@) == stream_view(old(sink)@) + lowered_neg(src@, out@),
{
    if *src == *out {
        emit1(sink, Mnemonic::Neg, out.clone());
    } else {
        emit2(sink, Mnemonic::Mov, out.clone(), src.clone());
        emit1(sink, Mnemonic::Neg, out.clone());
    }
    assert(stream_view(sink@) =~= stream_view(old(sink)@) + lowered_neg(src@, out@));
}

fn movzx_fits(src: &Operand, out: &Operand) -> (r: bool)
    ensures
        r == fits_movzx(src@, out@),
{
    match (src, out) {
        (Operand::Reg(s), Operand::Reg(d)) => (s.is_gr8() || s.is_gr16()) && (d.is_gr32()
            || d.is_gr64()),
        _ => false,
    }
}

fn lower_zext(sink: &mut Vec<X64MCInstr>, src: &Operand, out: &Operand, ty: TypeMetadata)
    ensures
        stream_view(final(sink)@) == stream_view(old(sink)@) + lowered_zext(src@, out@, ty),
{
    if movzx_fits(src, out) {
        emit2(sink, Mnemonic::Movzx, scratch_reg(ty), src.clone());
        emit2(sink, Mnemonic::Mov, out.clone(), scratch_reg(ty));
        assert(stream_view(sink@) =~= stream_view(old(sink)@) + lowered_zext(src@, out@, ty));
    } else {
        lower_move(sink, src, out, ty);
    }
}

fn narrow(src: &Operand, ty: TypeMetadata) -> (r: Operand)
    ensures
        r@ == narrowed(src@, ty),
{
    match src {
        Operand::Reg(reg) => Operand::Reg(reg.sub_ty(ty)),
        _ => src.clone(),
    }
}

fn set_for(mode: CmpMode) -> (r: Mnemonic)
    ensures
        r == set_mnemonic(mode),
{
    match mode {
        CmpMode::Eq => Mnemonic::Sete,
        CmpMode::NotEq => Mnemonic::Setne,
        CmpMode::GT => Mnemonic::Setg,
        CmpMode::LT => Mnemonic::Setl,
        CmpMode::GE => Mnemonic::Setge,
        CmpMode::LE => Mnemonic::Setle,
    }
}

fn byte_of(op: &Operand) -> (r: Operand)
    ensures
        r@ == low_byte(op@),
{
    match op {
        Operand::Reg(reg) => Operand::Reg(reg.to8()),
        _ => op.clone(),
    }
}

fn lower_compare(
    sink: &mut Vec<X64MCInstr>,
    mode: CmpMode,
    lhs: &Operand,
    rhs: &Operand,
    out: &Operand,
    ty: TypeMetadata,
)
    ensures
        stream_view(final(sink)@) == stream_view(old(sink)@) + lowered_compare(
            mode,
            lhs@,
            rhs@,
            out@,
            ty,
        ),
{
    let in_reg = match lhs {
        Operand::Reg(_) => true,
        _ => false,
    };
    if in_reg {
        emit2(sink, Mnemonic::Cmp, lhs.clone(), rhs.clone());
    } else {
        emit2(sink, Mnemonic::Mov, scratch_reg(ty), lhs.clone());
        emit2(sink, Mnemonic::Cmp, scratch_reg(ty), rhs.clone());
    }
    emit2(sink, Mnemonic::Mov, out.clone(), Operand::Imm(0));
    emit1(sink, set_for(mode), byte_of(out));
    assert(stream_view(sink@) =~= stream_view(old(sink)@) + lowered_compare(
        mode,
        lhs@,
        rhs@,
        out@,
        ty,
    ));
}

fn lower_br(sink: &mut Vec<X64MCInstr>, block: &String)
    ensures
        stream_view(final(sink)@) == stream_view(old(sink)@) + lowered_br(block@),
{
    emit1(sink, Mnemonic::Jmp, Operand::Imm(0));
    emit_block_link(sink, block);
    assert(stream_view(sink@) =~= stream_view(old(sink)@) + lowered_br(block@));
}

fn lower_br_cond(sink: &mut Vec<X64MCInstr>, cond: &Operand, if_true: &String, if_false: &String)
    ensures
        stream_view(final(sink)@) == stream_view(old(sink)@) + lowered_br_cond(
            cond@,
            if_true@,
            if_false@,
        ),
{
    emit2(sink, Mnemonic::Cmp, cond.clone(), Operand::Imm(0));
    emit1(sink, Mnemonic::Jne, Operand::Imm(0));
    emit_block_link(sink, if_true);
    emit1(sink, Mnemonic::Jmp, Operand::Imm(0));
    emit_block_link(sink, if_false);
    assert(stream_view(sink@) =~= stream_view(old(sink)@) + lowered_br_cond(
        cond@,
        if_true@,
        if_false@,
    ));
}

fn lower_call(conv: CallConv, sink: &mut Vec<X64MCInstr>, name: &String)
    ensures
        stream_view(final(sink)@) == stream_view(old(sink)@) + lowered_call(conv, name@),
{
    if conv.reset_eax() {
        emit2(sink, Mnemonic::Xor, Operand::Reg(x64Reg::Eax), Operand::Reg(x64Reg::Eax));
    }
    emit1(sink, Mnemonic::Call, Operand::Imm(0));
    emit_symbol_link(sink, name);
    assert(stream_view(sink@) =~= stream_view(old(sink)@) + lowered_call(conv, name@));
}

fn lower_call_stack(sink: &mut Vec<X64MCInstr>, op: Mnemonic, conv: CallConv)
    ensures
        stream_view(final(sink)@) == stream_view(old(sink)@) + lowered_call_stack(op, conv),
{
    let bytes = MachineCallingConvention { call_conv: conv }.shadow(Arch::X86_64) - 8;
    emit2(sink, op, Operand::Reg(x64Reg::Rsp), Operand::Imm(bytes));
    assert(stream_view(sink@) =~= stream_view(old(sink)@) + lowered_call_stack(op, conv));
}

fn slot_of(op: MachineOperand) -> (r: Option<MemOp>)
    ensures
        r == alloc_slot(op),
{
    match op {
        MachineOperand::Imm(off) => Some(
            MemOp::base_minus(x64Reg::Rbp, #[verifier::truncate] (off as u32)),
        ),
        MachineOperand::Stack(off) => Some(
            MemOp::base_minus(x64Reg::Rbp, #[verifier::truncate] (off as u32)),
        ),
        MachineOperand::Reg(_) => None,
    }
}

fn lower_address(sink: &mut Vec<X64MCInstr>, slot: MemOp, out: &Operand)
    ensures
        stream_view(final(sink)@) == stream_view(old(sink)@) + lowered_address(slot, out@),
{
    let in_reg = match out {
        Operand::Reg(_) => true,
        _ => false,
    };
    if in_reg {
        emit2(sink, Mnemonic::Lea, out.clone(), Operand::Mem(slot));
    } else {
        emit2(sink, Mnemonic::Lea, Operand::Reg(x64Reg::Rax), Operand::Mem(slot));
        emit2(sink, Mnemonic::Mov, out.clone(), Operand::Reg(x64Reg::Rax));
    }
    assert(stream_view(sink@) =~= stream_view(old(sink)@) + lowered_address(slot, out@));
}

fn pointee_of(ptr: &Operand) -> (r: Option<MemOp>)
    ensures
        r == pointee(ptr@),
{
    match ptr {
        Operand::Reg(reg) => Some(
            MemOp { base: Some(*reg), index: None, scale: 1, displ: 0, rip: false },
        ),
        Operand::Mem(mem) => Some(*mem),
        _ => None,
    }
}

fn is_reg(op: &Operand) -> (r: bool)
    ensures
        r == (op@ is Reg),
{
    match op {
        Operand::Reg(_) => true,
        _ => false,
    }
}

fn lower_store(
    sink: &mut Vec<X64MCInstr>,
    ptr: &Operand,
    target: MemOp,
    value: &Operand,
    ty: TypeMetadata,
)
    ensures
        stream_view(final(sink)@) == stream_view(old(sink)@) + lowered_store(
            ptr@,
            target,
            value@,
            ty,
        ),
{
    if is_reg(ptr) && is_reg(value) {
        emit2(sink, Mnemonic::Mov, Operand::Mem(target), value.clone());
    } else {
        let through = match value {
            Operand::Imm(_) => Operand::Reg(x64Reg::Rax),
            _ => scratch_reg(ty),
        };
        emit2(sink, Mnemonic::Mov, through, value.clone());
        emit2(sink, Mnemonic::Mov, Operand::Mem(target), scratch_reg(ty));
    }
    assert(stream_view(sink@) =~= stream_view(old(sink)@) + lowered_store(
        ptr@,
        target,
        value@,
        ty,
    ));
}

fn lower_load(
    sink: &mut Vec<X64MCInstr>,
    ptr: &Operand,
    source: MemOp,
    out: &Operand,
    ty: TypeMetadata,
)
    ensures
        stream_view(final(sink)@) == stream_view(old(sink)@) + lowered_load(
            ptr@,
            source,
            out@,
            ty,
        ),
{
    if is_reg(ptr) && is_reg(out) {
        emit2(sink, Mnemonic::Mov, out.clone(), Operand::Mem(source));
    } else {
        emit2(sink, Mnemonic::Mov, scratch_reg(ty), Operand::Mem(source));
        emit2(sink, Mnemonic::Mov, out.clone(), scratch_reg(ty));
    }
    assert(stream_view(sink@) =~= stream_view(old(sink)@) + lowered_load(
        ptr@,
        source,
        out@,
        ty,
    ));
}

fn lower_address_load(sink: &mut Vec<X64MCInstr>, name: &String, out: &Operand)
    ensures
        stream_view(final(sink)@) == stream_view(old(sink)@) + lowered_address_load(name@, out@),
{
    emit2(sink, Mnemonic::Lea, Operand::Reg(x64Reg::Rax), Operand::Mem(MemOp::rip_plus(1)));
    emit_symbol_link(sink, name);
    emit2(sink, Mnemonic::Mov, out.clone(), Operand::Reg(x64Reg::Rax));
    assert(stream_view(sink@) =~= stream_view(old(sink)@) + lowered_address_load(name@, out@));
}

fn lower_push(sink: &mut Vec<X64MCInstr>, op: &Operand)
    ensures
        stream_view(final(sink)@) == stream_view(old(sink)@) + lowered_push(op@),
{
    emit1(sink, Mnemonic::Push, op.clone());
    emit2(sink, Mnemonic::Sub, Operand::Reg(x64Reg::Rsp), Operand::Imm(8));
    assert(stream_view(sink@) =~= stream_view(old(sink)@) + lowered_push(op@));
}

fn lower_push_cleanup(sink: &mut Vec<X64MCInstr>, op: &Operand)
    ensures
        stream_view(final(sink)@) == stream_view(old(sink)@) + lowered_push_cleanup(op@),
{
    emit1(sink, Mnemonic::Pop, op.clone());
    emit2(sink, Mnemonic::Add, Operand::Reg(x64Reg::Rsp), Operand::Imm(8));
    assert(stream_view(sink@) =~= stream_view(old(sink)@) + lowered_push_cleanup(op@));
}

fn lower_switch(
    sink: &mut Vec<X64MCInstr>,
    value: &Operand,
    cases: &Vec<SwitchCase>,
    ty: TypeMetadata,
)
    ensures
        stream_view(final(sink)@) == stream_view(old(sink)@) + lowered_switch(
            value@,
            cases_view(cases@),
            ty,
        ),
{
    let ghost table = cases_view(cases@);
    let tested = if value.is_mem() {
        emit2(sink, Mnemonic::Mov, scratch_reg(ty), value.clone());
        scratch_reg(ty)
    } else {
        value.clone()
    };
    let ghost base = stream_view(sink@);
    assert(base + lowered_cases(tested@, table.take(0)) =~= base);
    let mut i: usize = 0;
    while i < cases.len()
        invariant
            i <= cases@.len(),
            table == cases_view(cases@),
            tested@ == switch_value(value@, ty),
            stream_view(sink@) == base + lowered_cases(tested@, table.take(i as int)),
        decreases cases@.len() - i,
    {
        emit2(sink, Mnemonic::Cmp, tested.clone(), Operand::Imm(cases[i].value));
        emit1(sink, Mnemonic::Je, Operand::Imm(0));
        emit_block_link(sink, &cases[i].block);
        proof {
            assert(table.take(i + 1).drop_last() =~= table.take(i as int));
            assert(table.take(i + 1).last() == cases@[i as int]@);
            assert(stream_view(sink@) =~= base + lowered_cases(tested@, table.take(i + 1)));
        }
        i += 1;
    }
    proof {
        assert(table.take(cases@.len() as int) =~= table);
        assert(stream_view(sink@) =~= stream_view(old(sink)@) + lowered_switch(value@, table, ty));
    }
}

fn lower_prolog(sink: &mut Vec<X64MCInstr>, instr: &MachineInstr)
    ensures
        stream_view(final(sink)@) == stream_view(old(sink)@) + lowered_prolog(instr@),
{
    emit1(sink, Mnemonic::Push, Operand::Reg(x64Reg::Rbp));
    emit2(sink, Mnemonic::Mov, Operand::Reg(x64Reg::Rbp), Operand::Reg(x64Reg::Rsp));
    if instr.operands.len() > 0 {
        match instr.operands[0] {
            MachineOperand::Imm(bytes) => {
                emit2(sink, Mnemonic::Sub, Operand::Reg(x64Reg::Rbp), Operand::Imm(bytes));
            },
            _ => {},
        }
    }
    assert(stream_view(sink@) =~= stream_view(old(sink)@) + lowered_prolog(instr@));
}

fn lower_return(sink: &mut Vec<X64MCInstr>, instr: &MachineInstr)
    ensures
        stream_view(final(sink)@) == stream_view(old(sink)@) + lowered_return(instr@),
{
    if instr.operands.len() > 0 {
        emit2(sink, Mnemonic::Mov, scratch_reg(instr.meta), to_operand(instr.operands[0]));
    }
    emit0(sink, Mnemonic::Ret);
    assert(stream_view(sink@) =~= stream_view(old(sink)@) + lowered_return(instr@));
}

/// How the lowering of one instruction ended.
pub enum Outcome {
    Done,
    BadOperands,
    Illegal,
}

fn operand_at(instr: &MachineInstr, i: usize) -> (r: Option<Operand>)
    ensures
        opt_view(r) == arg(instr@, i as int),
{
    if i < instr.operands.len() {
        Some(to_operand(instr.operands[i]))
    } else {
        None
    }
}

fn output_of(instr: &MachineInstr) -> (r: Option<Operand>)
    ensures
        opt_view(r) == dst(instr@),
{
    match instr.out {
        Some(o) => Some(to_operand(o)),
        None => None,
    }
}

fn lower_arith(sink: &mut Vec<X64MCInstr>, instr: &MachineInstr) -> (r: Outcome)
    ensures
        outcome_is(r, x64_rule_arith(instr@), stream_view(old(sink)@), stream_view(final(sink)@)),
        r !is Done ==> final(sink)@ == old(sink)@,
{
    let lhs = operand_at(instr, 0);
    let rhs = operand_at(instr, 1);
    let out = output_of(instr);
    let ty = instr.meta;
    match (&lhs, &rhs, &out) {
        (Some(l), Some(r), Some(o)) => match &instr.mnemonic {
            MachineMnemonic::Add => {
                lower_binary(sink, Mnemonic::Add, l, r, o, ty);
                Outcome::Done
            },
            MachineMnemonic::Sub => {
                lower_binary(sink, Mnemonic::Sub, l, r, o, ty);
                Outcome::Done
            },
            MachineMnemonic::And => {
                lower_binary(sink, Mnemonic::And, l, r, o, ty);
                Outcome::Done
            },
            MachineMnemonic::Or => {
                lower_binary(sink, Mnemonic::Or, l, r, o, ty);
                Outcome::Done
            },
            MachineMnemonic::Xor => {
                lower_binary(sink, Mnemonic::Xor, l, r, o, ty);
                Outcome::Done
            },
            MachineMnemonic::Mul => {
                lower_mul(sink, l, r, o, ty);
                Outcome::Done
            },
            MachineMnemonic::Div => {
                lower_div(sink, l, r, o, ty);
                Outcome::Done
            },
            MachineMnemonic::Compare(mode) => {
                lower_compare(sink, *mode, l, r, o, ty);
                Outcome::Done
            },
            _ => Outcome::Illegal,
        },
        _ => Outcome::BadOperands,
    }
}

fn lower_unary(sink: &mut Vec<X64MCInstr>, instr: &MachineInstr) -> (r: Outcome)
    ensures
        outcome_is(r, x64_rule_unary(instr@), stream_view(old(sink)@), stream_view(final(sink)@)),
        r !is Done ==> final(sink)@ == old(sink)@,
{
    let src = operand_at(instr, 0);
    let out = output_of(instr);
    let ty = instr.meta;
    match (&src, &out) {
        (Some(s), Some(o)) => match &instr.mnemonic {
            MachineMnemonic::Move => {
                lower_move(sink, s, o, ty);
                Outcome::Done
            },
            MachineMnemonic::AdrMove => {
                lower_move(sink, s, o, TypeMetadata::ptr);
                Outcome::Done
            },
            MachineMnemonic::Neg => {
                lower_neg(sink, s, o);
                Outcome::Done
            },
            MachineMnemonic::Zext(_) => {
                lower_zext(sink, s, o, ty);
                Outcome::Done
            },
            MachineMnemonic::Downcast(_) => {
                let narrow_src = narrow(s, ty);
                lower_move(sink, &narrow_src, o, ty);
                Outcome::Done
            },
            _ => Outcome::Illegal,
        },
        _ => Outcome::BadOperands,
    }
}

fn lower_memory(sink: &mut Vec<X64MCInstr>, instr: &MachineInstr) -> (r: Outcome)
    ensures
        outcome_is(r, x64_rule_memory(instr@), stream_view(old(sink)@), stream_view(final(sink)@)),
        r !is Done ==> final(sink)@ == old(sink)@,
{
    let lhs = operand_at(instr, 0);
    let rhs = operand_at(instr, 1);
    let out = output_of(instr);
    let ty = instr.meta;
    match &instr.mnemonic {
        MachineMnemonic::StackAlloc => {
            if instr.operands.len() == 0 {
                Outcome::BadOperands
            } else {
                match (slot_of(instr.operands[0]), &out) {
                    (Some(slot), Some(o)) => {
                        lower_address(sink, slot, o);
                        Outcome::Done
                    },
                    _ => Outcome::BadOperands,
                }
            }
        },
        MachineMnemonic::Store => match (&lhs, &rhs) {
            (Some(ptr), Some(value)) => match pointee_of(ptr) {
                Some(target) => {
                    lower_store(sink, ptr, target, value, ty);
                    Outcome::Done
                },
                None => Outcome::BadOperands,
            },
            _ => Outcome::BadOperands,
        },
        MachineMnemonic::Load => match (&lhs, &out) {
            (Some(ptr), Some(o)) => match pointee_of(ptr) {
                Some(source) => {
                    lower_load(sink, ptr, source, o, ty);
                    Outcome::Done
                },
                None => Outcome::BadOperands,
            },
            _ => Outcome::BadOperands,
        },
        MachineMnemonic::AdressLoad(to) => match &out {
            Some(o) => {
                lower_address_load(sink, to, o);
                Outcome::Done
            },
            None => Outcome::BadOperands,
        },
        MachineMnemonic::Push => match &lhs {
            Some(op) => {
                lower_push(sink, op);
                Outcome::Done
            },
            None => Outcome::BadOperands,
        },
        MachineMnemonic::PushCleanup => match &lhs {
            Some(op) => {
                lower_push_cleanup(sink, op);
                Outcome::Done
            },
            None => Outcome::BadOperands,
        },
        _ => Outcome::Illegal,
    }
}

fn lower_control(conv: CallConv, sink: &mut Vec<X64MCInstr>, instr: &MachineInstr) -> (r: Outcome)
    ensures
        outcome_is(
            r,
            x64_rule_control(conv, instr@),
            stream_view(old(sink)@),
            stream_view(final(sink)@),
        ),
        r !is Done ==> final(sink)@ == old(sink)@,
{
    let lhs = operand_at(instr, 0);
    let ty = instr.meta;
    match &instr.mnemonic {
        MachineMnemonic::Br(block) => {
            lower_br(sink, block);
            Outcome::Done
        },
        MachineMnemonic::BrCond(if_true, if_false) => match &lhs {
            Some(c) => {
                lower_br_cond(sink, c, if_true, if_false);
                Outcome::Done
            },
            None => Outcome::BadOperands,
        },
        MachineMnemonic::Switch(cases) => match &lhs {
            Some(value) => {
                lower_switch(sink, value, cases, ty);
                Outcome::Done
            },
            None => Outcome::BadOperands,
        },
        MachineMnemonic::Call(to) => {
            lower_call(conv, sink, to);
            Outcome::Done
        },
        MachineMnemonic::CallStackPrepare => {
            lower_call_stack(sink, Mnemonic::Sub, conv);
            Outcome::Done
        },
        MachineMnemonic::CallStackRedo => {
            lower_call_stack(sink, Mnemonic::Add, conv);
            Outcome::Done
        },
        MachineMnemonic::Prolog => {
            lower_prolog(sink, instr);
            Outcome::Done
        },
        MachineMnemonic::Epilog => {
            emit1(sink, Mnemonic::Pop, Operand::Reg(x64Reg::Rbp));
            assert(stream_view(sink@) =~= stream_view(old(sink)@) + seq![
                InstrView::with1(Mnemonic::Pop, OperandView::Reg(x64Reg::Rbp)),
            ]);
            Outcome::Done
        },
        MachineMnemonic::Return => {
            lower_return(sink, instr);
            Outcome::Done
        },
        _ => Outcome::Illegal,
    }
}

/// Whether an outcome is that of a rule, and the stream grew by the code of
/// the rule where there is any.
pub open spec fn outcome_is(
    r: Outcome,
    rule: Lowered,
    before: Seq<InstrView>,
    after: Seq<InstrView>,
) -> bool {
    match r {
        Outcome::Done => rule matches Lowered::Code(code) && after == before + code,
        Outcome::BadOperands => rule is BadOperands && after == before,
        Outcome::Illegal => rule is Illegal && after == before,
    }
}

fn lower_by_rule(conv: CallConv, sink: &mut Vec<X64MCInstr>, instr: &MachineInstr) -> (r: Outcome)
    ensures
        outcome_is(r, x64_rule(conv, instr@), stream_view(old(sink)@), stream_view(final(sink)@)),
        r !is Done ==> final(sink)@ == old(sink)@,
{
    match &instr.mnemonic {
        MachineMnemonic::Add
        | MachineMnemonic::Sub
        | MachineMnemonic::And
        | MachineMnemonic::Or
        | MachineMnemonic::Xor
        | MachineMnemonic::Mul
        | MachineMnemonic::Div
        | MachineMnemonic::Compare(_) => lower_arith(sink, instr),
        MachineMnemonic::Move
        | MachineMnemonic::AdrMove
        | MachineMnemonic::Neg
        | MachineMnemonic::Zext(_)
        | MachineMnemonic::Downcast(_) => lower_unary(sink, instr),
        MachineMnemonic::StackAlloc
        | MachineMnemonic::Store
        | MachineMnemonic::Load
        | MachineMnemonic::AdressLoad(_)
        | MachineMnemonic::Push
        | MachineMnemonic::PushCleanup => lower_memory(sink, instr),
        MachineMnemonic::Br(_)
        | MachineMnemonic::BrCond(_, _)
        | MachineMnemonic::Switch(_)
        | MachineMnemonic::Call(_)
        | MachineMnemonic::CallStackPrepare
        | MachineMnemonic::CallStackRedo
        | MachineMnemonic::Prolog
        | MachineMnemonic::Epilog
        | MachineMnemonic::Return => lower_control(conv, sink, instr),
        _ => Outcome::Illegal,
    }
}

/// Lowers one portable machine instruction: the instructions of x86-64
/// that stand for it are appended to `sink`. Where the instruction cannot
/// be lowered, `sink` stays as it is and the error says why.
pub fn x64_lower_instr(conv: CallConv, sink: &mut Vec<X64MCInstr>, instr: MachineInstr) -> (r:
    Result<(), LowerError>)
    ensures
        match r {
            Ok(()) => x64_lowered(conv, instr@) matches Ok(code) && stream_view(final(sink)@)
                == stream_view(old(sink)@) + code,
            Err(e) => x64_lowered(conv, instr@) == Err::<Seq<InstrView>, LowerErrorView>(e@)
                && final(sink)@ == old(sink)@,
        },
{
    match lower_by_rule(conv, sink, &instr) {
        Outcome::Done => Ok(()),
        Outcome::BadOperands => Err(LowerError::BadOperands(instr.mnemonic)),
        Outcome::Illegal => Err(LowerError::IllegalOnTarget(instr.mnemonic, Arch::X86_64)),
    }
}

/// Lowers a list of portable machine instructions, one after the other,
/// without optimizing the result.
pub fn x64_lower_plain(conv: CallConv, instrs: &Vec<MachineInstr>) -> (r: Result<
    Vec<X64MCInstr>,
    LowerError,
>)
    ensures
        match r {
            Ok(code) => x64_lowered_all(conv, machine_view(instrs@)) == Ok::<
                Seq<InstrView>,
                LowerErrorView,
            >(stream_view(code@)),
            Err(e) => x64_lowered_all(conv, machine_view(instrs@)) == Err::<
                Seq<InstrView>,
                LowerErrorView,
            >(e@),
        },
{
    let mut out: Vec<X64MCInstr> = Vec::new();
    let ghost all = machine_view(instrs@);
    assert(stream_view(out@) =~= Seq::<InstrView>::empty());
    let mut i: usize = 0;
    while i < instrs.len()
        invariant
            i <= instrs@.len(),
            all == machine_view(instrs@),
            x64_lowered_all(conv, all.take(i as int)) == Ok::<Seq<InstrView>, LowerErrorView>(
                stream_view(out@),
            ),
        decreases instrs@.len() - i,
    {
        proof {
            assert(all.take(i + 1).drop_last() =~= all.take(i as int));
            assert(all.take(i + 1).last() == instrs@[i as int]@);
        }
        match x64_lower_instr(conv, &mut out, instrs[i].clone()) {
            Ok(()) => {},
            Err(e) => {
                proof {
                    lemma_first_error_stays(conv, all, i + 1);
                }
                return Err(e);
            },
        }
        i += 1;
    }
    proof {
        assert(all.take(instrs@.len() as int) =~= all);
    }
    Ok(out)
}

/// Lowers a list of portable machine instructions and optimizes the
/// result. The stream starts with the start marker.
pub fn x64_lower_stream(conv: CallConv, instrs: Vec<MachineInstr>) -> (r: Result<
    Vec<X64MCInstr>,
    LowerError,
>)
    ensures
        match r {
            Ok(code) => x64_lower_spec(conv, machine_view(instrs@)) == Ok::<
                Seq<InstrView>,
                LowerErrorView,
            >(stream_view(code@)),
            Err(e) => x64_lower_spec(conv, machine_view(instrs@)) == Err::<
                Seq<InstrView>,
                LowerErrorView,
            >(e@),
        },
{
    let mut code = x64_lower_plain(conv, &instrs)?;
    let ghost lowered = stream_view(code@);
    let mut out: Vec<X64MCInstr> = Vec::new();
    emit0(&mut out, Mnemonic::StartOptimization);
    let ghost marker = stream_view(out@);
    assert(marker =~= seq![InstrView::with0(Mnemonic::StartOptimization)]);
    out.append(&mut code);
    assert(stream_view(out@) =~= marker + lowered);
    let optimized = out.optimize();
    Ok(optimized)
}

/// Once a prefix of a list cannot be lowered, the list cannot either, and
/// the error is that of the prefix.
pub proof fn lemma_first_error_stays(conv: CallConv, instrs: Seq<MachineInstrView>, n: int)
    requires
        0 <= n <= instrs.len(),
        x64_lowered_all(conv, instrs.take(n)) is Err,
    ensures
        x64_lowered_all(conv, instrs) == x64_lowered_all(conv, instrs.take(n)),
    decreases instrs.len(),
{
    if n == instrs.len() {
        assert(instrs.take(n) =~= instrs);
    } else {
        assert(instrs.drop_last().take(n) =~= instrs.take(n));
        lemma_first_error_stays(conv, instrs.drop_last(), n);
    }
}


/// The function used for lowering general `MachineInstr` into `MCInstr`
pub fn x64_lower(conv: CallConv, instrs: Vec<MachineInstr>) -> (r: Result<Vec<MCInstr>, LowerError>)
    ensures
        match r {
            Ok(code) => x64_lower_spec(conv, machine_view(instrs@)) matches Ok(stream)
                && mc_view(code@) == from_x64(stream),
            Err(e) => x64_lower_spec(conv, machine_view(instrs@)) == Err::<
                Seq<InstrView>,
                LowerErrorView,
            >(e@),
        },
{
    match x64_lower_stream(conv, instrs) {
        Ok(code) => Ok(wrap_x64(code)),
        Err(e) => Err(e),
    }
}


/// Whether a stream holds no relocation record.
pub open spec fn no_links(s: Seq<InstrView>) -> bool {
    forall|k: int| 0 <= k < s.len() ==> (#[trigger] s[k]).mnemonic != Mnemonic::Link
}

/// Whether a stream can follow any other: its relocation records stand
/// behind instructions whose fields they can fill, and it does not start
/// with one.
pub open spec fn links_in_place(s: Seq<InstrView>) -> bool {
    well_linked(s) && (s.len() > 0 ==> s[0].mnemonic != Mnemonic::Link)
}

/// Streams that can follow any other can follow each other.
pub proof fn lemma_links_in_place_concat(a: Seq<InstrView>, b: Seq<InstrView>)
    requires
        links_in_place(a),
        links_in_place(b),
    ensures
        links_in_place(a + b),
{
    let s = a + b;
    assert forall|k: int|
        0 <= k < s.len() && (#[trigger] s[k]).mnemonic == Mnemonic::Link implies k > 0
        && is_linkable(s[k - 1]) by {
        if k < a.len() {
            assert(a[k].mnemonic == Mnemonic::Link);
        } else {
            assert(b[k - a.len()].mnemonic == Mnemonic::Link);
            assert(k - a.len() > 0);
            assert(s[k - 1] == b[k - a.len() - 1]);
        }
    }
}

/// The tests of a switch table leave their relocation records in place.
pub proof fn lemma_cases_links_in_place(value: OperandView, cases: Seq<(i64, Seq<char>)>)
    ensures
        links_in_place(lowered_cases(value, cases)),
    decreases cases.len(),
{
    if cases.len() > 0 {
        lemma_cases_links_in_place(value, cases.drop_last());
        let step = seq![
            InstrView::with2(Mnemonic::Cmp, value, OperandView::Imm(cases.last().0)),
            InstrView::with1(Mnemonic::Je, OperandView::Imm(0)),
            link_block(cases.last().1),
        ];
        assert(is_linkable(step[1]));
        assert(links_in_place(step));
        lemma_links_in_place_concat(lowered_cases(value, cases.drop_last()), step);
    }
}

/// What one portable instruction lowers to leaves its relocation records
/// in place.
pub proof fn lemma_lowered_links_in_place(conv: CallConv, instr: MachineInstrView)
    requires
        x64_lowered(conv, instr) is Ok,
    ensures
        links_in_place(x64_lowered(conv, instr)->Ok_0),
{
    let code = x64_lowered(conv, instr)->Ok_0;
    let ty = instr.meta;
    match instr.mnemonic {
        MachineMnemonicView::Br(block) => {
            assert(is_linkable(code[0]));
        },
        MachineMnemonicView::BrCond(if_true, if_false) => {
            assert(is_linkable(code[1]));
            assert(is_linkable(code[3]));
        },
        MachineMnemonicView::Call(name) => {
            if conv.resets_eax() {
                assert(is_linkable(code[1]));
            } else {
                assert(is_linkable(code[0]));
            }
        },
        MachineMnemonicView::AdressLoad(name) => {
            assert(is_linkable(code[0]));
        },
        MachineMnemonicView::Switch(cases) => {
            let value = arg(instr, 0)->0;
            lemma_cases_links_in_place(switch_value(value, ty), cases);
            if value is Mem {
                let load = seq![mov(scratch(ty), value)];
                assert(links_in_place(load));
                lemma_links_in_place_concat(load, lowered_cases(switch_value(value, ty), cases));
            } else {
                assert(code =~= lowered_cases(switch_value(value, ty), cases));
            }
        },
        MachineMnemonicView::Mul | MachineMnemonicView::Div => {
            let (lhs, rhs, out) = operands3(instr)->0;
            let entry = wide_op_entry(lhs, rhs, out, ty);
            let exit = wide_op_exit(out, ty);
            assert(no_links(entry));
            assert(no_links(exit));
            assert(no_links(code));
        },
        _ => {
            assert(no_links(code));
        },
    }
}

/// What a list of portable instructions lowers to leaves its relocation
/// records in place.
pub proof fn lemma_lowered_all_links_in_place(conv: CallConv, instrs: Seq<MachineInstrView>)
    requires
        x64_lowered_all(conv, instrs) is Ok,
    ensures
        links_in_place(x64_lowered_all(conv, instrs)->Ok_0),
    decreases instrs.len(),
{
    if instrs.len() > 0 {
        lemma_lowered_all_links_in_place(conv, instrs.drop_last());
        lemma_lowered_links_in_place(conv, instrs.last());
        lemma_links_in_place_concat(
            x64_lowered_all(conv, instrs.drop_last())->Ok_0,
            x64_lowered(conv, instrs.last())->Ok_0,
        );
    }
}

/// In the optimized stream of a list of portable instructions every
/// relocation record stands behind an instruction whose field it fills.
pub proof fn lemma_lower_keeps_links(conv: CallConv, instrs: Seq<MachineInstrView>)
    requires
        x64_lower_spec(conv, instrs) is Ok,
    ensures
        well_linked(x64_lower_spec(conv, instrs)->Ok_0),
{
    let marker = seq![InstrView::with0(Mnemonic::StartOptimization)];
    lemma_lowered_all_links_in_place(conv, instrs);
    assert(links_in_place(marker));
    lemma_links_in_place_concat(marker, x64_lowered_all(conv, instrs)->Ok_0);
    lemma_peephole_keeps_links(marker + x64_lowered_all(conv, instrs)->Ok_0);
}

} // verus!
