//! Lowering of portable machine instructions to WebAssembly: operands are
//! pushed, the operation works on the stack, and the result is popped
//! into the local of the output.
use vstd::prelude::*;
use crate::codegen::error::{LowerError, LowerErrorView};
use crate::codegen::machine::{
    CmpMode, MachineInstr, MachineInstrView, MachineMnemonic, MachineMnemonicView, MachineOperand,
    SwitchCase, cases_view, machine_view,
};
use crate::codegen::mc::{MCInstr, from_wasm, mc_view, wrap_wasm};
use crate::ir::types::TypeMetadata;
use crate::target::triple::{Arch, CallConv};
use crate::target::wasm::instr::{
    WasmInstrView, WasmMCInstr, WasmMnemonic, WasmPrefix, prefix_for, prefix_of, wasm_stream_view,
};
use crate::target::wasm::optimizer::wasm_peephole;
use crate::target::x64::optimizer::Optimize;

verus! {

/// The instruction that pushes an operand: a local is read, a constant
/// is pushed as a constant of the type. A register cannot be pushed.
pub open spec fn pushed(op: MachineOperand, ty: TypeMetadata) -> Option<WasmInstrView> {
    match op {
        MachineOperand::Stack(n) => Some(WasmInstrView::local(WasmMnemonic::Get, n)),
        MachineOperand::Imm(v) => Some(WasmInstrView::constant(prefix_of(ty), v)),
        MachineOperand::Reg(_) => None,
    }
}

/// The instruction that pops the result into an output, which has to be
/// a local.
pub open spec fn popped(out: MachineOperand) -> Option<WasmInstrView> {
    match out {
        MachineOperand::Stack(n) => Some(WasmInstrView::local(WasmMnemonic::Put, n)),
        _ => None,
    }
}

/// The instructions that push a list of operands in order, if each of
/// them can be pushed.
pub open spec fn pushed_all(ops: Seq<MachineOperand>, ty: TypeMetadata) -> Option<
    Seq<WasmInstrView>,
>
    decreases ops.len(),
{
    if ops.len() == 0 {
        Some(seq![])
    } else {
        match (pushed_all(ops.drop_last(), ty), pushed(ops.last(), ty)) {
            (Some(front), Some(last)) => Some(front.push(last)),
            _ => None,
        }
    }
}

/// The stack operation of a mnemonic with two inputs.
pub open spec fn binary_op(m: MachineMnemonicView) -> Option<WasmMnemonic> {
    match m {
        MachineMnemonicView::Add | MachineMnemonicView::FAdd => Some(WasmMnemonic::Add),
        MachineMnemonicView::Sub | MachineMnemonicView::FSub => Some(WasmMnemonic::Sub),
        MachineMnemonicView::Mul | MachineMnemonicView::FMul => Some(WasmMnemonic::Mul),
        MachineMnemonicView::Div | MachineMnemonicView::FDiv => Some(WasmMnemonic::Div),
        MachineMnemonicView::Rem | MachineMnemonicView::FRem => Some(WasmMnemonic::Rem),
        MachineMnemonicView::And | MachineMnemonicView::FAnd => Some(WasmMnemonic::And),
        MachineMnemonicView::Or | MachineMnemonicView::FOr => Some(WasmMnemonic::Or),
        MachineMnemonicView::Xor | MachineMnemonicView::FXor => Some(WasmMnemonic::Xor),
        MachineMnemonicView::Shl | MachineMnemonicView::FShl => Some(WasmMnemonic::Shl),
        MachineMnemonicView::Shr | MachineMnemonicView::FShr => Some(WasmMnemonic::Shr),
        MachineMnemonicView::Compare(mode) | MachineMnemonicView::FCompare(mode) => Some(
            compare_op(mode),
        ),
        _ => None,
    }
}

/// The stack operation of a comparison.
pub open spec fn compare_op(mode: CmpMode) -> WasmMnemonic {
    match mode {
        CmpMode::Eq => WasmMnemonic::Eq,
        CmpMode::NotEq => WasmMnemonic::Ne,
        CmpMode::GT => WasmMnemonic::Gt,
        CmpMode::LT => WasmMnemonic::Lt,
        CmpMode::GE => WasmMnemonic::Ge,
        CmpMode::LE => WasmMnemonic::Le,
    }
}

/// What the lowering of one instruction comes to.
pub enum WasmLowered {
    /// The instructions that stand for it.
    Code(Seq<WasmInstrView>),
    /// An operand is missing or cannot be represented.
    BadOperands,
    /// The target has no form of the mnemonic.
    Illegal,
}

/// The code of a list of instructions of which each has to be there.
pub open spec fn all_of(parts: Seq<Option<WasmInstrView>>) -> WasmLowered {
    if forall|i: int| 0 <= i < parts.len() ==> (#[trigger] parts[i]) is Some {
        WasmLowered::Code(Seq::new(parts.len(), |i: int| parts[i]->0))
    } else {
        WasmLowered::BadOperands
    }
}

/// The operand at a position that is pushed, if it is there and can be.
pub open spec fn pushed_at(instr: MachineInstrView, i: int, ty: TypeMetadata) -> Option<
    WasmInstrView,
> {
    if 0 <= i < instr.operands.len() {
        pushed(instr.operands[i], ty)
    } else {
        None
    }
}

/// The pop into the output, if there is an output and it is a local.
pub open spec fn popped_out(instr: MachineInstrView) -> Option<WasmInstrView> {
    match instr.out {
        Some(out) => popped(out),
        None => None,
    }
}

/// The rule for moves, operations with two inputs, negations,
/// comparisons and conversions.
pub open spec fn wasm_rule_value(instr: MachineInstrView) -> WasmLowered {
    let ty = instr.meta;
    let t = prefix_of(ty);
    match instr.mnemonic {
        MachineMnemonicView::Move
        | MachineMnemonicView::FMove
        | MachineMnemonicView::AdrMove => all_of(
            seq![pushed_at(instr, 0, ty), popped_out(instr)],
        ),
        MachineMnemonicView::Neg => all_of(
            seq![
                Some(WasmInstrView::constant(t, 0)),
                pushed_at(instr, 0, ty),
                Some(WasmInstrView::typed(t, WasmMnemonic::Sub, false)),
                popped_out(instr),
            ],
        ),
        MachineMnemonicView::FNeg => all_of(
            seq![
                pushed_at(instr, 0, ty),
                Some(WasmInstrView::typed(t, WasmMnemonic::Neg, false)),
                popped_out(instr),
            ],
        ),
        MachineMnemonicView::Zext(from)
        | MachineMnemonicView::Downcast(from)
        | MachineMnemonicView::FCast(from) => if prefix_of(from) == t {
            all_of(seq![pushed_at(instr, 0, from), popped_out(instr)])
        } else {
            all_of(
                seq![
                    pushed_at(instr, 0, from),
                    Some(
                        WasmInstrView::typed(
                            t,
                            WasmMnemonic::Convert(prefix_of(from)),
                            from.is_signed(),
                        ),
                    ),
                    popped_out(instr),
                ],
            )
        },
        MachineMnemonicView::MovIfZero => match instr.out {
            Some(out) => all_of(
                seq![
                    pushed(out, ty),
                    pushed_at(instr, 1, ty),
                    pushed_at(instr, 0, ty),
                    Some(WasmInstrView::bare(WasmMnemonic::Select)),
                    popped(out),
                ],
            ),
            None => WasmLowered::BadOperands,
        },
        MachineMnemonicView::MovIfNotZero => match instr.out {
            Some(out) => all_of(
                seq![
                    pushed_at(instr, 1, ty),
                    pushed(out, ty),
                    pushed_at(instr, 0, ty),
                    Some(WasmInstrView::bare(WasmMnemonic::Select)),
                    popped(out),
                ],
            ),
            None => WasmLowered::BadOperands,
        },
        _ => match binary_op(instr.mnemonic) {
            Some(op) => all_of(
                seq![
                    pushed_at(instr, 0, ty),
                    pushed_at(instr, 1, ty),
                    Some(WasmInstrView::typed(t, op, ty.is_signed())),
                    popped_out(instr),
                ],
            ),
            None => WasmLowered::Illegal,
        },
    }
}

/// The constant that a stack allocation pushes: the offset of the slot.
pub open spec fn slot_constant(op: MachineOperand) -> Option<WasmInstrView> {
    match op {
        MachineOperand::Imm(off) => Some(WasmInstrView::constant(WasmPrefix::i64, off)),
        MachineOperand::Stack(off) => Some(WasmInstrView::constant(WasmPrefix::i64, off)),
        MachineOperand::Reg(_) => None,
    }
}

/// The rule for the instructions that touch memory.
pub open spec fn wasm_rule_memory(instr: MachineInstrView) -> WasmLowered {
    let ty = instr.meta;
    let t = prefix_of(ty);
    match instr.mnemonic {
        MachineMnemonicView::AdressLoad(name) => all_of(
            seq![
                Some(WasmInstrView::labelled(Some(WasmPrefix::i64), WasmMnemonic::Const, name)),
                popped_out(instr),
            ],
        ),
        MachineMnemonicView::StackAlloc => all_of(
            seq![
                if instr.operands.len() > 0 {
                    slot_constant(instr.operands[0])
                } else {
                    None
                },
                popped_out(instr),
            ],
        ),
        MachineMnemonicView::Store => all_of(
            seq![
                pushed_at(instr, 0, TypeMetadata::ptr),
                pushed_at(instr, 1, ty),
                Some(WasmInstrView::typed(t, WasmMnemonic::Store, false)),
            ],
        ),
        MachineMnemonicView::Load => all_of(
            seq![
                pushed_at(instr, 0, TypeMetadata::ptr),
                Some(WasmInstrView::typed(t, WasmMnemonic::Load, false)),
                popped_out(instr),
            ],
        ),
        _ => WasmLowered::Illegal,
    }
}

/// The tests of a switch table: for each entry the value is pushed and
/// compared with the value of the entry, and a conditional branch goes to
/// the block of the entry.
pub open spec fn wasm_cases(
    value: WasmInstrView,
    t: WasmPrefix,
    cases: Seq<(i64, Seq<char>)>,
) -> Seq<
    WasmInstrView,
>
    decreases cases.len(),
{
    if cases.len() == 0 {
        seq![]
    } else {
        wasm_cases(value, t, cases.drop_last()) + seq![
            value,
            WasmInstrView::constant(t, cases.last().0),
            WasmInstrView::typed(t, WasmMnemonic::Eq, false),
            WasmInstrView::labelled(None, WasmMnemonic::BrIf, cases.last().1),
        ]
    }
}

/// The rule for jumps, calls and returns. The frame belongs to the host:
/// the instructions that set it up, take it down or adjust it around a
/// call stand for nothing, and a value cannot be saved by a push.
pub open spec fn wasm_rule_control(instr: MachineInstrView) -> WasmLowered {
    let ty = instr.meta;
    let t = prefix_of(ty);
    match instr.mnemonic {
        MachineMnemonicView::Br(block) => WasmLowered::Code(
            seq![WasmInstrView::labelled(None, WasmMnemonic::Br, block)],
        ),
        MachineMnemonicView::BrCond(if_true, if_false) => all_of(
            seq![
                pushed_at(instr, 0, ty),
                Some(WasmInstrView::labelled(None, WasmMnemonic::BrIf, if_true)),
                Some(WasmInstrView::labelled(None, WasmMnemonic::Br, if_false)),
            ],
        ),
        MachineMnemonicView::Switch(cases) => match pushed_at(instr, 0, ty) {
            Some(value) => WasmLowered::Code(wasm_cases(value, t, cases)),
            None => WasmLowered::BadOperands,
        },
        MachineMnemonicView::Call(name) => match pushed_all(instr.operands, ty) {
            Some(args) => {
                let call = args.push(WasmInstrView::labelled(None, WasmMnemonic::Call, name));
                match instr.out {
                    None => WasmLowered::Code(call),
                    Some(out) => match popped(out) {
                        Some(pop) => WasmLowered::Code(call.push(pop)),
                        None => WasmLowered::BadOperands,
                    },
                }
            },
            None => WasmLowered::BadOperands,
        },
        MachineMnemonicView::Return => if instr.operands.len() == 0 {
            WasmLowered::Code(seq![WasmInstrView::bare(WasmMnemonic::Return)])
        } else {
            all_of(seq![pushed_at(instr, 0, ty), Some(WasmInstrView::bare(WasmMnemonic::Return))])
        },
        MachineMnemonicView::Prolog
        | MachineMnemonicView::Epilog
        | MachineMnemonicView::PushCleanup
        | MachineMnemonicView::CallStackPrepare
        | MachineMnemonicView::CallStackRedo => WasmLowered::Code(seq![]),
        _ => WasmLowered::Illegal,
    }
}

/// The rule of WebAssembly for each mnemonic.
pub open spec fn wasm_rule(instr: MachineInstrView) -> WasmLowered {
    match instr.mnemonic {
        MachineMnemonicView::AdressLoad(_)
        | MachineMnemonicView::StackAlloc
        | MachineMnemonicView::Store
        | MachineMnemonicView::Load => wasm_rule_memory(instr),
        MachineMnemonicView::Br(_)
        | MachineMnemonicView::BrCond(_, _)
        | MachineMnemonicView::Switch(_)
        | MachineMnemonicView::Call(_)
        | MachineMnemonicView::Return
        | MachineMnemonicView::Prolog
        | MachineMnemonicView::Epilog
        | MachineMnemonicView::Push
        | MachineMnemonicView::PushCleanup
        | MachineMnemonicView::CallStackPrepare
        | MachineMnemonicView::CallStackRedo => wasm_rule_control(instr),
        _ => wasm_rule_value(instr),
    }
}

/// The instructions of WebAssembly that stand for one portable
/// instruction, or the reason why there are none.
pub open spec fn wasm_lowered(
    instr: MachineInstrView,
) -> Result<Seq<WasmInstrView>, LowerErrorView> {
    match wasm_rule(instr) {
        WasmLowered::Code(code) => Ok(code),
        WasmLowered::BadOperands => Err(LowerErrorView::BadOperands(instr.mnemonic)),
        WasmLowered::Illegal => Err(LowerErrorView::IllegalOnTarget(instr.mnemonic, Arch::Wasm64)),
    }
}

/// The instructions that stand for a list of portable instructions, one
/// after the other, or the error of the first that cannot be lowered.
pub open spec fn wasm_lowered_all(instrs: Seq<MachineInstrView>) -> Result<
    Seq<WasmInstrView>,
    LowerErrorView,
>
    decreases instrs.len(),
{
    if instrs.len() == 0 {
        Ok(seq![])
    } else {
        match wasm_lowered_all(instrs.drop_last()) {
            Err(e) => Err(e),
            Ok(front) => match wasm_lowered(instrs.last()) {
                Err(e) => Err(e),
                Ok(code) => Ok(front + code),
            },
        }
    }
}

/// The optimized stream for a list of portable instructions.
pub open spec fn wasm_lower_spec(instrs: Seq<MachineInstrView>) -> Result<
    Seq<WasmInstrView>,
    LowerErrorView,
> {
    match wasm_lowered_all(instrs) {
        Ok(code) => Ok(wasm_peephole(code)),
        Err(e) => Err(e),
    }
}

/// Once a prefix of a list cannot be lowered, the list cannot either, and
/// the error is that of the prefix.
pub proof fn lemma_wasm_first_error_stays(instrs: Seq<MachineInstrView>, n: int)
    requires
        0 <= n <= instrs.len(),
        wasm_lowered_all(instrs.take(n)) is Err,
    ensures
        wasm_lowered_all(instrs) == wasm_lowered_all(instrs.take(n)),
    decreases instrs.len(),
{
    if n == instrs.len() {
        assert(instrs.take(n) =~= instrs);
    } else {
        assert(instrs.drop_last().take(n) =~= instrs.take(n));
        lemma_wasm_first_error_stays(instrs.drop_last(), n);
    }
}

/// What an instruction that may be absent denotes.
pub open spec fn part_view(part: Option<WasmMCInstr>) -> Option<WasmInstrView> {
    match part {
        Some(i) => Some(i@),
        None => None,
    }
}

/// What a list of instructions that may be absent denotes.
pub open spec fn parts_view(parts: Seq<Option<WasmMCInstr>>) -> Seq<Option<WasmInstrView>> {
    parts.map_values(|p: Option<WasmMCInstr>| part_view(p))
}

/// How the lowering of one instruction ended.
pub enum WasmOutcome {
    Code(Vec<WasmMCInstr>),
    BadOperands,
    Illegal,
}

/// Whether an outcome is that of a rule.
pub open spec fn wasm_outcome_is(r: WasmOutcome, rule: WasmLowered) -> bool {
    match r {
        WasmOutcome::Code(code) => rule == WasmLowered::Code(wasm_stream_view(code@)),
        WasmOutcome::BadOperands => rule is BadOperands,
        WasmOutcome::Illegal => rule is Illegal,
    }
}

fn get(op: MachineOperand, ty: TypeMetadata) -> (r: Option<WasmMCInstr>)
    ensures
        part_view(r) == pushed(op, ty),
{
    match op {
        MachineOperand::Stack(n) => Some(WasmMCInstr::local(WasmMnemonic::Get, n)),
        MachineOperand::Imm(v) => Some(WasmMCInstr::constant(prefix_for(ty), v)),
        MachineOperand::Reg(_) => None,
    }
}

fn put(out: MachineOperand) -> (r: Option<WasmMCInstr>)
    ensures
        part_view(r) == popped(out),
{
    match out {
        MachineOperand::Stack(n) => Some(WasmMCInstr::local(WasmMnemonic::Put, n)),
        _ => None,
    }
}

fn get_at(instr: &MachineInstr, i: usize, ty: TypeMetadata) -> (r: Option<WasmMCInstr>)
    ensures
        part_view(r) == pushed_at(instr@, i as int, ty),
{
    if i < instr.operands.len() {
        get(instr.operands[i], ty)
    } else {
        None
    }
}

fn put_out(instr: &MachineInstr) -> (r: Option<WasmMCInstr>)
    ensures
        part_view(r) == popped_out(instr@),
{
    match instr.out {
        Some(out) => put(out),
        None => None,
    }
}

fn add_part(parts: &mut Vec<Option<WasmMCInstr>>, part: Option<WasmMCInstr>)
    ensures
        parts_view(final(parts)@) == parts_view(old(parts)@).push(part_view(part)),
{
    parts.push(part);
    assert(parts_view(parts@) =~= parts_view(old(parts)@).push(part_view(part)));
}

fn no_parts() -> (r: Vec<Option<WasmMCInstr>>)
    ensures
        parts_view(r@) == Seq::<Option<WasmInstrView>>::empty(),
{
    let v: Vec<Option<WasmMCInstr>> = Vec::new();
    assert(parts_view(v@) =~= Seq::<Option<WasmInstrView>>::empty());
    v
}

/// Puts the parts of a rule together: the instructions in order if each
/// of them is there.
fn collect(parts: Vec<Option<WasmMCInstr>>) -> (r: WasmOutcome)
    ensures
        wasm_outcome_is(r, all_of(parts_view(parts@))),
        r !is Illegal,
{
    let ghost views = parts_view(parts@);
    let mut code: Vec<WasmMCInstr> = Vec::new();
    let mut i: usize = 0;
    while i < parts.len()
        invariant
            i <= parts@.len(),
            views == parts_view(parts@),
            code@.len() == i,
            forall|j: int| 0 <= j < i ==> (#[trigger] views[j]) == Some(code@[j]@),
        decreases parts@.len() - i,
    {
        match &parts[i] {
            Some(instr) => {
                code.push(instr.clone());
            },
            None => {
                assert(views[i as int] is None);
                return WasmOutcome::BadOperands;
            },
        }
        i += 1;
    }
    assert(wasm_stream_view(code@) =~= Seq::new(views.len(), |i: int| views[i]->0));
    WasmOutcome::Code(code)
}

fn binary_op_of(m: &MachineMnemonic) -> (r: Option<WasmMnemonic>)
    ensures
        r == binary_op(m@),
{
    match m {
        MachineMnemonic::Add | MachineMnemonic::FAdd => Some(WasmMnemonic::Add),
        MachineMnemonic::Sub | MachineMnemonic::FSub => Some(WasmMnemonic::Sub),
        MachineMnemonic::Mul | MachineMnemonic::FMul => Some(WasmMnemonic::Mul),
        MachineMnemonic::Div | MachineMnemonic::FDiv => Some(WasmMnemonic::Div),
        MachineMnemonic::Rem | MachineMnemonic::FRem => Some(WasmMnemonic::Rem),
        MachineMnemonic::And | MachineMnemonic::FAnd => Some(WasmMnemonic::And),
        MachineMnemonic::Or | MachineMnemonic::FOr => Some(WasmMnemonic::Or),
        MachineMnemonic::Xor | MachineMnemonic::FXor => Some(WasmMnemonic::Xor),
        MachineMnemonic::Shl | MachineMnemonic::FShl => Some(WasmMnemonic::Shl),
        MachineMnemonic::Shr | MachineMnemonic::FShr => Some(WasmMnemonic::Shr),
        MachineMnemonic::Compare(mode) | MachineMnemonic::FCompare(mode) => Some(
            match mode {
                CmpMode::Eq => WasmMnemonic::Eq,
                CmpMode::NotEq => WasmMnemonic::Ne,
                CmpMode::GT => WasmMnemonic::Gt,
                CmpMode::LT => WasmMnemonic::Lt,
                CmpMode::GE => WasmMnemonic::Ge,
                CmpMode::LE => WasmMnemonic::Le,
            },
        ),
        _ => None,
    }
}

fn lower_value(instr: &MachineInstr) -> (r: WasmOutcome)
    ensures
        wasm_outcome_is(r, wasm_rule_value(instr@)),
{
    let ty = instr.meta;
    let t = prefix_for(ty);
    let mut parts = no_parts();
    match &instr.mnemonic {
        MachineMnemonic::Move | MachineMnemonic::FMove | MachineMnemonic::AdrMove => {
            add_part(&mut parts, get_at(instr, 0, ty));
            add_part(&mut parts, put_out(instr));
            assert(parts_view(parts@) =~= seq![pushed_at(instr@, 0, ty), popped_out(instr@)]);
            collect(parts)
        },
        MachineMnemonic::Neg => {
            add_part(&mut parts, Some(WasmMCInstr::constant(t, 0)));
            add_part(&mut parts, get_at(instr, 0, ty));
            add_part(&mut parts, Some(WasmMCInstr::typed(t, WasmMnemonic::Sub, false)));
            add_part(&mut parts, put_out(instr));
            assert(parts_view(parts@) =~= seq![
                Some(WasmInstrView::constant(t, 0)),
                pushed_at(instr@, 0, ty),
                Some(WasmInstrView::typed(t, WasmMnemonic::Sub, false)),
                popped_out(instr@),
            ]);
            collect(parts)
        },
        MachineMnemonic::FNeg => {
            add_part(&mut parts, get_at(instr, 0, ty));
            add_part(&mut parts, Some(WasmMCInstr::typed(t, WasmMnemonic::Neg, false)));
            add_part(&mut parts, put_out(instr));
            assert(parts_view(parts@) =~= seq![
                pushed_at(instr@, 0, ty),
                Some(WasmInstrView::typed(t, WasmMnemonic::Neg, false)),
                popped_out(instr@),
            ]);
            collect(parts)
        },
        MachineMnemonic::Zext(from) | MachineMnemonic::Downcast(from) | MachineMnemonic::FCast(
            from,
        ) => {
            add_part(&mut parts, get_at(instr, 0, *from));
            if prefix_for(*from) != t {
                add_part(
                    &mut parts,
                    Some(
                        WasmMCInstr::typed(
                            t,
                            WasmMnemonic::Convert(prefix_for(*from)),
                            from.signed(),
                        ),
                    ),
                );
                add_part(&mut parts, put_out(instr));
                assert(parts_view(parts@) =~= seq![
                    pushed_at(instr@, 0, *from),
                    Some(
                        WasmInstrView::typed(
                            t,
                            WasmMnemonic::Convert(prefix_of(*from)),
                            from.is_signed(),
                        ),
                    ),
                    popped_out(instr@),
                ]);
            } else {
                add_part(&mut parts, put_out(instr));
                assert(parts_view(parts@) =~= seq![
                    pushed_at(instr@, 0, *from),
                    popped_out(instr@),
                ]);
            }
            collect(parts)
        },
        MachineMnemonic::MovIfZero => match instr.out {
            Some(out) => {
                add_part(&mut parts, get(out, ty));
                add_part(&mut parts, get_at(instr, 1, ty));
                add_part(&mut parts, get_at(instr, 0, ty));
                add_part(&mut parts, Some(WasmMCInstr::bare(WasmMnemonic::Select)));
                add_part(&mut parts, put(out));
                assert(parts_view(parts@) =~= seq![
                    pushed(out, ty),
                    pushed_at(instr@, 1, ty),
                    pushed_at(instr@, 0, ty),
                    Some(WasmInstrView::bare(WasmMnemonic::Select)),
                    popped(out),
                ]);
                collect(parts)
            },
            None => WasmOutcome::BadOperands,
        },
        MachineMnemonic::MovIfNotZero => match instr.out {
            Some(out) => {
                add_part(&mut parts, get_at(instr, 1, ty));
                add_part(&mut parts, get(out, ty));
                add_part(&mut parts, get_at(instr, 0, ty));
                add_part(&mut parts, Some(WasmMCInstr::bare(WasmMnemonic::Select)));
                add_part(&mut parts, put(out));
                assert(parts_view(parts@) =~= seq![
                    pushed_at(instr@, 1, ty),
                    pushed(out, ty),
                    pushed_at(instr@, 0, ty),
                    Some(WasmInstrView::bare(WasmMnemonic::Select)),
                    popped(out),
                ]);
                collect(parts)
            },
            None => WasmOutcome::BadOperands,
        },
        other => match binary_op_of(other) {
            Some(op) => {
                add_part(&mut parts, get_at(instr, 0, ty));
                add_part(&mut parts, get_at(instr, 1, ty));
                add_part(&mut parts, Some(WasmMCInstr::typed(t, op, ty.signed())));
                add_part(&mut parts, put_out(instr));
                assert(parts_view(parts@) =~= seq![
                    pushed_at(instr@, 0, ty),
                    pushed_at(instr@, 1, ty),
                    Some(WasmInstrView::typed(t, op, ty.is_signed())),
                    popped_out(instr@),
                ]);
                collect(parts)
            },
            None => WasmOutcome::Illegal,
        },
    }
}

fn slot_constant_of(op: MachineOperand) -> (r: Option<WasmMCInstr>)
    ensures
        part_view(r) == slot_constant(op),
{
    match op {
        MachineOperand::Imm(off) => Some(WasmMCInstr::constant(WasmPrefix::i64, off)),
        MachineOperand::Stack(off) => Some(WasmMCInstr::constant(WasmPrefix::i64, off)),
        MachineOperand::Reg(_) => None,
    }
}

fn lower_memory(instr: &MachineInstr) -> (r: WasmOutcome)
    ensures
        wasm_outcome_is(r, wasm_rule_memory(instr@)),
{
    let ty = instr.meta;
    let t = prefix_for(ty);
    let mut parts = no_parts();
    match &instr.mnemonic {
        MachineMnemonic::AdressLoad(name) => {
            add_part(
                &mut parts,
                Some(
                    WasmMCInstr::labelled(
                        Some(WasmPrefix::i64),
                        WasmMnemonic::Const,
                        name.clone(),
                    ),
                ),
            );
            add_part(&mut parts, put_out(instr));
            assert(parts_view(parts@) =~= seq![
                Some(WasmInstrView::labelled(Some(WasmPrefix::i64), WasmMnemonic::Const, name@)),
                popped_out(instr@),
            ]);
            collect(parts)
        },
        MachineMnemonic::StackAlloc => {
            let slot = if instr.operands.len() > 0 {
                slot_constant_of(instr.operands[0])
            } else {
                None
            };
            let ghost slot_view = part_view(slot);
            add_part(&mut parts, slot);
            add_part(&mut parts, put_out(instr));
            assert(parts_view(parts@) =~= seq![slot_view, popped_out(instr@)]);
            collect(parts)
        },
        MachineMnemonic::Store => {
            add_part(&mut parts, get_at(instr, 0, TypeMetadata::ptr));
            add_part(&mut parts, get_at(instr, 1, ty));
            add_part(&mut parts, Some(WasmMCInstr::typed(t, WasmMnemonic::Store, false)));
            assert(parts_view(parts@) =~= seq![
                pushed_at(instr@, 0, TypeMetadata::ptr),
                pushed_at(instr@, 1, ty),
                Some(WasmInstrView::typed(t, WasmMnemonic::Store, false)),
            ]);
            collect(parts)
        },
        MachineMnemonic::Load => {
            add_part(&mut parts, get_at(instr, 0, TypeMetadata::ptr));
            add_part(&mut parts, Some(WasmMCInstr::typed(t, WasmMnemonic::Load, false)));
            add_part(&mut parts, put_out(instr));
            assert(parts_view(parts@) =~= seq![
                pushed_at(instr@, 0, TypeMetadata::ptr),
                Some(WasmInstrView::typed(t, WasmMnemonic::Load, false)),
                popped_out(instr@),
            ]);
            collect(parts)
        },
        _ => WasmOutcome::Illegal,
    }
}

fn emit(code: &mut Vec<WasmMCInstr>, instr: WasmMCInstr)
    ensures
        wasm_stream_view(final(code)@) == wasm_stream_view(old(code)@).push(instr@),
{
    code.push(instr);
    assert(wasm_stream_view(code@) =~= wasm_stream_view(old(code)@).push(instr@));
}

fn lower_cases(value: &WasmMCInstr, t: WasmPrefix, cases: &Vec<SwitchCase>) -> (r: Vec<WasmMCInstr>)
    ensures
        wasm_stream_view(r@) == wasm_cases(value@, t, cases_view(cases@)),
{
    let ghost table = cases_view(cases@);
    let mut code: Vec<WasmMCInstr> = Vec::new();
    assert(wasm_stream_view(code@) =~= wasm_cases(value@, t, table.take(0)));
    let mut i: usize = 0;
    while i < cases.len()
        invariant
            i <= cases@.len(),
            table == cases_view(cases@),
            wasm_stream_view(code@) == wasm_cases(value@, t, table.take(i as int)),
        decreases cases@.len() - i,
    {
        emit(&mut code, value.clone());
        emit(&mut code, WasmMCInstr::constant(t, cases[i].value));
        emit(&mut code, WasmMCInstr::typed(t, WasmMnemonic::Eq, false));
        emit(&mut code, WasmMCInstr::labelled(None, WasmMnemonic::BrIf, cases[i].block.clone()));
        proof {
            assert(table.take(i + 1).drop_last() =~= table.take(i as int));
            assert(table.take(i + 1).last() == cases@[i as int]@);
            assert(wasm_stream_view(code@) =~= wasm_cases(value@, t, table.take(i + 1)));
        }
        i += 1;
    }
    assert(table.take(cases@.len() as int) =~= table);
    code
}

fn get_all(ops: &Vec<MachineOperand>, ty: TypeMetadata) -> (r: Option<Vec<WasmMCInstr>>)
    ensures
        match r {
            Some(code) => pushed_all(ops@, ty) == Some(wasm_stream_view(code@)),
            None => pushed_all(ops@, ty) is None,
        },
{
    let mut code: Vec<WasmMCInstr> = Vec::new();
    assert(ops@.take(0) =~= Seq::<MachineOperand>::empty());
    assert(wasm_stream_view(code@) =~= Seq::<WasmInstrView>::empty());
    let mut i: usize = 0;
    while i < ops.len()
        invariant
            i <= ops@.len(),
            pushed_all(ops@.take(i as int), ty) == Some(wasm_stream_view(code@)),
        decreases ops@.len() - i,
    {
        proof {
            assert(ops@.take(i + 1).drop_last() =~= ops@.take(i as int));
        }
        match get(ops[i], ty) {
            Some(instr) => {
                emit(&mut code, instr);
            },
            None => {
                proof {
                    lemma_unpushable_stays(ops@, i + 1, ty);
                }
                return None;
            },
        }
        i += 1;
    }
    assert(ops@.take(ops@.len() as int) =~= ops@);
    Some(code)
}

/// Once a prefix of a list of operands cannot be pushed, the list cannot.
pub proof fn lemma_unpushable_stays(ops: Seq<MachineOperand>, n: int, ty: TypeMetadata)
    requires
        0 <= n <= ops.len(),
        pushed_all(ops.take(n), ty) is None,
    ensures
        pushed_all(ops, ty) is None,
    decreases ops.len(),
{
    if n == ops.len() {
        assert(ops.take(n) =~= ops);
    } else {
        assert(ops.drop_last().take(n) =~= ops.take(n));
        lemma_unpushable_stays(ops.drop_last(), n, ty);
    }
}

fn lower_control(instr: &MachineInstr) -> (r: WasmOutcome)
    ensures
        wasm_outcome_is(r, wasm_rule_control(instr@)),
{
    let ty = instr.meta;
    let t = prefix_for(ty);
    let mut parts = no_parts();
    match &instr.mnemonic {
        MachineMnemonic::Br(block) => {
            let mut code: Vec<WasmMCInstr> = Vec::new();
            emit(&mut code, WasmMCInstr::labelled(None, WasmMnemonic::Br, block.clone()));
            assert(wasm_stream_view(code@) =~= seq![
                WasmInstrView::labelled(None, WasmMnemonic::Br, block@),
            ]);
            WasmOutcome::Code(code)
        },
        MachineMnemonic::BrCond(if_true, if_false) => {
            add_part(&mut parts, get_at(instr, 0, ty));
            add_part(
                &mut parts,
                Some(WasmMCInstr::labelled(None, WasmMnemonic::BrIf, if_true.clone())),
            );
            add_part(
                &mut parts,
                Some(WasmMCInstr::labelled(None, WasmMnemonic::Br, if_false.clone())),
            );
            assert(parts_view(parts@) =~= seq![
                pushed_at(instr@, 0, ty),
                Some(WasmInstrView::labelled(None, WasmMnemonic::BrIf, if_true@)),
                Some(WasmInstrView::labelled(None, WasmMnemonic::Br, if_false@)),
            ]);
            collect(parts)
        },
        MachineMnemonic::Switch(cases) => match get_at(instr, 0, ty) {
            Some(value) => WasmOutcome::Code(lower_cases(&value, t, cases)),
            None => WasmOutcome::BadOperands,
        },
        MachineMnemonic::Call(name) => match get_all(&instr.operands, ty) {
            Some(mut code) => {
                emit(&mut code, WasmMCInstr::labelled(None, WasmMnemonic::Call, name.clone()));
                match instr.out {
                    None => WasmOutcome::Code(code),
                    Some(out) => match put(out) {
                        Some(pop) => {
                            emit(&mut code, pop);
                            WasmOutcome::Code(code)
                        },
                        None => WasmOutcome::BadOperands,
                    },
                }
            },
            None => WasmOutcome::BadOperands,
        },
        MachineMnemonic::Return => {
            if instr.operands.len() == 0 {
                let mut code: Vec<WasmMCInstr> = Vec::new();
                emit(&mut code, WasmMCInstr::bare(WasmMnemonic::Return));
                assert(wasm_stream_view(code@) =~= seq![WasmInstrView::bare(WasmMnemonic::Return)]);
                WasmOutcome::Code(code)
            } else {
                add_part(&mut parts, get_at(instr, 0, ty));
                add_part(&mut parts, Some(WasmMCInstr::bare(WasmMnemonic::Return)));
                assert(parts_view(parts@) =~= seq![
                    pushed_at(instr@, 0, ty),
                    Some(WasmInstrView::bare(WasmMnemonic::Return)),
                ]);
                collect(parts)
            }
        },
        MachineMnemonic::Prolog
        | MachineMnemonic::Epilog
        | MachineMnemonic::PushCleanup
        | MachineMnemonic::CallStackPrepare
        | MachineMnemonic::CallStackRedo => {
            let code: Vec<WasmMCInstr> = Vec::new();
            assert(wasm_stream_view(code@) =~= Seq::<WasmInstrView>::empty());
            WasmOutcome::Code(code)
        },
        _ => WasmOutcome::Illegal,
    }
}

fn lower_by_rule(instr: &MachineInstr) -> (r: WasmOutcome)
    ensures
        wasm_outcome_is(r, wasm_rule(instr@)),
{
    match &instr.mnemonic {
        MachineMnemonic::AdressLoad(_)
        | MachineMnemonic::StackAlloc
        | MachineMnemonic::Store
        | MachineMnemonic::Load => lower_memory(instr),
        MachineMnemonic::Br(_)
        | MachineMnemonic::BrCond(_, _)
        | MachineMnemonic::Switch(_)
        | MachineMnemonic::Call(_)
        | MachineMnemonic::Return
        | MachineMnemonic::Prolog
        | MachineMnemonic::Epilog
        | MachineMnemonic::Push
        | MachineMnemonic::PushCleanup
        | MachineMnemonic::CallStackPrepare
        | MachineMnemonic::CallStackRedo => lower_control(instr),
        _ => lower_value(instr),
    }
}

/// Lowers one portable machine instruction: the instructions of
/// WebAssembly that stand for it are appended to `sink`. Where the
/// instruction cannot be lowered, `sink` stays as it is and the error
/// says why.
pub fn wasm_lower_instr(sink: &mut Vec<WasmMCInstr>, instr: MachineInstr) -> (r: Result<
    (),
    LowerError,
>)
    ensures
        match r {
            Ok(()) => wasm_lowered(instr@) matches Ok(code) && wasm_stream_view(final(sink)@)
                == wasm_stream_view(old(sink)@) + code,
            Err(e) => wasm_lowered(instr@) == Err::<Seq<WasmInstrView>, LowerErrorView>(e@)
                && final(sink)@ == old(sink)@,
        },
{
    match lower_by_rule(&instr) {
        WasmOutcome::Code(mut code) => {
            let ghost added = wasm_stream_view(code@);
            sink.append(&mut code);
            assert(wasm_stream_view(sink@) =~= wasm_stream_view(old(sink)@) + added);
            Ok(())
        },
        WasmOutcome::BadOperands => Err(LowerError::BadOperands(instr.mnemonic)),
        WasmOutcome::Illegal => Err(LowerError::IllegalOnTarget(instr.mnemonic, Arch::Wasm64)),
    }
}

/// Lowers a list of portable machine instructions and optimizes the
/// result.
pub fn wasm_lower_stream(instrs: Vec<MachineInstr>) -> (r: Result<Vec<WasmMCInstr>, LowerError>)
    ensures
        match r {
            Ok(code) => wasm_lower_spec(machine_view(instrs@)) == Ok::<
                Seq<WasmInstrView>,
                LowerErrorView,
            >(wasm_stream_view(code@)),
            Err(e) => wasm_lower_spec(machine_view(instrs@)) == Err::<
                Seq<WasmInstrView>,
                LowerErrorView,
            >(e@),
        },
{
    let mut out: Vec<WasmMCInstr> = Vec::new();
    let ghost all = machine_view(instrs@);
    assert(wasm_stream_view(out@) =~= Seq::<WasmInstrView>::empty());
    let mut i: usize = 0;
    while i < instrs.len()
        invariant
            i <= instrs@.len(),
            all == machine_view(instrs@),
            wasm_lowered_all(all.take(i as int)) == Ok::<Seq<WasmInstrView>, LowerErrorView>(
                wasm_stream_view(out@),
            ),
        decreases instrs@.len() - i,
    {
        proof {
            assert(all.take(i + 1).drop_last() =~= all.take(i as int));
            assert(all.take(i + 1).last() == instrs@[i as int]@);
        }
        match wasm_lower_instr(&mut out, instrs[i].clone()) {
            Ok(()) => {},
            Err(e) => {
                proof {
                    lemma_wasm_first_error_stays(all, i + 1);
                }
                return Err(e);
            },
        }
        i += 1;
    }
    proof {
        assert(all.take(instrs@.len() as int) =~= all);
    }
    let optimized = out.optimize();
    Ok(optimized)
}

/// The function used for lowering general `MachineInstr` into `MCInstr`
pub fn wasm_lower(_conv: CallConv, instrs: Vec<MachineInstr>) -> (r: Result<
    Vec<MCInstr>,
    LowerError,
>)
    ensures
        match r {
            Ok(code) => wasm_lower_spec(machine_view(instrs@)) matches Ok(stream) && mc_view(code@)
                == from_wasm(stream),
            Err(e) => wasm_lower_spec(machine_view(instrs@)) == Err::<
                Seq<WasmInstrView>,
                LowerErrorView,
            >(e@),
        },
{
    match wasm_lower_stream(instrs) {
        Ok(code) => Ok(wrap_wasm(code)),
        Err(e) => Err(e),
    }
}

} // verus!
