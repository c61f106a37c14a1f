//! From nodes to portable machine instructions: every node becomes a short
//! list of instructions over the places that the allocator gave to its
//! variables.
use vstd::prelude::*;
use crate::codegen::calling::MachineCallingConvention;
use crate::codegen::error::{CompileError, CompileErrorView, LowerError, LowerErrorView};
use crate::codegen::machine::{
    MachineInstr, MachineInstrView, MachineMnemonic, MachineMnemonicView, MachineOperand, Reg,
    clone_cases, machine_view,
};
use crate::codegen::reg_alloc::{FrameEntryView, RegAlloc, RegAllocView, slot_name};
use crate::ir::func::nodes_view;
use crate::ir::nodes::{BinaryOp, IrNode, IrNodeView, VerifyError, VerifyErrorView};
use crate::ir::types::{TypeMetadata, Var, VarView, vars_view};
use crate::target::triple::{Arch, CallConv};
use crate::target::x64::instr::{InstrView, X64MCInstr, stream_view};
use crate::target::x64::lower::{x64_lower_plain, x64_lowered_all};
use crate::target::x64::reg::x64Reg;

verus! {

/// A machine instruction put together from its parts.
pub open spec fn mi(
    mnemonic: MachineMnemonicView,
    operands: Seq<MachineOperand>,
    out: Option<MachineOperand>,
    meta: TypeMetadata,
) -> MachineInstrView {
    MachineInstrView { mnemonic, operands, out, meta }
}

/// The place of a variable in a frame.
pub open spec fn loc(frame: RegAllocView, var: VarView) -> MachineOperand {
    frame.place_of(var.name)->0
}

/// The variables whose places a node needs: its inputs and its output.
pub open spec fn needed(node: IrNodeView) -> Seq<VarView> {
    node.inputs() + (match node.output() {
        Some(out) => seq![out],
        None => seq![],
    })
}

/// The first variable of a list that has no place in the frame.
pub open spec fn first_unplaced(frame: RegAllocView, vars: Seq<VarView>) -> Option<VarView>
    decreases vars.len(),
{
    if vars.len() == 0 {
        None
    } else if frame.place_of(vars[0].name) is None {
        Some(vars[0])
    } else {
        first_unplaced(frame, vars.drop_first())
    }
}

/// Where no variable of a list is unplaced, each of them has a place.
pub proof fn lemma_all_placed(frame: RegAllocView, vars: Seq<VarView>, i: int)
    requires
        first_unplaced(frame, vars) is None,
        0 <= i < vars.len(),
    ensures
        frame.place_of(vars[i].name) is Some,
    decreases vars.len(),
{
    if i > 0 {
        lemma_all_placed(frame, vars.drop_first(), i - 1);
    }
}

/// Whether arguments and results travel in registers on an architecture.
/// Elsewhere the call and the return name them as operands.
pub open spec fn passes_in_regs(arch: Arch) -> bool {
    arch == Arch::X86_64
}

/// The mnemonic of an operation with two inputs on values of a type: the
/// floating point variant for floating point types.
pub open spec fn binary_mnemonic(op: BinaryOp, ty: TypeMetadata) -> MachineMnemonicView {
    if ty.is_float() {
        match op {
            BinaryOp::Add => MachineMnemonicView::FAdd,
            BinaryOp::Sub => MachineMnemonicView::FSub,
            BinaryOp::Mul => MachineMnemonicView::FMul,
            BinaryOp::Div => MachineMnemonicView::FDiv,
            BinaryOp::Rem => MachineMnemonicView::FRem,
            BinaryOp::And => MachineMnemonicView::FAnd,
            BinaryOp::Or => MachineMnemonicView::FOr,
            BinaryOp::Xor => MachineMnemonicView::FXor,
            BinaryOp::Shl => MachineMnemonicView::FShl,
            BinaryOp::Shr => MachineMnemonicView::FShr,
        }
    } else {
        match op {
            BinaryOp::Add => MachineMnemonicView::Add,
            BinaryOp::Sub => MachineMnemonicView::Sub,
            BinaryOp::Mul => MachineMnemonicView::Mul,
            BinaryOp::Div => MachineMnemonicView::Div,
            BinaryOp::Rem => MachineMnemonicView::Rem,
            BinaryOp::And => MachineMnemonicView::And,
            BinaryOp::Or => MachineMnemonicView::Or,
            BinaryOp::Xor => MachineMnemonicView::Xor,
            BinaryOp::Shl => MachineMnemonicView::Shl,
            BinaryOp::Shr => MachineMnemonicView::Shr,
        }
    }
}

/// The mnemonic of a cast from one type to another: a widening with
/// zeros, a narrowing, a plain move between types of one width, and the
/// floating point cast where one of the types is a floating point type.
pub open spec fn cast_mnemonic(from: TypeMetadata, to: TypeMetadata) -> MachineMnemonicView {
    if from.is_float() || to.is_float() {
        MachineMnemonicView::FCast(from)
    } else if from.bits() < to.bits() {
        MachineMnemonicView::Zext(from)
    } else if from.bits() > to.bits() {
        MachineMnemonicView::Downcast(from)
    } else {
        MachineMnemonicView::Move
    }
}

/// Whether a register in use is saved around a call: it belongs to the
/// family of a register that the call may destroy.
pub open spec fn is_caller_saved(conv: CallConv, arch: Arch, reg: x64Reg) -> bool {
    let regs = (MachineCallingConvention { call_conv: conv }).caller_saved_regs(arch);
    exists|k: int| 0 <= k < regs.len() && (#[trigger] regs[k]).family() == reg.family()
}

/// The registers that are saved around a call, in the order of the
/// frame: every register in use that the call may destroy, but for the
/// place of the variable that receives the result.
pub open spec fn spilled(
    conv: CallConv,
    arch: Arch,
    entries: Seq<FrameEntryView>,
    out: Seq<char>,
) -> Seq<x64Reg>
    decreases entries.len(),
{
    if entries.len() == 0 {
        seq![]
    } else {
        let front = spilled(conv, arch, entries.drop_last(), out);
        match entries.last().loc {
            MachineOperand::Reg(Reg::x64(r)) => if is_caller_saved(conv, arch, r)
                && entries.last().name != out {
                front.push(r.alias64())
            } else {
                front
            },
            _ => front,
        }
    }
}

/// The instruction that saves a register in front of a call.
pub open spec fn save(reg: x64Reg) -> MachineInstrView {
    mi(
        MachineMnemonicView::Push,
        seq![MachineOperand::Reg(Reg::x64(reg))],
        None,
        TypeMetadata::i64,
    )
}

/// The instruction that restores a register behind a call.
pub open spec fn restore(reg: x64Reg) -> MachineInstrView {
    mi(
        MachineMnemonicView::PushCleanup,
        seq![MachineOperand::Reg(Reg::x64(reg))],
        None,
        TypeMetadata::i64,
    )
}

/// The saves of a list of registers, in order.
pub open spec fn saves(regs: Seq<x64Reg>) -> Seq<MachineInstrView> {
    regs.map_values(|r: x64Reg| save(r))
}

/// The restores of a list of registers, the last register first.
pub open spec fn restores(regs: Seq<x64Reg>) -> Seq<MachineInstrView> {
    regs.reverse().map_values(|r: x64Reg| restore(r))
}

/// The move of one argument into the register that carries it.
pub open spec fn arg_in(
    frame: RegAllocView,
    regs: Seq<x64Reg>,
    args: Seq<VarView>,
    i: int,
) -> MachineInstrView {
    mi(
        MachineMnemonicView::Move,
        seq![loc(frame, args[i])],
        Some(MachineOperand::Reg(Reg::x64(regs[i].alias_for(args[i].ty)))),
        args[i].ty,
    )
}

/// The moves of the arguments of a call into the registers that carry
/// them, in order.
pub open spec fn args_in(frame: RegAllocView, regs: Seq<x64Reg>, args: Seq<VarView>) -> Seq<
    MachineInstrView,
> {
    Seq::new(args.len(), |i: int| arg_in(frame, regs, args, i))
}

/// The instructions of a call where arguments travel in registers: the
/// registers in use that the call may destroy are saved, the arguments
/// are moved into place, the shadow space is reserved where the
/// convention has any, the call is made, the shadow space is released,
/// the result is moved to its variable unless the function returns
/// nothing, and the saved registers are restored.
pub open spec fn call_in_regs(
    conv: CallConv,
    arch: Arch,
    frame: RegAllocView,
    func: Seq<char>,
    ret: TypeMetadata,
    args: Seq<VarView>,
    out: VarView,
) -> Seq<MachineInstrView> {
    let convention = MachineCallingConvention { call_conv: conv };
    let regs = spilled(conv, arch, frame.entries, out.name);
    let shadow = convention.shadow_bytes(arch) > 0;
    saves(regs) + args_in(frame, convention.arg_regs(arch), args) + (if shadow {
        seq![mi(MachineMnemonicView::CallStackPrepare, seq![], None, TypeMetadata::Void)]
    } else {
        seq![]
    }) + seq![mi(MachineMnemonicView::Call(func), seq![], None, ret)] + (if shadow {
        seq![mi(MachineMnemonicView::CallStackRedo, seq![], None, TypeMetadata::Void)]
    } else {
        seq![]
    }) + (if ret != TypeMetadata::Void {
        seq![
            mi(
                MachineMnemonicView::Move,
                seq![MachineOperand::Reg(Reg::x64(x64Reg::Rax.alias_for(ret)))],
                Some(loc(frame, out)),
                ret,
            ),
        ]
    } else {
        seq![]
    }) + restores(regs)
}

/// The places of a list of variables.
pub open spec fn locs(frame: RegAllocView, vars: Seq<VarView>) -> Seq<MachineOperand> {
    vars.map_values(|v: VarView| loc(frame, v))
}

/// The instructions of a return: where results travel in registers the
/// value is moved to the result register, the frame is taken down if the
/// function has one, and the return follows; elsewhere the return names
/// the value.
pub open spec fn return_code(arch: Arch, frame: RegAllocView, result: Option<VarView>) -> Seq<
    MachineInstrView,
> {
    if passes_in_regs(arch) {
        (match result {
            Some(v) => seq![
                mi(
                    MachineMnemonicView::Move,
                    seq![loc(frame, v)],
                    Some(MachineOperand::Reg(Reg::x64(x64Reg::Rax.alias_for(v.ty)))),
                    v.ty,
                ),
            ],
            None => seq![],
        }) + (if frame.frame_size() > 0 {
            seq![mi(MachineMnemonicView::Epilog, seq![], None, TypeMetadata::Void)]
        } else {
            seq![]
        }) + seq![mi(MachineMnemonicView::Return, seq![], None, TypeMetadata::Void)]
    } else {
        match result {
            Some(v) => seq![mi(MachineMnemonicView::Return, seq![loc(frame, v)], None, v.ty)],
            None => seq![mi(MachineMnemonicView::Return, seq![], None, TypeMetadata::Void)],
        }
    }
}

/// The instructions of a node that computes a value, where all its
/// variables have places.
pub open spec fn code_of_value(frame: RegAllocView, node: IrNodeView) -> Result<
    Seq<MachineInstrView>,
    CompileErrorView,
> {
    match node {
        IrNodeView::Assign { out, src } => Ok(
            seq![
                mi(MachineMnemonicView::Move, seq![loc(frame, src)], Some(loc(frame, out)), out.ty),
            ],
        ),
        IrNodeView::AssignConst { out, constant } => Ok(
            seq![
                mi(
                    MachineMnemonicView::Move,
                    seq![MachineOperand::Imm(constant.value)],
                    Some(loc(frame, out)),
                    out.ty,
                ),
            ],
        ),
        IrNodeView::Cast { src, ty, out } => Ok(
            seq![mi(cast_mnemonic(src.ty, ty), seq![loc(frame, src)], Some(loc(frame, out)), ty)],
        ),
        IrNodeView::Neg { src, out } => Ok(
            seq![
                mi(
                    if out.ty.is_float() {
                        MachineMnemonicView::FNeg
                    } else {
                        MachineMnemonicView::Neg
                    },
                    seq![loc(frame, src)],
                    Some(loc(frame, out)),
                    out.ty,
                ),
            ],
        ),
        IrNodeView::Binary { op, lhs, rhs, out } => Ok(
            seq![
                mi(
                    binary_mnemonic(op, out.ty),
                    seq![loc(frame, lhs), loc(frame, rhs)],
                    Some(loc(frame, out)),
                    out.ty,
                ),
            ],
        ),
        IrNodeView::Compare { mode, lhs, rhs, out } => Ok(
            seq![
                mi(
                    if lhs.ty.is_float() {
                        MachineMnemonicView::FCompare(mode)
                    } else {
                        MachineMnemonicView::Compare(mode)
                    },
                    seq![loc(frame, lhs), loc(frame, rhs)],
                    Some(loc(frame, out)),
                    lhs.ty,
                ),
            ],
        ),
        IrNodeView::Load { out, ptr, ty } => Ok(
            seq![mi(MachineMnemonicView::Load, seq![loc(frame, ptr)], Some(loc(frame, out)), ty)],
        ),
        IrNodeView::Alloca { out, ty } => match frame.place_of(slot_name(out.name)) {
            Some(slot) => Ok(
                seq![
                    mi(
                        MachineMnemonicView::StackAlloc,
                        seq![slot],
                        Some(loc(frame, out)),
                        TypeMetadata::ptr,
                    ),
                ],
            ),
            None => Err(CompileErrorView::Verify(VerifyErrorView::UseOfUndefined(out))),
        },
        IrNodeView::AdressLoad { out, symbol } => Ok(
            seq![
                mi(
                    MachineMnemonicView::AdressLoad(symbol),
                    seq![],
                    Some(loc(frame, out)),
                    TypeMetadata::ptr,
                ),
            ],
        ),
        _ => Ok(seq![]),
    }
}

/// The instructions of a node that directs the flow of control, where all
/// its variables have places.
pub open spec fn code_of_flow(
    conv: CallConv,
    arch: Arch,
    frame: RegAllocView,
    node: IrNodeView,
) -> Result<
    Seq<MachineInstrView>,
    CompileErrorView,
> {
    match node {
        IrNodeView::Br { target } => Ok(
            seq![mi(MachineMnemonicView::Br(target), seq![], None, TypeMetadata::Void)],
        ),
        IrNodeView::BrCond { cond, if_true, if_false } => Ok(
            seq![
                mi(
                    MachineMnemonicView::BrCond(if_true, if_false),
                    seq![loc(frame, cond)],
                    None,
                    cond.ty,
                ),
            ],
        ),
        IrNodeView::Switch { value, cases, default } => Ok(
            seq![
                mi(MachineMnemonicView::Switch(cases), seq![loc(frame, value)], None, value.ty),
                mi(MachineMnemonicView::Br(default), seq![], None, TypeMetadata::Void),
            ],
        ),
        IrNodeView::Call { func, ret, args, out } => if passes_in_regs(arch) {
            if args.len() > (MachineCallingConvention { call_conv: conv }).arg_regs(arch).len() {
                Err(
                    CompileErrorView::Lower(
                        LowerErrorView::IllegalOnTarget(MachineMnemonicView::Call(func), arch),
                    ),
                )
            } else {
                Ok(call_in_regs(conv, arch, frame, func, ret, args, out))
            }
        } else {
            Ok(
                seq![
                    mi(
                        MachineMnemonicView::Call(func),
                        locs(frame, args),
                        if ret != TypeMetadata::Void {
                            Some(loc(frame, out))
                        } else {
                            None
                        },
                        ret,
                    ),
                ],
            )
        },
        IrNodeView::Return { result } => Ok(return_code(arch, frame, result)),
        _ => Ok(seq![]),
    }
}

/// The instructions of a store, where all its variables have places.
pub open spec fn code_of_store(frame: RegAllocView, node: IrNodeView) -> Result<
    Seq<MachineInstrView>,
    CompileErrorView,
> {
    match node {
        IrNodeView::Store { ptr, value } => Ok(
            seq![
                mi(
                    MachineMnemonicView::Store,
                    seq![loc(frame, ptr), loc(frame, value)],
                    None,
                    value.ty,
                ),
            ],
        ),
        IrNodeView::StoreConst { ptr, constant } => Ok(
            seq![
                mi(
                    MachineMnemonicView::Store,
                    seq![loc(frame, ptr), MachineOperand::Imm(constant.value)],
                    None,
                    constant.ty,
                ),
            ],
        ),
        _ => Ok(seq![]),
    }
}

/// The instructions of a node whose variables all have places.
pub open spec fn code_of(
    conv: CallConv,
    arch: Arch,
    frame: RegAllocView,
    node: IrNodeView,
) -> Result<
    Seq<MachineInstrView>,
    CompileErrorView,
> {
    if node.is_terminator() || node is Call {
        code_of_flow(conv, arch, frame, node)
    } else if node is Store || node is StoreConst {
        code_of_store(frame, node)
    } else {
        code_of_value(frame, node)
    }
}

/// The instructions of a node, or the reason why there are none: a
/// variable without a place is reported as undefined, the first of the
/// inputs and then the output.
pub open spec fn compiled(
    conv: CallConv,
    arch: Arch,
    frame: RegAllocView,
    node: IrNodeView,
) -> Result<
    Seq<MachineInstrView>,
    CompileErrorView,
> {
    match first_unplaced(frame, needed(node)) {
        Some(v) => Err(CompileErrorView::Verify(VerifyErrorView::UseOfUndefined(v))),
        None => code_of(conv, arch, frame, node),
    }
}

/// The instructions of a list of nodes, one after the other, or the error
/// of the first node that has none.
pub open spec fn compiled_all(
    conv: CallConv,
    arch: Arch,
    frame: RegAllocView,
    nodes: Seq<IrNodeView>,
) -> Result<Seq<MachineInstrView>, CompileErrorView>
    decreases nodes.len(),
{
    if nodes.len() == 0 {
        Ok(seq![])
    } else {
        match compiled_all(conv, arch, frame, nodes.drop_last()) {
            Err(e) => Err(e),
            Ok(front) => match compiled(conv, arch, frame, nodes.last()) {
                Err(e) => Err(e),
                Ok(code) => Ok(front + code),
            },
        }
    }
}

/// Once a prefix of a list of nodes has no instructions, the list has
/// none, for the same reason.
pub proof fn lemma_compile_error_stays(
    conv: CallConv,
    arch: Arch,
    frame: RegAllocView,
    nodes: Seq<IrNodeView>,
    n: int,
)
    requires
        0 <= n <= nodes.len(),
        compiled_all(conv, arch, frame, nodes.take(n)) is Err,
    ensures
        compiled_all(conv, arch, frame, nodes) == compiled_all(conv, arch, frame, nodes.take(n)),
    decreases nodes.len(),
{
    if n == nodes.len() {
        assert(nodes.take(n) =~= nodes);
    } else {
        assert(nodes.drop_last().take(n) =~= nodes.take(n));
        lemma_compile_error_stays(conv, arch, frame, nodes.drop_last(), n);
    }
}

fn make(
    mnemonic: MachineMnemonic,
    operands: Vec<MachineOperand>,
    out: Option<MachineOperand>,
    meta: TypeMetadata,
) -> (r: MachineInstr)
    ensures
        r@ == mi(mnemonic@, operands@, out, meta),
{
    MachineInstr { mnemonic, operands, out, meta }
}

fn ops0() -> (r: Vec<MachineOperand>)
    ensures
        r@ == Seq::<MachineOperand>::empty(),
{
    Vec::new()
}

fn ops1(a: MachineOperand) -> (r: Vec<MachineOperand>)
    ensures
        r@ == seq![a],
{
    let mut v: Vec<MachineOperand> = Vec::new();
    v.push(a);
    v
}

fn ops2(a: MachineOperand, b: MachineOperand) -> (r: Vec<MachineOperand>)
    ensures
        r@ == seq![a, b],
{
    let mut v: Vec<MachineOperand> = Vec::new();
    v.push(a);
    v.push(b);
    v
}

fn emit(sink: &mut Vec<MachineInstr>, instr: MachineInstr)
    ensures
        machine_view(final(sink)@) == machine_view(old(sink)@).push(instr@),
{
    sink.push(instr);
    assert(machine_view(sink@) =~= machine_view(old(sink)@).push(instr@));
}

fn single(instr: MachineInstr) -> (r: Vec<MachineInstr>)
    ensures
        machine_view(r@) == seq![instr@],
{
    let mut v: Vec<MachineInstr> = Vec::new();
    emit(&mut v, instr);
    assert(machine_view(v@) =~= seq![instr@]);
    v
}

fn loc_of(frame: &RegAlloc, var: &Var) -> (r: MachineOperand)
    requires
        frame.wf(),
        frame@.place_of(var.name@) is Some,
    ensures
        r == loc(frame@, var@),
{
    match frame.place(&var.name) {
        Some(place) => place,
        None => MachineOperand::Imm(0),
    }
}

fn find_unplaced(frame: &RegAlloc, vars: &Vec<Var>) -> (r: Option<Var>)
    requires
        frame.wf(),
    ensures
        match r {
            Some(v) => first_unplaced(frame@, vars_view(vars@)) == Some(v@),
            None => first_unplaced(frame@, vars_view(vars@)) is None,
        },
{
    let ghost all = vars_view(vars@);
    assert(all.skip(0) =~= all);
    let mut i: usize = 0;
    while i < vars.len()
        invariant
            i <= vars@.len(),
            frame.wf(),
            all == vars_view(vars@),
            first_unplaced(frame@, all) == first_unplaced(frame@, all.skip(i as int)),
        decreases vars@.len() - i,
    {
        proof {
            assert(all.skip(i as int)[0] == vars@[i as int]@);
            assert(all.skip(i as int).drop_first() =~= all.skip(i + 1));
        }
        if frame.place(&vars[i].name).is_none() {
            return Some(vars[i].clone());
        }
        i += 1;
    }
    proof {
        assert(all.skip(vars@.len() as int) =~= Seq::<VarView>::empty());
    }
    None
}

fn needed_vars(node: &IrNode) -> (r: Vec<Var>)
    ensures
        vars_view(r@) == needed(node@),
{
    let mut vars = node.inputs();
    let ghost inputs = vars_view(vars@);
    match node.output() {
        Some(out) => {
            vars.push(out);
            assert(vars_view(vars@) =~= inputs + seq![out@]);
        },
        None => {
            assert(vars_view(vars@) =~= inputs + Seq::<VarView>::empty());
        },
    }
    vars
}

fn binary_mnemonic_of(op: BinaryOp, ty: TypeMetadata) -> (r: MachineMnemonic)
    ensures
        r@ == binary_mnemonic(op, ty),
{
    if ty.float() {
        match op {
            BinaryOp::Add => MachineMnemonic::FAdd,
            BinaryOp::Sub => MachineMnemonic::FSub,
            BinaryOp::Mul => MachineMnemonic::FMul,
            BinaryOp::Div => MachineMnemonic::FDiv,
            BinaryOp::Rem => MachineMnemonic::FRem,
            BinaryOp::And => MachineMnemonic::FAnd,
            BinaryOp::Or => MachineMnemonic::FOr,
            BinaryOp::Xor => MachineMnemonic::FXor,
            BinaryOp::Shl => MachineMnemonic::FShl,
            BinaryOp::Shr => MachineMnemonic::FShr,
        }
    } else {
        match op {
            BinaryOp::Add => MachineMnemonic::Add,
            BinaryOp::Sub => MachineMnemonic::Sub,
            BinaryOp::Mul => MachineMnemonic::Mul,
            BinaryOp::Div => MachineMnemonic::Div,
            BinaryOp::Rem => MachineMnemonic::Rem,
            BinaryOp::And => MachineMnemonic::And,
            BinaryOp::Or => MachineMnemonic::Or,
            BinaryOp::Xor => MachineMnemonic::Xor,
            BinaryOp::Shl => MachineMnemonic::Shl,
            BinaryOp::Shr => MachineMnemonic::Shr,
        }
    }
}

fn cast_mnemonic_of(from: TypeMetadata, to: TypeMetadata) -> (r: MachineMnemonic)
    ensures
        r@ == cast_mnemonic(from, to),
{
    if from.float() || to.float() {
        MachineMnemonic::FCast(from)
    } else if from.bitSize() < to.bitSize() {
        MachineMnemonic::Zext(from)
    } else if from.bitSize() > to.bitSize() {
        MachineMnemonic::Downcast(from)
    } else {
        MachineMnemonic::Move
    }
}

fn in_regs(arch: Arch) -> (r: bool)
    ensures
        r == passes_in_regs(arch),
{
    match arch {
        Arch::X86_64 => true,
        _ => false,
    }
}

fn caller_saved(conv: CallConv, arch: Arch, reg: &x64Reg) -> (r: bool)
    ensures
        r == is_caller_saved(conv, arch, *reg),
{
    let saved = MachineCallingConvention { call_conv: conv }.caller_saved(arch);
    let ghost regs = MachineCallingConvention { call_conv: conv }.caller_saved_regs(arch);
    let mut i: usize = 0;
    while i < saved.len()
        invariant
            i <= saved@.len(),
            saved@.len() == regs.len(),
            regs == (MachineCallingConvention { call_conv: conv }).caller_saved_regs(arch),
            forall|j: int|
                0 <= j < saved@.len() ==> saved@[j] == Reg::x64(
                    (#[trigger] regs[j]).alias_for(TypeMetadata::i64),
                ),
            forall|j: int| 0 <= j < i ==> (#[trigger] regs[j]).family() != reg.family(),
        decreases saved@.len() - i,
    {
        proof {
            x64Reg::lemma_alias_family(regs[i as int], TypeMetadata::i64);
        }
        let same = match saved[i] {
            Reg::x64(other) => other.same_family(reg),
        };
        if same {
            assert(regs[i as int].family() == reg.family());
            return true;
        }
        i += 1;
    }
    false
}

fn spilled_regs(conv: CallConv, arch: Arch, frame: &RegAlloc, out: &String) -> (r: Vec<x64Reg>)
    ensures
        r@ == spilled(conv, arch, frame@.entries, out@),
{
    let ghost entries = frame@.entries;
    let mut regs: Vec<x64Reg> = Vec::new();
    let mut i: usize = 0;
    while i < frame.vars.len()
        invariant
            i <= frame.vars@.len(),
            entries == frame@.entries,
            regs@ == spilled(conv, arch, entries.take(i as int), out@),
        decreases frame.vars@.len() - i,
    {
        proof {
            assert(entries.take(i + 1).drop_last() =~= entries.take(i as int));
            assert(entries.take(i + 1).last() == frame.vars@[i as int]@);
        }
        match frame.vars[i].loc {
            MachineOperand::Reg(Reg::x64(reg)) => {
                if caller_saved(conv, arch, &reg) && !(frame.vars[i].name == *out) {
                    regs.push(reg.to64());
                }
            },
            _ => {},
        }
        i += 1;
    }
    proof {
        assert(entries.take(frame.vars@.len() as int) =~= entries);
    }
    regs
}

fn push_saves(code: &mut Vec<MachineInstr>, regs: &Vec<x64Reg>)
    ensures
        machine_view(final(code)@) == machine_view(old(code)@) + saves(regs@),
{
    let ghost head = machine_view(code@);
    assert(head + saves(regs@).take(0) =~= head);
    let mut i: usize = 0;
    while i < regs.len()
        invariant
            i <= regs@.len(),
            machine_view(code@) == head + saves(regs@).take(i as int),
        decreases regs@.len() - i,
    {
        emit(
            code,
            make(
                MachineMnemonic::Push,
                ops1(MachineOperand::Reg(Reg::x64(regs[i]))),
                None,
                TypeMetadata::i64,
            ),
        );
        assert(machine_view(code@) =~= head + saves(regs@).take(i + 1));
        i += 1;
    }
    assert(saves(regs@).take(regs@.len() as int) =~= saves(regs@));
}

fn push_restores(code: &mut Vec<MachineInstr>, regs: &Vec<x64Reg>)
    ensures
        machine_view(final(code)@) == machine_view(old(code)@) + restores(regs@),
{
    let ghost head = machine_view(code@);
    assert(head + restores(regs@).take(0) =~= head);
    let n = regs.len();
    let mut k: usize = 0;
    while k < n
        invariant
            k <= n,
            n == regs@.len(),
            machine_view(code@) == head + restores(regs@).take(k as int),
        decreases n - k,
    {
        emit(
            code,
            make(
                MachineMnemonic::PushCleanup,
                ops1(MachineOperand::Reg(Reg::x64(regs[n - 1 - k]))),
                None,
                TypeMetadata::i64,
            ),
        );
        assert(machine_view(code@) =~= head + restores(regs@).take(k + 1));
        k += 1;
    }
    assert(restores(regs@).take(n as int) =~= restores(regs@));
}

fn push_arg_moves(
    code: &mut Vec<MachineInstr>,
    conv: CallConv,
    arch: Arch,
    frame: &RegAlloc,
    args: &Vec<Var>,
)
    requires
        frame.wf(),
        forall|i: int| 0 <= i < args@.len() ==> frame@.place_of(args@[i].name@) is Some,
        args@.len() <= (MachineCallingConvention { call_conv: conv }).arg_regs(arch).len(),
    ensures
        machine_view(final(code)@) == machine_view(old(code)@) + args_in(
            frame@,
            (MachineCallingConvention { call_conv: conv }).arg_regs(arch),
            vars_view(args@),
        ),
{
    let convention = MachineCallingConvention { call_conv: conv };
    let ghost arg_views = vars_view(args@);
    let ghost arg_regs = convention.arg_regs(arch);
    let ghost head = machine_view(code@);
    let places = convention.args(arch, TypeMetadata::i64);
    let ghost moves = args_in(frame@, arg_regs, arg_views);
    assert(head + moves.take(0) =~= head);
    let mut a: usize = 0;
    while a < args.len()
        invariant
            a <= args@.len(),
            frame.wf(),
            arg_views == vars_view(args@),
            moves == args_in(frame@, arg_regs, arg_views),
            args@.len() <= arg_regs.len(),
            places@.len() == arg_regs.len(),
            forall|j: int|
                0 <= j < places@.len() ==> places@[j] == Reg::x64(
                    (#[trigger] arg_regs[j]).alias_for(TypeMetadata::i64),
                ),
            forall|j: int| 0 <= j < args@.len() ==> frame@.place_of(args@[j].name@) is Some,
            machine_view(code@) == head + moves.take(a as int),
        decreases args@.len() - a,
    {
        let var = &args[a];
        let target = match places[a] {
            Reg::x64(reg) => reg.sub_ty(var.ty),
        };
        proof {
            x64Reg::lemma_alias_of_alias(arg_regs[a as int], TypeMetadata::i64, var.ty);
            assert(arg_views[a as int] == var@);
        }
        let step = make(
            MachineMnemonic::Move,
            ops1(loc_of(frame, var)),
            Some(MachineOperand::Reg(Reg::x64(target))),
            var.ty,
        );
        assert(step@ == arg_in(frame@, arg_regs, arg_views, a as int));
        emit(code, step);
        assert(machine_view(code@) =~= head + moves.take(a + 1));
        a += 1;
    }
    assert(moves.take(args@.len() as int) =~= moves);
}

fn compile_call(
    conv: CallConv,
    arch: Arch,
    frame: &RegAlloc,
    func: &String,
    ret: TypeMetadata,
    args: &Vec<Var>,
    out: &Var,
) -> (r: Vec<MachineInstr>)
    requires
        frame.wf(),
        forall|i: int| 0 <= i < args@.len() ==> frame@.place_of(args@[i].name@) is Some,
        frame@.place_of(out.name@) is Some,
        args@.len() <= (MachineCallingConvention { call_conv: conv }).arg_regs(arch).len(),
    ensures
        machine_view(r@) == call_in_regs(
            conv,
            arch,
            frame@,
            func@,
            ret,
            vars_view(args@),
            out@,
        ),
{
    let convention = MachineCallingConvention { call_conv: conv };
    let regs = spilled_regs(conv, arch, frame, &out.name);
    let mut code: Vec<MachineInstr> = Vec::new();
    assert(machine_view(code@) =~= Seq::<MachineInstrView>::empty());
    push_saves(&mut code, &regs);
    push_arg_moves(&mut code, conv, arch, frame, args);
    let shadow = convention.shadow(arch) > 0;
    if shadow {
        emit(
            &mut code,
            make(MachineMnemonic::CallStackPrepare, ops0(), None, TypeMetadata::Void),
        );
    }
    emit(&mut code, make(MachineMnemonic::Call(func.clone()), ops0(), None, ret));
    if shadow {
        emit(&mut code, make(MachineMnemonic::CallStackRedo, ops0(), None, TypeMetadata::Void));
    }
    if ret != TypeMetadata::Void {
        emit(
            &mut code,
            make(
                MachineMnemonic::Move,
                ops1(MachineOperand::Reg(Reg::x64(x64Reg::Rax.sub_ty(ret)))),
                Some(loc_of(frame, out)),
                ret,
            ),
        );
    }
    push_restores(&mut code, &regs);
    assert(machine_view(code@) =~= call_in_regs(
        conv,
        arch,
        frame@,
        func@,
        ret,
        vars_view(args@),
        out@,
    ));
    code
}

fn locs_of(frame: &RegAlloc, vars: &Vec<Var>) -> (r: Vec<MachineOperand>)
    requires
        frame.wf(),
        forall|i: int| 0 <= i < vars@.len() ==> frame@.place_of(vars@[i].name@) is Some,
    ensures
        r@ == locs(frame@, vars_view(vars@)),
{
    let mut out: Vec<MachineOperand> = Vec::new();
    let mut i: usize = 0;
    while i < vars.len()
        invariant
            i <= vars@.len(),
            frame.wf(),
            forall|j: int| 0 <= j < vars@.len() ==> frame@.place_of(vars@[j].name@) is Some,
            out@ == locs(frame@, vars_view(vars@)).take(i as int),
        decreases vars@.len() - i,
    {
        out.push(loc_of(frame, &vars[i]));
        assert(out@ =~= locs(frame@, vars_view(vars@)).take(i + 1));
        i += 1;
    }
    assert(locs(frame@, vars_view(vars@)).take(vars@.len() as int) =~= locs(
        frame@,
        vars_view(vars@),
    ));
    out
}

fn compile_return(arch: Arch, frame: &RegAlloc, result: &Option<Var>) -> (r: Vec<MachineInstr>)
    requires
        frame.wf(),
        result matches Some(v) ==> frame@.place_of(v.name@) is Some,
    ensures
        machine_view(r@) == return_code(
            arch,
            frame@,
            match result {
                Some(v) => Some(v@),
                None => None,
            },
        ),
{
    let mut code: Vec<MachineInstr> = Vec::new();
    if in_regs(arch) {
        match result {
            Some(v) => {
                emit(
                    &mut code,
                    make(
                        MachineMnemonic::Move,
                        ops1(loc_of(frame, v)),
                        Some(MachineOperand::Reg(Reg::x64(x64Reg::Rax.sub_ty(v.ty)))),
                        v.ty,
                    ),
                );
            },
            None => {},
        }
        if frame.frame_size() > 0 {
            emit(&mut code, make(MachineMnemonic::Epilog, ops0(), None, TypeMetadata::Void));
        }
        emit(&mut code, make(MachineMnemonic::Return, ops0(), None, TypeMetadata::Void));
    } else {
        match result {
            Some(v) => {
                emit(&mut code, make(MachineMnemonic::Return, ops1(loc_of(frame, v)), None, v.ty));
            },
            None => {
                emit(&mut code, make(MachineMnemonic::Return, ops0(), None, TypeMetadata::Void));
            },
        }
    }
    assert(machine_view(code@) =~= return_code(
        arch,
        frame@,
        match result {
            Some(v) => Some(v@),
            None => None,
        },
    ));
    code
}

fn compile_value(frame: &RegAlloc, node: &IrNode) -> (r: Result<Vec<MachineInstr>, CompileError>)
    requires
        frame.wf(),
        forall|i: int|
            0 <= i < needed(node@).len() ==> frame@.place_of(
                (#[trigger] needed(node@)[i]).name,
            ) is Some,
    ensures
        match r {
            Ok(code) => code_of_value(frame@, node@) == Ok::<Seq<MachineInstrView>,
                CompileErrorView>(machine_view(code@)),
            Err(e) => code_of_value(frame@, node@) == Err::<Seq<MachineInstrView>,
                CompileErrorView>(e@),
        },
{
    let ghost vars = needed(node@);
    match node {
        IrNode::Assign { out, src } => {
            assert(vars[0] == src@ && vars[1] == out@);
            Ok(
                single(
                    make(
                        MachineMnemonic::Move,
                        ops1(loc_of(frame, src)),
                        Some(loc_of(frame, out)),
                        out.ty,
                    ),
                ),
            )
        },
        IrNode::AssignConst { out, constant } => {
            assert(vars[0] == out@);
            Ok(
                single(
                    make(
                        MachineMnemonic::Move,
                        ops1(MachineOperand::Imm(constant.value)),
                        Some(loc_of(frame, out)),
                        out.ty,
                    ),
                ),
            )
        },
        IrNode::Cast { src, ty, out } => {
            assert(vars[0] == src@ && vars[1] == out@);
            Ok(
                single(
                    make(
                        cast_mnemonic_of(src.ty, *ty),
                        ops1(loc_of(frame, src)),
                        Some(loc_of(frame, out)),
                        *ty,
                    ),
                ),
            )
        },
        IrNode::Neg { src, out } => {
            assert(vars[0] == src@ && vars[1] == out@);
            let mnemonic = if out.ty.float() {
                MachineMnemonic::FNeg
            } else {
                MachineMnemonic::Neg
            };
            Ok(single(make(mnemonic, ops1(loc_of(frame, src)), Some(loc_of(frame, out)), out.ty)))
        },
        IrNode::Binary { op, lhs, rhs, out } => {
            assert(vars[0] == lhs@ && vars[1] == rhs@ && vars[2] == out@);
            Ok(
                single(
                    make(
                        binary_mnemonic_of(*op, out.ty),
                        ops2(loc_of(frame, lhs), loc_of(frame, rhs)),
                        Some(loc_of(frame, out)),
                        out.ty,
                    ),
                ),
            )
        },
        IrNode::Compare { mode, lhs, rhs, out } => {
            assert(vars[0] == lhs@ && vars[1] == rhs@ && vars[2] == out@);
            let mnemonic = if lhs.ty.float() {
                MachineMnemonic::FCompare(*mode)
            } else {
                MachineMnemonic::Compare(*mode)
            };
            Ok(
                single(
                    make(
                        mnemonic,
                        ops2(loc_of(frame, lhs), loc_of(frame, rhs)),
                        Some(loc_of(frame, out)),
                        lhs.ty,
                    ),
                ),
            )
        },
        IrNode::Load { out, ptr, ty } => {
            assert(vars[0] == ptr@ && vars[1] == out@);
            Ok(
                single(
                    make(
                        MachineMnemonic::Load,
                        ops1(loc_of(frame, ptr)),
                        Some(loc_of(frame, out)),
                        *ty,
                    ),
                ),
            )
        },
        IrNode::Alloca { out, ty } => {
            assert(vars[0] == out@);
            let mut name = out.name.clone();
            proof {
                reveal_strlit("$");
            }
            name.append("$");
            assert(name@ =~= slot_name(out.name@));
            match frame.place(&name) {
                Some(slot) => Ok(
                    single(
                        make(
                            MachineMnemonic::StackAlloc,
                            ops1(slot),
                            Some(loc_of(frame, out)),
                            TypeMetadata::ptr,
                        ),
                    ),
                ),
                None => Err(CompileError::Verify(VerifyError::UseOfUndefined(out.clone()))),
            }
        },
        IrNode::AdressLoad { out, symbol } => {
            assert(vars[0] == out@);
            Ok(
                single(
                    make(
                        MachineMnemonic::AdressLoad(symbol.clone()),
                        ops0(),
                        Some(loc_of(frame, out)),
                        TypeMetadata::ptr,
                    ),
                ),
            )
        },
        _ => {
            let code: Vec<MachineInstr> = Vec::new();
            assert(machine_view(code@) =~= Seq::<MachineInstrView>::empty());
            Ok(code)
        },
    }
}

fn compile_flow(conv: CallConv, arch: Arch, frame: &RegAlloc, node: &IrNode) -> (r: Result<
    Vec<MachineInstr>,
    CompileError,
>)
    requires
        frame.wf(),
        forall|i: int|
            0 <= i < needed(node@).len() ==> frame@.place_of(
                (#[trigger] needed(node@)[i]).name,
            ) is Some,
    ensures
        match r {
            Ok(code) => code_of_flow(conv, arch, frame@, node@) == Ok::<Seq<MachineInstrView>,
                CompileErrorView>(machine_view(code@)),
            Err(e) => code_of_flow(conv, arch, frame@, node@) == Err::<Seq<MachineInstrView>,
                CompileErrorView>(e@),
        },
{
    let ghost vars = needed(node@);
    match node {
        IrNode::Br { target } => Ok(
            single(make(MachineMnemonic::Br(target.clone()), ops0(), None, TypeMetadata::Void)),
        ),
        IrNode::BrCond { cond, if_true, if_false } => {
            assert(vars[0] == cond@);
            Ok(
                single(
                    make(
                        MachineMnemonic::BrCond(if_true.clone(), if_false.clone()),
                        ops1(loc_of(frame, cond)),
                        None,
                        cond.ty,
                    ),
                ),
            )
        },
        IrNode::Switch { value, cases, default } => {
            assert(vars[0] == value@);
            let mut code: Vec<MachineInstr> = Vec::new();
            emit(
                &mut code,
                make(
                    MachineMnemonic::Switch(clone_cases(cases)),
                    ops1(loc_of(frame, value)),
                    None,
                    value.ty,
                ),
            );
            emit(
                &mut code,
                make(MachineMnemonic::Br(default.clone()), ops0(), None, TypeMetadata::Void),
            );
            assert(machine_view(code@) =~= code_of_flow(conv, arch, frame@, node@)->Ok_0);
            Ok(code)
        },
        IrNode::Call { func, ret, args, out } => {
            assert(vars[args@.len() as int] == out@);
            assert forall|i: int| 0 <= i < args@.len() implies frame@.place_of(
                args@[i].name@,
            ) is Some by {
                assert(vars[i] == args@[i]@);
            }
            if in_regs(arch) {
                if args.len() > MachineCallingConvention::new(conv).num_reg_args(arch) {
                    Err(
                        CompileError::Lower(
                            LowerError::IllegalOnTarget(MachineMnemonic::Call(func.clone()), arch),
                        ),
                    )
                } else {
                    Ok(compile_call(conv, arch, frame, func, *ret, args, out))
                }
            } else {
                let target = if *ret != TypeMetadata::Void {
                    Some(loc_of(frame, out))
                } else {
                    None
                };
                Ok(
                    single(
                        make(MachineMnemonic::Call(func.clone()), locs_of(frame, args), target,
                            *ret),
                    ),
                )
            }
        },
        IrNode::Return { result } => {
            match result {
                Some(v) => {
                    assert(vars[0] == v@);
                },
                None => {},
            }
            Ok(compile_return(arch, frame, result))
        },
        _ => {
            let code: Vec<MachineInstr> = Vec::new();
            assert(machine_view(code@) =~= Seq::<MachineInstrView>::empty());
            Ok(code)
        },
    }
}

fn compile_store(frame: &RegAlloc, node: &IrNode) -> (r: Result<Vec<MachineInstr>, CompileError>)
    requires
        frame.wf(),
        forall|i: int|
            0 <= i < needed(node@).len() ==> frame@.place_of(
                (#[trigger] needed(node@)[i]).name,
            ) is Some,
    ensures
        match r {
            Ok(code) => code_of_store(frame@, node@) == Ok::<Seq<MachineInstrView>,
                CompileErrorView>(machine_view(code@)),
            Err(e) => code_of_store(frame@, node@) == Err::<Seq<MachineInstrView>,
                CompileErrorView>(e@),
        },
{
    let ghost vars = needed(node@);
    match node {
        IrNode::Store { ptr, value } => {
            assert(vars[0] == ptr@ && vars[1] == value@);
            Ok(
                single(
                    make(
                        MachineMnemonic::Store,
                        ops2(loc_of(frame, ptr), loc_of(frame, value)),
                        None,
                        value.ty,
                    ),
                ),
            )
        },
        IrNode::StoreConst { ptr, constant } => {
            assert(vars[0] == ptr@);
            Ok(
                single(
                    make(
                        MachineMnemonic::Store,
                        ops2(loc_of(frame, ptr), MachineOperand::Imm(constant.value)),
                        None,
                        constant.ty,
                    ),
                ),
            )
        },
        _ => {
            let code: Vec<MachineInstr> = Vec::new();
            assert(machine_view(code@) =~= Seq::<MachineInstrView>::empty());
            Ok(code)
        },
    }
}

fn compile_placed(conv: CallConv, arch: Arch, frame: &RegAlloc, node: &IrNode) -> (r: Result<
    Vec<MachineInstr>,
    CompileError,
>)
    requires
        frame.wf(),
        forall|i: int|
            0 <= i < needed(node@).len() ==> frame@.place_of(
                (#[trigger] needed(node@)[i]).name,
            ) is Some,
    ensures
        match r {
            Ok(code) => code_of(conv, arch, frame@, node@) == Ok::<Seq<MachineInstrView>,
                CompileErrorView>(machine_view(code@)),
            Err(e) => code_of(conv, arch, frame@, node@) == Err::<Seq<MachineInstrView>,
                CompileErrorView>(e@),
        },
{
    match node {
        IrNode::Br { .. }
        | IrNode::BrCond { .. }
        | IrNode::Switch { .. }
        | IrNode::Call { .. }
        | IrNode::Return { .. } => compile_flow(conv, arch, frame, node),
        IrNode::Store { .. } | IrNode::StoreConst { .. } => compile_store(frame, node),
        _ => compile_value(frame, node),
    }
}

/// Compiles one node: the portable machine instructions that stand for
/// it, over the places that the frame gives to its variables.
pub fn compile_node(conv: CallConv, arch: Arch, frame: &RegAlloc, node: &IrNode) -> (r: Result<
    Vec<MachineInstr>,
    CompileError,
>)
    requires
        frame.wf(),
    ensures
        match r {
            Ok(code) => compiled(conv, arch, frame@, node@) == Ok::<
                Seq<MachineInstrView>,
                CompileErrorView,
            >(machine_view(code@)),
            Err(e) => compiled(conv, arch, frame@, node@) == Err::<
                Seq<MachineInstrView>,
                CompileErrorView,
            >(e@),
        },
{
    let vars = needed_vars(node);
    match find_unplaced(frame, &vars) {
        Some(v) => {
            return Err(CompileError::Verify(VerifyError::UseOfUndefined(v)));
        },
        None => {},
    }
    proof {
        assert forall|i: int| 0 <= i < needed(node@).len() implies frame@.place_of(
            (#[trigger] needed(node@)[i]).name,
        ) is Some by {
            lemma_all_placed(frame@, needed(node@), i);
        }
    }
    compile_placed(conv, arch, frame, node)
}

/// Compiles a list of nodes in order and appends their instructions to
/// `sink`.
pub fn compile_nodes(
    conv: CallConv,
    arch: Arch,
    frame: &RegAlloc,
    nodes: &Vec<IrNode>,
    sink: &mut Vec<MachineInstr>,
) -> (r: Result<(), CompileError>)
    requires
        frame.wf(),
    ensures
        match r {
            Ok(()) => compiled_all(conv, arch, frame@, nodes_view(nodes@)) matches Ok(code)
                && machine_view(final(sink)@) == machine_view(old(sink)@) + code,
            Err(e) => compiled_all(conv, arch, frame@, nodes_view(nodes@)) == Err::<
                Seq<MachineInstrView>,
                CompileErrorView,
            >(e@),
        },
{
    let ghost all = nodes_view(nodes@);
    let ghost head = machine_view(sink@);
    assert(head + Seq::<MachineInstrView>::empty() =~= head);
    let mut i: usize = 0;
    while i < nodes.len()
        invariant
            i <= nodes@.len(),
            frame.wf(),
            all == nodes_view(nodes@),
            compiled_all(conv, arch, frame@, all.take(i as int)) matches Ok(code) && machine_view(
                sink@,
            ) == head + code,
        decreases nodes@.len() - i,
    {
        proof {
            assert(all.take(i + 1).drop_last() =~= all.take(i as int));
            assert(all.take(i + 1).last() == nodes@[i as int]@);
        }
        match compile_node(conv, arch, frame, &nodes[i]) {
            Ok(mut code) => {
                let ghost front = compiled_all(conv, arch, frame@, all.take(i as int))->Ok_0;
                let ghost step = machine_view(code@);
                let ghost before = sink@;
                sink.append(&mut code);
                proof {
                    assert(machine_view(sink@) =~= machine_view(before) + step);
                    assert(head + front + step =~= head + (front + step));
                }
            },
            Err(e) => {
                proof {
                    lemma_compile_error_stays(conv, arch, frame@, all, i + 1);
                }
                return Err(e);
            },
        }
        i += 1;
    }
    proof {
        assert(all.take(nodes@.len() as int) =~= all);
    }
    Ok(())
}

/// The instructions of x86-64 that a node comes to on the direct path:
/// the portable machine instructions of the node, lowered one by one and
/// not optimized.
pub open spec fn compiled_direct(conv: CallConv, frame: RegAllocView, node: IrNodeView) -> Result<
    Seq<InstrView>,
    CompileErrorView,
> {
    match compiled(conv, Arch::X86_64, frame, node) {
        Err(e) => Err(e),
        Ok(instrs) => match x64_lowered_all(conv, instrs) {
            Err(e) => Err(CompileErrorView::Lower(e)),
            Ok(code) => Ok(code),
        },
    }
}

impl IrNode {
    /// Compiles the node into portable machine instructions and appends
    /// them to `sink`. Where the node cannot be compiled, `sink` stays as
    /// it is.
    pub fn compile(
        &self,
        conv: CallConv,
        arch: Arch,
        frame: &RegAlloc,
        sink: &mut Vec<MachineInstr>,
    ) -> (r: Result<(), CompileError>)
        requires
            frame.wf(),
        ensures
            match r {
                Ok(()) => compiled(conv, arch, frame@, self@) matches Ok(code) && machine_view(
                    final(sink)@,
                ) == machine_view(old(sink)@) + code,
                Err(e) => compiled(conv, arch, frame@, self@) == Err::<
                    Seq<MachineInstrView>,
                    CompileErrorView,
                >(e@) && final(sink)@ == old(sink)@,
            },
    {
        let mut code = compile_node(conv, arch, frame, self)?;
        let ghost added = machine_view(code@);
        sink.append(&mut code);
        assert(machine_view(sink@) =~= machine_view(old(sink)@) + added);
        Ok(())
    }

    /// Compiles the node straight into instructions of x86-64 and appends
    /// them to `sink`: the instructions are those that lowering gives for
    /// the portable machine instructions of the node. Where the node
    /// cannot be compiled, `sink` stays as it is.
    pub fn compile_dir(&self, conv: CallConv, frame: &RegAlloc, sink: &mut Vec<X64MCInstr>) -> (r:
        Result<(), CompileError>)
        requires
            frame.wf(),
        ensures
            match r {
                Ok(()) => compiled_direct(conv, frame@, self@) matches Ok(code) && stream_view(
                    final(sink)@,
                ) == stream_view(old(sink)@) + code,
                Err(e) => compiled_direct(conv, frame@, self@) == Err::<
                    Seq<InstrView>,
                    CompileErrorView,
                >(e@) && final(sink)@ == old(sink)@,
            },
    {
        let instrs = compile_node(conv, Arch::X86_64, frame, self)?;
        let mut code = match x64_lower_plain(conv, &instrs) {
            Ok(code) => code,
            Err(e) => {
                return Err(CompileError::Lower(e));
            },
        };
        let ghost added = stream_view(code@);
        sink.append(&mut code);
        assert(stream_view(sink@) =~= stream_view(old(sink)@) + added);
        Ok(())
    }
}

} // verus!
