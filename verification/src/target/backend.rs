//! The backend of one architecture: it holds the block that is being
//! compiled, builds its portable machine instructions and lowers them.
use vstd::prelude::*;
use crate::codegen::calling::MachineCallingConvention;
use crate::codegen::compile::{compile_nodes, compiled_all, loc, mi, passes_in_regs};
use crate::codegen::error::{CompileError, CompileErrorView, LowerError, LowerErrorView};
use crate::codegen::machine::{
    MachineInstr, MachineInstrView, MachineMnemonic, MachineMnemonicView, MachineOperand, Reg,
    machine_view,
};
use crate::codegen::mc::{MCInstr, MCInstrView, from_wasm, from_x64, mc_view};
use crate::codegen::reg_alloc::{
    AllocError, RegAlloc, RegAllocView, allocatable, default_limit, is_wasm,
    lemma_with_nodes_places, lemma_with_var_places,
};
use crate::ir::func::{Block, BlockView, Function, FunctionView, arg_var, arg_vars, blocks_view};
use crate::ir::types::{TypeMetadata, VarView};
use crate::target::triple::{Arch, CallConv};
use crate::target::wasm::lower::{wasm_lower, wasm_lower_spec};
use crate::target::x64::lower::{x64_lower, x64_lower_spec};
use crate::target::x64::reg::x64Reg;

verus! {

/// Where the compilation of a block stands.
#[derive(Debug, Clone, Copy, PartialEq, Eq, Structural)]
pub enum BackendState {
    /// No block is set.
    Idle,
    /// A block is set.
    BlockSet,
    /// The machine instructions of the block are built.
    InstrsBuilt,
    /// The machine instructions are lowered.
    Lowered,
    /// The lowered instructions are encoded.
    Encoded,
}

/// The backend of one architecture.
#[derive(Debug, PartialEq, Eq)]
pub struct TargetBackendDescr {
    /// The architecture.
    pub arch: Arch,
    /// The calling convention.
    pub call: CallConv,
    /// The block that is being compiled.
    pub block: Option<Block>,
    /// Where the compilation of the block stands.
    pub state: BackendState,
}

/// What a backend denotes.
pub struct BackendView {
    pub arch: Arch,
    pub call: CallConv,
    pub block: Option<BlockView>,
    pub state: BackendState,
}

impl View for TargetBackendDescr {
    type V = BackendView;

    open spec fn view(&self) -> BackendView {
        BackendView {
            arch: self.arch,
            call: self.call,
            block: match self.block {
                Some(b) => Some(b@),
                None => None,
            },
            state: self.state,
        }
    }
}

/// The allocator at the start of a function.
pub open spec fn fresh_frame(arch: Arch) -> RegAllocView {
    RegAllocView {
        arch,
        entries: Seq::empty(),
        cursor: 0,
        free: allocatable(arch),
        limit: default_limit(arch),
    }
}

/// The allocator after a list of variables got places, in order.
pub open spec fn with_vars(frame: RegAllocView, vars: Seq<VarView>) -> Result<
    RegAllocView,
    AllocError,
>
    decreases vars.len(),
{
    if vars.len() == 0 {
        Ok(frame)
    } else {
        match with_vars(frame, vars.drop_last()) {
            Err(e) => Err(e),
            Ok(state) => state.with_var(vars.last()),
        }
    }
}

/// The allocator after the pass over a list of blocks, in order.
pub open spec fn with_blocks(frame: RegAllocView, blocks: Seq<BlockView>) -> Result<
    RegAllocView,
    AllocError,
>
    decreases blocks.len(),
{
    if blocks.len() == 0 {
        Ok(frame)
    } else {
        match with_blocks(frame, blocks.drop_last()) {
            Err(e) => Err(e),
            Ok(state) => state.with_nodes(blocks.last().nodes),
        }
    }
}

/// The frame of a function: the arguments get their places first, then
/// the outputs of the nodes of all blocks in order.
pub open spec fn frame_of(arch: Arch, f: FunctionView) -> Result<RegAllocView, AllocError> {
    match with_vars(fresh_frame(arch), arg_vars(f.args)) {
        Err(e) => Err(e),
        Ok(state) => with_blocks(state, f.blocks),
    }
}

/// Whether a block is the entry of a function: it has the name of the
/// first block.
pub open spec fn is_entry(block: BlockView, f: FunctionView) -> bool {
    f.blocks.len() > 0 && f.blocks[0].name == block.name
}

/// The move that brings one argument from the register that carries it
/// to its place.
pub open spec fn arg_out(
    frame: RegAllocView,
    regs: Seq<x64Reg>,
    args: Seq<TypeMetadata>,
    i: int,
) -> MachineInstrView {
    mi(
        MachineMnemonicView::Move,
        seq![MachineOperand::Reg(Reg::x64(regs[i].alias_for(args[i])))],
        Some(loc(frame, arg_var(args, i))),
        args[i],
    )
}

/// The number of arguments that arrive in registers.
pub open spec fn reg_arg_count(regs: Seq<x64Reg>, args: Seq<TypeMetadata>) -> nat {
    if args.len() < regs.len() {
        args.len()
    } else {
        regs.len()
    }
}

/// What stands at the start of the entry block: the frame is set up if
/// the function has one, and where arguments travel in registers those
/// that arrive in one are moved to their places.
pub open spec fn entry_code(
    conv: CallConv,
    arch: Arch,
    frame: RegAllocView,
    f: FunctionView,
) -> Seq<
    MachineInstrView,
> {
    let regs = (MachineCallingConvention { call_conv: conv }).arg_regs(arch);
    (if frame.frame_size() > 0 {
        seq![
            mi(
                MachineMnemonicView::Prolog,
                seq![MachineOperand::Imm(frame.frame_size() as i64)],
                None,
                TypeMetadata::Void,
            ),
        ]
    } else {
        seq![]
    }) + (if passes_in_regs(arch) {
        Seq::new(reg_arg_count(regs, f.args), |i: int| arg_out(frame, regs, f.args, i))
    } else {
        seq![]
    })
}

/// The portable machine instructions of a block of a function: the entry
/// code if the block is the entry, then the instructions of the nodes in
/// order.
pub open spec fn built(conv: CallConv, arch: Arch, block: BlockView, f: FunctionView) -> Result<
    Seq<MachineInstrView>,
    CompileErrorView,
> {
    match frame_of(arch, f) {
        Err(e) => Err(CompileErrorView::Alloc(e)),
        Ok(frame) => match compiled_all(conv, arch, frame, block.nodes) {
            Err(e) => Err(e),
            Ok(code) => Ok(
                (if is_entry(block, f) {
                    entry_code(conv, arch, frame, f)
                } else {
                    seq![]
                }) + code,
            ),
        },
    }
}

/// A lowering error as the error of an architecture.
pub open spec fn on_arch(e: LowerErrorView, arch: Arch) -> LowerErrorView {
    match e {
        LowerErrorView::IllegalOnTarget(m, _) => LowerErrorView::IllegalOnTarget(m, arch),
        LowerErrorView::BadOperands(m) => LowerErrorView::BadOperands(m),
    }
}

/// The instructions of a target for a list of portable machine
/// instructions, lowered and optimized. An architecture other than
/// x86-64 and WebAssembly has no form of any of them.
pub open spec fn lowered(arch: Arch, conv: CallConv, instrs: Seq<MachineInstrView>) -> Result<
    Seq<MCInstrView>,
    LowerErrorView,
> {
    if arch == Arch::X86_64 {
        match x64_lower_spec(conv, instrs) {
            Ok(code) => Ok(from_x64(code)),
            Err(e) => Err(e),
        }
    } else if is_wasm(arch) {
        match wasm_lower_spec(instrs) {
            Ok(code) => Ok(from_wasm(code)),
            Err(e) => Err(on_arch(e, arch)),
        }
    } else if instrs.len() == 0 {
        Ok(seq![])
    } else {
        Err(LowerErrorView::IllegalOnTarget(instrs[0].mnemonic, arch))
    }
}

/// Once a prefix of a list of variables gets no places, the list gets
/// none, for the same reason.
pub proof fn lemma_vars_error_stays(frame: RegAllocView, vars: Seq<VarView>, n: int)
    requires
        0 <= n <= vars.len(),
        with_vars(frame, vars.take(n)) is Err,
    ensures
        with_vars(frame, vars) == with_vars(frame, vars.take(n)),
    decreases vars.len(),
{
    if n == vars.len() {
        assert(vars.take(n) =~= vars);
    } else {
        assert(vars.drop_last().take(n) =~= vars.take(n));
        lemma_vars_error_stays(frame, vars.drop_last(), n);
    }
}

/// Once the pass over a prefix of a list of blocks fails, the pass over
/// the list fails with the same error.
pub proof fn lemma_blocks_error_stays(frame: RegAllocView, blocks: Seq<BlockView>, n: int)
    requires
        0 <= n <= blocks.len(),
        with_blocks(frame, blocks.take(n)) is Err,
    ensures
        with_blocks(frame, blocks) == with_blocks(frame, blocks.take(n)),
    decreases blocks.len(),
{
    if n == blocks.len() {
        assert(blocks.take(n) =~= blocks);
    } else {
        assert(blocks.drop_last().take(n) =~= blocks.take(n));
        lemma_blocks_error_stays(frame, blocks.drop_last(), n);
    }
}

/// Whether every argument of a function has a place in a frame.
pub open spec fn args_placed(frame: RegAllocView, args: Seq<TypeMetadata>) -> bool {
    forall|i: int| 0 <= i < args.len() ==> frame.place_of(#[trigger] arg_var(args, i).name) is Some
}

/// Gives the variables of a function their places: the arguments first,
/// then the outputs of the nodes of all blocks in order.
pub fn frame_for(arch: Arch, funct: &Function) -> (r: Result<RegAlloc, AllocError>)
    ensures
        match r {
            Ok(frame) => frame_of(arch, funct@) == Ok::<RegAllocView, AllocError>(frame@)
                && frame.wf() && args_placed(frame@, funct.ty.args@),
            Err(e) => frame_of(arch, funct@) == Err::<RegAllocView, AllocError>(e),
        },
{
    let mut frame = RegAlloc::new(arch);
    let ghost start = frame@;
    let ghost args = arg_vars(funct.ty.args@);
    let mut a: usize = 0;
    assert(args.take(0) =~= Seq::<VarView>::empty());
    while a < funct.ty.args.len()
        invariant
            a <= funct.ty.args@.len(),
            start == fresh_frame(arch),
            args == arg_vars(funct.ty.args@),
            frame.wf(),
            with_vars(start, args.take(a as int)) == Ok::<RegAllocView, AllocError>(frame@),
            forall|j: int|
                0 <= j < a ==> frame@.place_of(
                    #[trigger] arg_var(funct.ty.args@, j).name,
                ) is Some,
        decreases funct.ty.args@.len() - a,
    {
        let var = funct.arg(a);
        let ghost before = frame@;
        proof {
            assert(args.take(a + 1).drop_last() =~= args.take(a as int));
            assert(args.take(a + 1).last() == var@);
        }
        match frame.prep_var(&var) {
            Ok(()) => {
                proof {
                    lemma_with_var_places(before, var@);
                }
            },
            Err(e) => {
                proof {
                    lemma_vars_error_stays(start, args, a + 1);
                }
                return Err(e);
            },
        }
        a += 1;
    }
    proof {
        assert(args.take(funct.ty.args@.len() as int) =~= args);
    }
    let ghost placed = frame@;
    let ghost blocks = blocks_view(funct.blocks@);
    assert(blocks.take(0) =~= Seq::<BlockView>::empty());
    let mut i: usize = 0;
    while i < funct.blocks.len()
        invariant
            i <= funct.blocks@.len(),
            blocks == blocks_view(funct.blocks@),
            with_vars(fresh_frame(arch), arg_vars(funct.ty.args@)) == Ok::<
                RegAllocView,
                AllocError,
            >(placed),
            frame.wf(),
            with_blocks(placed, blocks.take(i as int)) == Ok::<RegAllocView, AllocError>(frame@),
            args_placed(frame@, funct.ty.args@),
        decreases funct.blocks@.len() - i,
    {
        let ghost before = frame@;
        proof {
            assert(blocks.take(i + 1).drop_last() =~= blocks.take(i as int));
            assert(blocks.take(i + 1).last() == funct.blocks@[i as int]@);
        }
        match frame.prep_nodes(&funct.blocks[i].nodes) {
            Ok(()) => {
                proof {
                    lemma_with_nodes_places(before, funct.blocks@[i as int]@.nodes);
                }
            },
            Err(e) => {
                proof {
                    lemma_blocks_error_stays(placed, blocks, i + 1);
                }
                return Err(e);
            },
        }
        i += 1;
    }
    proof {
        assert(blocks.take(funct.blocks@.len() as int) =~= blocks);
    }
    Ok(frame)
}

fn emit(sink: &mut Vec<MachineInstr>, instr: MachineInstr)
    ensures
        machine_view(final(sink)@) == machine_view(old(sink)@).push(instr@),
{
    sink.push(instr);
    assert(machine_view(sink@) =~= machine_view(old(sink)@).push(instr@));
}

fn one_operand(op: MachineOperand) -> (r: Vec<MachineOperand>)
    ensures
        r@ == seq![op],
{
    let mut v: Vec<MachineOperand> = Vec::new();
    v.push(op);
    v
}

/// Builds what stands at the start of the entry block.
fn build_entry(conv: CallConv, arch: Arch, frame: &RegAlloc, funct: &Function) -> (r: Vec<
    MachineInstr,
>)
    requires
        frame.wf(),
        args_placed(frame@, funct.ty.args@),
    ensures
        machine_view(r@) == entry_code(conv, arch, frame@, funct@),
{
    let convention = MachineCallingConvention::new(conv);
    let ghost regs = convention.arg_regs(arch);
    let ghost args = funct.ty.args@;
    let mut code: Vec<MachineInstr> = Vec::new();
    let size = frame.frame_size();
    if size > 0 {
        emit(
            &mut code,
            MachineInstr {
                mnemonic: MachineMnemonic::Prolog,
                operands: one_operand(MachineOperand::Imm(size)),
                out: None,
                meta: TypeMetadata::Void,
            },
        );
    }
    let ghost head = machine_view(code@);
    let in_regs = match arch {
        Arch::X86_64 => true,
        _ => false,
    };
    if in_regs {
        let places = convention.args(arch, TypeMetadata::i64);
        let count = if funct.ty.args.len() < places.len() {
            funct.ty.args.len()
        } else {
            places.len()
        };
        let ghost moves = Seq::new(count as nat, |i: int| arg_out(frame@, regs, args, i));
        assert(head + moves.take(0) =~= head);
        let mut i: usize = 0;
        while i < count
            invariant
                i <= count,
                count <= funct.ty.args@.len(),
                count <= places@.len(),
                frame.wf(),
                args == funct.ty.args@,
                regs == convention.arg_regs(arch),
                args_placed(frame@, args),
                places@.len() == regs.len(),
                forall|j: int|
                    0 <= j < places@.len() ==> places@[j] == Reg::x64(
                        (#[trigger] regs[j]).alias_for(TypeMetadata::i64),
                    ),
                moves == Seq::new(count as nat, |i: int| arg_out(frame@, regs, args, i)),
                machine_view(code@) == head + moves.take(i as int),
            decreases count - i,
        {
            let var = funct.arg(i);
            let ty = funct.ty.args[i];
            let source = match places[i] {
                Reg::x64(reg) => reg.sub_ty(ty),
            };
            proof {
                x64Reg::lemma_alias_of_alias(regs[i as int], TypeMetadata::i64, ty);
                assert(frame@.place_of(arg_var(args, i as int).name) is Some);
            }
            let target = match frame.place(&var.name) {
                Some(place) => place,
                None => MachineOperand::Imm(0),
            };
            let step = MachineInstr {
                mnemonic: MachineMnemonic::Move,
                operands: one_operand(MachineOperand::Reg(Reg::x64(source))),
                out: Some(target),
                meta: ty,
            };
            assert(step@ == arg_out(frame@, regs, args, i as int));
            emit(&mut code, step);
            assert(machine_view(code@) =~= head + moves.take(i + 1));
            i += 1;
        }
        assert(moves.take(count as int) =~= moves);
    }
    assert(machine_view(code@) =~= entry_code(conv, arch, frame@, funct@));
    code
}

impl TargetBackendDescr {
    /// Creates a new backend for an architecture: no block is set.
    pub fn new(arch: Arch, call: CallConv) -> (r: Self)
        ensures
            r@ == (BackendView { arch, call, block: None, state: BackendState::Idle }),
    {
        TargetBackendDescr { arch, call, block: None, state: BackendState::Idle }
    }

    /// Sets the block that is compiled next.
    pub fn set_block(&mut self, block: Block)
        ensures
            final(self)@ == (BackendView {
                block: Some(block@),
                state: BackendState::BlockSet,
                ..old(self)@
            }),
    {
        self.block = Some(block);
        self.state = BackendState::BlockSet;
    }

    /// Builds the portable machine instructions of the block that is set,
    /// as a block of the given function.
    pub fn build_instrs(&mut self, funct: &Function) -> (r: Result<Vec<MachineInstr>, CompileError>)
        requires
            old(self).block is Some,
        ensures
            match r {
                Ok(code) => built(old(self).call, old(self).arch, old(self)@.block->0, funct@)
                    == Ok::<Seq<MachineInstrView>, CompileErrorView>(machine_view(code@))
                    && final(self)@ == (BackendView {
                    state: BackendState::InstrsBuilt,
                    ..old(self)@
                }),
                Err(e) => built(old(self).call, old(self).arch, old(self)@.block->0, funct@)
                    == Err::<Seq<MachineInstrView>, CompileErrorView>(e@) && final(self)@ == old(
                    self,
                )@,
            },
    {
        let frame = match frame_for(self.arch, funct) {
            Ok(frame) => frame,
            Err(e) => {
                return Err(CompileError::Alloc(e));
            },
        };
        let block = match &self.block {
            Some(block) => block,
            None => {
                return Ok(Vec::new());
            },
        };
        let entry = funct.blocks.len() > 0 && funct.blocks[0].name == block.name;
        proof {
            if funct.blocks@.len() > 0 {
                assert(blocks_view(funct.blocks@)[0] == funct.blocks@[0]@);
            }
        }
        let mut code: Vec<MachineInstr> = if entry {
            build_entry(self.call, self.arch, &frame, funct)
        } else {
            let empty: Vec<MachineInstr> = Vec::new();
            assert(machine_view(empty@) =~= Seq::<MachineInstrView>::empty());
            empty
        };
        match compile_nodes(self.call, self.arch, &frame, &block.nodes, &mut code) {
            Ok(()) => {},
            Err(e) => {
                return Err(e);
            },
        }
        self.state = BackendState::InstrsBuilt;
        Ok(code)
    }

    /// Lowers portable machine instructions to the instructions of the
    /// architecture and optimizes them.
    pub fn lower(&mut self, instrs: Vec<MachineInstr>) -> (r: Result<Vec<MCInstr>, LowerError>)
        ensures
            match r {
                Ok(code) => lowered(old(self).arch, old(self).call, machine_view(instrs@)) == Ok::<
                    Seq<MCInstrView>,
                    LowerErrorView,
                >(mc_view(code@)) && final(self)@ == (BackendView {
                    state: BackendState::Lowered,
                    ..old(self)@
                }),
                Err(e) => lowered(old(self).arch, old(self).call, machine_view(instrs@)) == Err::<
                    Seq<MCInstrView>,
                    LowerErrorView,
                >(e@) && final(self)@ == old(self)@,
            },
    {
        let code = match self.arch {
            Arch::X86_64 => x64_lower(self.call, instrs)?,
            Arch::Wasm32 | Arch::Wasm64 => match wasm_lower(self.call, instrs) {
                Ok(code) => code,
                Err(LowerError::IllegalOnTarget(m, _)) => {
                    return Err(LowerError::IllegalOnTarget(m, self.arch));
                },
                Err(e) => {
                    return Err(e);
                },
            },
            _ => {
                if instrs.len() == 0 {
                    let empty: Vec<MCInstr> = Vec::new();
                    assert(mc_view(empty@) =~= Seq::<MCInstrView>::empty());
                    empty
                } else {
                    let mut instrs = instrs;
                    let first = instrs.swap_remove(0);
                    return Err(LowerError::IllegalOnTarget(first.mnemonic, self.arch));
                }
            },
        };
        self.state = BackendState::Lowered;
        Ok(code)
    }

    /// Notes that the lowered instructions are encoded.
    pub fn set_encoded(&mut self)
        ensures
            final(self)@ == (BackendView { state: BackendState::Encoded, ..old(self)@ }),
    {
        self.state = BackendState::Encoded;
    }

    /// Resets the backend: the block is dropped.
    pub fn reset(&mut self)
        ensures
            final(self)@ == (BackendView {
                block: None,
                state: BackendState::Idle,
                ..old(self)@
            }),
    {
        self.block = None;
        self.state = BackendState::Idle;
    }
}

} // verus!
